# ssh-paste

Paste a local clipboard (text or a PNG image) on a remote host over ssh:
`send` pushes it into a spool on the remote side, `serve` answers the
remote `xclip`/`wl-paste` shims through a reverse tunnel, and `setup`
installs those shims and proves both paths work before saving the target.

This build carries no shim templates: `setup` stops with an error at the
step that installs the first shim.

## Layout

- `src/` — the verified library (Verus):
  - `sh.rs` — quoting for POSIX `sh`, with a model of how the remote shell
    reads the quoted words back;
  - `config.rs` — targets, their validation, the table of targets and the
    choice of the target a command works on;
  - `clipboard.rs` — payloads and the choice between what a clipboard offers;
    PNG encoding goes through the `image` crate;
  - `send.rs` — the receiving script of push mode;
  - `serve.rs` — request lines, routing and the exact bytes of every answer
    of the loopback HTTP server;
  - `ssh.rs` — the remote command line and what an ssh exit means;
  - `setup.rs` — the remote scripts, the reading of their reports, the probe
    checks and the messages of `setup` and `remove`;
  - `setup_flow.rs` — `setup` as a state machine: the caller performs each
    step and reports back, and a target is saved only after both probes pass.
- `tests/` — tests of the library on concrete values.
- `app/` — the command line: clipboard access, files, sockets, processes and
  the loops that drive the library.
