use ssh_paste::config::Config;
use ssh_paste::setup::{install_script, pull_nonce, spool_probe, SetupError};
use ssh_paste::setup_flow::{Action, Event, SetupFlow, Stage};

fn out(s: &str) -> Event {
    Event::Output(s.to_string())
}

fn run_script(a: &Action) -> &str {
    match a {
        Action::Run { script } => script,
        other => panic!("expected a run, got {other:?}"),
    }
}

#[test]
fn full_setup_saves_after_both_probes() {
    let mut cfg = Config::new();
    let (mut flow, step) = SetupFlow::start(&cfg, "me@pod", None, false, None).unwrap();
    assert_eq!(run_script(&step.action), "true");

    let step = flow.advance(out(""));
    assert!(run_script(&step.action).starts_with("dir=\"$HOME\"/'.local/bin'\nfor name"));

    let step = flow.advance(out("SHIM:xclip\nPATHOK"));
    assert!(step.warnings.is_empty());
    match &step.action {
        Action::Install { tool, script } => {
            assert_eq!(*tool, "xclip");
            assert_eq!(script, &install_script("\"$HOME\"/'.local/bin'", "xclip"));
        }
        other => panic!("{other:?}"),
    }
    let step = flow.advance(Event::Installed);
    assert!(matches!(step.action, Action::Install { tool: "wl-paste", .. }));
    let step = flow.advance(Event::Installed);
    assert!(run_script(&step.action).contains("RESOLVED:$name"));

    let step = flow.advance(out(
        "RESOLVED:xclip:/usr/bin/xclip\nEXPECTED:xclip:/h/.local/bin/xclip",
    ));
    assert_eq!(step.warnings.len(), 1);
    match &step.action {
        Action::PullProbe { port, forward, command } => {
            assert_eq!(*port, 7717);
            assert_eq!(forward, "127.0.0.1:7717:127.0.0.1:7717");
            assert_eq!(
                command,
                "\"$HOME\"/'.local/bin'/xclip -selection clipboard -t text/plain -o"
            );
        }
        other => panic!("{other:?}"),
    }

    let step = flow.advance(Event::Pulled {
        listener_ok: true,
        nanos: 11,
        output: pull_nonce(11),
    });
    assert_eq!(
        step.notes,
        vec!["pull probe ok: live clipboard round-trip verified through the tunnel".to_string()]
    );
    assert!(matches!(step.action, Action::SendProbe));
    assert!(flow.finish(&mut cfg).is_none(), "nothing is saved before the probes pass");

    let step = flow.advance(Event::ProbeSent { nanos: 12 });
    assert!(run_script(&step.action).starts_with("SSH_PASTE_SOURCE=spool "));
    let step = flow.advance(Event::Output(spool_probe(12)));
    assert_eq!(
        run_script(&step.action),
        "rm -f \"$HOME\"/'.cache/ssh-paste'/clip.txt \"$HOME\"/'.cache/ssh-paste'/clip.png"
    );
    let step = flow.advance(out(""));
    assert!(matches!(step.action, Action::Save));
    assert!(flow.ready_to_save());

    let report = flow.finish(&mut cfg).unwrap();
    assert_eq!(report[2], "target 'me@pod' saved and set as the default");
    assert_eq!(cfg.resolve(None).unwrap().1.host, "me@pod");
    assert!(matches!(flow.advance(out("")).action, Action::Finished));
    assert!(flow.finish(&mut cfg).is_none());
}

#[test]
fn busy_port_skips_the_pull_probe_only() {
    let mut cfg = Config::new();
    let (mut flow, _) = SetupFlow::start(&cfg, "pod", None, false, Some(9000)).unwrap();
    flow.advance(out(""));
    flow.advance(out("PATHOK"));
    flow.advance(Event::Installed);
    flow.advance(Event::Installed);
    flow.advance(out(""));
    let step = flow.advance(Event::PortBusy);
    assert!(step.notes.is_empty());
    assert!(matches!(step.action, Action::SendProbe));
    flow.advance(Event::ProbeSent { nanos: 5 });
    flow.advance(out("something else"));
    let step = flow.advance(out(""));
    match step.action {
        Action::Fail(SetupError::ReadbackMismatch { readback, probe }) => {
            assert_eq!(readback, "something else");
            assert_eq!(probe, "ssh-paste probe 5");
        }
        other => panic!("{other:?}"),
    }
    assert!(flow.finish(&mut cfg).is_none());
    assert!(cfg.targets.is_empty());
}

#[test]
fn inspection_conflict_and_bad_pull_stop_setup() {
    let cfg = Config::new();
    let (mut flow, _) = SetupFlow::start(&cfg, "pod", None, false, None).unwrap();
    flow.advance(out(""));
    let step = flow.advance(out("REAL:xclip:/usr/bin/xclip\nPATHOK"));
    assert!(matches!(step.action, Action::Fail(SetupError::RealTool { .. })));

    let (mut flow, _) = SetupFlow::start(&cfg, "pod", None, true, None).unwrap();
    flow.advance(out(""));
    let step = flow.advance(out("REAL:xclip:/usr/bin/xclip\nPATHOK"));
    assert_eq!(
        step.warnings,
        vec!["warning: shadowing real xclip at /usr/bin/xclip (--force)".to_string()]
    );
    flow.advance(Event::Installed);
    flow.advance(Event::Installed);
    flow.advance(out(""));
    let step = flow.advance(Event::Pulled {
        listener_ok: true,
        nanos: 3,
        output: "stale".to_string(),
    });
    assert!(matches!(step.action, Action::Fail(SetupError::PullMismatch { .. })));
    let step = flow.advance(Event::Installed);
    assert!(matches!(step.action, Action::Finished));
}

#[test]
fn an_unexpected_report_asks_for_the_same_step_again() {
    let cfg = Config::new();
    let (mut flow, _) = SetupFlow::start(&cfg, "pod", None, false, None).unwrap();
    let step = flow.advance(Event::Installed);
    assert_eq!(run_script(&step.action), "true");
    flow.advance(out(""));
    let step = flow.advance(Event::PortBusy);
    assert!(run_script(&step.action).starts_with("dir="));
    assert!(matches!(
        SetupFlow::start(&cfg, "", None, false, None),
        Err(ssh_paste::config::TargetError::EmptyHost)
    ));
    let _ = Stage::Reach;
}

#[test]
fn each_step_names_what_it_was_doing() {
    let cfg = Config::new();
    let (mut flow, step) = SetupFlow::start(&cfg, "pod", None, false, None).unwrap();
    assert!(step.warnings.is_empty() && step.notes.is_empty());
    assert_eq!(
        flow.context().unwrap(),
        "cannot reach pod over ssh; make sure `ssh pod` connects first"
    );
    flow.advance(out(""));
    assert_eq!(flow.context().unwrap(), "inspecting pod for clipboard tools");
    flow.advance(out("PATHOK"));
    assert_eq!(
        flow.context().unwrap(),
        "installing the xclip shim into ~/.local/bin on pod"
    );
    flow.advance(Event::Installed);
    assert_eq!(
        flow.context().unwrap(),
        "installing the wl-paste shim into ~/.local/bin on pod"
    );
    flow.advance(Event::Installed);
    assert_eq!(flow.context().unwrap(), "checking which xclip and wl-paste pod resolves");
    flow.advance(out(""));
    assert_eq!(
        flow.context().unwrap(),
        "pulling the probe through a reverse tunnel to pod; the remote needs curl on PATH and 127.0.0.1:7717 free for the forward"
    );
    flow.advance(Event::PortBusy);
    assert_eq!(flow.context(), None);
    flow.advance(Event::ProbeSent { nanos: 5 });
    assert_eq!(
        flow.context().unwrap(),
        "reading the probe back through ~/.local/bin/xclip on pod"
    );
    flow.advance(out("ssh-paste probe 5"));
    assert_eq!(
        flow.context().unwrap(),
        "clearing the probe out of ~/.cache/ssh-paste on pod"
    );
    flow.advance(out(""));
    assert_eq!(flow.stage(), Stage::Save);
    assert_eq!(flow.context(), None);
}
