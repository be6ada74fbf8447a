use ssh_paste::config::{Config, Target, TargetError};
use ssh_paste::setup::{
    check_pull, check_readback, clear_probe_command, host_pattern, inspect_script,
    install_script, plan_remove, plan_setup, port_busy_warning, pull_command, pull_forward,
    pull_nonce, readback_command, remove_script, removal_report, resolution_script,
    review_inspection, setup_report, shadowed_tools, spool_probe, Override, RemoveError,
    SetupError, MARKER_PREFIX,
};

fn target(host: &str, port: u16) -> Target {
    Target {
        host: host.into(),
        spool_dir: "~/.cache/ssh-paste".into(),
        shim_dir: "~/.local/bin".into(),
        pull_port: port,
    }
}

#[test]
fn host_pattern_drops_the_user_part() {
    assert_eq!(host_pattern("pod"), "pod");
    assert_eq!(host_pattern("hermes@pod.example.com"), "pod.example.com");
}

#[test]
fn scripts_carry_the_marker_and_the_directory() {
    let s = inspect_script("'/b'");
    assert!(s.starts_with("dir='/b'\nfor name in xclip wl-paste; do\n"));
    assert!(s.contains(&format!("grep -q '{MARKER_PREFIX}'")));
    assert!(s.ends_with("echo PATHOK ;; *) echo NOPATH ;; esac"));
    let r = remove_script("'/b'", "'/s'");
    assert!(r.contains("rm -f '/s'/clip.png '/s'/clip.txt '/s'/clip.tmp\nrmdir '/s' 2>/dev/null || true"));
    assert!(r.contains(&format!("grep -q '{MARKER_PREFIX}'; then rm -f \"$f\"; fi")));
    assert_eq!(
        resolution_script("'/b'"),
        "dir='/b'\nfor name in xclip wl-paste; do\n  echo \"RESOLVED:$name:$(command -v \"$name\" 2>/dev/null)\"\n  echo \"EXPECTED:$name:$dir/$name\"\ndone"
    );
}

#[test]
fn install_script_renames_only_a_complete_executable() {
    assert_eq!(
        install_script("'/b'", "xclip"),
        "dir='/b'; mkdir -p \"$dir\" || exit 1; if cat > \"$dir\"/'xclip'.tmp; then chmod 755 \"$dir\"/'xclip'.tmp && mv \"$dir\"/'xclip'.tmp \"$dir\"/'xclip'; else rm -f \"$dir\"/'xclip'.tmp; exit 1; fi"
    );
}

#[test]
fn plan_uses_defaults_or_keeps_a_registered_target() {
    let cfg = Config::new();
    let plan = plan_setup(&cfg, "u@pod", None, None).unwrap();
    assert_eq!(plan.target_name, "u@pod");
    assert_eq!(plan.target.host, "u@pod");
    assert_eq!(plan.target.spool_dir, "~/.cache/ssh-paste");
    assert_eq!(plan.target.shim_dir, "~/.local/bin");
    assert_eq!(plan.target.pull_port, 7717);
    assert_eq!(plan.shim_dir_expr, "\"$HOME\"/'.local/bin'");
    assert_eq!(plan.spool_expr, "\"$HOME\"/'.cache/ssh-paste'");

    let mut cfg = Config::new();
    cfg.register(
        "pod",
        Target {
            host: "old".into(),
            spool_dir: "/var/spool/x".into(),
            shim_dir: "/opt/bin".into(),
            pull_port: 9000,
        },
    );
    let plan = plan_setup(&cfg, "new-host", Some("pod"), None).unwrap();
    assert_eq!(plan.target.host, "new-host");
    assert_eq!(plan.target.spool_dir, "/var/spool/x");
    assert_eq!(plan.target.pull_port, 9000);
    let plan = plan_setup(&cfg, "new-host", Some("pod"), Some(9100)).unwrap();
    assert_eq!(plan.target.pull_port, 9100);

    assert!(matches!(
        plan_setup(&cfg, "-oProxyCommand=x", None, None),
        Err(TargetError::HostStartsWithDash)
    ));
    assert!(matches!(
        plan_setup(&cfg, "pod", None, Some(0)),
        Err(TargetError::PortZero)
    ));
}

#[test]
fn inspection_stops_on_conflicts_unless_forced() {
    let report = "REAL:xclip:/usr/bin/xclip\nSHIM:wl-paste\nPATHOK\n";
    let e = review_inspection(report, false).unwrap_err();
    assert!(matches!(
        e,
        SetupError::RealTool { ref tool, ref path } if tool == "xclip" && path == "/usr/bin/xclip"
    ));
    let t = target("pod", 7717);
    assert_eq!(
        e.message("pod", &t),
        "a real xclip exists on pod at /usr/bin/xclip; ssh-paste shims would shadow a working clipboard tool. Re-run with --force if that is what you want"
    );

    let forced = review_inspection(report, true).unwrap();
    assert_eq!(forced.len(), 1);
    assert_eq!(
        forced[0].warning("~/.local/bin"),
        "warning: shadowing real xclip at /usr/bin/xclip (--force)"
    );

    let e = review_inspection("  UNMARKED:wl-paste \nPATHOK", false).unwrap_err();
    assert_eq!(
        e.message("pod", &t),
        "~/.local/bin/wl-paste on pod was not written by ssh-paste; refusing to overwrite a file that is not ours. Re-run with --force to replace it"
    );
    let forced = review_inspection("UNMARKED:wl-paste\r\nREAL:xclip\r\nPATHOK\r\n", true).unwrap();
    assert!(matches!(&forced[0], Override::ForeignFile { tool } if tool == "wl-paste"));
    assert!(matches!(
        &forced[1],
        Override::RealTool { tool, path } if tool == "xclip" && path == "an unknown path"
    ));
    assert_eq!(
        forced[0].warning("/opt/bin"),
        "warning: overwriting foreign file at /opt/bin/wl-paste (--force)"
    );
}

#[test]
fn inspection_requires_the_shim_directory_on_path() {
    assert!(review_inspection("SHIM:xclip\nPATHOK", false).unwrap().is_empty());
    let e = review_inspection("SHIM:xclip\nNOPATH", true).unwrap_err();
    assert!(matches!(e, SetupError::NotOnPath));
    assert_eq!(
        e.message("pod", &target("pod", 7717)),
        "~/.local/bin is not on PATH for non-interactive ssh on pod, so the shims would never be found. Add it to PATH in the startup file ssh reads (~/.profile or ~/.zshenv) and re-run `ssh-paste setup pod`"
    );
    assert!(matches!(review_inspection("", true), Err(SetupError::NotOnPath)));
}

#[test]
fn resolution_reports_shadowed_tools() {
    let report = "RESOLVED:xclip:/usr/bin/xclip\nEXPECTED:xclip:/h/.local/bin/xclip\nRESOLVED:wl-paste:/h/.local/bin/wl-paste\nEXPECTED:wl-paste:/h/.local/bin/wl-paste\n";
    let shadows = shadowed_tools(report);
    assert_eq!(shadows.len(), 1);
    assert_eq!(shadows[0].tool, "xclip");
    assert_eq!(
        shadows[0].warning("pod", "~/.local/bin"),
        "warning: xclip on pod resolves to /usr/bin/xclip, not the shim at /h/.local/bin/xclip; Ctrl+V will keep hitting that binary until ~/.local/bin comes first on PATH"
    );
    let report = "RESOLVED:wl-paste:\nEXPECTED:wl-paste:/b/wl-paste";
    let shadows = shadowed_tools(report);
    assert_eq!(shadows.len(), 1);
    assert!(shadows[0]
        .warning("pod", "/b")
        .contains("resolves to nothing on PATH"));
    assert!(shadowed_tools("RESOLVED:xclip:/a").is_empty());
}

#[test]
fn probe_commands_and_texts() {
    assert_eq!(pull_forward(7717), "127.0.0.1:7717:127.0.0.1:7717");
    assert_eq!(
        pull_command("'/b'"),
        "'/b'/xclip -selection clipboard -t text/plain -o"
    );
    assert_eq!(
        readback_command("'/b'"),
        "SSH_PASTE_SOURCE=spool '/b'/xclip -selection clipboard -t text/plain -o"
    );
    assert_eq!(clear_probe_command("'/s'"), "rm -f '/s'/clip.txt '/s'/clip.png");
    assert_eq!(pull_nonce(42), "ssh-paste pull probe 42");
    assert_eq!(spool_probe(0), "ssh-paste probe 0");
    assert_eq!(
        port_busy_warning(7717),
        "warning: 127.0.0.1:7717 is busy locally (ssh-paste serve already running?); skipping the pull probe: "
    );
}

#[test]
fn probes_must_come_back_exactly() {
    let t = target("pod", 7718);
    assert!(check_pull(true, "n", "n").is_ok());
    let e = check_pull(false, "n", "n").unwrap_err();
    assert!(matches!(e, SetupError::PullListenerDied));
    let e = check_pull(true, "x", "n").unwrap_err();
    assert_eq!(
        e.message("pod", &t),
        "the shim on pod pulled 'x' instead of 'n' through the tunnel, so the target was not saved. The remote needs curl on PATH and its own 127.0.0.1:7718 free for the forward"
    );
    assert!(check_readback("p", "p").is_ok());
    let e = check_readback("", "p").unwrap_err();
    assert_eq!(
        e.message("pod", &t),
        "the shim on pod read back '' instead of 'p', so the clipboard round-trip is broken and the target was not saved. Check that ~/.cache/ssh-paste is writable and that ~/.local/bin/xclip runs there"
    );
}

#[test]
fn report_tells_how_to_finish_pull_mode() {
    let cfg = Config::new();
    let plan = plan_setup(&cfg, "me@pod", Some("p"), None).unwrap();
    let lines = setup_report(&plan, "me@pod", true);
    assert_eq!(
        lines,
        vec![
            "installed xclip and wl-paste in ~/.local/bin on me@pod".to_string(),
            "probe ok: clipboard round-trip verified through the shim".to_string(),
            "target 'p' saved and set as the default".to_string(),
            "to finish pull mode, add to ~/.ssh/config and reconnect:".to_string(),
            "  Host pod".to_string(),
            "    RemoteForward 7717 127.0.0.1:7717".to_string(),
            "(an existing ControlPersist master keeps old forwards \u{2014} run `ssh -O exit me@pod` before reconnecting)".to_string(),
            "then keep `ssh-paste serve` running locally".to_string(),
        ]
    );
    let plan = plan_setup(&cfg, "pod", None, Some(8000)).unwrap();
    let lines = setup_report(&plan, "pod", false);
    assert_eq!(lines[2], "target 'pod' saved");
    assert_eq!(lines[5], "    RemoteForward 8000 127.0.0.1:8000");
    assert_eq!(lines[7], "then keep `ssh-paste serve --port 8000` running locally");
}

#[test]
fn remove_plans_only_registered_valid_targets() {
    let mut cfg = Config::new();
    assert!(matches!(plan_remove(&cfg, "pod"), Err(RemoveError::Resolve(_))));
    cfg.register("pod", target("hermes", 7717));
    let plan = plan_remove(&cfg, "pod").unwrap();
    assert_eq!(plan.host, "hermes");
    assert_eq!(plan.context(), "removing the ssh-paste shims and spool from hermes");
    assert_eq!(
        plan.script,
        remove_script("\"$HOME\"/'.local/bin'", "\"$HOME\"/'.cache/ssh-paste'")
    );
    assert_eq!(
        removal_report(&plan),
        vec![
            "removed the ssh-paste shims from ~/.local/bin and the spool ~/.cache/ssh-paste on hermes".to_string(),
            "target 'pod' forgotten".to_string(),
        ]
    );
    cfg.register("bad", target("-x", 7717));
    assert!(matches!(plan_remove(&cfg, "bad"), Err(RemoveError::Invalid(_))));
}
