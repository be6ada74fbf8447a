use ssh_paste::config::{
    default_pull_port, default_shim_dir, default_spool_dir, Config, DirField, ResolveError,
    Target, TargetError, TargetTable,
};

fn target(host: &str) -> Target {
    Target {
        host: host.into(),
        spool_dir: default_spool_dir(),
        shim_dir: default_shim_dir(),
        pull_port: default_pull_port(),
    }
}

#[test]
fn resolve_uses_explicit_then_default() {
    let mut cfg = Config::new();
    cfg.default_target = Some("a".into());
    cfg.targets.insert("a".into(), target("x"));
    cfg.targets.insert("b".into(), target("y"));
    assert_eq!(cfg.resolve(Some("b")).unwrap().1.host, "y");
    assert_eq!(cfg.resolve(None).unwrap().1.host, "x");
    let err = cfg.resolve(Some("nope")).unwrap_err().message();
    assert!(err.contains("ssh-paste setup"), "hint missing: {err}");
}

#[test]
fn resolve_without_default_or_name_fails() {
    let mut cfg = Config::new();
    cfg.targets.insert("a".into(), target("x"));
    assert!(cfg.resolve(None).is_err());
}

#[test]
fn validate_rejects_bad_values() {
    let bad = |host: &str, spool: &str, shim: &str| Target {
        host: host.into(),
        spool_dir: spool.into(),
        shim_dir: shim.into(),
        pull_port: 7717,
    };
    assert!(
        bad("-oProxyCommand=evil", "~/.cache/ssh-paste", "~/.local/bin")
            .validate()
            .is_err()
    );
    assert!(
        bad("", "~/.cache/ssh-paste", "~/.local/bin")
            .validate()
            .is_err()
    );
    assert!(
        bad("h\nx", "~/.cache/ssh-paste", "~/.local/bin")
            .validate()
            .is_err()
    );
    assert!(
        bad("h", "relative/path", "~/.local/bin")
            .validate()
            .is_err()
    );
    assert!(bad("h", "~/.cache/ssh-paste", "bin").validate().is_err());
    for dir in ["~", "~/", "/", "~/x/"] {
        assert!(
            bad("h", dir, "~/.local/bin").validate().is_err(),
            "spool_dir '{dir}' accepted"
        );
        assert!(
            bad("h", "~/.cache/ssh-paste", dir).validate().is_err(),
            "shim_dir '{dir}' accepted"
        );
    }
    assert!(
        bad("h", "~/.cache/ssh-paste", "~/.local/bin")
            .validate()
            .is_ok()
    );
    assert!(
        bad("user@host", "/var/tmp/spool", "/opt/bin")
            .validate()
            .is_ok()
    );
    assert!(
        Target {
            host: "h".into(),
            spool_dir: "~/.cache/ssh-paste".into(),
            shim_dir: "~/.local/bin".into(),
            pull_port: 0,
        }
        .validate()
        .is_err(),
        "pull_port 0 accepted"
    );
}

#[test]
fn validate_reports_the_first_problem_in_order() {
    let t = Target {
        host: "-x".into(),
        spool_dir: "rel".into(),
        shim_dir: "rel".into(),
        pull_port: 0,
    };
    assert!(matches!(t.validate(), Err(TargetError::HostStartsWithDash)));
    let t = Target {
        host: "h\u{7f}".into(),
        spool_dir: "rel".into(),
        shim_dir: "rel".into(),
        pull_port: 0,
    };
    assert!(matches!(t.validate(), Err(TargetError::HostHasSpaceOrControl)));
    let t = Target {
        host: "h\u{3000}x".into(),
        spool_dir: "/ok".into(),
        shim_dir: "/ok".into(),
        pull_port: 1,
    };
    assert!(matches!(t.validate(), Err(TargetError::HostHasSpaceOrControl)));
    let t = Target {
        host: "h".into(),
        spool_dir: "/ok".into(),
        shim_dir: "~/x/".into(),
        pull_port: 0,
    };
    let e = t.validate().unwrap_err();
    assert!(matches!(
        e,
        TargetError::DirEndsWithSlash { field: DirField::ShimDir, ref dir } if dir == "~/x/"
    ));
    assert_eq!(
        e.message(),
        "shim_dir must not end with '/' (got '~/x/'); it names a directory ssh-paste owns, not the home or root directory"
    );
    let t = Target {
        host: "h".into(),
        spool_dir: "~".into(),
        shim_dir: "/ok".into(),
        pull_port: 1,
    };
    assert_eq!(
        t.validate().unwrap_err().message(),
        "spool_dir must start with ~/ or / (got '~')"
    );
    let t = Target {
        host: "h".into(),
        spool_dir: "/ok".into(),
        shim_dir: "/ok".into(),
        pull_port: 0,
    };
    assert_eq!(t.validate().unwrap_err().message(), "pull_port must be 1-65535");
}

#[test]
fn defaults_are_the_documented_ones() {
    assert_eq!(default_spool_dir(), "~/.cache/ssh-paste");
    assert_eq!(default_shim_dir(), "~/.local/bin");
    assert_eq!(default_pull_port(), 7717);
    assert!(target("pod").validate().is_ok());
}

#[test]
fn resolve_messages_name_the_missing_target() {
    let cfg = Config::new();
    let e = cfg.resolve(None).unwrap_err();
    assert!(matches!(e, ResolveError::NoTarget));
    assert_eq!(
        e.message(),
        "no target given and no default_target set; run `ssh-paste setup <ssh-alias>` first"
    );
    let e = cfg.resolve(Some("pod")).unwrap_err();
    assert_eq!(
        e.message(),
        "unknown target 'pod'; run `ssh-paste setup <ssh-alias> --name pod` first"
    );
}

#[test]
fn register_makes_the_first_target_default_and_resolvable() {
    let mut cfg = Config::new();
    assert!(cfg.register("a", target("x")));
    assert!(!cfg.register("b", target("y")));
    assert_eq!(cfg.default_target.as_deref(), Some("a"));
    assert_eq!(cfg.resolve(None).unwrap().0, "a");
    let (name, t) = cfg.resolve(Some("b")).unwrap();
    assert_eq!((name, t.host.as_str()), ("b", "y"));
    assert!(!cfg.register("a", target("z")));
    assert_eq!(cfg.resolve(Some("a")).unwrap().1.host, "z");
    assert_eq!(cfg.targets.len(), 2);
}

#[test]
fn forget_drops_the_target_and_a_default_naming_it() {
    let mut cfg = Config::new();
    cfg.register("a", target("x"));
    cfg.register("b", target("y"));
    cfg.forget("b");
    assert_eq!(cfg.default_target.as_deref(), Some("a"));
    assert!(matches!(cfg.resolve(Some("b")), Err(ResolveError::UnknownTarget { .. })));
    cfg.forget("a");
    assert_eq!(cfg.default_target, None);
    assert!(matches!(cfg.resolve(None), Err(ResolveError::NoTarget)));
    assert!(cfg.targets.is_empty());
}

#[test]
fn table_insert_replaces_and_remove_returns_the_target() {
    let mut t = TargetTable::new();
    t.insert("a".into(), target("x"));
    t.insert("a".into(), target("y"));
    assert_eq!(t.len(), 1);
    assert_eq!(t.get("a").unwrap().host, "y");
    assert!(t.get("b").is_none());
    assert_eq!(t.remove("a").unwrap().host, "y");
    assert!(t.remove("a").is_none());
    assert!(t.is_empty());
}
