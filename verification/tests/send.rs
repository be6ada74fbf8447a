use ssh_paste::clipboard::Payload;
use ssh_paste::config::{Target, TargetError};
use ssh_paste::send::{receiver_script, send_script, sent_message};

#[test]
fn receiver_script_is_atomic_and_prunes_other_type() {
    let s = receiver_script("\"$HOME\"/'.cache/ssh-paste'", "clip.png", "clip.txt");
    assert!(s.contains("umask 077"));
    assert!(s.contains("clip.tmp"));
    let mv = s.find("mv ").unwrap();
    let cat = s.find("cat >").unwrap();
    assert!(cat < mv, "content lands in tmp before rename");
    assert!(s.contains("rm -f \"$d\"/clip.txt"));
}

#[test]
fn receiver_script_exact_text() {
    assert_eq!(
        receiver_script("'/s'", "clip.txt", "clip.png"),
        "umask 077; d='/s'; mkdir -p \"$d\" || exit 1; if cat > \"$d\"/clip.tmp; then mv \"$d\"/clip.tmp \"$d\"/clip.txt && rm -f \"$d\"/clip.png; else rm -f \"$d\"/clip.tmp; exit 1; fi"
    );
}

#[test]
fn send_script_uses_the_spool_and_the_payload_kind() {
    let t = Target {
        host: "pod".into(),
        spool_dir: "~/.cache/ssh-paste".into(),
        shim_dir: "~/.local/bin".into(),
        pull_port: 7717,
    };
    let s = send_script(&t, &Payload::Png(vec![1])).unwrap();
    assert_eq!(
        s,
        receiver_script("\"$HOME\"/'.cache/ssh-paste'", "clip.png", "clip.txt")
    );
    let bad = Target { host: "-x".into(), ..t };
    assert!(matches!(
        send_script(&bad, &Payload::Text("x".into())),
        Err(TargetError::HostStartsWithDash)
    ));
}

#[test]
fn sent_message_counts_bytes() {
    assert_eq!(
        sent_message(&Payload::Text("hé".into()), "pod"),
        "sent text (3 bytes) to pod"
    );
    assert_eq!(
        sent_message(&Payload::Png(vec![0; 1234]), "t"),
        "sent image (1234 bytes) to t"
    );
}
