use ssh_paste::ssh::{remote_command, run_outcome, ssh_args, stream_outcome, SshFailed, StreamFailure};

#[test]
fn remote_command_runs_the_script_under_sh() {
    assert_eq!(remote_command("C"), "sh -c 'C'");
    assert_eq!(
        remote_command(r#"printf '%s' "it's $HOME""#),
        r#"sh -c 'printf '\''%s'\'' "it'\''s $HOME"'"#
    );
}

#[test]
fn run_outcome_trims_output_and_maps_exit_codes() {
    assert_eq!(run_outcome(true, Some(0), "  captured\n").unwrap(), "captured");
    assert_eq!(run_outcome(false, Some(7), "x"), Err(SshFailed(7)));
    assert_eq!(run_outcome(false, None, "x"), Err(SshFailed(1)));
}

#[test]
fn exit_status_wins_over_a_broken_pipe() {
    assert_eq!(
        stream_outcome(false, Some(9), false),
        Err(StreamFailure::Exited(SshFailed(9)))
    );
    assert_eq!(stream_outcome(true, Some(0), false), Err(StreamFailure::WriteFailed));
    assert_eq!(stream_outcome(true, Some(0), true), Ok(()));
}

#[test]
fn ssh_failed_message() {
    assert_eq!(SshFailed(255).message(), "ssh exited with status 255");
    assert_eq!(SshFailed(-3).message(), "ssh exited with status -3");
}

#[test]
fn ssh_args_put_options_then_host_then_the_sh_command() {
    assert_eq!(
        ssh_args(&["A", "B"], "host", "C"),
        vec!["A".to_string(), "B".to_string(), "host".to_string(), "sh -c 'C'".to_string()]
    );
    assert_eq!(
        ssh_args(&[], "me@pod", "it's"),
        vec!["me@pod".to_string(), r"sh -c 'it'\''s'".to_string()]
    );
}
