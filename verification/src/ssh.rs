//! How scripts reach a remote host over ssh: the command line that runs them
//! under `sh` whatever the remote login shell is, and what the outcome of an
//! ssh process means.  Spawning the process stays with the caller.
use vstd::prelude::*;

use crate::sh::{sh_quote, sh_quoted};
use crate::text::{decimal, owned, push_decimal, push_str, trim, trimmed};

verus! {

/// ssh (or the script it ran) exited unsuccessfully with this status; the
/// status becomes ssh-paste's own exit status.
#[derive(Debug, Clone, Copy, PartialEq, Eq, Structural)]
pub struct SshFailed(pub i32);

/// The remote command that runs `script` under `sh`: the remote login shell
/// may be fish or csh, which cannot run these scripts.
pub fn remote_command(script: &str) -> (out: String)
    ensures
        out@ == "sh -c "@ + sh_quoted(script@),
{
    let mut out = owned("sh -c ");
    let q = sh_quote(script);
    push_str(&mut out, q.as_str());
    out
}

/// The arguments handed to the ssh binary: the extra options first, then
/// the host, then the remote command that runs `script` under `sh`.
pub fn ssh_args(extra: &[&str], host: &str, script: &str) -> (args: Vec<String>)
    ensures
        args@.map_values(|a: String| a@) == extra@.map_values(|e: &str| e@) + seq![
            host@,
            "sh -c "@ + sh_quoted(script@),
        ],
{
    let mut args: Vec<String> = Vec::new();
    let mut i: usize = 0;
    while i < extra.len()
        invariant
            i <= extra@.len(),
            args@.map_values(|a: String| a@) == extra@.take(i as int).map_values(|e: &str| e@),
        decreases extra.len() - i,
    {
        let ghost prev = args@.map_values(|a: String| a@);
        args.push(owned(extra[i]));
        proof {
            assert(extra@.take(i + 1) =~= extra@.take(i as int).push(extra@[i as int]));
            assert(args@.map_values(|a: String| a@) =~= prev.push(extra@[i as int]@));
            assert(extra@.take(i + 1).map_values(|e: &str| e@) =~= extra@.take(i as int).map_values(
                |e: &str| e@,
            ).push(extra@[i as int]@));
        }
        i = i + 1;
    }
    let ghost before = args@.map_values(|a: String| a@);
    args.push(owned(host));
    args.push(remote_command(script));
    proof {
        assert(extra@.take(extra@.len() as int) =~= extra@);
        assert(args@.map_values(|a: String| a@) =~= before + seq![
            host@,
            "sh -c "@ + sh_quoted(script@),
        ]);
    }
    args
}

/// The status reported for a process: its exit code, or 1 when it was ended
/// by a signal and has none.
pub open spec fn spec_exit_status(code: Option<i32>) -> i32 {
    match code {
        Some(c) => c,
        None => 1,
    }
}

/// What a finished `ssh` run gives: its standard output trimmed, or its exit
/// status when it failed.
pub fn run_outcome(success: bool, code: Option<i32>, stdout: &str) -> (r: Result<String, SshFailed>)
    ensures
        success ==> (r matches Ok(s) && s@ == trim(stdout@)),
        !success ==> r == Err::<String, SshFailed>(SshFailed(spec_exit_status(code))),
{
    if !success {
        return Err(SshFailed(match code {
            Some(c) => c,
            None => 1,
        }));
    }
    Ok(trimmed(stdout))
}

/// Why streaming to a remote script failed.
#[derive(Debug, Clone, Copy, PartialEq, Eq, Structural)]
pub enum StreamFailure {
    /// The remote side exited unsuccessfully.
    Exited(SshFailed),
    /// Writing standard input failed while the remote side succeeded.
    WriteFailed,
}

/// What a finished streaming run gives.  An unsuccessful exit wins over a
/// failed write: a remote script that exits early closes the pipe, and its
/// status is the news, not the broken pipe.
pub fn stream_outcome(success: bool, code: Option<i32>, write_ok: bool) -> (r: Result<(), StreamFailure>)
    ensures
        !success ==> r == Err::<(), StreamFailure>(StreamFailure::Exited(SshFailed(spec_exit_status(code)))),
        success && !write_ok ==> r == Err::<(), StreamFailure>(StreamFailure::WriteFailed),
        success && write_ok ==> r is Ok,
{
    if !success {
        return Err(StreamFailure::Exited(SshFailed(match code {
            Some(c) => c,
            None => 1,
        })));
    }
    if !write_ok {
        return Err(StreamFailure::WriteFailed);
    }
    Ok(())
}

/// An integer in decimal, with a leading `-` when negative.
pub open spec fn signed_decimal(n: int) -> Seq<char> {
    if n < 0 {
        seq!['-'] + decimal((-n) as nat)
    } else {
        decimal(n as nat)
    }
}

impl SshFailed {
    /// `ssh exited with status <status>`.
    pub fn message(&self) -> (s: String)
        ensures
            s@ == "ssh exited with status "@ + signed_decimal(self.0 as int),
    {
        let mut s = owned("ssh exited with status ");
        let code = self.0;
        if code < 0 {
            s.push('-');
            let magnitude: u128 = (0i128 - code as i128) as u128;
            push_decimal(&mut s, magnitude);
            proof {
                assert(s@ =~= "ssh exited with status "@ + signed_decimal(self.0 as int));
            }
        } else {
            push_decimal(&mut s, code as u128);
        }
        s
    }
}

} // verus!
