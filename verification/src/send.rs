//! Push mode: the script that stores a clipboard in a target's spool, and
//! what a send says when it is done.
use vstd::prelude::*;

use crate::clipboard::Payload;
use crate::config::{Target, TargetError, target_problem};
use crate::sh::{remote_path, remote_path_expr};
use crate::text::{decimal, owned, push_decimal, push_str};

verus! {

pub const RECEIVE_HEAD: &'static str = "umask 077; d=";

pub const RECEIVE_STORE: &'static str =
    "; mkdir -p \"$d\" || exit 1; if cat > \"$d\"/clip.tmp; then mv \"$d\"/clip.tmp \"$d\"/";

pub const RECEIVE_PRUNE: &'static str = " && rm -f \"$d\"/";

pub const RECEIVE_TAIL: &'static str = "; else rm -f \"$d\"/clip.tmp; exit 1; fi";

/// The receiving script for a spool at `spool_expr`.
pub open spec fn spec_receiver_script(spool_expr: Seq<char>, keep: Seq<char>, drop: Seq<char>) -> Seq<
    char,
> {
    RECEIVE_HEAD@ + spool_expr + RECEIVE_STORE@ + keep + RECEIVE_PRUNE@ + drop + RECEIVE_TAIL@
}

/// The script that stores standard input in the spool at `spool_expr` as
/// `keep`, then removes `drop`: private to the user (`umask 077`), written to
/// `clip.tmp` first and renamed only once complete, the temporary file
/// removed if reading fails.
pub fn receiver_script(spool_expr: &str, keep: &str, drop: &str) -> (s: String)
    ensures
        s@ == spec_receiver_script(spool_expr@, keep@, drop@),
{
    let mut s = owned(RECEIVE_HEAD);
    push_str(&mut s, spool_expr);
    push_str(&mut s, RECEIVE_STORE);
    push_str(&mut s, keep);
    push_str(&mut s, RECEIVE_PRUNE);
    push_str(&mut s, drop);
    push_str(&mut s, RECEIVE_TAIL);
    s
}

/// The script a send of `payload` to `target` runs remotely, once the target
/// has passed `validate`: the payload is kept under its kind's file in the
/// target's spool, and the other kind's file is removed.
pub fn send_script(target: &Target, payload: &Payload) -> (r: Result<String, TargetError>)
    ensures
        match target_problem(target@) {
            Some(p) => r matches Err(e) && e@ == p,
            None => r matches Ok(s) && s@ == spec_receiver_script(
                remote_path(target.spool_dir@),
                payload.spec_keep_file(),
                payload.spec_drop_file(),
            ),
        },
{
    target.validate()?;
    let spool = remote_path_expr(target.spool_dir.as_str());
    Ok(receiver_script(spool.as_str(), payload.keep_file(), payload.drop_file()))
}

/// `sent <kind> (<n> bytes) to <target>`.
pub fn sent_message(payload: &Payload, target_name: &str) -> (s: String)
    ensures
        s@ == "sent "@ + payload.spec_kind() + " ("@ + decimal(payload.spec_content().len())
            + " bytes) to "@ + target_name@,
{
    let size = payload.bytes().len();
    let mut s = owned("sent ");
    push_str(&mut s, payload.kind());
    push_str(&mut s, " (");
    push_decimal(&mut s, size as u128);
    push_str(&mut s, " bytes) to ");
    push_str(&mut s, target_name);
    s
}

} // verus!
