//! Installing a target: the scripts run on the remote host to inspect it,
//! install the shims, check which clipboard tools it resolves and uninstall
//! them again; the reading of what those scripts report; the checks of the
//! probes that prove both paths work; and what the user is told.
use vstd::prelude::*;

use crate::config::{
    Config, DEFAULT_PULL_PORT, DEFAULT_SHIM_DIR, DEFAULT_SPOOL_DIR, ResolveError, Target,
    TargetError, TargetView, opt_str_view, target_problem,
};
use crate::sh::{remote_path, remote_path_expr, sh_quote, sh_quoted};
use crate::text::{
    chars_eq, chars_of, decimal, first_index, has_prefix, last_index, lines_trimmed, owned,
    push_decimal, push_str, rfind_char, find_char, starts_with, str_eq, string_of,
    trimmed_lines,
};

verus! {

/// The line every generated shim carries near its top; a file in the shim
/// directory without it is not ours.
pub const MARKER_PREFIX: &'static str = "# generated by ssh-paste";

/// Every script starts by naming its directory.
pub const SCRIPT_DIR: &'static str = "dir=";

pub const INSPECT_REAL: &'static str = "\nfor name in xclip wl-paste; do\n  p=$(command -v \"$name\" 2>/dev/null || true)\n  if [ -n \"$p\" ] && ! head -n 2 \"$p\" 2>/dev/null | grep -q ";

pub const INSPECT_SHIM: &'static str = "; then\n    echo \"REAL:$name:$p\"\n  fi\n  f=\"$dir/$name\"\n  if [ -e \"$f\" ]; then\n    if head -n 2 \"$f\" 2>/dev/null | grep -q ";

pub const INSPECT_TAIL: &'static str = "; then echo \"SHIM:$name\"; else echo \"UNMARKED:$name\"; fi\n  fi\ndone\ncase \":$PATH:\" in *\":$dir:\"*) echo PATHOK ;; *) echo NOPATH ;; esac";

pub const REMOVE_SHIMS: &'static str = "\nfor name in xclip wl-paste; do\n  f=\"$dir/$name\"\n  if [ -e \"$f\" ] && head -n 2 \"$f\" 2>/dev/null | grep -q ";

pub const REMOVE_SPOOL: &'static str = "; then rm -f \"$f\"; fi\ndone\nrm -f ";

pub const REMOVE_PNG: &'static str = "/clip.png ";

pub const REMOVE_TXT: &'static str = "/clip.txt ";

pub const REMOVE_TMP: &'static str = "/clip.tmp\nrmdir ";

pub const REMOVE_TAIL: &'static str = " 2>/dev/null || true";

pub const RESOLVE_TAIL: &'static str = "\nfor name in xclip wl-paste; do\n  echo \"RESOLVED:$name:$(command -v \"$name\" 2>/dev/null)\"\n  echo \"EXPECTED:$name:$dir/$name\"\ndone";


/// `inspect_script(e)`, over plain values.
pub open spec fn spec_inspect_script(shim_dir_expr: Seq<char>) -> Seq<char> {
    let marker = sh_quoted(MARKER_PREFIX@);
    SCRIPT_DIR@ + shim_dir_expr + INSPECT_REAL@ + marker + INSPECT_SHIM@ + marker + INSPECT_TAIL@
}

/// The script that reports, for `xclip` and `wl-paste`, a real tool on PATH
/// (`REAL:<tool>:<path>`), a shim of ours (`SHIM:<tool>`) or a foreign file
/// (`UNMARKED:<tool>`) in the shim directory, and whether that directory is
/// on PATH (`PATHOK` or `NOPATH`).
pub fn inspect_script(shim_dir_expr: &str) -> (s: String)
    ensures
        s@ == spec_inspect_script(shim_dir_expr@),
{
    let marker = sh_quote(MARKER_PREFIX);
    let mut s = owned(SCRIPT_DIR);
    push_str(&mut s, shim_dir_expr);
    push_str(&mut s, INSPECT_REAL);
    push_str(&mut s, marker.as_str());
    push_str(&mut s, INSPECT_SHIM);
    push_str(&mut s, marker.as_str());
    push_str(&mut s, INSPECT_TAIL);
    s
}

pub const INSTALL_MKDIR: &'static str = "; mkdir -p \"$dir\" || exit 1; if cat > \"$dir\"/";

pub const INSTALL_CHMOD: &'static str = ".tmp; then chmod 755 \"$dir\"/";

pub const INSTALL_MV: &'static str = ".tmp && mv \"$dir\"/";

pub const INSTALL_TO: &'static str = ".tmp \"$dir\"/";

pub const INSTALL_ELSE: &'static str = "; else rm -f \"$dir\"/";

pub const INSTALL_TAIL: &'static str = ".tmp; exit 1; fi";

/// `install_script(e, n)`, over plain values.
pub open spec fn spec_install_script(shim_dir_expr: Seq<char>, name: Seq<char>) -> Seq<char> {
    let n = sh_quoted(name);
    SCRIPT_DIR@ + shim_dir_expr + INSTALL_MKDIR@ + n + INSTALL_CHMOD@ + n + INSTALL_MV@ + n
        + INSTALL_TO@ + n + INSTALL_ELSE@ + n + INSTALL_TAIL@
}

/// The script that installs standard input as the executable `name` in the
/// shim directory: written to `<name>.tmp`, made executable, then renamed,
/// so that a half-written shim is never run.
pub fn install_script(shim_dir_expr: &str, name: &str) -> (s: String)
    ensures
        s@ == spec_install_script(shim_dir_expr@, name@),
{
    let n = sh_quote(name);
    let mut s = owned(SCRIPT_DIR);
    push_str(&mut s, shim_dir_expr);
    push_str(&mut s, INSTALL_MKDIR);
    push_str(&mut s, n.as_str());
    push_str(&mut s, INSTALL_CHMOD);
    push_str(&mut s, n.as_str());
    push_str(&mut s, INSTALL_MV);
    push_str(&mut s, n.as_str());
    push_str(&mut s, INSTALL_TO);
    push_str(&mut s, n.as_str());
    push_str(&mut s, INSTALL_ELSE);
    push_str(&mut s, n.as_str());
    push_str(&mut s, INSTALL_TAIL);
    s
}

/// `remove_script(e, s)`, over plain values.
pub open spec fn spec_remove_script(shim_dir_expr: Seq<char>, spool_expr: Seq<char>) -> Seq<char> {
    SCRIPT_DIR@ + shim_dir_expr + REMOVE_SHIMS@ + sh_quoted(MARKER_PREFIX@) + REMOVE_SPOOL@
        + spool_expr + REMOVE_PNG@ + spool_expr + REMOVE_TXT@ + spool_expr + REMOVE_TMP@
        + spool_expr + REMOVE_TAIL@
}

/// The script that uninstalls: it removes only shims that carry our marker,
/// removes the spool files of both kinds and the temporary file, and removes
/// the spool directory only if nothing else is left in it.
pub fn remove_script(shim_dir_expr: &str, spool_expr: &str) -> (s: String)
    ensures
        s@ == spec_remove_script(shim_dir_expr@, spool_expr@),
{
    let marker = sh_quote(MARKER_PREFIX);
    let mut s = owned(SCRIPT_DIR);
    push_str(&mut s, shim_dir_expr);
    push_str(&mut s, REMOVE_SHIMS);
    push_str(&mut s, marker.as_str());
    push_str(&mut s, REMOVE_SPOOL);
    push_str(&mut s, spool_expr);
    push_str(&mut s, REMOVE_PNG);
    push_str(&mut s, spool_expr);
    push_str(&mut s, REMOVE_TXT);
    push_str(&mut s, spool_expr);
    push_str(&mut s, REMOVE_TMP);
    push_str(&mut s, spool_expr);
    push_str(&mut s, REMOVE_TAIL);
    s
}

/// `resolution_script(e)`, over plain values.
pub open spec fn spec_resolution_script(shim_dir_expr: Seq<char>) -> Seq<char> {
    SCRIPT_DIR@ + shim_dir_expr + RESOLVE_TAIL@
}

/// The script that reports, for each tool, what the remote PATH resolves
/// (`RESOLVED:<tool>:<path>`) and where our shim is (`EXPECTED:<tool>:<path>`).
pub fn resolution_script(shim_dir_expr: &str) -> (s: String)
    ensures
        s@ == spec_resolution_script(shim_dir_expr@),
{
    let mut s = owned(SCRIPT_DIR);
    push_str(&mut s, shim_dir_expr);
    push_str(&mut s, RESOLVE_TAIL);
    s
}

/// The `Host` pattern ssh matches for an alias: ssh compares patterns with
/// the host name, never with `user@host`, so the part after the last `@`.
pub open spec fn spec_host_pattern(ssh_alias: Seq<char>) -> Seq<char> {
    match last_index(ssh_alias, '@') {
        Some(i) => ssh_alias.skip(i + 1),
        None => ssh_alias,
    }
}

pub fn host_pattern(ssh_alias: &str) -> (s: String)
    ensures
        s@ == spec_host_pattern(ssh_alias@),
{
    let cs = chars_of(ssh_alias);
    let n = cs.len();
    match rfind_char(cs.as_slice(), '@') {
        Some(i) => {
            assert(i < n);
            let rest = cs.as_slice().split_at(i + 1).1;
            proof {
                assert(rest@ =~= ssh_alias@.skip(i + 1));
            }
            string_of(rest)
        },
        None => string_of(cs.as_slice()),
    }
}

// ---------------------------------------------------------------------------
// Planning
// ---------------------------------------------------------------------------
pub open spec fn or_port(port: Option<u16>, fallback: u16) -> u16 {
    match port {
        Some(p) => p,
        None => fallback,
    }
}

/// The name a target is registered under: the one given, else the alias.
pub open spec fn planned_name(ssh_alias: Seq<char>, name: Option<Seq<char>>) -> Seq<char> {
    match name {
        Some(n) => n,
        None => ssh_alias,
    }
}

/// The target setup installs: reached through `ssh_alias`; a target already
/// registered under the name keeps its directories and its port unless a
/// port is given; a new one gets the defaults.
pub open spec fn planned_target(
    table: Map<Seq<char>, TargetView>,
    ssh_alias: Seq<char>,
    name: Option<Seq<char>>,
    port: Option<u16>,
) -> TargetView {
    let n = planned_name(ssh_alias, name);
    if table.contains_key(n) {
        TargetView {
            host: ssh_alias,
            spool_dir: table[n].spool_dir,
            shim_dir: table[n].shim_dir,
            pull_port: or_port(port, table[n].pull_port),
        }
    } else {
        TargetView {
            host: ssh_alias,
            spool_dir: DEFAULT_SPOOL_DIR@,
            shim_dir: DEFAULT_SHIM_DIR@,
            pull_port: or_port(port, DEFAULT_PULL_PORT),
        }
    }
}

/// A validated target about to be installed, with its directories rendered
/// for the remote shell.
#[derive(Debug)]
pub struct SetupPlan {
    pub target_name: String,
    pub target: Target,
    pub shim_dir_expr: String,
    pub spool_expr: String,
}

/// Plans a setup of `ssh_alias` under `name` (the alias itself by default),
/// refusing a target that does not validate.
pub fn plan_setup(cfg: &Config, ssh_alias: &str, name: Option<&str>, port: Option<u16>) -> (r:
    Result<SetupPlan, TargetError>)
    ensures
        match target_problem(planned_target(cfg.targets@, ssh_alias@, opt_str_view(name), port)) {
            Some(p) => r matches Err(e) && e@ == p,
            None => r matches Ok(plan) && {
                let t = planned_target(cfg.targets@, ssh_alias@, opt_str_view(name), port);
                &&& plan.target_name@ == planned_name(ssh_alias@, opt_str_view(name))
                &&& plan.target@ == t
                &&& plan.shim_dir_expr@ == remote_path(t.shim_dir)
                &&& plan.spool_expr@ == remote_path(t.spool_dir)
            },
        },
{
    let target_name: &str = match name {
        Some(n) => n,
        None => ssh_alias,
    };
    let target = match cfg.targets.get(target_name) {
        Some(existing) => Target {
            host: owned(ssh_alias),
            spool_dir: existing.spool_dir.clone(),
            shim_dir: existing.shim_dir.clone(),
            pull_port: match port {
                Some(p) => p,
                None => existing.pull_port,
            },
        },
        None => Target {
            host: owned(ssh_alias),
            spool_dir: crate::config::default_spool_dir(),
            shim_dir: crate::config::default_shim_dir(),
            pull_port: match port {
                Some(p) => p,
                None => crate::config::default_pull_port(),
            },
        },
    };
    target.validate()?;
    let shim_dir_expr = remote_path_expr(target.shim_dir.as_str());
    let spool_expr = remote_path_expr(target.spool_dir.as_str());
    Ok(SetupPlan { target_name: owned(target_name), target, shim_dir_expr, spool_expr })
}

// ---------------------------------------------------------------------------
// Reading the inspection
// ---------------------------------------------------------------------------
/// A tool or file in the way of the shims, which `--force` overrides.
#[derive(Debug)]
pub enum Override {
    /// A real clipboard tool on the remote PATH that the shims would shadow.
    RealTool { tool: String, path: String },
    /// A file in the shim directory that ssh-paste did not write.
    ForeignFile { tool: String },
}

/// `Override` as plain values.
pub enum Finding {
    RealTool { tool: Seq<char>, path: Seq<char> },
    ForeignFile { tool: Seq<char> },
}

impl View for Override {
    type V = Finding;

    open spec fn view(&self) -> Finding {
        match self {
            Override::RealTool { tool, path } => Finding::RealTool { tool: tool@, path: path@ },
            Override::ForeignFile { tool } => Finding::ForeignFile { tool: tool@ },
        }
    }
}

pub const REAL_TAG: &'static str = "REAL:";

pub const UNMARKED_TAG: &'static str = "UNMARKED:";

pub const PATH_OK: &'static str = "PATHOK";

pub const UNKNOWN_PATH: &'static str = "an unknown path";

/// What one (trimmed) line of the inspection reports in the way of the
/// shims: `REAL:<tool>:<path>` (a line without the second `:` names an
/// unknown path) or `UNMARKED:<tool>`.
pub open spec fn finding_of(line: Seq<char>) -> Option<Finding> {
    if has_prefix(line, REAL_TAG@) {
        let rest = line.skip(REAL_TAG@.len() as int);
        match first_index(rest, ':') {
            Some(i) => Some(Finding::RealTool { tool: rest.take(i), path: rest.skip(i + 1) }),
            None => Some(Finding::RealTool { tool: rest, path: UNKNOWN_PATH@ }),
        }
    } else if has_prefix(line, UNMARKED_TAG@) {
        Some(Finding::ForeignFile { tool: line.skip(UNMARKED_TAG@.len() as int) })
    } else {
        None
    }
}

/// Where reading the inspection stands after some of its lines.
pub enum Scan {
    /// A finding stopped it (no `--force`).
    Blocked(Finding),
    /// The findings so far (kept under `--force`), and whether `PATHOK` was seen.
    Open(Seq<Finding>, bool),
}

/// Reads the inspection lines in order: without `--force` the first finding
/// stops setup; with it every finding is kept as an override.
pub open spec fn scan(lines: Seq<Seq<char>>, force: bool) -> Scan
    decreases lines.len(),
{
    if lines.len() == 0 {
        Scan::Open(Seq::empty(), false)
    } else {
        match scan(lines.drop_last(), force) {
            Scan::Blocked(f) => Scan::Blocked(f),
            Scan::Open(found, ok) => match finding_of(lines.last()) {
                Some(f) => if force {
                    Scan::Open(found.push(f), ok)
                } else {
                    Scan::Blocked(f)
                },
                None => Scan::Open(found, ok || lines.last() == PATH_OK@),
            },
        }
    }
}

proof fn lemma_scan_stays_blocked(lines: Seq<Seq<char>>, j: int, force: bool)
    requires
        0 <= j <= lines.len(),
        scan(lines.take(j), force) is Blocked,
    ensures
        scan(lines, force) == scan(lines.take(j), force),
    decreases lines.len() - j,
{
    if j < lines.len() {
        assert(lines.drop_last().take(j) =~= lines.take(j));
        lemma_scan_stays_blocked(lines.drop_last(), j, force);
    } else {
        assert(lines.take(j) =~= lines);
    }
}

/// Why setup stopped.
#[derive(Debug)]
pub enum SetupError {
    RealTool { tool: String, path: String },
    ForeignFile { tool: String },
    NotOnPath,
    PullListenerDied,
    PullMismatch { pulled: String, nonce: String },
    ReadbackMismatch { readback: String, probe: String },
}

/// `SetupError` as plain values.
pub enum SetupProblem {
    RealTool { tool: Seq<char>, path: Seq<char> },
    ForeignFile { tool: Seq<char> },
    NotOnPath,
    PullListenerDied,
    PullMismatch { pulled: Seq<char>, nonce: Seq<char> },
    ReadbackMismatch { readback: Seq<char>, probe: Seq<char> },
}

impl View for SetupError {
    type V = SetupProblem;

    open spec fn view(&self) -> SetupProblem {
        match self {
            SetupError::RealTool { tool, path } => SetupProblem::RealTool { tool: tool@, path: path@ },
            SetupError::ForeignFile { tool } => SetupProblem::ForeignFile { tool: tool@ },
            SetupError::NotOnPath => SetupProblem::NotOnPath,
            SetupError::PullListenerDied => SetupProblem::PullListenerDied,
            SetupError::PullMismatch { pulled, nonce } => SetupProblem::PullMismatch {
                pulled: pulled@,
                nonce: nonce@,
            },
            SetupError::ReadbackMismatch { readback, probe } => SetupProblem::ReadbackMismatch {
                readback: readback@,
                probe: probe@,
            },
        }
    }
}

pub open spec fn blocking(f: Finding) -> SetupProblem {
    match f {
        Finding::RealTool { tool, path } => SetupProblem::RealTool { tool, path },
        Finding::ForeignFile { tool } => SetupProblem::ForeignFile { tool },
    }
}

fn blocked_error(o: Override) -> (e: SetupError)
    ensures
        e@ == blocking(o@),
{
    match o {
        Override::RealTool { tool, path } => SetupError::RealTool { tool, path },
        Override::ForeignFile { tool } => SetupError::ForeignFile { tool },
    }
}

fn finding(line: &[char]) -> (r: Option<Override>)
    ensures
        match finding_of(line@) {
            Some(f) => r matches Some(o) && o@ == f,
            None => r is None,
        },
{
    let real_tag = chars_of(REAL_TAG);
    let unmarked = chars_of(UNMARKED_TAG);
    if starts_with(line, real_tag.as_slice()) {
        let rest = line.split_at(real_tag.len()).1;
        proof {
            assert(rest@ =~= line@.skip(REAL_TAG@.len() as int));
        }
        let n = rest.len();
        match find_char(rest, ':') {
            Some(i) => {
                assert(i < n);
                let (tool, after) = rest.split_at(i);
                let path = after.split_at(1).1;
                proof {
                    assert(tool@ =~= rest@.take(i as int));
                    assert(path@ =~= rest@.skip(i + 1));
                }
                Some(Override::RealTool { tool: string_of(tool), path: string_of(path) })
            },
            None => Some(Override::RealTool { tool: string_of(rest), path: owned(UNKNOWN_PATH) }),
        }
    } else if starts_with(line, unmarked.as_slice()) {
        let rest = line.split_at(unmarked.len()).1;
        proof {
            assert(rest@ =~= line@.skip(UNMARKED_TAG@.len() as int));
        }
        Some(Override::ForeignFile { tool: string_of(rest) })
    } else {
        None
    }
}

/// Reads what `inspect_script` reported: a real tool or a foreign file stops
/// setup unless `force` is given, in which case each is returned as an
/// override to warn about; a shim directory missing from PATH always stops
/// it, as the shims would never be found.
pub fn review_inspection(inspected: &str, force: bool) -> (r: Result<Vec<Override>, SetupError>)
    ensures
        match scan(trimmed_lines(inspected@), force) {
            Scan::Blocked(f) => r matches Err(e) && e@ == blocking(f),
            Scan::Open(found, ok) => if ok {
                r matches Ok(v) && v@.map_values(|o: Override| o@) == found
            } else {
                r matches Err(e) && e@ == SetupProblem::NotOnPath
            },
        },
{
    let lines = lines_trimmed(inspected);
    let ghost all = trimmed_lines(inspected@);
    let path_ok_line = chars_of(PATH_OK);
    let mut overrides: Vec<Override> = Vec::new();
    let mut path_ok = false;
    let mut k: usize = 0;
    proof {
        assert(all.take(0) =~= Seq::<Seq<char>>::empty());
        assert(overrides@.map_values(|o: Override| o@) =~= Seq::<Finding>::empty());
    }
    while k < lines.len()
        invariant
            all == trimmed_lines(inspected@),
            lines@.len() == all.len(),
            forall|m: int| 0 <= m < lines@.len() ==> #[trigger] lines@[m]@ == all[m],
            path_ok_line@ == PATH_OK@,
            k <= lines@.len(),
            scan(all.take(k as int), force) == Scan::Open(
                overrides@.map_values(|o: Override| o@),
                path_ok,
            ),
        decreases lines.len() - k,
    {
        let line = lines[k].as_slice();
        proof {
            assert(line@ == all[k as int]);
            assert(all.take(k + 1).drop_last() =~= all.take(k as int));
            assert(all.take(k + 1).last() == all[k as int]);
        }
        match finding(line) {
            Some(o) => {
                if !force {
                    proof {
                        assert(scan(all.take(k + 1), force) == Scan::Blocked(o@));
                        lemma_scan_stays_blocked(all, k + 1, force);
                    }
                    return Err(blocked_error(o));
                }
                let ghost prev = overrides@;
                let ghost ov = o@;
                overrides.push(o);
                proof {
                    assert(overrides@.map_values(|o: Override| o@) =~= prev.map_values(
                        |o: Override| o@,
                    ).push(ov));
                }
            },
            None => {
                if chars_eq(line, path_ok_line.as_slice()) {
                    path_ok = true;
                }
            },
        }
        k = k + 1;
    }
    proof {
        assert(all.take(all.len() as int) =~= all);
    }
    if !path_ok {
        return Err(SetupError::NotOnPath);
    }
    Ok(overrides)
}

// ---------------------------------------------------------------------------
// Reading the resolution
// ---------------------------------------------------------------------------
pub const RESOLVED_TAG: &'static str = "RESOLVED:";

pub const EXPECTED_TAG: &'static str = "EXPECTED:";

/// The value after `key` on the first line that starts with it.
pub open spec fn field_of(lines: Seq<Seq<char>>, key: Seq<char>) -> Option<Seq<char>>
    decreases lines.len(),
{
    if lines.len() == 0 {
        None
    } else if has_prefix(lines[0], key) {
        Some(lines[0].skip(key.len() as int))
    } else {
        field_of(lines.drop_first(), key)
    }
}

/// The key of a report line: `<tag><tool>:`.
pub open spec fn field_key(tag: Seq<char>, tool: Seq<char>) -> Seq<char> {
    tag + tool + seq![':']
}

/// What the remote PATH resolves for `tool` and where its shim is, when both
/// are reported and they differ.
pub open spec fn shadow_of(lines: Seq<Seq<char>>, tool: Seq<char>) -> Option<(Seq<char>, Seq<char>)> {
    match (field_of(lines, field_key(RESOLVED_TAG@, tool)), field_of(lines, field_key(EXPECTED_TAG@, tool))) {
        (Some(r), Some(e)) => if r != e {
            Some((r, e))
        } else {
            None
        },
        _ => None,
    }
}

pub open spec fn shadow_entry(lines: Seq<Seq<char>>, tool: Seq<char>) -> Seq<(Seq<char>, Seq<char>, Seq<char>)> {
    match shadow_of(lines, tool) {
        Some((r, e)) => seq![(tool, r, e)],
        None => Seq::empty(),
    }
}

/// The shadowed tools in a resolution report, `xclip` first.
pub open spec fn shadows(lines: Seq<Seq<char>>) -> Seq<(Seq<char>, Seq<char>, Seq<char>)> {
    shadow_entry(lines, "xclip"@) + shadow_entry(lines, "wl-paste"@)
}

/// A tool the remote PATH resolves to something other than its shim.
#[derive(Debug)]
pub struct Shadow {
    pub tool: String,
    pub resolved: String,
    pub expected: String,
}

impl View for Shadow {
    type V = (Seq<char>, Seq<char>, Seq<char>);

    open spec fn view(&self) -> (Seq<char>, Seq<char>, Seq<char>) {
        (self.tool@, self.resolved@, self.expected@)
    }
}

fn field(lines: &Vec<Vec<char>>, key: &[char]) -> (r: Option<Vec<char>>)
    ensures
        match field_of(lines@.map_values(|l: Vec<char>| l@), key@) {
            Some(v) => r matches Some(x) && x@ == v,
            None => r is None,
        },
{
    let ghost all = lines@.map_values(|l: Vec<char>| l@);
    let mut k: usize = 0;
    proof {
        assert(all.skip(0) =~= all);
    }
    while k < lines.len()
        invariant
            all == lines@.map_values(|l: Vec<char>| l@),
            k <= lines@.len(),
            field_of(all.skip(k as int), key@) == field_of(all, key@),
        decreases lines.len() - k,
    {
        let line = lines[k].as_slice();
        proof {
            assert(all.skip(k as int)[0] == line@);
            assert(all.skip(k as int).drop_first() =~= all.skip(k + 1));
        }
        if starts_with(line, key) {
            let rest = line.split_at(key.len()).1;
            proof {
                assert(rest@ =~= line@.skip(key@.len() as int));
            }
            let mut v: Vec<char> = Vec::new();
            let mut i: usize = 0;
            while i < rest.len()
                invariant
                    i <= rest@.len(),
                    v@ == rest@.take(i as int),
                decreases rest.len() - i,
            {
                v.push(rest[i]);
                proof {
                    assert(rest@.take(i + 1) =~= rest@.take(i as int).push(rest@[i as int]));
                }
                i = i + 1;
            }
            proof {
                assert(rest@.take(rest@.len() as int) =~= rest@);
            }
            return Some(v);
        }
        k = k + 1;
    }
    proof {
        assert(all.skip(k as int) =~= Seq::<Seq<char>>::empty());
    }
    None
}

fn key_for(tag: &str, tool: &str) -> (k: Vec<char>)
    ensures
        k@ == field_key(tag@, tool@),
{
    let mut k = chars_of(tag);
    let t = chars_of(tool);
    let mut i: usize = 0;
    let ghost start = k@;
    while i < t.len()
        invariant
            i <= t@.len(),
            k@ == start + t@.take(i as int),
        decreases t.len() - i,
    {
        k.push(t[i]);
        proof {
            assert(t@.take(i + 1) =~= t@.take(i as int).push(t@[i as int]));
        }
        i = i + 1;
    }
    k.push(':');
    proof {
        assert(t@.take(t@.len() as int) =~= t@);
        assert(k@ =~= field_key(tag@, tool@));
    }
    k
}

fn shadow_for(lines: &Vec<Vec<char>>, tool: &str, out: &mut Vec<Shadow>)
    ensures
        final(out)@.map_values(|s: Shadow| s@) == old(out)@.map_values(|s: Shadow| s@)
            + shadow_entry(lines@.map_values(|l: Vec<char>| l@), tool@),
{
    let ghost before = out@.map_values(|s: Shadow| s@);
    let rk = key_for(RESOLVED_TAG, tool);
    let ek = key_for(EXPECTED_TAG, tool);
    let resolved = field(lines, rk.as_slice());
    let expected = field(lines, ek.as_slice());
    match (resolved, expected) {
        (Some(r), Some(e)) => {
            if !chars_eq(r.as_slice(), e.as_slice()) {
                let s = Shadow { tool: owned(tool), resolved: string_of(r.as_slice()), expected: string_of(e.as_slice()) };
                let ghost sv = s@;
                out.push(s);
                proof {
                    assert(out@.map_values(|s: Shadow| s@) =~= before.push(sv));
                    assert(before.push(sv) =~= before + seq![sv]);
                }
            } else {
                proof {
                    assert(before + Seq::<(Seq<char>, Seq<char>, Seq<char>)>::empty() =~= before);
                }
            }
        },
        _ => {
            proof {
                assert(before + Seq::<(Seq<char>, Seq<char>, Seq<char>)>::empty() =~= before);
            }
        },
    }
}

/// Reads what `resolution_script` reported: the tools, `xclip` first, whose
/// name the remote PATH resolves to something other than the shim (or to
/// nothing); a tool missing from either report line is skipped.
pub fn shadowed_tools(resolution: &str) -> (r: Vec<Shadow>)
    ensures
        r@.map_values(|s: Shadow| s@) == shadows(trimmed_lines(resolution@)),
{
    let lines = lines_trimmed(resolution);
    proof {
        assert(lines@.map_values(|l: Vec<char>| l@) =~= trimmed_lines(resolution@));
    }
    let mut out: Vec<Shadow> = Vec::new();
    proof {
        assert(out@.map_values(|s: Shadow| s@) =~= Seq::<(Seq<char>, Seq<char>, Seq<char>)>::empty());
    }
    shadow_for(&lines, "xclip", &mut out);
    shadow_for(&lines, "wl-paste", &mut out);
    proof {
        assert(out@.map_values(|s: Shadow| s@) =~= shadows(trimmed_lines(resolution@)));
    }
    out
}

// ---------------------------------------------------------------------------
// What the user is warned of
// ---------------------------------------------------------------------------
pub open spec fn spec_override_warning(f: Finding, shim_dir: Seq<char>) -> Seq<char> {
    match f {
        Finding::RealTool { tool, path } => "warning: shadowing real "@ + tool + " at "@ + path
            + " (--force)"@,
        Finding::ForeignFile { tool } => "warning: overwriting foreign file at "@ + shim_dir + "/"@
            + tool + " (--force)"@,
    }
}

impl Override {
    /// The warning printed when `--force` overrides this finding.
    pub fn warning(&self, shim_dir: &str) -> (s: String)
        ensures
            s@ == spec_override_warning(self@, shim_dir@),
    {
        match self {
            Override::RealTool { tool, path } => {
                let mut s = owned("warning: shadowing real ");
                push_str(&mut s, tool.as_str());
                push_str(&mut s, " at ");
                push_str(&mut s, path.as_str());
                push_str(&mut s, " (--force)");
                s
            },
            Override::ForeignFile { tool } => {
                let mut s = owned("warning: overwriting foreign file at ");
                push_str(&mut s, shim_dir);
                push_str(&mut s, "/");
                push_str(&mut s, tool.as_str());
                push_str(&mut s, " (--force)");
                s
            },
        }
    }
}

pub const SHADOW_RESOLVES: &'static str = " resolves to ";

pub const SHADOW_NOT_SHIM: &'static str = ", not the shim at ";

pub const SHADOW_UNTIL: &'static str = "; Ctrl+V will keep hitting that binary until ";

pub const SHADOW_TAIL: &'static str = " comes first on PATH";

pub const NOTHING_ON_PATH: &'static str = "nothing on PATH";

pub open spec fn spec_shadow_warning(
    s: (Seq<char>, Seq<char>, Seq<char>),
    ssh_alias: Seq<char>,
    shim_dir: Seq<char>,
) -> Seq<char> {
    let (tool, resolved, expected) = s;
    "warning: "@ + tool + " on "@ + ssh_alias + SHADOW_RESOLVES@ + (if resolved.len() == 0 {
        NOTHING_ON_PATH@
    } else {
        resolved
    }) + SHADOW_NOT_SHIM@ + expected + SHADOW_UNTIL@ + shim_dir + SHADOW_TAIL@
}

impl Shadow {
    /// The warning printed for a shadowed tool: Ctrl+V will not reach the
    /// shim until its directory comes first on PATH.
    pub fn warning(&self, ssh_alias: &str, shim_dir: &str) -> (s: String)
        ensures
            s@ == spec_shadow_warning(self@, ssh_alias@, shim_dir@),
    {
        let mut s = owned("warning: ");
        push_str(&mut s, self.tool.as_str());
        push_str(&mut s, " on ");
        push_str(&mut s, ssh_alias);
        push_str(&mut s, SHADOW_RESOLVES);
        if self.resolved.as_str().is_empty() {
            push_str(&mut s, NOTHING_ON_PATH);
        } else {
            push_str(&mut s, self.resolved.as_str());
        }
        push_str(&mut s, SHADOW_NOT_SHIM);
        push_str(&mut s, self.expected.as_str());
        push_str(&mut s, SHADOW_UNTIL);
        push_str(&mut s, shim_dir);
        push_str(&mut s, SHADOW_TAIL);
        s
    }
}

// ---------------------------------------------------------------------------
// The probes
// ---------------------------------------------------------------------------
pub const LOOPBACK: &'static str = "127.0.0.1:";

/// The `-R` forward of the pull probe: the remote loopback port to the same
/// local loopback port.
pub fn pull_forward(port: u16) -> (s: String)
    ensures
        s@ == LOOPBACK@ + decimal(port as nat) + ":"@ + LOOPBACK@ + decimal(port as nat),
{
    let mut s = owned(LOOPBACK);
    push_decimal(&mut s, port as u128);
    push_str(&mut s, ":");
    push_str(&mut s, LOOPBACK);
    push_decimal(&mut s, port as u128);
    s
}

pub const READ_TEXT: &'static str = "/xclip -selection clipboard -t text/plain -o";

pub const FROM_SPOOL: &'static str = "SSH_PASTE_SOURCE=spool ";

/// The remote command that reads the clipboard text through the installed
/// `xclip` shim.
pub fn pull_command(shim_dir_expr: &str) -> (s: String)
    ensures
        s@ == shim_dir_expr@ + READ_TEXT@,
{
    let mut s = owned(shim_dir_expr);
    push_str(&mut s, READ_TEXT);
    s
}

/// The same read, forced to the spool instead of the tunnel.
pub fn readback_command(shim_dir_expr: &str) -> (s: String)
    ensures
        s@ == FROM_SPOOL@ + shim_dir_expr@ + READ_TEXT@,
{
    let mut s = owned(FROM_SPOOL);
    push_str(&mut s, shim_dir_expr);
    push_str(&mut s, READ_TEXT);
    s
}

/// The remote command that clears the probe out of the spool.
pub fn clear_probe_command(spool_expr: &str) -> (s: String)
    ensures
        s@ == "rm -f "@ + spool_expr@ + "/clip.txt "@ + spool_expr@ + "/clip.png"@,
{
    let mut s = owned("rm -f ");
    push_str(&mut s, spool_expr);
    push_str(&mut s, "/clip.txt ");
    push_str(&mut s, spool_expr);
    push_str(&mut s, "/clip.png");
    s
}

/// The text the pull probe serves, unique by the time it was made.
pub fn pull_nonce(nanos: u128) -> (s: String)
    ensures
        s@ == "ssh-paste pull probe "@ + decimal(nanos as nat),
{
    let mut s = owned("ssh-paste pull probe ");
    push_decimal(&mut s, nanos);
    s
}

/// The text the spool probe sends, unique by the time it was made.
pub fn spool_probe(nanos: u128) -> (s: String)
    ensures
        s@ == "ssh-paste probe "@ + decimal(nanos as nat),
{
    let mut s = owned("ssh-paste probe ");
    push_decimal(&mut s, nanos);
    s
}

/// Judges the pull probe once its round-trip is over: the local listener
/// must have lasted, and the shim must have pulled exactly the nonce.
pub fn check_pull(listener_ok: bool, pulled: &str, nonce: &str) -> (r: Result<(), SetupError>)
    ensures
        !listener_ok ==> (r matches Err(e) && e@ == SetupProblem::PullListenerDied),
        listener_ok && pulled@ != nonce@ ==> (r matches Err(e) && e@ == (SetupProblem::PullMismatch {
            pulled: pulled@,
            nonce: nonce@,
        })),
        listener_ok && pulled@ == nonce@ ==> r is Ok,
{
    if !listener_ok {
        return Err(SetupError::PullListenerDied);
    }
    if !str_eq(pulled, nonce) {
        return Err(SetupError::PullMismatch { pulled: owned(pulled), nonce: owned(nonce) });
    }
    Ok(())
}

/// Judges the spool probe: the shim must read back exactly what was sent.
pub fn check_readback(readback: &str, probe: &str) -> (r: Result<(), SetupError>)
    ensures
        readback@ != probe@ ==> (r matches Err(e) && e@ == (SetupProblem::ReadbackMismatch {
            readback: readback@,
            probe: probe@,
        })),
        readback@ == probe@ ==> r is Ok,
{
    if !str_eq(readback, probe) {
        return Err(SetupError::ReadbackMismatch { readback: owned(readback), probe: owned(probe) });
    }
    Ok(())
}

// ---------------------------------------------------------------------------
// What setup says when it stops
// ---------------------------------------------------------------------------
pub const REAL_EXISTS: &'static str = " exists on ";

pub const REAL_SHADOW: &'static str =
    "; ssh-paste shims would shadow a working clipboard tool. Re-run with --force if that is what you want";

pub const FOREIGN_NOT_OURS: &'static str =
    " was not written by ssh-paste; refusing to overwrite a file that is not ours. Re-run with --force to replace it";

pub const NOT_ON_PATH: &'static str = " is not on PATH for non-interactive ssh on ";

pub const NOT_ON_PATH_FIX: &'static str =
    ", so the shims would never be found. Add it to PATH in the startup file ssh reads (~/.profile or ~/.zshenv) and re-run `ssh-paste setup ";

pub const LISTENER_DIED: &'static str =
    "the local pull probe listener died before the round-trip finished, so pull mode is unverified and the target was not saved; re-run `ssh-paste setup ";

pub const THE_SHIM_ON: &'static str = "the shim on ";

pub const PULLED: &'static str = " pulled '";

pub const INSTEAD_OF: &'static str = "' instead of '";

pub const PULL_MISMATCH_TAIL: &'static str =
    "' through the tunnel, so the target was not saved. The remote needs curl on PATH and its own 127.0.0.1:";

pub const FREE_FOR_FORWARD: &'static str = " free for the forward";

pub const READ_BACK: &'static str = " read back '";

pub const READBACK_TAIL: &'static str =
    "', so the clipboard round-trip is broken and the target was not saved. Check that ";

pub const WRITABLE: &'static str = " is writable and that ";

pub const XCLIP_RUNS: &'static str = "/xclip runs there";

pub open spec fn spec_setup_message(p: SetupProblem, ssh_alias: Seq<char>, t: TargetView) -> Seq<char> {
    match p {
        SetupProblem::RealTool { tool, path } => "a real "@ + tool + REAL_EXISTS@ + ssh_alias + " at "@
            + path + REAL_SHADOW@,
        SetupProblem::ForeignFile { tool } => t.shim_dir + "/"@ + tool + " on "@ + ssh_alias
            + FOREIGN_NOT_OURS@,
        SetupProblem::NotOnPath => t.shim_dir + NOT_ON_PATH@ + ssh_alias + NOT_ON_PATH_FIX@ + ssh_alias
            + "`"@,
        SetupProblem::PullListenerDied => LISTENER_DIED@ + ssh_alias + "`"@,
        SetupProblem::PullMismatch { pulled, nonce } => THE_SHIM_ON@ + ssh_alias + PULLED@ + pulled
            + INSTEAD_OF@ + nonce + PULL_MISMATCH_TAIL@ + decimal(t.pull_port as nat)
            + FREE_FOR_FORWARD@,
        SetupProblem::ReadbackMismatch { readback, probe } => THE_SHIM_ON@ + ssh_alias + READ_BACK@
            + readback + INSTEAD_OF@ + probe + READBACK_TAIL@ + t.spool_dir + WRITABLE@ + t.shim_dir
            + XCLIP_RUNS@,
    }
}

impl SetupError {
    /// The text a user is shown when setting up `target` through `ssh_alias`
    /// stops for this reason.
    pub fn message(&self, ssh_alias: &str, target: &Target) -> (s: String)
        ensures
            s@ == spec_setup_message(self@, ssh_alias@, target@),
    {
        match self {
            SetupError::RealTool { tool, path } => {
                let mut s = owned("a real ");
                push_str(&mut s, tool.as_str());
                push_str(&mut s, REAL_EXISTS);
                push_str(&mut s, ssh_alias);
                push_str(&mut s, " at ");
                push_str(&mut s, path.as_str());
                push_str(&mut s, REAL_SHADOW);
                s
            },
            SetupError::ForeignFile { tool } => {
                let mut s = owned(target.shim_dir.as_str());
                push_str(&mut s, "/");
                push_str(&mut s, tool.as_str());
                push_str(&mut s, " on ");
                push_str(&mut s, ssh_alias);
                push_str(&mut s, FOREIGN_NOT_OURS);
                s
            },
            SetupError::NotOnPath => {
                let mut s = owned(target.shim_dir.as_str());
                push_str(&mut s, NOT_ON_PATH);
                push_str(&mut s, ssh_alias);
                push_str(&mut s, NOT_ON_PATH_FIX);
                push_str(&mut s, ssh_alias);
                push_str(&mut s, "`");
                s
            },
            SetupError::PullListenerDied => {
                let mut s = owned(LISTENER_DIED);
                push_str(&mut s, ssh_alias);
                push_str(&mut s, "`");
                s
            },
            SetupError::PullMismatch { pulled, nonce } => {
                let mut s = owned(THE_SHIM_ON);
                push_str(&mut s, ssh_alias);
                push_str(&mut s, PULLED);
                push_str(&mut s, pulled.as_str());
                push_str(&mut s, INSTEAD_OF);
                push_str(&mut s, nonce.as_str());
                push_str(&mut s, PULL_MISMATCH_TAIL);
                push_decimal(&mut s, target.pull_port as u128);
                push_str(&mut s, FREE_FOR_FORWARD);
                s
            },
            SetupError::ReadbackMismatch { readback, probe } => {
                let mut s = owned(THE_SHIM_ON);
                push_str(&mut s, ssh_alias);
                push_str(&mut s, READ_BACK);
                push_str(&mut s, readback.as_str());
                push_str(&mut s, INSTEAD_OF);
                push_str(&mut s, probe.as_str());
                push_str(&mut s, READBACK_TAIL);
                push_str(&mut s, target.spool_dir.as_str());
                push_str(&mut s, WRITABLE);
                push_str(&mut s, target.shim_dir.as_str());
                push_str(&mut s, XCLIP_RUNS);
                s
            },
        }
    }
}

// ---------------------------------------------------------------------------
// What setup says when it is done
// ---------------------------------------------------------------------------
/// Printed once the pull probe made its round-trip through the tunnel.
pub const PULL_PROBE_OK: &'static str =
    "pull probe ok: live clipboard round-trip verified through the tunnel";

pub const PORT_BUSY_HEAD: &'static str = "warning: 127.0.0.1:";

pub const PORT_BUSY_TAIL: &'static str =
    " is busy locally (ssh-paste serve already running?); skipping the pull probe: ";

/// The warning printed when the pull probe cannot listen locally; the
/// reason the listener gave follows it.
pub fn port_busy_warning(port: u16) -> (s: String)
    ensures
        s@ == PORT_BUSY_HEAD@ + decimal(port as nat) + PORT_BUSY_TAIL@,
{
    let mut s = owned(PORT_BUSY_HEAD);
    push_decimal(&mut s, port as u128);
    push_str(&mut s, PORT_BUSY_TAIL);
    s
}

pub const INSTALLED: &'static str = "installed xclip and wl-paste in ";

pub const PROBE_OK: &'static str = "probe ok: clipboard round-trip verified through the shim";

pub const SET_AS_DEFAULT: &'static str = " and set as the default";

pub const TO_FINISH: &'static str = "to finish pull mode, add to ~/.ssh/config and reconnect:";

pub const HOST_LINE: &'static str = "  Host ";

pub const FORWARD_LINE: &'static str = "    RemoteForward ";

pub const CONTROL_MASTER: &'static str =
    "(an existing ControlPersist master keeps old forwards \u{2014} run `ssh -O exit ";

pub const BEFORE_RECONNECTING: &'static str = "` before reconnecting)";

pub const KEEP_SERVING: &'static str = "then keep `ssh-paste serve` running locally";

pub const KEEP_SERVING_PORT: &'static str = "then keep `ssh-paste serve --port ";

pub const RUNNING_LOCALLY: &'static str = "` running locally";

/// What setup prints once the target is saved: where the shims are, that
/// both probes passed, the name it was saved under, the ssh config lines
/// that turn on pull mode, and how to keep the server running.
pub open spec fn spec_setup_report(
    shim_dir: Seq<char>,
    ssh_alias: Seq<char>,
    target_name: Seq<char>,
    port: u16,
    made_default: bool,
) -> Seq<Seq<char>> {
    seq![
        INSTALLED@ + shim_dir + " on "@ + ssh_alias,
        PROBE_OK@,
        "target '"@ + target_name + "' saved"@ + (if made_default {
            SET_AS_DEFAULT@
        } else {
            Seq::empty()
        }),
        TO_FINISH@,
        HOST_LINE@ + spec_host_pattern(ssh_alias),
        FORWARD_LINE@ + decimal(port as nat) + " "@ + LOOPBACK@ + decimal(port as nat),
        CONTROL_MASTER@ + ssh_alias + BEFORE_RECONNECTING@,
        if port == DEFAULT_PULL_PORT {
            KEEP_SERVING@
        } else {
            KEEP_SERVING_PORT@ + decimal(port as nat) + RUNNING_LOCALLY@
        },
    ]
}

pub fn setup_report(plan: &SetupPlan, ssh_alias: &str, made_default: bool) -> (lines: Vec<String>)
    ensures
        lines@.map_values(|l: String| l@) == spec_setup_report(
            plan.target.shim_dir@,
            ssh_alias@,
            plan.target_name@,
            plan.target.pull_port,
            made_default,
        ),
{
    let port = plan.target.pull_port;
    let mut lines: Vec<String> = Vec::new();

    let mut l1 = owned(INSTALLED);
    push_str(&mut l1, plan.target.shim_dir.as_str());
    push_str(&mut l1, " on ");
    push_str(&mut l1, ssh_alias);
    lines.push(l1);

    lines.push(owned(PROBE_OK));

    let mut l3 = owned("target '");
    push_str(&mut l3, plan.target_name.as_str());
    push_str(&mut l3, "' saved");
    if made_default {
        push_str(&mut l3, SET_AS_DEFAULT);
    } else {
        proof {
            assert(l3@ + Seq::<char>::empty() =~= l3@);
        }
    }
    lines.push(l3);

    lines.push(owned(TO_FINISH));

    let mut l5 = owned(HOST_LINE);
    let pattern = host_pattern(ssh_alias);
    push_str(&mut l5, pattern.as_str());
    lines.push(l5);

    let mut l6 = owned(FORWARD_LINE);
    push_decimal(&mut l6, port as u128);
    push_str(&mut l6, " ");
    push_str(&mut l6, LOOPBACK);
    push_decimal(&mut l6, port as u128);
    lines.push(l6);

    let mut l7 = owned(CONTROL_MASTER);
    push_str(&mut l7, ssh_alias);
    push_str(&mut l7, BEFORE_RECONNECTING);
    lines.push(l7);

    if port == DEFAULT_PULL_PORT {
        lines.push(owned(KEEP_SERVING));
    } else {
        let mut l8 = owned(KEEP_SERVING_PORT);
        push_decimal(&mut l8, port as u128);
        push_str(&mut l8, RUNNING_LOCALLY);
        lines.push(l8);
    }
    proof {
        assert(lines@.map_values(|l: String| l@) =~= spec_setup_report(
            plan.target.shim_dir@,
            ssh_alias@,
            plan.target_name@,
            plan.target.pull_port,
            made_default,
        ));
    }
    lines
}

// ---------------------------------------------------------------------------
// Removing a target
// ---------------------------------------------------------------------------
/// Why a target could not be removed.
#[derive(Debug)]
pub enum RemoveError {
    Resolve(ResolveError),
    Invalid(TargetError),
}

/// A target about to be uninstalled, with the script that does it.
#[derive(Debug)]
pub struct RemovePlan {
    pub name: String,
    pub host: String,
    pub shim_dir: String,
    pub spool_dir: String,
    pub script: String,
}

/// Plans the removal of the target registered as `name`: it must be
/// registered and must validate; the script removes its shims and spool.
pub fn plan_remove(cfg: &Config, name: &str) -> (r: Result<RemovePlan, RemoveError>)
    ensures
        !cfg.targets@.contains_key(name@) ==> (r matches Err(RemoveError::Resolve(
            ResolveError::UnknownTarget { name: n },
        )) && n@ == name@),
        cfg.targets@.contains_key(name@) ==> {
            let t = cfg.targets@[name@];
            match target_problem(t) {
                Some(p) => r matches Err(RemoveError::Invalid(e)) && e@ == p,
                None => r matches Ok(plan) && {
                    &&& plan.name@ == name@
                    &&& plan.host@ == t.host
                    &&& plan.shim_dir@ == t.shim_dir
                    &&& plan.spool_dir@ == t.spool_dir
                    &&& plan.script@ == spec_remove_script(
                        remote_path(t.shim_dir),
                        remote_path(t.spool_dir),
                    )
                },
            }
        },
{
    let (resolved, target) = match cfg.resolve(Some(name)) {
        Ok(found) => found,
        Err(e) => {
            return Err(RemoveError::Resolve(e));
        },
    };
    match target.validate() {
        Ok(()) => {},
        Err(e) => {
            return Err(RemoveError::Invalid(e));
        },
    }
    let shim_expr = remote_path_expr(target.shim_dir.as_str());
    let spool_expr = remote_path_expr(target.spool_dir.as_str());
    let script = remove_script(shim_expr.as_str(), spool_expr.as_str());
    Ok(RemovePlan {
        name: owned(resolved),
        host: target.host.clone(),
        shim_dir: target.shim_dir.clone(),
        spool_dir: target.spool_dir.clone(),
        script,
    })
}

impl RemovePlan {
    /// What a failure of the removal script is reported as having happened
    /// during.
    pub fn context(&self) -> (s: String)
        ensures
            s@ == "removing the ssh-paste shims and spool from "@ + self.host@,
    {
        let mut s = owned("removing the ssh-paste shims and spool from ");
        push_str(&mut s, self.host.as_str());
        s
    }
}

/// What remove prints once the remote side is clean and the target forgotten.
pub fn removal_report(plan: &RemovePlan) -> (lines: Vec<String>)
    ensures
        lines@.map_values(|l: String| l@) == seq![
            "removed the ssh-paste shims from "@ + plan.shim_dir@ + " and the spool "@
                + plan.spool_dir@ + " on "@ + plan.host@,
            "target '"@ + plan.name@ + "' forgotten"@,
        ],
{
    let mut l1 = owned("removed the ssh-paste shims from ");
    push_str(&mut l1, plan.shim_dir.as_str());
    push_str(&mut l1, " and the spool ");
    push_str(&mut l1, plan.spool_dir.as_str());
    push_str(&mut l1, " on ");
    push_str(&mut l1, plan.host.as_str());
    let mut l2 = owned("target '");
    push_str(&mut l2, plan.name.as_str());
    push_str(&mut l2, "' forgotten");
    let mut lines = Vec::new();
    lines.push(l1);
    lines.push(l2);
    proof {
        assert(lines@.map_values(|l: String| l@) =~= seq![
            "removed the ssh-paste shims from "@ + plan.shim_dir@ + " and the spool "@
                + plan.spool_dir@ + " on "@ + plan.host@,
            "target '"@ + plan.name@ + "' forgotten"@,
        ]);
    }
    lines
}

// ---------------------------------------------------------------------------
// Laws
// ---------------------------------------------------------------------------
/// Law: setup installs what it plans for the name it is given (the alias by
/// default), reached through the alias.  A name already registered keeps its
/// spool and shim directories (hand edits included) and its port unless a
/// port is given; a new name gets the default directories and port unless
/// a port is given.
pub proof fn law_setup_keeps_registered_target(
    table: Map<Seq<char>, TargetView>,
    ssh_alias: Seq<char>,
    name: Option<Seq<char>>,
    port: Option<u16>,
)
    ensures
        ({
            let n = match name {
                Some(x) => x,
                None => ssh_alias,
            };
            let t = planned_target(table, ssh_alias, name, port);
            &&& planned_name(ssh_alias, name) == n
            &&& t.host == ssh_alias
            &&& table.contains_key(n) ==> {
                &&& t.spool_dir == table[n].spool_dir
                &&& t.shim_dir == table[n].shim_dir
                &&& t.pull_port == match port {
                    Some(p) => p,
                    None => table[n].pull_port,
                }
            }
            &&& !table.contains_key(n) ==> {
                &&& t.spool_dir == "~/.cache/ssh-paste"@
                &&& t.shim_dir == "~/.local/bin"@
                &&& t.pull_port == match port {
                    Some(p) => p,
                    None => 7717u16,
                }
            }
        }),
{
}

/// Law: once setup saved `t` as `name`, setting the same name up again
/// (through any alias, without a port) plans the same directories and port.
pub proof fn law_setup_again_plans_the_same_target(
    table: Map<Seq<char>, TargetView>,
    name: Seq<char>,
    t: TargetView,
    ssh_alias: Seq<char>,
)
    ensures
        ({
            let again = planned_target(table.insert(name, t), ssh_alias, Some(name), None);
            &&& again.spool_dir == t.spool_dir
            &&& again.shim_dir == t.shim_dir
            &&& again.pull_port == t.pull_port
            &&& again.host == ssh_alias
        }),
{
}

/// Law: the scripts that inspect, install and remove the shims all work on
/// the same directory, the shim directory they are given: each starts by
/// setting `dir` to exactly that expression.  The spool expression of the
/// removal script only ever follows it.
pub proof fn law_scripts_work_in_the_shim_dir(shim_dir_expr: Seq<char>, spool_expr: Seq<char>, name: Seq<char>)
    ensures
        has_prefix(spec_inspect_script(shim_dir_expr), "dir="@ + shim_dir_expr + seq!['\n']),
        has_prefix(spec_install_script(shim_dir_expr, name), "dir="@ + shim_dir_expr + seq![';']),
        has_prefix(spec_remove_script(shim_dir_expr, spool_expr), "dir="@ + shim_dir_expr + seq!['\n']),
        has_prefix(spec_resolution_script(shim_dir_expr), "dir="@ + shim_dir_expr + seq!['\n']),
{
    reveal_strlit("dir=");
    reveal_strlit("\nfor name in xclip wl-paste; do\n  p=$(command -v \"$name\" 2>/dev/null || true)\n  if [ -n \"$p\" ] && ! head -n 2 \"$p\" 2>/dev/null | grep -q ");
    reveal_strlit("; mkdir -p \"$dir\" || exit 1; if cat > \"$dir\"/");
    reveal_strlit("\nfor name in xclip wl-paste; do\n  f=\"$dir/$name\"\n  if [ -e \"$f\" ] && head -n 2 \"$f\" 2>/dev/null | grep -q ");
    reveal_strlit("\nfor name in xclip wl-paste; do\n  echo \"RESOLVED:$name:$(command -v \"$name\" 2>/dev/null)\"\n  echo \"EXPECTED:$name:$dir/$name\"\ndone");
    let head = "dir="@ + shim_dir_expr;
    let l: int = head.len() as int + 1;
    let ins = spec_inspect_script(shim_dir_expr);
    assert(ins.take(l) =~= head + seq!['\n']);
    let inst = spec_install_script(shim_dir_expr, name);
    assert(inst.take(l) =~= head + seq![';']);
    let rem = spec_remove_script(shim_dir_expr, spool_expr);
    assert(rem.take(l) =~= head + seq!['\n']);
    let res = spec_resolution_script(shim_dir_expr);
    assert(res.take(l) =~= head + seq!['\n']);
}

} // verus!
