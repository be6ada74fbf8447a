//! Targets and their configuration: the defaults a new target gets, the
//! checks a target must pass before any script is built from it, the table of
//! registered targets and the choice of the target a command works on.
use vstd::prelude::*;

use crate::text::{
    any_space_or_control, chars_of, ends_with, has_prefix, has_suffix, is_cc, is_ws, owned,
    push_str, starts_with, str_eq,
};

verus! {

/// A remote host that clipboards are sent to.
#[derive(Debug)]
pub struct Target {
    pub host: String,
    pub spool_dir: String,
    pub shim_dir: String,
    pub pull_port: u16,
}

/// A target as plain values.
pub struct TargetView {
    pub host: Seq<char>,
    pub spool_dir: Seq<char>,
    pub shim_dir: Seq<char>,
    pub pull_port: u16,
}

impl View for Target {
    type V = TargetView;

    open spec fn view(&self) -> TargetView {
        TargetView {
            host: self.host@,
            spool_dir: self.spool_dir@,
            shim_dir: self.shim_dir@,
            pull_port: self.pull_port,
        }
    }
}

pub const DEFAULT_SPOOL_DIR: &'static str = "~/.cache/ssh-paste";

pub const DEFAULT_SHIM_DIR: &'static str = "~/.local/bin";

pub const DEFAULT_PULL_PORT: u16 = 7717;

/// The spool directory a new target gets.
pub fn default_spool_dir() -> (s: String)
    ensures
        s@ == DEFAULT_SPOOL_DIR@,
{
    owned(DEFAULT_SPOOL_DIR)
}

/// The shim directory a new target gets.
pub fn default_shim_dir() -> (s: String)
    ensures
        s@ == DEFAULT_SHIM_DIR@,
{
    owned(DEFAULT_SHIM_DIR)
}

/// The loopback port the shims pull from by default.
pub fn default_pull_port() -> (p: u16)
    ensures
        p == DEFAULT_PULL_PORT,
{
    DEFAULT_PULL_PORT
}

// ---------------------------------------------------------------------------
// Validation
// ---------------------------------------------------------------------------
/// Which directory of a target a problem is about.
#[derive(Debug, Clone, Copy, PartialEq, Eq, Structural)]
pub enum DirField {
    SpoolDir,
    ShimDir,
}

impl DirField {
    pub open spec fn spec_label(self) -> Seq<char> {
        match self {
            DirField::SpoolDir => "spool_dir"@,
            DirField::ShimDir => "shim_dir"@,
        }
    }

    /// The name of the field as it stands in the configuration file.
    pub fn label(&self) -> (s: &'static str)
        ensures
            s@ == self.spec_label(),
    {
        match self {
            DirField::SpoolDir => "spool_dir",
            DirField::ShimDir => "shim_dir",
        }
    }
}

/// Why a target was refused.
#[derive(Debug)]
pub enum TargetError {
    EmptyHost,
    HostStartsWithDash,
    HostHasSpaceOrControl,
    DirNotRooted { field: DirField, dir: String },
    DirEndsWithSlash { field: DirField, dir: String },
    PortZero,
}

/// `TargetError` as plain values.
pub enum TargetProblem {
    EmptyHost,
    HostStartsWithDash,
    HostHasSpaceOrControl,
    DirNotRooted { field: DirField, dir: Seq<char> },
    DirEndsWithSlash { field: DirField, dir: Seq<char> },
    PortZero,
}

impl View for TargetError {
    type V = TargetProblem;

    open spec fn view(&self) -> TargetProblem {
        match self {
            TargetError::EmptyHost => TargetProblem::EmptyHost,
            TargetError::HostStartsWithDash => TargetProblem::HostStartsWithDash,
            TargetError::HostHasSpaceOrControl => TargetProblem::HostHasSpaceOrControl,
            TargetError::DirNotRooted { field, dir } => TargetProblem::DirNotRooted {
                field: *field,
                dir: dir@,
            },
            TargetError::DirEndsWithSlash { field, dir } => TargetProblem::DirEndsWithSlash {
                field: *field,
                dir: dir@,
            },
            TargetError::PortZero => TargetProblem::PortZero,
        }
    }
}

/// Whether some character of `s` is whitespace or a control character.
pub open spec fn has_space_or_control(s: Seq<char>) -> bool {
    exists|k: int| 0 <= k < s.len() && (is_cc(#[trigger] s[k]) || is_ws(s[k]))
}

/// A directory must be absolute (`/...`) or under the remote home (`~/...`).
pub open spec fn dir_rooted(dir: Seq<char>) -> bool {
    has_prefix(dir, seq!['~', '/']) || has_prefix(dir, seq!['/'])
}

/// The first problem of `dir`, if any.
pub open spec fn dir_problem(field: DirField, dir: Seq<char>) -> Option<TargetProblem> {
    if !dir_rooted(dir) {
        Some(TargetProblem::DirNotRooted { field, dir })
    } else if has_suffix(dir, seq!['/']) {
        Some(TargetProblem::DirEndsWithSlash { field, dir })
    } else {
        None
    }
}

/// The first problem of `t`, in the order `validate` checks: the host, the
/// spool directory, the shim directory, then the port.
pub open spec fn target_problem(t: TargetView) -> Option<TargetProblem> {
    if t.host.len() == 0 {
        Some(TargetProblem::EmptyHost)
    } else if t.host[0] == '-' {
        Some(TargetProblem::HostStartsWithDash)
    } else if has_space_or_control(t.host) {
        Some(TargetProblem::HostHasSpaceOrControl)
    } else if dir_problem(DirField::SpoolDir, t.spool_dir) is Some {
        dir_problem(DirField::SpoolDir, t.spool_dir)
    } else if dir_problem(DirField::ShimDir, t.shim_dir) is Some {
        dir_problem(DirField::ShimDir, t.shim_dir)
    } else if t.pull_port == 0 {
        Some(TargetProblem::PortZero)
    } else {
        None
    }
}

/// Whether `t` passes `validate`.
pub open spec fn target_valid(t: TargetView) -> bool {
    target_problem(t) is None
}

fn check_dir(field: DirField, dir: &String) -> (r: Result<(), TargetError>)
    ensures
        match dir_problem(field, dir@) {
            None => r is Ok,
            Some(p) => r matches Err(e) && e@ == p,
        },
{
    let cs = chars_of(dir.as_str());
    let home = vec!['~', '/'];
    let root = vec!['/'];
    proof {
        assert(home@ =~= seq!['~', '/']);
        assert(root@ =~= seq!['/']);
    }
    if !(starts_with(cs.as_slice(), home.as_slice()) || starts_with(cs.as_slice(), root.as_slice())) {
        return Err(TargetError::DirNotRooted { field, dir: dir.clone() });
    }
    if ends_with(cs.as_slice(), root.as_slice()) {
        return Err(TargetError::DirEndsWithSlash { field, dir: dir.clone() });
    }
    Ok(())
}

impl Target {
    /// Checks the target before anything is built from it: the host must not
    /// be empty, must not read as an ssh option (leading `-`) and must hold no
    /// whitespace or control character; both directories must start with `~/`
    /// or `/` and must not end with `/`; the port must not be 0.  The error is
    /// the first problem in that order.
    pub fn validate(&self) -> (r: Result<(), TargetError>)
        ensures
            match target_problem(self@) {
                None => r is Ok,
                Some(p) => r matches Err(e) && e@ == p,
            },
    {
        let host = chars_of(self.host.as_str());
        if host.len() == 0 {
            return Err(TargetError::EmptyHost);
        }
        if host[0] == '-' {
            return Err(TargetError::HostStartsWithDash);
        }
        if any_space_or_control(host.as_slice()) {
            return Err(TargetError::HostHasSpaceOrControl);
        }
        check_dir(DirField::SpoolDir, &self.spool_dir)?;
        check_dir(DirField::ShimDir, &self.shim_dir)?;
        if self.pull_port == 0 {
            return Err(TargetError::PortZero);
        }
        Ok(())
    }
}

pub open spec fn spec_target_message(p: TargetProblem) -> Seq<char> {
    match p {
        TargetProblem::EmptyHost => "target host is empty"@,
        TargetProblem::HostStartsWithDash => "target host may not start with '-'"@,
        TargetProblem::HostHasSpaceOrControl => "target host contains whitespace or control characters"@,
        TargetProblem::DirNotRooted { field, dir } => field.spec_label() + DIR_NOT_ROOTED@
            + dir + "')"@,
        TargetProblem::DirEndsWithSlash { field, dir } => field.spec_label() + DIR_SLASH@ + dir
            + DIR_SLASH_TAIL@,
        TargetProblem::PortZero => "pull_port must be 1-65535"@,
    }
}

pub const DIR_NOT_ROOTED: &'static str = " must start with ~/ or / (got '";

pub const DIR_SLASH: &'static str = " must not end with '/' (got '";

pub const DIR_SLASH_TAIL: &'static str =
    "'); it names a directory ssh-paste owns, not the home or root directory";

impl TargetError {
    /// The text a user is shown for this error.
    pub fn message(&self) -> (s: String)
        ensures
            s@ == spec_target_message(self@),
    {
        match self {
            TargetError::EmptyHost => owned("target host is empty"),
            TargetError::HostStartsWithDash => owned("target host may not start with '-'"),
            TargetError::HostHasSpaceOrControl => owned(
                "target host contains whitespace or control characters",
            ),
            TargetError::DirNotRooted { field, dir } => {
                let mut s = owned(field.label());
                push_str(&mut s, DIR_NOT_ROOTED);
                push_str(&mut s, dir.as_str());
                push_str(&mut s, "')");
                s
            },
            TargetError::DirEndsWithSlash { field, dir } => {
                let mut s = owned(field.label());
                push_str(&mut s, DIR_SLASH);
                push_str(&mut s, dir.as_str());
                push_str(&mut s, DIR_SLASH_TAIL);
                s
            },
            TargetError::PortZero => owned("pull_port must be 1-65535"),
        }
    }
}

// ---------------------------------------------------------------------------
// The table of targets
// ---------------------------------------------------------------------------
/// Whether no two entries share a name.
pub open spec fn names_unique(s: Seq<(String, Target)>) -> bool {
    forall|i: int, j: int|
        0 <= i < s.len() && 0 <= j < s.len() && i != j ==> (#[trigger] s[i]).0@ != (
        #[trigger] s[j]).0@
}

/// The map from names to targets that the entries `s` hold.
pub open spec fn entries_map(s: Seq<(String, Target)>) -> Map<Seq<char>, TargetView>
    decreases s.len(),
{
    if s.len() == 0 {
        Map::empty()
    } else {
        entries_map(s.drop_last()).insert(s.last().0@, s.last().1@)
    }
}

proof fn lemma_entries_map(s: Seq<(String, Target)>)
    requires
        names_unique(s),
    ensures
        forall|k: Seq<char>|
            #[trigger] entries_map(s).contains_key(k) <==> exists|i: int|
                0 <= i < s.len() && (#[trigger] s[i]).0@ == k,
        forall|i: int| 0 <= i < s.len() ==> entries_map(s)[(#[trigger] s[i]).0@] == s[i].1@,
    decreases s.len(),
{
    if s.len() > 0 {
        let p = s.drop_last();
        assert(names_unique(p)) by {
            assert forall|i: int, j: int|
                0 <= i < p.len() && 0 <= j < p.len() && i != j implies (#[trigger] p[i]).0@ != (
            #[trigger] p[j]).0@ by {
                assert(p[i] == s[i] && p[j] == s[j]);
            }
        }
        lemma_entries_map(p);
        assert forall|k: Seq<char>| #[trigger]
            entries_map(s).contains_key(k) <==> exists|i: int|
                0 <= i < s.len() && (#[trigger] s[i]).0@ == k by {
            assert(entries_map(s) == entries_map(p).insert(s.last().0@, s.last().1@));
            if entries_map(s).contains_key(k) {
                if k == s.last().0@ {
                    assert(s[s.len() - 1].0@ == k);
                } else {
                    assert(entries_map(p).contains_key(k));
                    let i = choose|i: int| 0 <= i < p.len() && (#[trigger] p[i]).0@ == k;
                    assert(s[i] == p[i]);
                }
            }
            if exists|i: int| 0 <= i < s.len() && (#[trigger] s[i]).0@ == k {
                let i = choose|i: int| 0 <= i < s.len() && (#[trigger] s[i]).0@ == k;
                if i < s.len() - 1 {
                    assert(p[i] == s[i]);
                    assert(entries_map(p).contains_key(k));
                }
            }
        }
        assert forall|i: int| 0 <= i < s.len() implies entries_map(s)[(#[trigger] s[i]).0@]
            == s[i].1@ by {
            if i < s.len() - 1 {
                assert(p[i] == s[i]);
                assert(s[i].0@ != s[s.len() - 1].0@);
            }
        }
    }
}

/// The registered targets, by name; no name occurs twice.
#[derive(Debug)]
pub struct TargetTable {
    entries: Vec<(String, Target)>,
}

impl View for TargetTable {
    type V = Map<Seq<char>, TargetView>;

    closed spec fn view(&self) -> Map<Seq<char>, TargetView> {
        entries_map(self.entries@)
    }
}

impl TargetTable {
    #[verifier::type_invariant]
    spec fn unique(self) -> bool {
        names_unique(self.entries@)
    }

    /// An empty table.
    pub fn new() -> (t: TargetTable)
        ensures
            t@ == Map::<Seq<char>, TargetView>::empty(),
    {
        TargetTable { entries: Vec::new() }
    }

    /// The number of registered targets.
    pub fn len(&self) -> (n: usize)
        ensures
            n == self@.len(),
    {
        proof {
            use_type_invariant(self);
            lemma_entries_map(self.entries@);
            self.lemma_len();
        }
        self.entries.len()
    }

    proof fn lemma_len(&self)
        requires
            names_unique(self.entries@),
        ensures
            self@.dom().finite(),
            self@.len() == self.entries@.len(),
    {
        lemma_entries_map_len(self.entries@);
    }

    /// Whether no target is registered.
    pub fn is_empty(&self) -> (b: bool)
        ensures
            b == (self@.len() == 0),
    {
        self.len() == 0
    }

    fn find(&self, name: &str) -> (r: Option<usize>)
        ensures
            r matches Some(i) ==> i < self.entries@.len() && self.entries@[i as int].0@ == name@,
            r is None ==> forall|i: int|
                0 <= i < self.entries@.len() ==> (#[trigger] self.entries@[i]).0@ != name@,
    {
        let mut i: usize = 0;
        while i < self.entries.len()
            invariant
                i <= self.entries@.len(),
                forall|k: int| 0 <= k < i ==> (#[trigger] self.entries@[k]).0@ != name@,
            decreases self.entries.len() - i,
        {
            if str_eq(self.entries[i].0.as_str(), name) {
                return Some(i);
            }
            i = i + 1;
        }
        None
    }

    /// The registered name and target for `name`.
    pub fn get_key_value(&self, name: &str) -> (r: Option<(&String, &Target)>)
        ensures
            r is Some <==> self@.contains_key(name@),
            r matches Some((k, t)) ==> k@ == name@ && t@ == self@[name@],
    {
        proof {
            use_type_invariant(self);
            lemma_entries_map(self.entries@);
        }
        match self.find(name) {
            Some(i) => {
                let e = &self.entries[i];
                Some((&e.0, &e.1))
            },
            None => None,
        }
    }

    /// The target registered as `name`.
    pub fn get(&self, name: &str) -> (r: Option<&Target>)
        ensures
            r is Some <==> self@.contains_key(name@),
            r matches Some(t) ==> t@ == self@[name@],
    {
        match self.get_key_value(name) {
            Some((_, t)) => Some(t),
            None => None,
        }
    }

    /// Registers `target` as `name`, replacing what was registered so.
    pub fn insert(&mut self, name: String, target: Target)
        ensures
            final(self)@ == old(self)@.insert(name@, target@),
    {
        proof {
            use_type_invariant(&*self);
            lemma_entries_map(self.entries@);
        }
        let ghost old_entries = self.entries@;
        let ghost k = name@;
        let ghost v = target@;
        let found = self.find(name.as_str());
        let mut entries: Vec<(String, Target)> = Vec::new();
        std::mem::swap(&mut entries, &mut self.entries);
        match found {
            Some(i) => {
                entries.set(i, (name, target));
                proof {
                    let s = entries@;
                    assert(s == old_entries.update(i as int, s[i as int]));
                    assert(names_unique(s)) by {
                        assert forall|a: int, b: int|
                            0 <= a < s.len() && 0 <= b < s.len() && a != b implies (
                        #[trigger] s[a]).0@ != (#[trigger] s[b]).0@ by {
                            if a != i && b != i {
                                assert(s[a] == old_entries[a] && s[b] == old_entries[b]);
                            } else if a == i {
                                assert(s[b] == old_entries[b]);
                                assert(old_entries[i as int].0@ != old_entries[b].0@);
                            } else {
                                assert(s[a] == old_entries[a]);
                                assert(old_entries[i as int].0@ != old_entries[a].0@);
                            }
                        }
                    }
                    lemma_entries_map(s);
                    assert forall|key: Seq<char>| #[trigger]
                        entries_map(s).contains_key(key) <==> entries_map(
                            old_entries,
                        ).insert(k, v).contains_key(key) by {
                        if entries_map(s).contains_key(key) {
                            let a = choose|a: int| 0 <= a < s.len() && (#[trigger] s[a]).0@ == key;
                            if a != i {
                                assert(s[a] == old_entries[a]);
                            }
                        }
                        if entries_map(old_entries).contains_key(key) {
                            let a = choose|a: int|
                                0 <= a < old_entries.len() && (#[trigger] old_entries[a]).0@
                                    == key;
                            if a != i {
                                assert(s[a] == old_entries[a]);
                            } else {
                                assert(s[a].0@ == k);
                            }
                        }
                    }
                    assert forall|key: Seq<char>| #[trigger]
                        entries_map(s).contains_key(key) implies entries_map(s)[key]
                        == entries_map(old_entries).insert(k, v)[key] by {
                        let a = choose|a: int| 0 <= a < s.len() && (#[trigger] s[a]).0@ == key;
                        if a != i {
                            assert(s[a] == old_entries[a]);
                            assert(key != k);
                        }
                    }
                    assert(entries_map(s) =~= entries_map(old_entries).insert(k, v));
                }
            },
            None => {
                entries.push((name, target));
                proof {
                    let s = entries@;
                    assert(s.drop_last() =~= old_entries);
                    assert(names_unique(s)) by {
                        assert forall|a: int, b: int|
                            0 <= a < s.len() && 0 <= b < s.len() && a != b implies (
                        #[trigger] s[a]).0@ != (#[trigger] s[b]).0@ by {
                            if a < old_entries.len() && b < old_entries.len() {
                                assert(s[a] == old_entries[a] && s[b] == old_entries[b]);
                            } else if a < old_entries.len() {
                                assert(s[a] == old_entries[a]);
                            } else {
                                assert(s[b] == old_entries[b]);
                            }
                        }
                    }
                }
            },
        }
        self.entries = entries;
    }

    /// Forgets the target registered as `name`, if any.
    pub fn remove(&mut self, name: &str) -> (r: Option<Target>)
        ensures
            final(self)@ == old(self)@.remove(name@),
            r is Some <==> old(self)@.contains_key(name@),
            r matches Some(t) ==> t@ == old(self)@[name@],
    {
        proof {
            use_type_invariant(&*self);
            lemma_entries_map(self.entries@);
        }
        let ghost old_entries = self.entries@;
        match self.find(name) {
            Some(i) => {
                let mut entries: Vec<(String, Target)> = Vec::new();
                std::mem::swap(&mut entries, &mut self.entries);
                let (_, t) = entries.remove(i);
                proof {
                    let s = entries@;
                    assert forall|a: int| 0 <= a < s.len() implies #[trigger] s[a] == (if a < i {
                        old_entries[a]
                    } else {
                        old_entries[a + 1]
                    }) by {}
                    assert(names_unique(s)) by {
                        assert forall|a: int, b: int|
                            0 <= a < s.len() && 0 <= b < s.len() && a != b implies (
                        #[trigger] s[a]).0@ != (#[trigger] s[b]).0@ by {
                            let oa = if a < i {
                                a
                            } else {
                                a + 1
                            };
                            let ob = if b < i {
                                b
                            } else {
                                b + 1
                            };
                            assert(s[a] == old_entries[oa] && s[b] == old_entries[ob]);
                        }
                    }
                    lemma_entries_map(s);
                    let target_map = entries_map(old_entries).remove(name@);
                    assert forall|key: Seq<char>| #[trigger]
                        entries_map(s).contains_key(key) <==> target_map.contains_key(key) by {
                        if entries_map(s).contains_key(key) {
                            let a = choose|a: int| 0 <= a < s.len() && (#[trigger] s[a]).0@ == key;
                            let oa = if a < i {
                                a
                            } else {
                                a + 1
                            };
                            assert(s[a] == old_entries[oa]);
                            assert(oa != i);
                        }
                        if target_map.contains_key(key) {
                            let a = choose|a: int|
                                0 <= a < old_entries.len() && (#[trigger] old_entries[a]).0@
                                    == key;
                            assert(a != i);
                            if a < i {
                                assert(s[a] == old_entries[a]);
                            } else {
                                assert(s[a - 1] == old_entries[a]);
                            }
                        }
                    }
                    assert forall|key: Seq<char>| #[trigger]
                        entries_map(s).contains_key(key) implies entries_map(s)[key]
                        == target_map[key] by {
                        let a = choose|a: int| 0 <= a < s.len() && (#[trigger] s[a]).0@ == key;
                        let oa = if a < i {
                            a
                        } else {
                            a + 1
                        };
                        assert(s[a] == old_entries[oa]);
                    }
                    assert(entries_map(s) =~= target_map);
                }
                self.entries = entries;
                Some(t)
            },
            None => {
                proof {
                    assert(entries_map(old_entries).remove(name@) =~= entries_map(old_entries));
                }
                None
            },
        }
    }

    /// The registered names and targets, for callers that walk the table.
    pub fn entries(&self) -> (r: &Vec<(String, Target)>)
        ensures
            names_unique(r@),
            entries_map(r@) == self@,
    {
        proof {
            use_type_invariant(self);
        }
        &self.entries
    }
}

proof fn lemma_entries_map_len(s: Seq<(String, Target)>)
    requires
        names_unique(s),
    ensures
        entries_map(s).dom().finite(),
        entries_map(s).len() == s.len(),
    decreases s.len(),
{
    if s.len() > 0 {
        let p = s.drop_last();
        assert(names_unique(p)) by {
            assert forall|i: int, j: int|
                0 <= i < p.len() && 0 <= j < p.len() && i != j implies (#[trigger] p[i]).0@ != (
            #[trigger] p[j]).0@ by {
                assert(p[i] == s[i] && p[j] == s[j]);
            }
        }
        lemma_entries_map_len(p);
        lemma_entries_map(p);
        assert(!entries_map(p).contains_key(s.last().0@)) by {
            if entries_map(p).contains_key(s.last().0@) {
                let i = choose|i: int| 0 <= i < p.len() && (#[trigger] p[i]).0@ == s.last().0@;
                assert(p[i] == s[i]);
            }
        }
    }
}

// ---------------------------------------------------------------------------
// The configuration
// ---------------------------------------------------------------------------
/// The targets ssh-paste knows and the one used when none is named.
#[derive(Debug)]
pub struct Config {
    pub default_target: Option<String>,
    pub targets: TargetTable,
}

pub open spec fn opt_view(o: Option<String>) -> Option<Seq<char>> {
    match o {
        Some(s) => Some(s@),
        None => None,
    }
}

pub open spec fn opt_str_view(o: Option<&str>) -> Option<Seq<char>> {
    match o {
        Some(s) => Some(s@),
        None => None,
    }
}

/// The name a command works on: the one given, else the default target.
pub open spec fn chosen_name(given: Option<Seq<char>>, default: Option<Seq<char>>) -> Option<
    Seq<char>,
> {
    match given {
        Some(n) => Some(n),
        None => default,
    }
}

/// Why no target could be chosen.
#[derive(Debug)]
pub enum ResolveError {
    NoTarget,
    UnknownTarget { name: String },
}

pub const NO_TARGET: &'static str =
    "no target given and no default_target set; run `ssh-paste setup <ssh-alias>` first";

pub const UNKNOWN_HEAD: &'static str = "unknown target '";

pub const UNKNOWN_MID: &'static str = "'; run `ssh-paste setup <ssh-alias> --name ";

pub const UNKNOWN_TAIL: &'static str = "` first";

pub open spec fn spec_unknown_target_message(name: Seq<char>) -> Seq<char> {
    UNKNOWN_HEAD@ + name + UNKNOWN_MID@ + name + UNKNOWN_TAIL@
}

impl ResolveError {
    /// The text a user is shown for this error; both point at `ssh-paste setup`.
    pub fn message(&self) -> (s: String)
        ensures
            self is NoTarget ==> s@ == NO_TARGET@,
            self matches ResolveError::UnknownTarget { name } ==> s@
                == spec_unknown_target_message(name@),
    {
        match self {
            ResolveError::NoTarget => owned(NO_TARGET),
            ResolveError::UnknownTarget { name } => {
                let mut s = owned(UNKNOWN_HEAD);
                push_str(&mut s, name.as_str());
                push_str(&mut s, UNKNOWN_MID);
                push_str(&mut s, name.as_str());
                push_str(&mut s, UNKNOWN_TAIL);
                s
            },
        }
    }
}

impl Config {
    /// A configuration with no targets and no default.
    pub fn new() -> (c: Config)
        ensures
            c.default_target is None,
            c.targets@ == Map::<Seq<char>, TargetView>::empty(),
    {
        Config { default_target: None, targets: TargetTable::new() }
    }

    /// Chooses the target a command works on: `name` if given, else the
    /// default target; the chosen name must be registered.
    pub fn resolve(&self, name: Option<&str>) -> (r: Result<(&str, &Target), ResolveError>)
        ensures
            match chosen_name(opt_str_view(name), opt_view(self.default_target)) {
                None => r matches Err(ResolveError::NoTarget),
                Some(n) => if self.targets@.contains_key(n) {
                    r matches Ok((k, t)) && k@ == n && t@ == self.targets@[n]
                } else {
                    r matches Err(ResolveError::UnknownTarget { name: m }) && m@ == n
                },
            },
    {
        let chosen: &str = match name {
            Some(n) => n,
            None => match &self.default_target {
                Some(d) => d.as_str(),
                None => {
                    return Err(ResolveError::NoTarget);
                },
            },
        };
        match self.targets.get_key_value(chosen) {
            Some((k, t)) => Ok((k.as_str(), t)),
            None => Err(ResolveError::UnknownTarget { name: owned(chosen) }),
        }
    }

    /// Registers `target` as `name`; a configuration without a default target
    /// takes `name` as its default.  Returns whether it did.
    pub fn register(&mut self, name: &str, target: Target) -> (made_default: bool)
        ensures
            final(self).targets@ == old(self).targets@.insert(name@, target@),
            made_default == (old(self).default_target is None),
            opt_view(final(self).default_target) == if made_default {
                Some(name@)
            } else {
                opt_view(old(self).default_target)
            },
    {
        self.targets.insert(owned(name), target);
        let made_default = self.default_target.is_none();
        if made_default {
            self.default_target = Some(owned(name));
        }
        made_default
    }

    /// Forgets the target `name`; if it was the default, no default is left.
    pub fn forget(&mut self, name: &str)
        ensures
            final(self).targets@ == old(self).targets@.remove(name@),
            opt_view(final(self).default_target) == if opt_view(old(self).default_target) == Some(
                name@,
            ) {
                None
            } else {
                opt_view(old(self).default_target)
            },
    {
        self.targets.remove(name);
        let was_default = match &self.default_target {
            Some(d) => str_eq(d.as_str(), name),
            None => false,
        };
        if was_default {
            self.default_target = None;
        }
    }
}

impl Default for Config {
    fn default() -> (c: Config)
        ensures
            c.default_target is None,
            c.targets@ == Map::<Seq<char>, TargetView>::empty(),
    {
        Config::new()
    }
}

// ---------------------------------------------------------------------------
// Laws
// ---------------------------------------------------------------------------
/// Law: a directory that passes `validate` names, once the remote shell has
/// expanded it (`remote_path_expr`), never the root `/`; a `~/` directory
/// names one strictly below the remote home, never the home itself; any
/// other is the absolute path as written.
pub proof fn law_valid_dir_is_owned(field: DirField, dir: Seq<char>, home: Seq<char>)
    requires
        dir_problem(field, dir) is None,
    ensures
        crate::sh::shell_value(crate::sh::remote_path(dir), false, home) == Some(
            crate::sh::expand_home(dir, home),
        ),
        crate::sh::expand_home(dir, home) != seq!['/'],
        has_prefix(dir, seq!['~', '/']) ==> has_prefix(
            crate::sh::expand_home(dir, home),
            home + seq!['/'],
        ) && crate::sh::expand_home(dir, home).len() > home.len() + 1,
        !has_prefix(dir, seq!['~', '/']) ==> crate::sh::expand_home(dir, home) == dir && has_prefix(
            dir,
            seq!['/'],
        ) && dir.len() >= 2,
{
    crate::sh::lemma_remote_path_reads_back(dir, home);
    let d = crate::sh::expand_home(dir, home);
    if has_prefix(dir, seq!['~', '/']) {
        assert(dir != seq!['~']);
        assert(dir.len() > 2) by {
            if dir.len() == 2 {
                assert(dir.skip(dir.len() - 1) =~= seq![dir[1]]);
                assert(dir.take(2)[1] == '/');
            }
        }
        assert(d == home + dir.skip(1));
        assert(dir.skip(1)[0] == '/') by {
            assert(dir.take(2)[1] == '/');
        }
        assert(d.take(home.len() + 1int) =~= home + seq!['/']);
        assert(d.len() > home.len() + 1);
        assert(d != seq!['/']);
    } else {
        assert(has_prefix(dir, seq!['/']));
        assert(dir != seq!['~']) by {
            assert(dir.take(1)[0] == '/');
        }
        assert(d == dir);
        assert(dir.len() >= 2) by {
            if dir.len() == 1 {
                assert(dir.skip(0) =~= dir);
                assert(dir.take(1) =~= dir);
            }
        }
    }
}

/// Law: a target with the default directories and port validates whenever
/// its host does (non-empty, no leading `-`, no whitespace or control
/// characters).
pub proof fn law_defaults_validate(host: Seq<char>)
    requires
        host.len() > 0,
        host[0] != '-',
        !has_space_or_control(host),
    ensures
        target_valid(
            TargetView {
                host,
                spool_dir: DEFAULT_SPOOL_DIR@,
                shim_dir: DEFAULT_SHIM_DIR@,
                pull_port: DEFAULT_PULL_PORT,
            },
        ),
{
    reveal_strlit("~/.cache/ssh-paste");
    reveal_strlit("~/.local/bin");
    assert(DEFAULT_SPOOL_DIR@.take(2) =~= seq!['~', '/']);
    assert(DEFAULT_SHIM_DIR@.take(2) =~= seq!['~', '/']);
    assert(DEFAULT_SPOOL_DIR@.skip(DEFAULT_SPOOL_DIR@.len() - 1) =~= seq!['e']);
    assert(DEFAULT_SHIM_DIR@.skip(DEFAULT_SHIM_DIR@.len() - 1) =~= seq!['n']);
    assert(seq!['e'][0] != seq!['/'][0]);
    assert(seq!['n'][0] != seq!['/'][0]);
    assert(!has_suffix(DEFAULT_SPOOL_DIR@, seq!['/']));
    assert(!has_suffix(DEFAULT_SHIM_DIR@, seq!['/']));
    assert(dir_rooted(DEFAULT_SPOOL_DIR@));
    assert(dir_rooted(DEFAULT_SHIM_DIR@));
}

/// Law: after `register(name, t)`, `resolve(Some(name))` finds `t`, and a
/// configuration that had no default now resolves `None` to `name` too.
pub proof fn law_register_then_resolve(
    targets: Map<Seq<char>, TargetView>,
    default: Option<Seq<char>>,
    name: Seq<char>,
    t: TargetView,
)
    ensures
        ({
            let after = targets.insert(name, t);
            let d = if default is None {
                Some(name)
            } else {
                default
            };
            &&& chosen_name(Some(name), d) == Some(name)
            &&& after.contains_key(name)
            &&& after[name] == t
            &&& default is None ==> chosen_name(None, d) == Some(name)
        }),
{
}

/// Law: after `forget(name)`, `resolve(Some(name))` is an unknown target, and
/// the default never names the forgotten target.
pub proof fn law_forget_then_resolve(
    targets: Map<Seq<char>, TargetView>,
    default: Option<Seq<char>>,
    name: Seq<char>,
)
    ensures
        ({
            let after = targets.remove(name);
            let d = if default == Some(name) {
                None
            } else {
                default
            };
            &&& !after.contains_key(name)
            &&& chosen_name(None, d) != Some(name)
        }),
{
}

/// Law: registering a name that was not registered and then forgetting it
/// leaves the configuration as it was: the table of targets, and the default
/// target unless the default already named it.
pub proof fn law_register_forget_roundtrip(
    targets: Map<Seq<char>, TargetView>,
    default: Option<Seq<char>>,
    name: Seq<char>,
    t: TargetView,
)
    requires
        !targets.contains_key(name),
        default != Some(name),
    ensures
        targets.insert(name, t).remove(name) == targets,
        ({
            let registered = if default is None {
                Some(name)
            } else {
                default
            };
            let forgotten = if registered == Some(name) {
                None
            } else {
                registered
            };
            forgotten == default
        }),
{
    assert(targets.insert(name, t).remove(name) =~= targets);
}

/// Law: a host is refused only for what it is refused for: `EmptyHost`
/// exactly when it is empty, `HostStartsWithDash` only when it starts with
/// `-`, and `HostHasSpaceOrControl` only when one of its characters is
/// whitespace or a control character.
pub proof fn law_host_refusals(t: TargetView)
    ensures
        (target_problem(t) matches Some(TargetProblem::EmptyHost)) <==> t.host.len() == 0,
        (target_problem(t) matches Some(TargetProblem::HostStartsWithDash)) ==> t.host.len() > 0
            && t.host[0] == '-',
        (target_problem(t) matches Some(TargetProblem::HostHasSpaceOrControl)) ==> exists|k: int|
            0 <= k < t.host.len() && (is_ws(#[trigger] t.host[k]) || is_cc(t.host[k])),
{
}

/// Law: every host written in printable ASCII without a space (names with
/// dots, `user@host`, IP addresses, ...) that does not start with `-`
/// validates with the default directories and port.
pub proof fn law_printable_host_validates(host: Seq<char>)
    requires
        host.len() > 0,
        host[0] != '-',
        forall|k: int| 0 <= k < host.len() ==> 0x21 <= (#[trigger] host[k]) as u32 <= 0x7e,
    ensures
        target_valid(
            TargetView {
                host,
                spool_dir: DEFAULT_SPOOL_DIR@,
                shim_dir: DEFAULT_SHIM_DIR@,
                pull_port: DEFAULT_PULL_PORT,
            },
        ),
{
    assert(!has_space_or_control(host)) by {
        if has_space_or_control(host) {
            let k = choose|k: int| 0 <= k < host.len() && (is_cc(#[trigger] host[k]) || is_ws(host[k]));
            assert(0x21 <= host[k] as u32 <= 0x7e);
        }
    }
    law_defaults_validate(host);
}

} // verus!
