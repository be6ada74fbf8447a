//! The order of a setup as a state machine.  The caller performs each step
//! (ssh runs, the local pull-probe listener, sending the spool probe) and
//! reports what happened; the machine decides what comes next, and a target
//! reaches the point where it is saved only once the pull probe came back
//! intact (or could not run because its port was busy locally) and the spool
//! probe read back exactly what was sent.
use vstd::prelude::*;

use crate::config::{Config, TargetError, TargetView, opt_str_view, opt_view, target_problem};
use crate::sh::remote_path;
use crate::setup::{
    Finding, Override, Shadow, shadows, spec_override_warning, spec_shadow_warning, FROM_SPOOL, LOOPBACK, READ_TEXT, PULL_PROBE_OK, Scan, SetupError, SetupPlan, SetupProblem, check_pull, check_readback,
    clear_probe_command, inspect_script, install_script, planned_name, planned_target, plan_setup,
    pull_command, pull_forward, pull_nonce, readback_command, resolution_script, review_inspection,
    scan, setup_report, shadowed_tools, spec_inspect_script, spec_install_script,
    spec_resolution_script, spec_setup_report, spool_probe,
};
use crate::text::{decimal, has_prefix, owned, push_decimal, push_str, trimmed_lines};

verus! {

/// Where a setup stands.
#[derive(Debug, Clone, Copy, PartialEq, Eq, Structural)]
pub enum Stage {
    /// Waiting for `true` to run over ssh: the host is reachable.
    Reach,
    /// Waiting for the inspection report.
    Inspect,
    /// Waiting for the `xclip` shim to be installed.
    InstallXclip,
    /// Waiting for the `wl-paste` shim to be installed.
    InstallWlPaste,
    /// Waiting for the resolution report.
    Resolve,
    /// Waiting for the pull probe through a reverse tunnel.
    PullProbe,
    /// Waiting for the spool probe to be sent.
    SpoolProbe,
    /// Waiting for the spool probe to be read back through the shim.
    Readback,
    /// Waiting for the probe to be cleared out of the spool.
    Clear,
    /// Both probes passed; the target may be saved.
    Save,
    /// The target was saved.
    Done,
    /// Setup stopped.
    Failed,
}

/// What the caller reports after performing a step.
#[derive(Debug)]
pub enum Event {
    /// The script of a `Run` step ran; its standard output, trimmed.
    Output(String),
    /// The shim of an `Install` step is installed.
    Installed,
    /// The pull-probe port is busy locally; the pull probe is skipped.
    PortBusy,
    /// The pull probe ran: whether the local listener lasted, the time
    /// (nanoseconds) its nonce was made from, and what the shim pulled.
    Pulled { listener_ok: bool, nanos: u128, output: String },
    /// The spool probe made from this time (nanoseconds) was sent.
    ProbeSent { nanos: u128 },
}

/// What the caller does next.
#[derive(Debug)]
pub enum Action {
    /// Run `script` on the target host over ssh and report its output.
    Run { script: String },
    /// Stream the shim for `tool` into `script` on the target host.
    Install { tool: &'static str, script: String },
    /// Listen on the local loopback `port`, serving the text `pull_nonce(nanos)`
    /// for a fresh `nanos`, and run `command` on the target host with the
    /// reverse forward `forward`; report `Pulled`, or `PortBusy` when the port
    /// cannot be bound.
    PullProbe { port: u16, forward: String, command: String },
    /// Send `spool_probe(nanos)` for a fresh `nanos` to the target as text and
    /// report `ProbeSent`.
    SendProbe,
    /// Save the target with `finish`.
    Save,
    /// Stop: setup failed.
    Fail(SetupError),
    /// Nothing is left to do: the setup finished or stopped.
    Finished,
}

/// A step: lines to print as warnings, lines to print as progress, then the
/// action.
#[derive(Debug)]
pub struct Step {
    pub warnings: Vec<String>,
    pub notes: Vec<String>,
    pub action: Action,
}

/// A setup in progress.
pub struct SetupFlow {
    plan: SetupPlan,
    ssh_alias: String,
    force: bool,
    stage: Stage,
    probe: String,
    readback: String,
    pull_passed: Ghost<bool>,
}

/// A setup in progress, as plain values.
pub struct FlowView {
    pub target_name: Seq<char>,
    pub target: TargetView,
    pub ssh_alias: Seq<char>,
    pub force: bool,
    pub stage: Stage,
    /// The spool probe sent, once sent.
    pub probe: Seq<char>,
    /// What the shim read back, once read.
    pub readback: Seq<char>,
    /// The pull probe came back intact, or was skipped because its port was
    /// busy locally.
    pub pull_passed: bool,
}

impl View for SetupFlow {
    type V = FlowView;

    closed spec fn view(&self) -> FlowView {
        FlowView {
            target_name: self.plan.target_name@,
            target: self.plan.target@,
            ssh_alias: self.ssh_alias@,
            force: self.force,
            stage: self.stage,
            probe: self.probe@,
            readback: self.readback@,
            pull_passed: self.pull_passed@,
        }
    }
}

/// The stages a setup passes through only after its pull probe.
pub open spec fn after_pull(stage: Stage) -> bool {
    stage == Stage::SpoolProbe || stage == Stage::Readback || stage == Stage::Clear || stage
        == Stage::Save || stage == Stage::Done
}

/// What holds of every setup in progress: past the pull probe only if it
/// passed, at the point of saving (and after) only if the spool probe read
/// back exactly as sent.
pub open spec fn flow_sound(v: FlowView) -> bool {
    &&& after_pull(v.stage) ==> v.pull_passed
    &&& (v.stage == Stage::Save || v.stage == Stage::Done) ==> v.readback == v.probe
}

/// The stage that follows `stage` when its step succeeds.
pub open spec fn next_stage(stage: Stage) -> Stage {
    match stage {
        Stage::Reach => Stage::Inspect,
        Stage::Inspect => Stage::InstallXclip,
        Stage::InstallXclip => Stage::InstallWlPaste,
        Stage::InstallWlPaste => Stage::Resolve,
        Stage::Resolve => Stage::PullProbe,
        Stage::PullProbe => Stage::SpoolProbe,
        Stage::SpoolProbe => Stage::Readback,
        Stage::Readback => Stage::Clear,
        Stage::Clear => Stage::Save,
        other => other,
    }
}

/// The state a setup in state `v` moves to when the step it waits for
/// succeeds as `e` reports: the next stage; the spool probe remembered once
/// sent, what the shim read back once read; the pull probe passed once its
/// stage is behind.
pub open spec fn stepped(v: FlowView, e: Event) -> FlowView {
    FlowView {
        stage: next_stage(v.stage),
        probe: match (v.stage, e) {
            (Stage::SpoolProbe, Event::ProbeSent { nanos }) => "ssh-paste probe "@ + decimal(
                nanos as nat,
            ),
            _ => v.probe,
        },
        readback: match (v.stage, e) {
            (Stage::Readback, Event::Output(o)) => o@,
            _ => v.readback,
        },
        pull_passed: v.pull_passed || v.stage == Stage::PullProbe,
        ..v
    }
}

/// Whether `e` reports the step that a setup at `stage` waits for.
pub open spec fn expects(stage: Stage, e: Event) -> bool {
    match stage {
        Stage::Reach | Stage::Inspect | Stage::Resolve | Stage::Readback | Stage::Clear => e is Output,
        Stage::InstallXclip | Stage::InstallWlPaste => e is Installed,
        Stage::PullProbe => e is PortBusy || e is Pulled,
        Stage::SpoolProbe => e is ProbeSent,
        _ => false,
    }
}

/// Whether the step reported by `e` at `stage` stops the setup, and why.
pub open spec fn stops(v: FlowView, e: Event) -> Option<SetupProblem> {
    match (v.stage, e) {
        (Stage::Inspect, Event::Output(o)) => match scan(trimmed_lines(o@), v.force) {
            Scan::Blocked(f) => Some(crate::setup::blocking(f)),
            Scan::Open(_, ok) => if ok {
                None
            } else {
                Some(SetupProblem::NotOnPath)
            },
        },
        (Stage::PullProbe, Event::Pulled { listener_ok, nanos, output }) => if !listener_ok {
            Some(SetupProblem::PullListenerDied)
        } else if output@ != "ssh-paste pull probe "@ + decimal(nanos as nat) {
            Some(
                SetupProblem::PullMismatch {
                    pulled: output@,
                    nonce: "ssh-paste pull probe "@ + decimal(nanos as nat),
                },
            )
        } else {
            None
        },
        (Stage::Clear, Event::Output(_)) => if v.readback != v.probe {
            Some(SetupProblem::ReadbackMismatch { readback: v.readback, probe: v.probe })
        } else {
            None
        },
        _ => None,
    }
}

impl SetupFlow {
    #[verifier::type_invariant]
    spec fn sound(self) -> bool {
        &&& flow_sound(self@)
        &&& self.plan.shim_dir_expr@ == remote_path(self.plan.target.shim_dir@)
        &&& self.plan.spool_expr@ == remote_path(self.plan.target.spool_dir@)
    }

    /// Where this setup stands.
    pub fn stage(&self) -> (s: Stage)
        ensures
            s == self@.stage,
    {
        self.stage
    }

    /// The remote-shell alias this setup works through.
    pub fn ssh_alias(&self) -> (a: &str)
        ensures
            a@ == self@.ssh_alias,
    {
        self.ssh_alias.as_str()
    }

    /// Whether this setup is at the point of saving its target.
    pub fn ready_to_save(&self) -> (b: bool)
        ensures
            b == (self@.stage == Stage::Save),
    {
        self.stage == Stage::Save
    }

    /// The target this setup installs.
    pub fn plan(&self) -> (p: &SetupPlan)
        ensures
            p.target_name@ == self@.target_name,
            p.target@ == self@.target,
    {
        &self.plan
    }

    /// Starts setting up `ssh_alias` as `name` (the alias by default) with
    /// `port` (kept or defaulted as `plan_setup` does); the first step checks
    /// that the host is reachable.
    pub fn start(cfg: &Config, ssh_alias: &str, name: Option<&str>, force: bool, port: Option<u16>) -> (r: Result<(SetupFlow, Step), TargetError>)
        ensures
            match target_problem(planned_target(cfg.targets@, ssh_alias@, opt_str_view(name), port)) {
                Some(p) => r matches Err(e) && e@ == p,
                None => r matches Ok((flow, step)) && {
                    &&& flow@.stage == Stage::Reach
                    &&& flow@.target_name == planned_name(ssh_alias@, opt_str_view(name))
                    &&& flow@.target == planned_target(cfg.targets@, ssh_alias@, opt_str_view(name), port)
                    &&& flow@.ssh_alias == ssh_alias@
                    &&& flow@.force == force
                    &&& !flow@.pull_passed
                    &&& step.action matches Action::Run { script } && script@ == "true"@
                    &&& step.warnings@.len() == 0
                    &&& step.notes@.len() == 0
                },
            },
    {
        let plan = plan_setup(cfg, ssh_alias, name, port)?;
        let flow = SetupFlow {
            plan,
            ssh_alias: owned(ssh_alias),
            force,
            stage: Stage::Reach,
            probe: String::new(),
            readback: String::new(),
            pull_passed: Ghost(false),
        };
        let step = Step {
            warnings: Vec::new(),
            notes: Vec::new(),
            action: Action::Run { script: owned("true") },
        };
        Ok((flow, step))
    }

    fn fail(&mut self, e: SetupError) -> (s: Step)
        ensures
            final(self)@ == (FlowView { stage: Stage::Failed, ..old(self)@ }),
            s.action matches Action::Fail(x) && x@ == e@,
            s.warnings@.len() == 0,
            s.notes@.len() == 0,
    {
        proof {
            use_type_invariant(&*self);
        }
        self.stage = Stage::Failed;
        Step { warnings: Vec::new(), notes: Vec::new(), action: Action::Fail(e) }
    }

    /// The action that a setup at its current stage waits for.
    fn awaited(&self) -> (a: Action)
        ensures
            action_fits(self@, a),
    {
        proof {
            use_type_invariant(self);
        }
        match self.stage {
            Stage::Reach => {
                Action::Run { script: owned("true") }
            },
            Stage::Inspect => Action::Run { script: inspect_script(self.plan.shim_dir_expr.as_str()) },
            Stage::InstallXclip => Action::Install {
                tool: "xclip",
                script: install_script(self.plan.shim_dir_expr.as_str(), "xclip"),
            },
            Stage::InstallWlPaste => Action::Install {
                tool: "wl-paste",
                script: install_script(self.plan.shim_dir_expr.as_str(), "wl-paste"),
            },
            Stage::Resolve => Action::Run {
                script: resolution_script(self.plan.shim_dir_expr.as_str()),
            },
            Stage::PullProbe => Action::PullProbe {
                port: self.plan.target.pull_port,
                forward: pull_forward(self.plan.target.pull_port),
                command: pull_command(self.plan.shim_dir_expr.as_str()),
            },
            Stage::SpoolProbe => Action::SendProbe,
            Stage::Readback => Action::Run {
                script: readback_command(self.plan.shim_dir_expr.as_str()),
            },
            Stage::Clear => Action::Run {
                script: clear_probe_command(self.plan.spool_expr.as_str()),
            },
            Stage::Save => Action::Save,
            Stage::Done => Action::Finished,
            Stage::Failed => Action::Finished,
        }
    }

    /// What an error of the step this setup waits for is reported as having
    /// happened during; the spool probe (an ordinary send) and the stages
    /// with nothing left to perform have none.
    pub fn context(&self) -> (c: Option<String>)
        ensures
            opt_view(c) == step_context(self@),
    {
        let a = self.ssh_alias.as_str();
        let shim_dir = self.plan.target.shim_dir.as_str();
        match self.stage {
            Stage::Reach => {
                let mut s = owned("cannot reach ");
                push_str(&mut s, a);
                push_str(&mut s, " over ssh; make sure `ssh ");
                push_str(&mut s, a);
                push_str(&mut s, "` connects first");
                Some(s)
            },
            Stage::Inspect => {
                let mut s = owned("inspecting ");
                push_str(&mut s, a);
                push_str(&mut s, " for clipboard tools");
                Some(s)
            },
            Stage::InstallXclip => {
                let mut s = owned("installing the xclip shim into ");
                push_str(&mut s, shim_dir);
                push_str(&mut s, " on ");
                push_str(&mut s, a);
                Some(s)
            },
            Stage::InstallWlPaste => {
                let mut s = owned("installing the wl-paste shim into ");
                push_str(&mut s, shim_dir);
                push_str(&mut s, " on ");
                push_str(&mut s, a);
                Some(s)
            },
            Stage::Resolve => {
                let mut s = owned("checking which xclip and wl-paste ");
                push_str(&mut s, a);
                push_str(&mut s, " resolves");
                Some(s)
            },
            Stage::PullProbe => {
                let mut s = owned(PULLING_HEAD);
                push_str(&mut s, a);
                push_str(&mut s, PULLING_NEEDS);
                push_decimal(&mut s, self.plan.target.pull_port as u128);
                push_str(&mut s, " free for the forward");
                Some(s)
            },
            Stage::Readback => {
                let mut s = owned("reading the probe back through ");
                push_str(&mut s, shim_dir);
                push_str(&mut s, "/xclip on ");
                push_str(&mut s, a);
                Some(s)
            },
            Stage::Clear => {
                let mut s = owned("clearing the probe out of ");
                push_str(&mut s, self.plan.target.spool_dir.as_str());
                push_str(&mut s, " on ");
                push_str(&mut s, a);
                Some(s)
            },
            _ => None,
        }
    }

    /// Takes the report of the step just performed and gives the next step.
    /// A report of the awaited step moves the setup to the next stage, or
    /// stops it for the reason `stops` gives; any other report changes
    /// nothing and the awaited step is asked for again.
    pub fn advance(&mut self, event: Event) -> (s: Step)
        ensures
            expects(old(self)@.stage, event) ==> match stops(old(self)@, event) {
                Some(p) => final(self)@ == (FlowView { stage: Stage::Failed, ..old(self)@ })
                    && (s.action matches Action::Fail(e) && e@ == p),
                None => final(self)@ == stepped(old(self)@, event) && action_fits(
                    final(self)@,
                    s.action,
                ),
            },
            !expects(old(self)@.stage, event) ==> final(self)@ == old(self)@ && action_fits(
                final(self)@,
                s.action,
            ),
            final(self)@.target_name == old(self)@.target_name,
            final(self)@.target == old(self)@.target,
            final(self)@.ssh_alias == old(self)@.ssh_alias,
            final(self)@.force == old(self)@.force,
            flow_sound(final(self)@),
            step_says(old(self)@, event, s),
    {
        proof {
            use_type_invariant(&*self);
        }
        match (self.stage, event) {
            (Stage::Reach, Event::Output(_)) => {
                self.stage = Stage::Inspect;
                Step { warnings: Vec::new(), notes: Vec::new(), action: self.awaited() }
            },
            (Stage::Inspect, Event::Output(o)) => {
                match review_inspection(o.as_str(), self.force) {
                    Err(e) => self.fail(e),
                    Ok(overrides) => {
                        let mut warnings: Vec<String> = Vec::new();
                        let mut i: usize = 0;
                        let ghost shim_dir = self.plan.target.shim_dir@;
                        while i < overrides.len()
                            invariant
                                i <= overrides@.len(),
                                shim_dir == self.plan.target.shim_dir@,
                                warnings@.map_values(|w: String| w@) == overrides@.take(
                                    i as int,
                                ).map_values(|o: Override| spec_override_warning(o@, shim_dir)),
                            decreases overrides.len() - i,
                        {
                            let w = overrides[i].warning(self.plan.target.shim_dir.as_str());
                            let ghost prev = warnings@;
                            warnings.push(w);
                            proof {
                                assert(overrides@.take(i + 1) =~= overrides@.take(i as int).push(
                                    overrides@[i as int],
                                ));
                                assert(warnings@.map_values(|w: String| w@) =~= prev.map_values(
                                    |w: String| w@,
                                ).push(spec_override_warning(overrides@[i as int]@, shim_dir)));
                            }
                            i = i + 1;
                        }
                        proof {
                            assert(overrides@.take(overrides@.len() as int) =~= overrides@);
                            assert(overrides@.map_values(|o: Override| spec_override_warning(o@, shim_dir))
                                =~= overrides@.map_values(|o: Override| o@).map_values(
                                |f: Finding| spec_override_warning(f, shim_dir),
                            ));
                        }
                        self.stage = Stage::InstallXclip;
                        Step { warnings, notes: Vec::new(), action: self.awaited() }
                    },
                }
            },
            (Stage::InstallXclip, Event::Installed) => {
                self.stage = Stage::InstallWlPaste;
                Step { warnings: Vec::new(), notes: Vec::new(), action: self.awaited() }
            },
            (Stage::InstallWlPaste, Event::Installed) => {
                self.stage = Stage::Resolve;
                Step { warnings: Vec::new(), notes: Vec::new(), action: self.awaited() }
            },
            (Stage::Resolve, Event::Output(o)) => {
                let shadows = shadowed_tools(o.as_str());
                let mut warnings: Vec<String> = Vec::new();
                let mut i: usize = 0;
                let ghost shim_dir = self.plan.target.shim_dir@;
                let ghost alias = self.ssh_alias@;
                while i < shadows.len()
                    invariant
                        i <= shadows@.len(),
                        shim_dir == self.plan.target.shim_dir@,
                        alias == self.ssh_alias@,
                        warnings@.map_values(|w: String| w@) == shadows@.take(i as int).map_values(
                            |x: Shadow| spec_shadow_warning(x@, alias, shim_dir),
                        ),
                    decreases shadows.len() - i,
                {
                    let w = shadows[i].warning(
                        self.ssh_alias.as_str(),
                        self.plan.target.shim_dir.as_str(),
                    );
                    let ghost prev = warnings@;
                    warnings.push(w);
                    proof {
                        assert(shadows@.take(i + 1) =~= shadows@.take(i as int).push(
                            shadows@[i as int],
                        ));
                        assert(warnings@.map_values(|w: String| w@) =~= prev.map_values(
                            |w: String| w@,
                        ).push(spec_shadow_warning(shadows@[i as int]@, alias, shim_dir)));
                    }
                    i = i + 1;
                }
                proof {
                    assert(shadows@.take(shadows@.len() as int) =~= shadows@);
                    assert(shadows@.map_values(|x: Shadow| spec_shadow_warning(x@, alias, shim_dir))
                        =~= shadows@.map_values(|x: Shadow| x@).map_values(
                        |x: (Seq<char>, Seq<char>, Seq<char>)| spec_shadow_warning(x, alias, shim_dir),
                    ));
                }
                self.stage = Stage::PullProbe;
                Step { warnings, notes: Vec::new(), action: self.awaited() }
            },
            (Stage::PullProbe, Event::PortBusy) => {
                self.pull_passed = Ghost(true);
                self.stage = Stage::SpoolProbe;
                Step { warnings: Vec::new(), notes: Vec::new(), action: self.awaited() }
            },
            (Stage::PullProbe, Event::Pulled { listener_ok, nanos, output }) => {
                let nonce = pull_nonce(nanos);
                match check_pull(listener_ok, output.as_str(), nonce.as_str()) {
                    Err(e) => self.fail(e),
                    Ok(()) => {
                        self.pull_passed = Ghost(true);
                        self.stage = Stage::SpoolProbe;
                        let mut notes: Vec<String> = Vec::new();
                        notes.push(owned(PULL_PROBE_OK));
                        assert(notes@.map_values(|n: String| n@) =~= seq![PULL_PROBE_OK@]);
                        Step { warnings: Vec::new(), notes, action: self.awaited() }
                    },
                }
            },
            (Stage::SpoolProbe, Event::ProbeSent { nanos }) => {
                self.probe = spool_probe(nanos);
                self.stage = Stage::Readback;
                Step { warnings: Vec::new(), notes: Vec::new(), action: self.awaited() }
            },
            (Stage::Readback, Event::Output(o)) => {
                self.readback = o;
                self.stage = Stage::Clear;
                Step { warnings: Vec::new(), notes: Vec::new(), action: self.awaited() }
            },
            (Stage::Clear, Event::Output(_)) => {
                match check_readback(self.readback.as_str(), self.probe.as_str()) {
                    Err(e) => self.fail(e),
                    Ok(()) => {
                        self.stage = Stage::Save;
                        Step { warnings: Vec::new(), notes: Vec::new(), action: self.awaited() }
                    },
                }
            },
            (_, _) => Step { warnings: Vec::new(), notes: Vec::new(), action: self.awaited() },
        }
    }

    /// Saves the target once both probes passed: registers it in `cfg` (as
    /// the default when `cfg` has none) and gives the lines that report it.
    /// Anywhere else than at the point of saving nothing changes and `None`
    /// comes back.
    pub fn finish(&mut self, cfg: &mut Config) -> (r: Option<Vec<String>>)
        ensures
            r is Some <==> old(self)@.stage == Stage::Save,
            r is Some ==> {
                &&& old(self)@.pull_passed
                &&& old(self)@.readback == old(self)@.probe
                &&& final(cfg).targets@ == old(cfg).targets@.insert(
                    old(self)@.target_name,
                    old(self)@.target,
                )
                &&& opt_view(final(cfg).default_target) == if old(cfg).default_target is None {
                    Some(old(self)@.target_name)
                } else {
                    opt_view(old(cfg).default_target)
                }
                &&& final(self)@ == (FlowView { stage: Stage::Done, ..old(self)@ })
                &&& r->0@.map_values(|l: String| l@) == spec_setup_report(
                    old(self)@.target.shim_dir,
                    old(self)@.ssh_alias,
                    old(self)@.target_name,
                    old(self)@.target.pull_port,
                    old(cfg).default_target is None,
                )
            },
            r is None ==> final(self)@ == old(self)@ && final(cfg).targets@ == old(cfg).targets@
                && opt_view(final(cfg).default_target) == opt_view(old(cfg).default_target),
    {
        proof {
            use_type_invariant(&*self);
        }
        if self.stage != Stage::Save {
            return None;
        }
        let target = copy_target(&self.plan.target);
        let made_default = cfg.register(self.plan.target_name.as_str(), target);
        let report = setup_report(&self.plan, self.ssh_alias.as_str(), made_default);
        self.stage = Stage::Done;
        Some(report)
    }
}

fn copy_target(t: &crate::config::Target) -> (c: crate::config::Target)
    ensures
        c@ == t@,
{
    crate::config::Target {
        host: t.host.clone(),
        spool_dir: t.spool_dir.clone(),
        shim_dir: t.shim_dir.clone(),
        pull_port: t.pull_port,
    }
}

/// What a step prints before its action: the overrides that `--force`
/// allowed after the inspection, the shadowed tools after the resolution,
/// a note once the pull probe came back intact; nothing otherwise.
pub open spec fn step_says(v: FlowView, e: Event, s: Step) -> bool {
    let warnings = s.warnings@.map_values(|w: String| w@);
    let notes = s.notes@.map_values(|n: String| n@);
    match (v.stage, e) {
        (Stage::Inspect, Event::Output(o)) => match scan(trimmed_lines(o@), v.force) {
            Scan::Open(found, true) => warnings == found.map_values(
                |f: Finding| spec_override_warning(f, v.target.shim_dir),
            ) && notes.len() == 0,
            _ => warnings.len() == 0 && notes.len() == 0,
        },
        (Stage::Resolve, Event::Output(o)) => warnings == shadows(trimmed_lines(o@)).map_values(
            |x: (Seq<char>, Seq<char>, Seq<char>)| spec_shadow_warning(x, v.ssh_alias, v.target.shim_dir),
        ) && notes.len() == 0,
        (Stage::PullProbe, Event::Pulled { .. }) => warnings.len() == 0 && (notes.len() == 0 || notes
            == seq![PULL_PROBE_OK@]) && (stops(v, e) is None ==> notes == seq![PULL_PROBE_OK@]),
        _ => warnings.len() == 0 && notes.len() == 0,
    }
}

pub const PULLING_HEAD: &'static str = "pulling the probe through a reverse tunnel to ";

pub const PULLING_NEEDS: &'static str = "; the remote needs curl on PATH and 127.0.0.1:";

/// What a failure of the step a setup in state `v` waits for happened
/// during.
pub open spec fn step_context(v: FlowView) -> Option<Seq<char>> {
    let a = v.ssh_alias;
    match v.stage {
        Stage::Reach => Some("cannot reach "@ + a + " over ssh; make sure `ssh "@ + a
            + "` connects first"@),
        Stage::Inspect => Some("inspecting "@ + a + " for clipboard tools"@),
        Stage::InstallXclip => Some("installing the xclip shim into "@ + v.target.shim_dir + " on "@
            + a),
        Stage::InstallWlPaste => Some("installing the wl-paste shim into "@ + v.target.shim_dir
            + " on "@ + a),
        Stage::Resolve => Some("checking which xclip and wl-paste "@ + a + " resolves"@),
        Stage::PullProbe => Some(PULLING_HEAD@ + a + PULLING_NEEDS@ + decimal(
            v.target.pull_port as nat,
        ) + " free for the forward"@),
        Stage::Readback => Some("reading the probe back through "@ + v.target.shim_dir
            + "/xclip on "@ + a),
        Stage::Clear => Some("clearing the probe out of "@ + v.target.spool_dir + " on "@ + a),
        _ => None,
    }
}

/// Whether `a` is the action a setup in state `v` waits for.
pub open spec fn action_fits(v: FlowView, a: Action) -> bool {
    match v.stage {
        Stage::Reach => a matches Action::Run { script } && script@ == "true"@,
        Stage::Inspect => a matches Action::Run { script } && script@ == spec_inspect_script(
            remote_path(v.target.shim_dir),
        ),
        Stage::InstallXclip => a matches Action::Install { tool, script } && tool@ == "xclip"@
            && script@ == spec_install_script(remote_path(v.target.shim_dir), "xclip"@),
        Stage::InstallWlPaste => a matches Action::Install { tool, script } && tool@ == "wl-paste"@
            && script@ == spec_install_script(remote_path(v.target.shim_dir), "wl-paste"@),
        Stage::Resolve => a matches Action::Run { script } && script@ == spec_resolution_script(
            remote_path(v.target.shim_dir),
        ),
        Stage::PullProbe => a matches Action::PullProbe { port, forward, command } && port
            == v.target.pull_port && forward@ == LOOPBACK@ + decimal(v.target.pull_port as nat)
            + ":"@ + LOOPBACK@ + decimal(v.target.pull_port as nat) && command@ == remote_path(
            v.target.shim_dir,
        ) + READ_TEXT@,
        Stage::SpoolProbe => a is SendProbe,
        Stage::Readback => a matches Action::Run { script } && script@ == FROM_SPOOL@ + remote_path(
            v.target.shim_dir,
        ) + READ_TEXT@,
        Stage::Clear => a matches Action::Run { script } && script@ == "rm -f "@ + remote_path(
            v.target.spool_dir,
        ) + "/clip.txt "@ + remote_path(v.target.spool_dir) + "/clip.png"@,
        Stage::Save => a is Save,
        Stage::Done => a is Finished,
        Stage::Failed => a is Finished,
    }
}

/// Law: the spool probe is read back through the very `xclip` shim that the
/// install step put in the target's shim directory, and that the pull probe
/// ran: the readback runs `SSH_PASTE_SOURCE=spool` in front of the pull
/// probe's command, and both name the directory the install script writes
/// into.
pub proof fn law_readback_uses_the_installed_shim(v: FlowView, readback: Action, install: Action, pull: Action)
    requires
        v.stage == Stage::Readback,
        action_fits(v, readback),
        action_fits(FlowView { stage: Stage::InstallXclip, ..v }, install),
        action_fits(FlowView { stage: Stage::PullProbe, ..v }, pull),
    ensures
        readback matches Action::Run { script } && install matches Action::Install {
            tool,
            script: written,
        } && pull matches Action::PullProbe { command, .. } && {
            let dir = remote_path(v.target.shim_dir);
            &&& tool@ == "xclip"@
            &&& has_prefix(written@, "dir="@ + dir + seq![';'])
            &&& script@ == "SSH_PASTE_SOURCE=spool "@ + dir
                + "/xclip -selection clipboard -t text/plain -o"@
            &&& script@ == "SSH_PASTE_SOURCE=spool "@ + command@
        },
{
    crate::setup::law_scripts_work_in_the_shim_dir(
        remote_path(v.target.shim_dir),
        remote_path(v.target.spool_dir),
        "xclip"@,
    );
}

} // verus!
