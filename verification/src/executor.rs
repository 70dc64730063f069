//! The pipeline execution engine.
//!
//! The engine is a state machine over the manifest's steps: it names one
//! shell command at a time, in manifest order, and advances on each reported
//! exit status. The first non-zero status aborts the remaining commands and
//! steps; if the manifest declares a failure hook its commands are then named
//! in order, best-effort — their statuses are ignored and the original
//! failure is reported unchanged. The service around the library spawns the
//! named commands (injecting the secret map into each process's environment)
//! and reports their statuses back; every sequencing decision stands here.

use vstd::prelude::*;

use crate::manifest::{FailureDoc, PipelineDoc, SecretDoc, StepDoc};
use crate::secrets::{load_secret_map, secret_doc_valid, secret_load_error, SecretLoadError};

verus! {

/// Why a pipeline run failed.
///
/// `Io` and `Yaml` carry the message of a failed read or decode of the
/// pipeline document; they are produced by the service around this library.
/// Load errors (`InvalidKind`, `Secrets`) mean no command was ever named:
/// the caller can tell "never ran" apart from "ran and a step failed".
#[derive(Debug, PartialEq, Eq)]
pub enum PipelineError {
    Io(String),
    Yaml(String),
    InvalidKind(String),
    Secrets(SecretLoadError),
    StepFailed { step: String, status: i32 },
}

/// One step as the model sees it: its name and its commands' characters.
#[verifier::ext_equal]
pub ghost struct StepModel {
    pub name: Seq<char>,
    pub commands: Seq<Seq<char>>,
}

/// Where a run stands: executing step commands, draining the failure hook
/// after a failure, or finished (successfully or with the recorded failure).
pub ghost enum RunPhase {
    Steps { i: int, j: int },
    Hook { h: int, step: Seq<char>, status: i32 },
    Done { failure: Option<(Seq<char>, i32)> },
}

/// The whole run state: the plan and the current phase.
#[verifier::ext_equal]
pub ghost struct RunModel {
    pub steps: Seq<StepModel>,
    pub hook: Seq<Seq<char>>,
    pub phase: RunPhase,
}

/// Command strings as character sequences.
pub open spec fn cmds_view(s: Seq<String>) -> Seq<Seq<char>> {
    s.map_values(|c: String| c@)
}

/// One step document as a model step.
pub open spec fn step_view(s: StepDoc) -> StepModel {
    StepModel { name: s.name@, commands: cmds_view(s.commands@) }
}

/// The step documents as model steps, in manifest order.
pub open spec fn steps_view(s: Seq<StepDoc>) -> Seq<StepModel> {
    s.map_values(|st: StepDoc| step_view(st))
}

/// The failure hook's commands, or nothing when no hook is declared.
pub open spec fn hook_view(o: Option<FailureDoc>) -> Seq<Seq<char>> {
    match o {
        Some(f) => cmds_view(f.commands@),
        None => Seq::empty(),
    }
}

/// The first real command position at or after step `i`, command `j`:
/// steps whose command lists are exhausted (or empty) are skipped; past the
/// last step the run is done successfully.
pub open spec fn next_position(steps: Seq<StepModel>, i: int, j: int) -> RunPhase
    decreases steps.len() - i,
{
    if i < 0 || i >= steps.len() {
        RunPhase::Done { failure: None }
    } else if j < steps[i].commands.len() {
        RunPhase::Steps { i, j }
    } else {
        next_position(steps, i + 1, 0)
    }
}

/// A run about to execute its first command (or already done, for a plan
/// with no commands at all).
pub open spec fn init_model(steps: Seq<StepModel>, hook: Seq<Seq<char>>) -> RunModel {
    RunModel { steps, hook, phase: next_position(steps, 0, 0) }
}

/// The command the run names now (meaningful only while it is not done).
pub open spec fn current_command(m: RunModel) -> Seq<char> {
    match m.phase {
        RunPhase::Steps { i, j } => m.steps[i].commands[j],
        RunPhase::Hook { h, .. } => m.hook[h],
        RunPhase::Done { .. } => Seq::empty(),
    }
}

/// How one reported exit status advances the run: zero moves to the next
/// command; the first non-zero status records the failing step and status and
/// enters the hook (or finishes at once when no hook is declared); hook
/// statuses are ignored — the recorded failure is reported unchanged.
pub open spec fn model_advance(m: RunModel, status: i32) -> RunModel {
    match m.phase {
        RunPhase::Steps { i, j } => if status == 0 {
            RunModel { steps: m.steps, hook: m.hook, phase: next_position(m.steps, i, j + 1) }
        } else if m.hook.len() > 0 {
            RunModel {
                steps: m.steps,
                hook: m.hook,
                phase: RunPhase::Hook { h: 0, step: m.steps[i].name, status },
            }
        } else {
            RunModel {
                steps: m.steps,
                hook: m.hook,
                phase: RunPhase::Done { failure: Some((m.steps[i].name, status)) },
            }
        },
        RunPhase::Hook { h, step, status: st } => if h + 1 < m.hook.len() {
            RunModel {
                steps: m.steps,
                hook: m.hook,
                phase: RunPhase::Hook { h: h + 1, step, status: st },
            }
        } else {
            RunModel {
                steps: m.steps,
                hook: m.hook,
                phase: RunPhase::Done { failure: Some((step, st)) },
            }
        },
        RunPhase::Done { .. } => m,
    }
}

/// The run's position points at a real command (or the run is done).
pub open spec fn model_wf(m: RunModel) -> bool {
    match m.phase {
        RunPhase::Steps { i, j } => 0 <= i < m.steps.len() && 0 <= j < m.steps[i].commands.len(),
        RunPhase::Hook { h, .. } => 0 <= h < m.hook.len(),
        RunPhase::Done { .. } => true,
    }
}

/// The run driven by a sequence of exit statuses, one consumed per named
/// command: the commands named, and the state reached when the run finishes
/// or the statuses run out.
pub open spec fn run_trace(m: RunModel, exits: Seq<i32>) -> (Seq<Seq<char>>, RunModel)
    decreases exits.len(),
{
    if m.phase is Done || exits.len() == 0 {
        (Seq::empty(), m)
    } else {
        let rest = run_trace(model_advance(m, exits[0]), exits.skip(1));
        (seq![current_command(m)] + rest.0, rest.1)
    }
}

/// The model of a pipeline document's run, from its first command.
pub open spec fn pipeline_model(p: PipelineDoc) -> RunModel {
    init_model(steps_view(p.steps@), hook_view(p.on_failure))
}

proof fn lemma_next_position_wf(steps: Seq<StepModel>, i: int, j: int)
    requires
        0 <= i,
        0 <= j,
    ensures
        match next_position(steps, i, j) {
            RunPhase::Steps { i: i2, j: j2 } => 0 <= i2 < steps.len() && 0 <= j2
                < steps[i2].commands.len(),
            RunPhase::Done { failure } => failure is None,
            RunPhase::Hook { .. } => false,
        },
    decreases steps.len() - i,
{
    if i >= steps.len() {
    } else if j < steps[i].commands.len() {
    } else {
        lemma_next_position_wf(steps, i + 1, 0);
    }
}

enum Phase {
    Steps { i: usize, j: usize },
    Hook { h: usize, step: String, status: i32 },
    Done { failure: Option<(String, i32)> },
}

spec fn phase_view(p: Phase) -> RunPhase {
    match p {
        Phase::Steps { i, j } => RunPhase::Steps { i: i as int, j: j as int },
        Phase::Hook { h, step, status } => RunPhase::Hook { h: h as int, step: step@, status },
        Phase::Done { failure } => RunPhase::Done {
            failure: match failure {
                Some(f) => Some((f.0@, f.1)),
                None => None,
            },
        },
    }
}

/// One pipeline run in progress. [`PipelineRun::next_command`] names the
/// command to spawn now; [`PipelineRun::report_exit`] advances on its exit
/// status; [`PipelineRun::outcome`] reports the result once the run is done.
pub struct PipelineRun {
    steps: Vec<StepDoc>,
    hook: Vec<String>,
    phase: Phase,
}

impl View for PipelineRun {
    type V = RunModel;

    closed spec fn view(&self) -> RunModel {
        RunModel {
            steps: steps_view(self.steps@),
            hook: cmds_view(self.hook@),
            phase: phase_view(self.phase),
        }
    }
}

fn clone_strings(v: &Vec<String>) -> (r: Vec<String>)
    ensures
        r@ == v@,
{
    let mut r: Vec<String> = Vec::new();
    let mut k: usize = 0;
    while k < v.len()
        invariant
            k <= v@.len(),
            r@ == v@.take(k as int),
        decreases v@.len() - k,
    {
        r.push(v[k].clone());
        k += 1;
        proof {
            assert(r@ =~= v@.take(k as int));
        }
    }
    proof {
        assert(v@.take(k as int) =~= v@);
    }
    r
}

fn clone_steps(v: &Vec<StepDoc>) -> (r: Vec<StepDoc>)
    ensures
        steps_view(r@) == steps_view(v@),
{
    let mut r: Vec<StepDoc> = Vec::new();
    let mut k: usize = 0;
    while k < v.len()
        invariant
            k <= v@.len(),
            r@.len() == k,
            forall|t: int| 0 <= t < k ==> #[trigger] step_view(r@[t]) == step_view(v@[t]),
        decreases v@.len() - k,
    {
        let s = &v[k];
        let copied = StepDoc { name: s.name.clone(), commands: clone_strings(&s.commands) };
        proof {
            assert(step_view(copied) == step_view(v@[k as int]));
        }
        r.push(copied);
        k += 1;
    }
    proof {
        assert forall|t: int| 0 <= t < v@.len() implies steps_view(r@)[t] == steps_view(v@)[t] by {
            assert(step_view(r@[t]) == step_view(v@[t]));
        }
        assert(steps_view(r@) =~= steps_view(v@));
    }
    r
}

/// Skip to the first real command position at or after step `i`, command `j`.
fn advance_position(steps: &Vec<StepDoc>, i: usize, j: usize) -> (r: Phase)
    requires
        i <= steps@.len(),
    ensures
        phase_view(r) == next_position(steps_view(steps@), i as int, j as int),
{
    let mut ii = i;
    let mut jj = j;
    while ii < steps.len() && jj >= steps[ii].commands.len()
        invariant
            ii <= steps@.len(),
            next_position(steps_view(steps@), i as int, j as int) == next_position(
                steps_view(steps@),
                ii as int,
                jj as int,
            ),
        decreases steps@.len() - ii,
    {
        proof {
            assert(steps_view(steps@)[ii as int] == step_view(steps@[ii as int]));
        }
        ii += 1;
        jj = 0;
    }
    proof {
        if ii < steps@.len() {
            assert(steps_view(steps@)[ii as int] == step_view(steps@[ii as int]));
        }
    }
    if ii < steps.len() {
        Phase::Steps { i: ii, j: jj }
    } else {
        Phase::Done { failure: None }
    }
}

impl PipelineRun {
    #[verifier::type_invariant]
    spec fn wf(self) -> bool {
        model_wf(self@)
    }

    /// Begin a run of the given pipeline document (its `kind` tag is the
    /// loader's concern, not the engine's).
    pub fn new(pipeline: &PipelineDoc) -> (r: PipelineRun)
        ensures
            r@ == pipeline_model(*pipeline),
    {
        let steps = clone_steps(&pipeline.steps);
        let hook = match &pipeline.on_failure {
            Some(f) => clone_strings(&f.commands),
            None => Vec::new(),
        };
        proof {
            assert(cmds_view(hook@) =~= hook_view(pipeline.on_failure));
        }
        let phase = advance_position(&steps, 0, 0);
        proof {
            lemma_next_position_wf(steps_view(steps@), 0, 0);
        }
        PipelineRun { steps, hook, phase }
    }

    /// The command to spawn now, or nothing once the run is done.
    pub fn next_command(&self) -> (r: Option<&String>)
        ensures
            match r {
                Some(c) => !(self@.phase is Done) && c@ == current_command(self@),
                None => self@.phase is Done,
            },
    {
        proof {
            use_type_invariant(self);
        }
        match &self.phase {
            Phase::Steps { i, j } => {
                proof {
                    assert(steps_view(self.steps@)[*i as int] == step_view(self.steps@[*i as int]));
                }
                Some(&self.steps[*i].commands[*j])
            },
            Phase::Hook { h, .. } => Some(&self.hook[*h]),
            Phase::Done { .. } => None,
        }
    }

    /// Advance the run on the exit status of the command just spawned.
    /// Reporting to a finished run changes nothing.
    pub fn report_exit(&mut self, status: i32)
        ensures
            final(self)@ == model_advance(old(self)@, status),
    {
        proof {
            use_type_invariant(&*self);
        }
        let new_phase = match &self.phase {
            Phase::Steps { i, j } => {
                proof {
                    assert(steps_view(self.steps@)[*i as int] == step_view(self.steps@[*i as int]));
                }
                let cmds_len = self.steps[*i].commands.len();
                if status == 0 {
                    let p = advance_position(&self.steps, *i, *j + 1);
                    proof {
                        lemma_next_position_wf(steps_view(self.steps@), *i as int, *j + 1 as int);
                    }
                    p
                } else if self.hook.len() > 0 {
                    Phase::Hook { h: 0, step: self.steps[*i].name.clone(), status }
                } else {
                    Phase::Done { failure: Some((self.steps[*i].name.clone(), status)) }
                }
            },
            Phase::Hook { h, step, status: st } => {
                let hook_len = self.hook.len();
                if *h + 1 < hook_len {
                    Phase::Hook { h: *h + 1, step: step.clone(), status: *st }
                } else {
                    Phase::Done { failure: Some((step.clone(), *st)) }
                }
            },
            Phase::Done { failure } => Phase::Done {
                failure: match failure {
                    Some(f) => Some((f.0.clone(), f.1)),
                    None => None,
                },
            },
        };
        self.phase = new_phase;
    }

    /// The run's result once it is done: success, or the first failing step's
    /// name and exit status, unchanged by anything the hook did.
    pub fn outcome(&self) -> (r: Option<Result<(), PipelineError>>)
        ensures
            match r {
                None => !(self@.phase is Done),
                Some(Ok(_)) => self@.phase == (RunPhase::Done { failure: None }),
                Some(Err(e)) => e matches PipelineError::StepFailed { step, status } && (self@.phase
                    matches RunPhase::Done { failure: Some(f) } && (step@ == f.0 && status == f.1)),
            },
    {
        match &self.phase {
            Phase::Done { failure: None } => Some(Ok(())),
            Phase::Done { failure: Some(f) } => Some(
                Err(PipelineError::StepFailed { step: f.0.clone(), status: f.1 }),
            ),
            _ => None,
        }
    }
}

/// Law: once a failure is recorded and the run is draining the hook, no
/// exit status the hook's commands produce can change it — if the run
/// finishes, it reports exactly the recorded step and status.
pub proof fn lemma_hook_preserves_failure(
    m: RunModel,
    exits: Seq<i32>,
    h: int,
    step: Seq<char>,
    status: i32,
)
    requires
        m.phase == (RunPhase::Hook { h, step, status }),
    ensures
        ({
            let fin = run_trace(m, exits).1;
            fin.phase is Done ==> fin.phase == (RunPhase::Done { failure: Some((step, status)) })
        }),
    decreases exits.len(),
{
    if exits.len() > 0 {
        let m2 = model_advance(m, exits[0]);
        match m2.phase {
            RunPhase::Hook { h: h2, step: s2, status: st2 } => {
                lemma_hook_preserves_failure(m2, exits.skip(1), h2, s2, st2);
            },
            RunPhase::Done { .. } => {},
            RunPhase::Steps { .. } => {
                assert(false);
            },
        }
    }
}

proof fn lemma_trace_len(m: RunModel, exits: Seq<i32>)
    ensures
        run_trace(m, exits).0.len() <= exits.len(),
    decreases exits.len(),
{
    if m.phase is Done || exits.len() == 0 {
    } else {
        lemma_trace_len(model_advance(m, exits[0]), exits.skip(1));
    }
}

/// Law: a run that finishes successfully consumed only zero exit statuses —
/// success is reported exactly when every named command exited zero.
pub proof fn lemma_success_means_all_zero(m: RunModel, exits: Seq<i32>)
    requires
        run_trace(m, exits).1.phase == (RunPhase::Done { failure: None }),
    ensures
        forall|t: int| 0 <= t < run_trace(m, exits).0.len() ==> exits[t] == 0,
    decreases exits.len(),
{
    if m.phase is Done || exits.len() == 0 {
    } else {
        let m2 = model_advance(m, exits[0]);
        assert(run_trace(m, exits).1 == run_trace(m2, exits.skip(1)).1);
        match m.phase {
            RunPhase::Steps { i, j } => {
                if exits[0] != 0 {
                    match m2.phase {
                        RunPhase::Hook { h, step, status } => {
                            lemma_hook_preserves_failure(m2, exits.skip(1), h, step, status);
                        },
                        RunPhase::Done { .. } => {},
                        RunPhase::Steps { .. } => {
                            assert(false);
                        },
                    }
                    assert(false);
                }
            },
            RunPhase::Hook { .. } => {
                match m2.phase {
                    RunPhase::Hook { h: h2, step: s2, status: st2 } => {
                        lemma_hook_preserves_failure(m2, exits.skip(1), h2, s2, st2);
                    },
                    RunPhase::Done { .. } => {},
                    RunPhase::Steps { .. } => {
                        assert(false);
                    },
                }
                assert(false);
            },
            RunPhase::Done { .. } => {},
        }
        lemma_success_means_all_zero(m2, exits.skip(1));
        lemma_trace_len(m2, exits.skip(1));
        assert(run_trace(m, exits).0.len() == 1 + run_trace(m2, exits.skip(1)).0.len());
        assert forall|t: int| 0 <= t < run_trace(m, exits).0.len() implies exits[t] == 0 by {
            if t > 0 {
                assert(0 <= t - 1 < run_trace(m2, exits.skip(1)).0.len());
                assert(exits.skip(1)[t - 1] == exits[t]);
            }
        }
    }
}

/// The full contract of [`load_pipeline`].
pub open spec fn load_pipeline_post(doc: PipelineDoc, r: Result<PipelineDoc, PipelineError>) -> bool {
    match r {
        Ok(d) => doc.kind@ == "pipeline"@ && d == doc,
        Err(e) => e matches PipelineError::InvalidKind(k) && doc.kind@ != "pipeline"@ && k@
            == doc.kind@,
    }
}

/// Validate a pipeline document's `kind` tag and return it unchanged; a
/// mismatch invalidates the whole document, no partial pipeline comes back.
pub fn load_pipeline(doc: PipelineDoc) -> (r: Result<PipelineDoc, PipelineError>)
    ensures
        load_pipeline_post(doc, r),
{
    if doc.kind == "pipeline".to_owned() {
        Ok(doc)
    } else {
        Err(PipelineError::InvalidKind(doc.kind.clone()))
    }
}

/// Law: a pipeline document whose `kind` tag is not `"pipeline"` is rejected
/// by the loader with `InvalidKind` carrying the offending tag.
pub proof fn lemma_load_pipeline_rejects_wrong_kind(
    doc: PipelineDoc,
    r: Result<PipelineDoc, PipelineError>,
)
    requires
        load_pipeline_post(doc, r),
        doc.kind@ != "pipeline"@,
    ensures
        r matches Err(PipelineError::InvalidKind(k)) && k@ == doc.kind@,
{
}

/// Whether the optional secret document would load (an absent document means
/// an empty secret map and always loads).
pub open spec fn secrets_arg_valid(secrets: Option<&SecretDoc>) -> bool {
    match secrets {
        Some(d) => secret_doc_valid(*d),
        None => true,
    }
}


/// Run a pipeline to completion, the commands' exit statuses supplied in
/// spawn order: `exits[n]` is the status of the n-th command the engine
/// names. The pipeline document is validated first, then the secret document
/// (when given) — either failure is fatal and no command is consumed. The
/// result is exactly what the run's final state records: success only when
/// every step's every command exited zero, otherwise the first failing step's
/// name and status, untouched by the failure hook's own statuses.
pub fn execute_pipeline(
    pipeline: &PipelineDoc,
    secrets: Option<&SecretDoc>,
    exits: &Vec<i32>,
) -> (r: Result<(), PipelineError>)
    requires
        (pipeline.kind@ == "pipeline"@ && secrets_arg_valid(secrets)) ==> run_trace(
            pipeline_model(*pipeline),
            exits@,
        ).1.phase is Done,
    ensures
        ({
            let final_model = run_trace(pipeline_model(*pipeline), exits@).1;
            match r {
                Ok(_) => pipeline.kind@ == "pipeline"@ && secrets_arg_valid(secrets)
                    && final_model.phase == (RunPhase::Done { failure: None }),
                Err(PipelineError::InvalidKind(k)) => pipeline.kind@ != "pipeline"@ && k@
                    == pipeline.kind@,
                Err(PipelineError::Secrets(e)) => pipeline.kind@ == "pipeline"@ && (secrets
                    matches Some(d) && secret_load_error(*d, e)),
                Err(PipelineError::StepFailed { step, status }) => pipeline.kind@ == "pipeline"@
                    && secrets_arg_valid(secrets) && (final_model.phase matches RunPhase::Done {
                    failure: Some(f),
                } && (step@ == f.0 && status == f.1)),
                Err(_) => false,
            }
        }),
{
    if !(pipeline.kind == "pipeline".to_owned()) {
        return Err(PipelineError::InvalidKind(pipeline.kind.clone()));
    }
    match secrets {
        Some(doc) => match load_secret_map(doc) {
            Ok(_) => {},
            Err(e) => return Err(PipelineError::Secrets(e)),
        },
        None => {},
    }
    let mut run = PipelineRun::new(pipeline);
    let mut k: usize = 0;
    proof {
        assert(exits@.skip(0) =~= exits@);
    }
    while k < exits.len()
        invariant
            k <= exits@.len(),
            pipeline.kind@ == "pipeline"@,
            secrets_arg_valid(secrets),
            run_trace(run@, exits@.skip(k as int)).1 == run_trace(
                pipeline_model(*pipeline),
                exits@,
            ).1,
            run_trace(pipeline_model(*pipeline), exits@).1.phase is Done,
        decreases exits@.len() - k,
    {
        match run.outcome() {
            Some(res) => return res,
            None => {},
        }
        let status = exits[k];
        proof {
            assert(exits@.skip(k as int)[0] == exits@[k as int]);
            assert(exits@.skip(k as int).skip(1) =~= exits@.skip(k as int + 1));
        }
        run.report_exit(status);
        k += 1;
    }
    proof {
        assert(exits@.skip(k as int) =~= Seq::<i32>::empty());
    }
    match run.outcome() {
        Some(res) => res,
        None => {
            proof {
                assert(false);
            }
            unreached()
        },
    }
}

} // verus!
