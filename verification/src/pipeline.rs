//! Stage selection and failure composition for the pipeline driver.
//!
//! Each mode requires a specific ordered subset of stages. A fatal
//! diagnostic before the external-process boundary short-circuits the
//! rest; at or past the boundary the driver is deliberately permissive:
//! a spawn failure still lets artifact cleanup run before the failure is
//! reported, a removal failure never propagates, and the external tool's
//! own exit status never fails the invocation.

use crate::warn::{default_cfg, uniform_cfg, DiagnosticsSettings, DiagnosticSeverity};
use vstd::prelude::*;
use vstd::string::StringExecFns;

verus! {

/// Which action the invocation requests.
#[derive(Clone, Copy, Debug, PartialEq, Eq, Structural)]
pub enum ModeKind {
    Check,
    Run,
    RunC,
    RunCu,
    GenHvm,
    GenC,
    GenCu,
    Desugar,
}

/// The modes that execute the program through the external runtime.
pub open spec fn is_run_kind(k: ModeKind) -> bool {
    k == ModeKind::Run || k == ModeKind::RunC || k == ModeKind::RunCu
}

/// The modes that hand an artifact to the external tool for code
/// generation.
pub open spec fn is_gen_external_kind(k: ModeKind) -> bool {
    k == ModeKind::GenC || k == ModeKind::GenCu
}

/// The code-generation subcommand the external tool is invoked with.
pub open spec fn spec_gen_cmd(k: ModeKind) -> Seq<char> {
    match k {
        ModeKind::GenC => "gen-c"@,
        ModeKind::GenCu => "gen-cu"@,
        _ => "gen"@,
    }
}

/// The execution subcommand the external runtime is invoked with.
pub open spec fn spec_run_cmd(k: ModeKind) -> Seq<char> {
    match k {
        ModeKind::RunC => "run-c"@,
        ModeKind::RunCu => "run-cu"@,
        _ => "run"@,
    }
}

/// Selects the code-generation subcommand for the mode.
pub fn gen_cmd(k: ModeKind) -> (r: &'static str)
    ensures
        r@ == spec_gen_cmd(k),
{
    match k {
        ModeKind::GenC => "gen-c",
        ModeKind::GenCu => "gen-cu",
        _ => "gen",
    }
}

/// Selects the execution subcommand for the mode.
pub fn run_cmd(k: ModeKind) -> (r: &'static str)
    ensures
        r@ == spec_run_cmd(k),
{
    match k {
        ModeKind::RunC => "run-c",
        ModeKind::RunCu => "run-cu",
        _ => "run",
    }
}

/// The well-known transient location the intermediate representation is
/// written to for the external tool. Reused across invocations.
pub fn artifact_path() -> (r: &'static str)
    ensures
        r@ == ".out.hvm"@,
{
    ".out.hvm"
}

/// The diagnostics configuration a mode starts from before the
/// warn/deny/allow flags are applied: execution modes check permissively
/// (everything allowed unless verbose), all other modes use the default.
pub fn base_diagnostics_cfg(k: ModeKind, verbose: bool) -> (r: DiagnosticsSettings)
    ensures
        is_run_kind(k) ==> r == uniform_cfg(DiagnosticSeverity::Allow, verbose),
        !is_run_kind(k) ==> r == default_cfg(),
{
    match k {
        ModeKind::Run | ModeKind::RunC | ModeKind::RunCu => DiagnosticsSettings::new(
            DiagnosticSeverity::Allow,
            verbose,
        ),
        _ => DiagnosticsSettings::default(),
    }
}

/// One stage of the pipeline.
#[derive(Clone, Copy, Debug, PartialEq, Eq, Structural)]
pub enum Stage {
    /// Load the source program into its tree representation.
    Load,
    /// Semantic checking; findings get their resolved severity here.
    SemanticCheck,
    /// The term-level desugaring passes.
    Desugar,
    /// Lowering to the intermediate representation.
    Lower,
    /// Artifact hand-off: serialize the representation to the transient
    /// location.
    WriteArtifact,
    /// Invoke the external tool on the artifact.
    InvokeTool,
    /// Best-effort removal of the transient artifact.
    RemoveArtifact,
    /// Emit diagnostics, then results.
    Present,
}

/// The ordered stages each mode requires.
pub open spec fn spec_plan(k: ModeKind) -> Seq<Stage> {
    match k {
        ModeKind::Check => seq![Stage::Load, Stage::SemanticCheck, Stage::Present],
        ModeKind::Desugar => seq![Stage::Load, Stage::SemanticCheck, Stage::Desugar, Stage::Present],
        ModeKind::GenHvm => seq![Stage::Load, Stage::SemanticCheck, Stage::Lower, Stage::Present],
        ModeKind::GenC | ModeKind::GenCu => seq![
            Stage::Load,
            Stage::SemanticCheck,
            Stage::Lower,
            Stage::WriteArtifact,
            Stage::InvokeTool,
            Stage::RemoveArtifact,
            Stage::Present,
        ],
        ModeKind::Run | ModeKind::RunC | ModeKind::RunCu => seq![
            Stage::Load,
            Stage::SemanticCheck,
            Stage::Lower,
            Stage::InvokeTool,
            Stage::Present,
        ],
    }
}

/// Builds the stage sequence for the mode.
pub fn plan(k: ModeKind) -> (r: Vec<Stage>)
    ensures
        r@ == spec_plan(k),
{
    let mut v: Vec<Stage> = Vec::new();
    v.push(Stage::Load);
    v.push(Stage::SemanticCheck);
    match k {
        ModeKind::Check => {},
        ModeKind::Desugar => {
            v.push(Stage::Desugar);
        },
        ModeKind::GenHvm => {
            v.push(Stage::Lower);
        },
        ModeKind::GenC | ModeKind::GenCu => {
            v.push(Stage::Lower);
            v.push(Stage::WriteArtifact);
            v.push(Stage::InvokeTool);
            v.push(Stage::RemoveArtifact);
        },
        ModeKind::Run | ModeKind::RunC | ModeKind::RunCu => {
            v.push(Stage::Lower);
            v.push(Stage::InvokeTool);
        },
    }
    v.push(Stage::Present);
    proof {
        assert(v@ =~= spec_plan(k));
    }
    v
}

/// What running one stage reported back: either it completed, or it
/// raised a fatal condition (a fatal diagnostic, or — for the external
/// invocation — a spawn failure). A non-zero exit status of a
/// successfully spawned tool is not fatal and is not represented here.
#[derive(Clone, Copy, Debug, PartialEq, Eq, Structural)]
pub enum StageOutcome {
    Success,
    Fatal,
}

/// Where the driver stands: the next stage to run, and whether a fatal
/// condition is pending.
#[derive(Clone, Copy, Debug, PartialEq, Eq, Structural)]
pub struct PipelineState {
    pub idx: usize,
    pub failed: bool,
}

/// The state a fresh invocation starts in.
pub open spec fn init_state() -> PipelineState {
    PipelineState { idx: 0, failed: false }
}

/// What the driver does next.
#[derive(Clone, Copy, Debug, PartialEq, Eq, Structural)]
pub enum StepDecision {
    RunStage(Stage),
    FinishSuccess,
    FinishFailure,
}

/// The driver's next decision in a state: run the stage at the cursor,
/// or finish with the recorded outcome.
pub open spec fn spec_decide(plan: Seq<Stage>, st: PipelineState) -> StepDecision {
    if st.idx < plan.len() {
        StepDecision::RunStage(plan[st.idx as int])
    } else if st.failed {
        StepDecision::FinishFailure
    } else {
        StepDecision::FinishSuccess
    }
}

/// The state after running the stage at the cursor.
///
/// - A fatal condition at the external invocation does not skip a
///   directly following artifact-removal stage: the cursor still
///   advances to it, so cleanup runs before the failure is reported.
/// - The artifact-removal stage never propagates its own outcome
///   (removal failure is logged only); after it, a pending failure ends
///   the pipeline.
/// - A fatal condition anywhere else short-circuits every remaining
///   stage.
pub open spec fn spec_after(plan: Seq<Stage>, st: PipelineState, outcome: StageOutcome) -> PipelineState
    recommends
        st.idx < plan.len(),
        plan.len() <= usize::MAX,
{
    let s = plan[st.idx as int];
    if s == Stage::RemoveArtifact {
        if st.failed {
            PipelineState { idx: plan.len() as usize, failed: true }
        } else {
            PipelineState { idx: (st.idx + 1) as usize, failed: false }
        }
    } else if s == Stage::InvokeTool && outcome == StageOutcome::Fatal && st.idx + 1 < plan.len()
        && plan[st.idx + 1] == Stage::RemoveArtifact {
        PipelineState { idx: (st.idx + 1) as usize, failed: true }
    } else if outcome == StageOutcome::Fatal {
        PipelineState { idx: plan.len() as usize, failed: true }
    } else {
        PipelineState { idx: (st.idx + 1) as usize, failed: st.failed }
    }
}

/// Executable form of `spec_decide`.
pub fn decide(plan: &Vec<Stage>, st: &PipelineState) -> (r: StepDecision)
    ensures
        r == spec_decide(plan@, *st),
{
    if st.idx < plan.len() {
        StepDecision::RunStage(plan[st.idx])
    } else if st.failed {
        StepDecision::FinishFailure
    } else {
        StepDecision::FinishSuccess
    }
}

/// Executable form of `spec_after`.
pub fn after_stage(plan: &Vec<Stage>, st: &PipelineState, outcome: StageOutcome) -> (r: PipelineState)
    requires
        st.idx < plan@.len(),
    ensures
        r == spec_after(plan@, *st, outcome),
{
    let n: usize = plan.len();
    let s = plan[st.idx];
    if s == Stage::RemoveArtifact {
        if st.failed {
            PipelineState { idx: plan.len(), failed: true }
        } else {
            PipelineState { idx: st.idx + 1, failed: false }
        }
    } else if s == Stage::InvokeTool && outcome == StageOutcome::Fatal && st.idx + 1 < n && plan[
        st.idx + 1] == Stage::RemoveArtifact {
        PipelineState { idx: st.idx + 1, failed: true }
    } else if outcome == StageOutcome::Fatal {
        PipelineState { idx: plan.len(), failed: true }
    } else {
        PipelineState { idx: st.idx + 1, failed: st.failed }
    }
}

/// The decision the driver finally reaches from a state, when stage `i`
/// reports `outcomes[j + (i - st.idx)]`.
pub open spec fn spec_run_from(
    plan: Seq<Stage>,
    st: PipelineState,
    outcomes: Seq<StageOutcome>,
    j: int,
) -> StepDecision
    decreases plan.len() - st.idx,
{
    if st.idx >= plan.len() || plan.len() > usize::MAX {
        spec_decide(plan, st)
    } else {
        spec_run_from(plan, spec_after(plan, st, outcomes[j]), outcomes, j + 1)
    }
}

/// Law: an invocation in which every stage completes — whatever the
/// external tool's own exit status, which is no stage outcome — finishes
/// successfully.
pub proof fn lemma_clean_run_succeeds(
    plan: Seq<Stage>,
    st: PipelineState,
    outcomes: Seq<StageOutcome>,
    j: int,
)
    requires
        plan.len() <= usize::MAX,
        st.idx <= plan.len(),
        !st.failed,
        forall|k: int| 0 <= k < outcomes.len() ==> outcomes[k] == StageOutcome::Success,
        0 <= j,
        j + plan.len() - st.idx <= outcomes.len(),
    ensures
        spec_run_from(plan, st, outcomes, j) == StepDecision::FinishSuccess,
    decreases plan.len() - st.idx,
{
    if st.idx < plan.len() {
        lemma_clean_run_succeeds(plan, spec_after(plan, st, outcomes[j]), outcomes, j + 1);
    }
}

/// Law: for the checking and execution modes, a fatal finding at
/// semantic checking ends the whole invocation in failure.
pub proof fn lemma_fatal_check_fails(k: ModeKind, outcomes: Seq<StageOutcome>)
    requires
        k == ModeKind::Check || is_run_kind(k),
        outcomes.len() >= 2,
        outcomes[0] == StageOutcome::Success,
        outcomes[1] == StageOutcome::Fatal,
    ensures
        spec_run_from(spec_plan(k), init_state(), outcomes, 0) == StepDecision::FinishFailure,
{
    let plan = spec_plan(k);
    assert(plan.len() == 3 || plan.len() == 5);
    let st1 = spec_after(plan, init_state(), outcomes[0]);
    assert(st1 == (PipelineState { idx: 1, failed: false }));
    let st2 = spec_after(plan, st1, outcomes[1]);
    assert(st2 == (PipelineState { idx: plan.len() as usize, failed: true }));
    assert(spec_run_from(plan, init_state(), outcomes, 0) == spec_run_from(plan, st1, outcomes, 1));
    assert(spec_run_from(plan, st1, outcomes, 1) == spec_run_from(plan, st2, outcomes, 2));
    assert(spec_run_from(plan, st2, outcomes, 2) == StepDecision::FinishFailure);
}

/// Law: in the external code-generation modes, the stage after the
/// external invocation is artifact removal, whether the invocation
/// spawned successfully or failed to spawn — cleanup always runs.
pub proof fn lemma_cleanup_follows_invoke(k: ModeKind, st: PipelineState, outcome: StageOutcome)
    requires
        is_gen_external_kind(k),
        st.idx < spec_plan(k).len(),
        spec_plan(k)[st.idx as int] == Stage::InvokeTool,
    ensures
        spec_decide(spec_plan(k), spec_after(spec_plan(k), st, outcome)) == StepDecision::RunStage(
            Stage::RemoveArtifact,
        ),
{
    let plan = spec_plan(k);
    assert(st.idx == 4) by {
        assert(plan[0] == Stage::Load);
        assert(plan[1] == Stage::SemanticCheck);
        assert(plan[2] == Stage::Lower);
        assert(plan[3] == Stage::WriteArtifact);
        assert(plan[5] == Stage::RemoveArtifact);
        assert(plan[6] == Stage::Present);
    }
}


/// Law: a fatal condition at any stage before the external-process
/// boundary short-circuits every remaining stage and the invocation
/// fails.
pub proof fn lemma_fatal_short_circuits(
    plan: Seq<Stage>,
    st: PipelineState,
    outcomes: Seq<StageOutcome>,
    j: int,
)
    requires
        plan.len() <= usize::MAX,
        st.idx < plan.len(),
        plan[st.idx as int] != Stage::InvokeTool,
        plan[st.idx as int] != Stage::RemoveArtifact,
        outcomes[j] == StageOutcome::Fatal,
    ensures
        spec_run_from(plan, st, outcomes, j) == StepDecision::FinishFailure,
{
    let st1 = spec_after(plan, st, outcomes[j]);
    assert(st1.idx == plan.len() && st1.failed);
    assert(spec_run_from(plan, st1, outcomes, j + 1) == StepDecision::FinishFailure);
}

/// Law: in the external code-generation modes, a spawn failure of the
/// tool still lets artifact removal run, and — whatever the removal
/// itself reports — the invocation then fails.
pub proof fn lemma_spawn_failure_cleans_up_then_fails(
    k: ModeKind,
    st: PipelineState,
    removal: StageOutcome,
)
    requires
        is_gen_external_kind(k),
        st.idx < spec_plan(k).len(),
        spec_plan(k)[st.idx as int] == Stage::InvokeTool,
    ensures
        ({
            let plan = spec_plan(k);
            let st1 = spec_after(plan, st, StageOutcome::Fatal);
            spec_decide(plan, st1) == StepDecision::RunStage(Stage::RemoveArtifact)
                && spec_decide(plan, spec_after(plan, st1, removal))
                == StepDecision::FinishFailure
        }),
{
    lemma_cleanup_follows_invoke(k, st, StageOutcome::Fatal);
    let plan = spec_plan(k);
    assert(st.idx == 4) by {
        assert(plan[0] == Stage::Load);
        assert(plan[1] == Stage::SemanticCheck);
        assert(plan[2] == Stage::Lower);
        assert(plan[3] == Stage::WriteArtifact);
        assert(plan[5] == Stage::RemoveArtifact);
        assert(plan[6] == Stage::Present);
    }
}


/// Law: in the execution modes no artifact-removal stage follows the
/// external invocation, so a spawn failure of the runtime fails the
/// invocation at once.
pub proof fn lemma_run_spawn_failure_fails(k: ModeKind, st: PipelineState)
    requires
        is_run_kind(k),
        st.idx < spec_plan(k).len(),
        spec_plan(k)[st.idx as int] == Stage::InvokeTool,
    ensures
        spec_decide(spec_plan(k), spec_after(spec_plan(k), st, StageOutcome::Fatal))
            == StepDecision::FinishFailure,
{
    let plan = spec_plan(k);
    assert(st.idx == 3) by {
        assert(plan[0] == Stage::Load);
        assert(plan[1] == Stage::SemanticCheck);
        assert(plan[2] == Stage::Lower);
        assert(plan[4] == Stage::Present);
    }
}

/// The status line printed after an external invocation: empty when the
/// tool reported success, its status text otherwise. A non-zero status
/// is surfaced as text only, never as a pipeline failure.
pub fn external_status_line(success: bool, status: &str) -> (r: String)
    ensures
        success ==> r@ == Seq::<char>::empty(),
        !success ==> r@ == status@,
{
    if success {
        String::new()
    } else {
        status.to_owned()
    }
}

/// The fatal message a spawn failure of the external tool is wrapped
/// in; the underlying system error text is kept verbatim.
pub fn spawn_error_message(err: &str) -> (r: String)
    ensures
        r@ == "While running hvm: "@ + err@,
{
    let mut r: String = "While running hvm: ".to_owned();
    r.append(err);
    r
}

/// The final value line of an execution mode: the rendered term behind
/// a fixed marker, on one line in compact form, on its own lines in
/// pretty form.
pub fn render_run_result(term_text: &str, pretty: bool) -> (r: String)
    ensures
        pretty ==> r@ == "Result:\n"@ + term_text@,
        !pretty ==> r@ == "Result: "@ + term_text@,
{
    let mut r: String = if pretty {
        "Result:\n".to_owned()
    } else {
        "Result: ".to_owned()
    };
    r.append(term_text);
    r
}

} // verus!
