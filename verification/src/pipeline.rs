//! The directive-to-linkage pipeline: sequential tool invocation,
//! diagnostic translation and linkage emission, as a state machine.
//!
//! Filesystem and process work cannot be done here, so the pipeline is
//! driven through a protocol: [`Pipeline::start`] and every
//! [`Pipeline::step`] hand the host an action (create a directory, run a
//! tool); the host performs it and hands back the event that came of it.
//! Every decision — which tool runs next, when a diagnostic stream halts
//! the evaluation, what fragment is emitted — is made and verified here.

use vstd::prelude::*;
use crate::directive::BuildDirective;
use crate::workspace::BuildWorkspace;
use crate::workspace::PipelineConfig;
use crate::workspace::spec_absolutize;
use crate::workspace::spec_build_dir;
use crate::workspace::spec_output_dir;
use crate::workspace::absolutize;
use crate::workspace::resolve_workspace;

verus! {

/// Which of the two toolchain phases an invocation belongs to.
#[derive(Clone, Copy, PartialEq, Eq, Debug)]
pub enum StepKind {
    /// The configure tool, generating build files from the source tree.
    ConfigureStep,
    /// The build tool, compiling the generated build files.
    BuildStep,
}

/// One external tool invocation, fully determined before the host runs
/// it: the phase (which names the tool), the working directory, and the
/// argument list.
pub struct ToolInvocation {
    /// The toolchain phase this invocation belongs to.
    pub step: StepKind,
    /// The directory the tool runs in: always the build directory.
    pub cwd: String,
    /// The tool's arguments, in order.
    pub args: Vec<String>,
}

/// What became of one tool invocation, as observed by the host.
pub enum ProcessOutcome {
    /// The tool could not be started; carries the underlying error text.
    SpawnFailed(String),
    /// The tool ran, but no diagnostic stream handle could be obtained.
    StderrUnavailable,
    /// The tool ran; carries its captured diagnostic stream, drained to
    /// completion.
    Completed(String),
}

/// The classes of condition the pipeline reports.
#[derive(Clone, Copy, PartialEq, Eq, Debug)]
pub enum DiagnosticKind {
    /// Bad directive syntax; fatal.
    MalformedDirective,
    /// A workspace directory could not be created; fatal.
    WorkspaceError,
    /// An external tool could not be started; fatal.
    ToolSpawnError,
    /// An external tool produced non-empty diagnostic output; fatal.
    ToolDiagnosticError,
    /// A diagnostic stream could not be opened; non-fatal.
    StreamUnavailableWarning,
}

/// The source location of the directive occurrence, to which every
/// reported condition is anchored.
#[derive(Clone, Copy, PartialEq, Eq, Debug)]
pub struct SourceSpan {
    /// Start of the occurrence.
    pub lo: u64,
    /// End of the occurrence.
    pub hi: u64,
}

/// One reported condition, anchored to the directive's source location.
#[derive(Clone, PartialEq, Eq, Debug)]
pub struct Diagnostic {
    /// What class of condition this is.
    pub kind: DiagnosticKind,
    /// The directive occurrence it is anchored to.
    pub span: SourceSpan,
    /// The condition's text, verbatim from the underlying failure.
    pub message: String,
}

/// The structured result of a successful evaluation.
pub enum LinkageDescriptor {
    /// No linkage instruction at all: the directive named no library and
    /// existed purely to trigger the build.
    NoLinkage,
    /// Add a search path; link one library.
    Linkage {
        /// Directory to add to the library search path: the workspace's
        /// output directory.
        search_path: String,
        /// Name of the library to link.
        library_name: String,
    },
}

/// Where one evaluation stands.
#[derive(Clone, Copy, PartialEq, Eq, Debug)]
pub enum Phase {
    /// Waiting for the build directory to be created.
    MakingBuildDir,
    /// Waiting for the output directory to be created.
    MakingOutputDir,
    /// Waiting for the configure tool's outcome.
    Configuring,
    /// Waiting for the build tool's outcome.
    Building,
    /// Finished; a fragment was emitted.
    Succeeded,
    /// Finished on a fatal condition; no fragment exists.
    Failed,
}

/// What the host reports back after performing an action.
pub enum PipelineEvent {
    /// The requested directory exists now (created, or already present).
    DirMade,
    /// The requested directory could not be created; carries the
    /// underlying filesystem error text.
    DirFailed(String),
    /// The requested tool invocation finished.
    ToolDone(ProcessOutcome),
}

/// What the pipeline asks the host to do next.
pub enum PipelineAction {
    /// Create this directory if it is absent, recursively, with owner
    /// read/write/execute permissions.
    MakeDir(String),
    /// Run this tool invocation and drain its diagnostic stream.
    RunTool(ToolInvocation),
}

/// Whether an invocation is the configure step of this workspace: run in
/// the build directory, with both output-location parameters set to the
/// output directory and the absolute source path as project root.
pub open spec fn spec_configure_invocation(
    inv: ToolInvocation,
    ws: BuildWorkspace,
    source_abs: Seq<char>,
) -> bool {
    &&& inv.step is ConfigureStep
    &&& inv.cwd@ == ws.build_dir@
    &&& inv.args@.len() == 3
    &&& inv.args@[0]@ == "-DCMAKE_LIBRARY_OUTPUT_DIRECTORY:dir="@ + ws.output_dir@
    &&& inv.args@[1]@ == "-DCMAKE_ARCHIVE_OUTPUT_DIRECTORY:dir="@ + ws.output_dir@
    &&& inv.args@[2]@ == source_abs
}

/// Whether an invocation is the build step of this workspace: run in the
/// build directory, with the target name as its only argument when the
/// directive names a library, and no argument otherwise.
pub open spec fn spec_build_invocation(
    inv: ToolInvocation,
    ws: BuildWorkspace,
    lib: Option<String>,
) -> bool {
    &&& inv.step is BuildStep
    &&& inv.cwd@ == ws.build_dir@
    &&& match lib {
        Some(l) => inv.args@.len() == 1 && inv.args@[0]@ == l@,
        None => inv.args@.len() == 0,
    }
}

/// Whether a fragment is the one owed to this workspace and library name:
/// search path equal to the output directory and the directive's library
/// name when one is present, and no linkage instruction at all otherwise.
pub open spec fn spec_fragment_for(
    frag: LinkageDescriptor,
    ws: BuildWorkspace,
    lib: Option<String>,
) -> bool {
    match lib {
        Some(l) => frag matches LinkageDescriptor::Linkage { search_path, library_name }
            && search_path@ == ws.output_dir@ && library_name@ == l@,
        None => frag is NoLinkage,
    }
}

/// Whether `new_d` is `old_d` with one condition of kind `k`, span `sp`
/// and text `msg` appended.
pub open spec fn spec_pushed_diag(
    old_d: Seq<Diagnostic>,
    new_d: Seq<Diagnostic>,
    k: DiagnosticKind,
    sp: SourceSpan,
    msg: Seq<char>,
) -> bool {
    &&& new_d.len() == old_d.len() + 1
    &&& new_d.subrange(0, old_d.len() as int) == old_d
    &&& new_d.last().kind == k
    &&& new_d.last().span == sp
    &&& new_d.last().message@ == msg
}

/// One evaluation of one directive: a linear pipeline, stepped by the
/// host's events.
pub struct Pipeline {
    /// The parsed directive, its source path in absolute form.
    pub directive: BuildDirective,
    /// The resolved workspace.
    pub workspace: BuildWorkspace,
    /// The directive occurrence every condition is anchored to.
    pub span: SourceSpan,
    /// Where the evaluation stands.
    pub phase: Phase,
    /// Every condition reported so far, in order.
    pub diagnostics: Vec<Diagnostic>,
    /// The emitted fragment, present exactly on success.
    pub fragment: Option<LinkageDescriptor>,
}

/// Which events can answer which phase: directory events while a
/// directory is awaited, tool outcomes while a tool runs, anything once
/// the evaluation is finished (it is ignored then).
pub open spec fn spec_event_fits(phase: Phase, ev: PipelineEvent) -> bool {
    match phase {
        Phase::MakingBuildDir => ev is DirMade || ev is DirFailed,
        Phase::MakingOutputDir => ev is DirMade || ev is DirFailed,
        Phase::Configuring => ev is ToolDone,
        Phase::Building => ev is ToolDone,
        Phase::Succeeded => true,
        Phase::Failed => true,
    }
}

/// The parts of the pipeline no step may touch: the directive, the
/// workspace and the anchor span.
pub open spec fn spec_core_unchanged(pre: Pipeline, post: Pipeline) -> bool {
    &&& post.directive == pre.directive
    &&& post.workspace == pre.workspace
    &&& post.span == pre.span
}

/// A fatal halt: the evaluation fails, one condition of kind `k` with
/// text `msg` is appended, no fragment exists, and no action is issued.
pub open spec fn spec_halted(
    pre: Pipeline,
    post: Pipeline,
    act: Option<PipelineAction>,
    k: DiagnosticKind,
    msg: Seq<char>,
) -> bool {
    &&& post.phase is Failed
    &&& spec_pushed_diag(pre.diagnostics@, post.diagnostics@, k, pre.span, msg)
    &&& post.fragment is None
    &&& act is None
}

/// The pipeline's full transition relation: what one step does, for every
/// phase and event. [`Pipeline::step`] is proved against it, and the laws
/// below are proved from it.
pub open spec fn spec_step_rel(
    pre: Pipeline,
    ev: PipelineEvent,
    post: Pipeline,
    act: Option<PipelineAction>,
) -> bool {
    &&& spec_core_unchanged(pre, post)
    &&& match pre.phase {
        Phase::MakingBuildDir => match ev {
            PipelineEvent::DirMade => {
                &&& post.phase is MakingOutputDir
                &&& post.diagnostics@ == pre.diagnostics@
                &&& post.fragment == pre.fragment
                &&& act matches Some(PipelineAction::MakeDir(p)) && p@ == pre.workspace.output_dir@
            },
            PipelineEvent::DirFailed(e) => spec_halted(
                pre,
                post,
                act,
                DiagnosticKind::WorkspaceError,
                e@,
            ),
            PipelineEvent::ToolDone(_) => false,
        },
        Phase::MakingOutputDir => match ev {
            PipelineEvent::DirMade => {
                &&& post.phase is Configuring
                &&& post.diagnostics@ == pre.diagnostics@
                &&& post.fragment == pre.fragment
                &&& act matches Some(PipelineAction::RunTool(inv)) && spec_configure_invocation(
                    inv,
                    pre.workspace,
                    pre.directive.source_path@,
                )
            },
            PipelineEvent::DirFailed(e) => spec_halted(
                pre,
                post,
                act,
                DiagnosticKind::WorkspaceError,
                e@,
            ),
            PipelineEvent::ToolDone(_) => false,
        },
        Phase::Configuring => match ev {
            PipelineEvent::ToolDone(out) => match out {
                ProcessOutcome::SpawnFailed(e) => spec_halted(
                    pre,
                    post,
                    act,
                    DiagnosticKind::ToolSpawnError,
                    e@,
                ),
                ProcessOutcome::StderrUnavailable => {
                    &&& post.phase is Building
                    &&& spec_pushed_diag(
                        pre.diagnostics@,
                        post.diagnostics@,
                        DiagnosticKind::StreamUnavailableWarning,
                        pre.span,
                        "could not open stderr pipe"@,
                    )
                    &&& post.fragment == pre.fragment
                    &&& act matches Some(PipelineAction::RunTool(inv)) && spec_build_invocation(
                        inv,
                        pre.workspace,
                        pre.directive.library_name,
                    )
                },
                ProcessOutcome::Completed(s) => if s@.len() == 0 {
                    &&& post.phase is Building
                    &&& post.diagnostics@ == pre.diagnostics@
                    &&& post.fragment == pre.fragment
                    &&& act matches Some(PipelineAction::RunTool(inv)) && spec_build_invocation(
                        inv,
                        pre.workspace,
                        pre.directive.library_name,
                    )
                } else {
                    spec_halted(pre, post, act, DiagnosticKind::ToolDiagnosticError, s@)
                },
            },
            _ => false,
        },
        Phase::Building => match ev {
            PipelineEvent::ToolDone(out) => match out {
                ProcessOutcome::SpawnFailed(e) => spec_halted(
                    pre,
                    post,
                    act,
                    DiagnosticKind::ToolSpawnError,
                    e@,
                ),
                ProcessOutcome::StderrUnavailable => {
                    &&& post.phase is Succeeded
                    &&& spec_pushed_diag(
                        pre.diagnostics@,
                        post.diagnostics@,
                        DiagnosticKind::StreamUnavailableWarning,
                        pre.span,
                        "could not open stderr pipe"@,
                    )
                    &&& post.fragment matches Some(frag) && spec_fragment_for(
                        frag,
                        pre.workspace,
                        pre.directive.library_name,
                    )
                    &&& act is None
                },
                ProcessOutcome::Completed(s) => if s@.len() == 0 {
                    &&& post.phase is Succeeded
                    &&& post.diagnostics@ == pre.diagnostics@
                    &&& post.fragment matches Some(frag) && spec_fragment_for(
                        frag,
                        pre.workspace,
                        pre.directive.library_name,
                    )
                    &&& act is None
                } else {
                    spec_halted(pre, post, act, DiagnosticKind::ToolDiagnosticError, s@)
                },
            },
            _ => false,
        },
        Phase::Succeeded => post == pre && act is None,
        Phase::Failed => post == pre && act is None,
    }
}

impl Pipeline {
    /// Well-formedness: a fragment exists exactly on success, and then it
    /// is the one owed to this workspace and directive.
    pub open spec fn wf(self) -> bool {
        &&& self.fragment is Some <==> self.phase is Succeeded
        &&& self.phase is Succeeded ==> (self.fragment matches Some(frag) && spec_fragment_for(
            frag,
            self.workspace,
            self.directive.library_name,
        ))
    }

    /// Begins one evaluation: resolves the source path to absolute form,
    /// computes the workspace, and asks the host for the build directory.
    pub fn start(directive: BuildDirective, config: &PipelineConfig, span: SourceSpan) -> (r: (
        Pipeline,
        PipelineAction,
    ))
        ensures
            r.0.wf(),
            r.0.phase is MakingBuildDir,
            r.0.directive.source_path@ == spec_absolutize(
                config.working_dir@,
                directive.source_path@,
            ),
            r.0.directive.library_name == directive.library_name,
            r.0.workspace.build_dir@ == spec_build_dir(r.0.directive.source_path@),
            r.0.workspace.output_dir@ == spec_output_dir(config.cache_root@, config.unit_id@),
            r.0.span == span,
            r.0.diagnostics@.len() == 0,
            r.0.fragment is None,
            r.1 matches PipelineAction::MakeDir(p) && p@ == r.0.workspace.build_dir@,
    {
        let source_abs = absolutize(config.working_dir.as_str(), directive.source_path.as_str());
        let workspace = resolve_workspace(source_abs.as_str(), config);
        let first = PipelineAction::MakeDir(workspace.build_dir.clone());
        let p = Pipeline {
            directive: BuildDirective {
                source_path: source_abs,
                library_name: directive.library_name,
            },
            workspace,
            span,
            phase: Phase::MakingBuildDir,
            diagnostics: Vec::new(),
            fragment: None,
        };
        (p, first)
    }

    /// Appends one fatal condition and halts the evaluation.
    fn fail(&mut self, kind: DiagnosticKind, message: String)
        ensures
            spec_core_unchanged(*old(self), *final(self)),
            final(self).phase is Failed,
            spec_pushed_diag(
                old(self).diagnostics@,
                final(self).diagnostics@,
                kind,
                old(self).span,
                message@,
            ),
            final(self).fragment == old(self).fragment,
    {
        let d = Diagnostic { kind, span: self.span, message };
        self.diagnostics.push(d);
        self.phase = Phase::Failed;
        proof {
            assert(self.diagnostics@.subrange(0, old(self).diagnostics@.len() as int)
                =~= old(self).diagnostics@);
        }
    }

    /// Appends the non-fatal condition for a diagnostic stream that could
    /// not be opened; the evaluation continues.
    fn warn_stream_unavailable(&mut self)
        ensures
            spec_core_unchanged(*old(self), *final(self)),
            final(self).phase == old(self).phase,
            spec_pushed_diag(
                old(self).diagnostics@,
                final(self).diagnostics@,
                DiagnosticKind::StreamUnavailableWarning,
                old(self).span,
                "could not open stderr pipe"@,
            ),
            final(self).fragment == old(self).fragment,
    {
        let d = Diagnostic {
            kind: DiagnosticKind::StreamUnavailableWarning,
            span: self.span,
            message: String::from_str("could not open stderr pipe"),
        };
        self.diagnostics.push(d);
        proof {
            assert(self.diagnostics@.subrange(0, old(self).diagnostics@.len() as int)
                =~= old(self).diagnostics@);
        }
    }

    /// Builds the configure-step invocation of this workspace.
    fn configure_invocation(&self) -> (inv: ToolInvocation)
        ensures
            spec_configure_invocation(inv, self.workspace, self.directive.source_path@),
    {
        let mut args: Vec<String> = Vec::new();
        args.push(
            String::from_str("-DCMAKE_LIBRARY_OUTPUT_DIRECTORY:dir=").concat(
                self.workspace.output_dir.as_str(),
            ),
        );
        args.push(
            String::from_str("-DCMAKE_ARCHIVE_OUTPUT_DIRECTORY:dir=").concat(
                self.workspace.output_dir.as_str(),
            ),
        );
        args.push(self.directive.source_path.clone());
        ToolInvocation {
            step: StepKind::ConfigureStep,
            cwd: self.workspace.build_dir.clone(),
            args,
        }
    }

    /// Builds the build-step invocation of this workspace.
    fn build_invocation(&self) -> (inv: ToolInvocation)
        ensures
            spec_build_invocation(inv, self.workspace, self.directive.library_name),
    {
        let mut args: Vec<String> = Vec::new();
        match &self.directive.library_name {
            Some(l) => {
                args.push(l.clone());
            },
            None => {},
        }
        ToolInvocation { step: StepKind::BuildStep, cwd: self.workspace.build_dir.clone(), args }
    }

    /// Emits the fragment owed to this workspace and directive.
    fn emit_fragment(&self) -> (frag: LinkageDescriptor)
        ensures
            spec_fragment_for(frag, self.workspace, self.directive.library_name),
    {
        match &self.directive.library_name {
            Some(l) => LinkageDescriptor::Linkage {
                search_path: self.workspace.output_dir.clone(),
                library_name: l.clone(),
            },
            None => LinkageDescriptor::NoLinkage,
        }
    }

    /// Consumes the event the host reports for the previous action and
    /// decides what happens next, exactly as [`spec_step_rel`] lays out.
    /// Returns the next action, or `None` when the evaluation is
    /// finished.
    pub fn step(&mut self, event: PipelineEvent) -> (r: Option<PipelineAction>)
        requires
            old(self).wf(),
            spec_event_fits(old(self).phase, event),
        ensures
            final(self).wf(),
            spec_step_rel(*old(self), event, *final(self), r),
    {
        let ph = self.phase;
        match ph {
            Phase::MakingBuildDir => match event {
                PipelineEvent::DirMade => {
                    self.phase = Phase::MakingOutputDir;
                    Some(PipelineAction::MakeDir(self.workspace.output_dir.clone()))
                },
                PipelineEvent::DirFailed(e) => {
                    self.fail(DiagnosticKind::WorkspaceError, e);
                    None
                },
                PipelineEvent::ToolDone(_) => {
                    proof {
                        assert(false);
                    }
                    None
                },
            },
            Phase::MakingOutputDir => match event {
                PipelineEvent::DirMade => {
                    self.phase = Phase::Configuring;
                    Some(PipelineAction::RunTool(self.configure_invocation()))
                },
                PipelineEvent::DirFailed(e) => {
                    self.fail(DiagnosticKind::WorkspaceError, e);
                    None
                },
                PipelineEvent::ToolDone(_) => {
                    proof {
                        assert(false);
                    }
                    None
                },
            },
            Phase::Configuring => match event {
                PipelineEvent::ToolDone(out) => match out {
                    ProcessOutcome::SpawnFailed(e) => {
                        self.fail(DiagnosticKind::ToolSpawnError, e);
                        None
                    },
                    ProcessOutcome::StderrUnavailable => {
                        self.warn_stream_unavailable();
                        self.phase = Phase::Building;
                        Some(PipelineAction::RunTool(self.build_invocation()))
                    },
                    ProcessOutcome::Completed(s) => {
                        if s.unicode_len() == 0 {
                            self.phase = Phase::Building;
                            Some(PipelineAction::RunTool(self.build_invocation()))
                        } else {
                            self.fail(DiagnosticKind::ToolDiagnosticError, s);
                            None
                        }
                    },
                },
                _ => {
                    proof {
                        assert(false);
                    }
                    None
                },
            },
            Phase::Building => match event {
                PipelineEvent::ToolDone(out) => match out {
                    ProcessOutcome::SpawnFailed(e) => {
                        self.fail(DiagnosticKind::ToolSpawnError, e);
                        None
                    },
                    ProcessOutcome::StderrUnavailable => {
                        self.warn_stream_unavailable();
                        self.fragment = Some(self.emit_fragment());
                        self.phase = Phase::Succeeded;
                        None
                    },
                    ProcessOutcome::Completed(s) => {
                        if s.unicode_len() == 0 {
                            self.fragment = Some(self.emit_fragment());
                            self.phase = Phase::Succeeded;
                            None
                        } else {
                            self.fail(DiagnosticKind::ToolDiagnosticError, s);
                            None
                        }
                    },
                },
                _ => {
                    proof {
                        assert(false);
                    }
                    None
                },
            },
            Phase::Succeeded => None,
            Phase::Failed => None,
        }
    }
}

/// Builds the span-level condition for a directive that did not parse,
/// carrying the parser's message verbatim.
pub fn malformed_diagnostic(message: String, span: SourceSpan) -> (d: Diagnostic)
    ensures
        d.kind == DiagnosticKind::MalformedDirective,
        d.span == span,
        d.message@ == message@,
{
    Diagnostic { kind: DiagnosticKind::MalformedDirective, span, message }
}

/// Law: when the build step completes with an empty diagnostic stream,
/// the evaluation succeeds and the emitted fragment carries the resolved
/// output directory as search path and the directive's library name —
/// and nothing more is asked of the host.
pub proof fn lemma_success_emits_owed_fragment(
    pre: Pipeline,
    ev: PipelineEvent,
    post: Pipeline,
    act: Option<PipelineAction>,
)
    requires
        spec_step_rel(pre, ev, post, act),
        pre.phase is Building,
        ev matches PipelineEvent::ToolDone(ProcessOutcome::Completed(s)) && s@.len() == 0,
    ensures
        post.phase is Succeeded,
        post.fragment matches Some(frag) && spec_fragment_for(
            frag,
            pre.workspace,
            pre.directive.library_name,
        ),
        act is None,
{
}

/// Law: a fragment owed to a directive that names no library carries no
/// linkage instruction at all — neither a library name nor a search-path
/// entry.
pub proof fn lemma_no_library_means_no_linkage(frag: LinkageDescriptor, ws: BuildWorkspace)
    requires
        spec_fragment_for(frag, ws, None::<String>),
    ensures
        frag is NoLinkage,
{
}

/// Law: non-empty diagnostic output from the configure step halts the
/// evaluation at once — no build-step invocation is issued, the phase is
/// final, and the tool's output is the reported condition's text.
pub proof fn lemma_configure_diagnostics_forbid_build(
    pre: Pipeline,
    ev: PipelineEvent,
    post: Pipeline,
    act: Option<PipelineAction>,
)
    requires
        spec_step_rel(pre, ev, post, act),
        pre.phase is Configuring,
        ev matches PipelineEvent::ToolDone(ProcessOutcome::Completed(s)) && s@.len() > 0,
    ensures
        act is None,
        post.phase is Failed,
        post.fragment is None,
        ev matches PipelineEvent::ToolDone(ProcessOutcome::Completed(s)) ==> spec_pushed_diag(
            pre.diagnostics@,
            post.diagnostics@,
            DiagnosticKind::ToolDiagnosticError,
            pre.span,
            s@,
        ),
{
}

/// Law: a finished evaluation is inert — whatever event arrives, nothing
/// changes and no action is ever issued again.
pub proof fn lemma_finished_pipeline_is_inert(
    pre: Pipeline,
    ev: PipelineEvent,
    post: Pipeline,
    act: Option<PipelineAction>,
)
    requires
        spec_step_rel(pre, ev, post, act),
        pre.phase is Failed || pre.phase is Succeeded,
    ensures
        post == pre,
        act is None,
{
}

/// The pipeline at position `i` of a failed run is still failed.
proof fn lemma_failed_at(
    states: Seq<Pipeline>,
    events: Seq<PipelineEvent>,
    acts: Seq<Option<PipelineAction>>,
    i: int,
)
    requires
        states.len() == events.len() + 1,
        acts.len() == events.len(),
        forall|j: int|
            0 <= j < events.len() ==> spec_step_rel(states[j], events[j], states[j + 1], acts[j]),
        states[0].phase is Failed,
        0 <= i < states.len(),
    ensures
        states[i].phase is Failed,
    decreases i,
{
    if i > 0 {
        lemma_failed_at(states, events, acts, i - 1);
        assert(spec_step_rel(states[i - 1], events[i - 1], states[i], acts[i - 1]));
    }
}

/// Law: once an evaluation has failed, no sequence of further events —
/// however long — makes it issue an action again. Together with
/// [`lemma_configure_diagnostics_forbid_build`] this says that after
/// non-empty configure-step output, no build-step invocation ever occurs.
pub proof fn lemma_failed_run_issues_no_action(
    states: Seq<Pipeline>,
    events: Seq<PipelineEvent>,
    acts: Seq<Option<PipelineAction>>,
)
    requires
        states.len() == events.len() + 1,
        acts.len() == events.len(),
        forall|j: int|
            0 <= j < events.len() ==> spec_step_rel(states[j], events[j], states[j + 1], acts[j]),
        states[0].phase is Failed,
    ensures
        forall|j: int| 0 <= j < acts.len() ==> acts[j] is None,
{
    assert forall|j: int| 0 <= j < acts.len() implies acts[j] is None by {
        lemma_failed_at(states, events, acts, j);
        assert(spec_step_rel(states[j], events[j], states[j + 1], acts[j]));
    }
}

/// Law: the directive, the workspace and the anchor span are invariant
/// over any run — whatever events arrive, every state of the run carries
/// the ones resolved at the start. A fragment emitted at any point of a
/// run therefore speaks of the output directory resolved at the start.
pub proof fn lemma_core_invariant_over_run(
    states: Seq<Pipeline>,
    events: Seq<PipelineEvent>,
    acts: Seq<Option<PipelineAction>>,
    i: int,
)
    requires
        states.len() == events.len() + 1,
        acts.len() == events.len(),
        forall|j: int|
            0 <= j < events.len() ==> spec_step_rel(states[j], events[j], states[j + 1], acts[j]),
        0 <= i < states.len(),
    ensures
        states[i].directive == states[0].directive,
        states[i].workspace == states[0].workspace,
        states[i].span == states[0].span,
    decreases i,
{
    if i > 0 {
        lemma_core_invariant_over_run(states, events, acts, i - 1);
        assert(spec_step_rel(states[i - 1], events[i - 1], states[i], acts[i - 1]));
    }
}

/// Law: one state and one event admit only one outcome — the same next
/// phase, the same diagnostics, fragments that agree, and actions that
/// agree letter for letter. Re-evaluating a directive from the same state
/// therefore retraces exactly the same workspace and tool requests, which
/// is what makes repeated evaluation harmless: each directory is only
/// ever requested again as the same create-if-absent action.
pub proof fn lemma_step_deterministic(
    pre: Pipeline,
    ev: PipelineEvent,
    post1: Pipeline,
    act1: Option<PipelineAction>,
    post2: Pipeline,
    act2: Option<PipelineAction>,
)
    requires
        spec_step_rel(pre, ev, post1, act1),
        spec_step_rel(pre, ev, post2, act2),
    ensures
        post1.phase == post2.phase,
        post1.diagnostics@.len() == post2.diagnostics@.len(),
        post1.fragment is Some <==> post2.fragment is Some,
        act1 is None <==> act2 is None,
        act1 matches Some(PipelineAction::MakeDir(p)) ==> (act2 matches Some(
            PipelineAction::MakeDir(q),
        ) && q@ == p@),
        act1 matches Some(PipelineAction::RunTool(i)) ==> (act2 matches Some(
            PipelineAction::RunTool(j),
        ) && j.step == i.step && j.cwd@ == i.cwd@ && j.args@.len() == i.args@.len() && (forall|
            k: int,
        |
            0 <= k < i.args@.len() ==> j.args@[k]@ == i.args@[k]@)),
{
}

} // verus!
