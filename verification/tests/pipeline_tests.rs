use cmake_directive::directive::BuildDirective;
use cmake_directive::pipeline::{
    malformed_diagnostic, DiagnosticKind, LinkageDescriptor, Pipeline, PipelineAction,
    PipelineEvent, ProcessOutcome, SourceSpan, StepKind, ToolInvocation,
};
use cmake_directive::workspace::{join_path, resolve_workspace, PipelineConfig};
use cmake_directive::{plugin_registrar, Registry};

fn config() -> PipelineConfig {
    PipelineConfig {
        working_dir: String::from("/work"),
        cache_root: String::from("/home/user/.cmake-rs-builds"),
        unit_id: String::from("myunit"),
    }
}

fn directive(path: &str, lib: Option<&str>) -> BuildDirective {
    BuildDirective {
        source_path: String::from(path),
        library_name: lib.map(String::from),
    }
}

fn span() -> SourceSpan {
    SourceSpan { lo: 10, hi: 20 }
}

fn expect_make_dir(action: PipelineAction) -> String {
    match action {
        PipelineAction::MakeDir(p) => p,
        PipelineAction::RunTool(_) => panic!("expected a directory request"),
    }
}

fn expect_run_tool(action: PipelineAction) -> ToolInvocation {
    match action {
        PipelineAction::RunTool(inv) => inv,
        PipelineAction::MakeDir(_) => panic!("expected a tool invocation"),
    }
}

fn silent() -> PipelineEvent {
    PipelineEvent::ToolDone(ProcessOutcome::Completed(String::new()))
}

#[test]
fn registrar_registers_the_directive_name() {
    let mut reg = Registry { directives: Vec::new() };
    plugin_registrar(&mut reg);
    assert_eq!(reg.directives, vec![String::from("cmake")]);
}

#[test]
fn join_path_inserts_separator() {
    assert_eq!(join_path("/a", "b"), "/a/b");
    assert_eq!(join_path("/a/", "b"), "/a/b");
    assert_eq!(join_path("/a", "/b"), "/b");
    assert_eq!(join_path("", "b"), "/b");
}

#[test]
fn workspace_paths_are_derived_from_source_and_cache() {
    let ws = resolve_workspace("/tmp/proj", &config());
    assert_eq!(ws.build_dir, "/tmp/proj/cmake-build");
    assert_eq!(ws.output_dir, "/home/user/.cmake-rs-builds/myunit");
}

#[test]
fn relative_source_paths_resolve_against_the_working_directory() {
    let (p, first) = Pipeline::start(directive("proj", None), &config(), span());
    assert_eq!(p.directive.source_path, "/work/proj");
    assert_eq!(expect_make_dir(first), "/work/proj/cmake-build");
}

#[test]
fn end_to_end_silent_tools_emit_fragment() {
    let (mut p, first) = Pipeline::start(directive("/tmp/proj", Some("foo")), &config(), span());
    assert_eq!(expect_make_dir(first), "/tmp/proj/cmake-build");

    let second = p.step(PipelineEvent::DirMade).unwrap();
    assert_eq!(expect_make_dir(second), "/home/user/.cmake-rs-builds/myunit");

    let third = p.step(PipelineEvent::DirMade).unwrap();
    let configure = expect_run_tool(third);
    assert_eq!(configure.step, StepKind::ConfigureStep);
    assert_eq!(configure.cwd, "/tmp/proj/cmake-build");
    assert_eq!(
        configure.args,
        vec![
            String::from(
                "-DCMAKE_LIBRARY_OUTPUT_DIRECTORY:dir=/home/user/.cmake-rs-builds/myunit"
            ),
            String::from(
                "-DCMAKE_ARCHIVE_OUTPUT_DIRECTORY:dir=/home/user/.cmake-rs-builds/myunit"
            ),
            String::from("/tmp/proj"),
        ]
    );

    let fourth = p.step(silent()).unwrap();
    let build = expect_run_tool(fourth);
    assert_eq!(build.step, StepKind::BuildStep);
    assert_eq!(build.cwd, "/tmp/proj/cmake-build");
    assert_eq!(build.args, vec![String::from("foo")]);

    assert!(p.step(silent()).is_none());
    assert!(p.diagnostics.is_empty());
    match p.fragment {
        Some(LinkageDescriptor::Linkage { search_path, library_name }) => {
            assert_eq!(search_path, "/home/user/.cmake-rs-builds/myunit");
            assert_eq!(library_name, "foo");
        },
        _ => panic!("expected a linkage fragment"),
    }
}

#[test]
fn no_library_yields_empty_fragment_and_bare_build_invocation() {
    let (mut p, _) = Pipeline::start(directive("/tmp/proj", None), &config(), span());
    p.step(PipelineEvent::DirMade).unwrap();
    p.step(PipelineEvent::DirMade).unwrap();
    let build = expect_run_tool(p.step(silent()).unwrap());
    assert_eq!(build.step, StepKind::BuildStep);
    assert!(build.args.is_empty());
    assert!(p.step(silent()).is_none());
    assert!(p.diagnostics.is_empty());
    assert!(matches!(p.fragment, Some(LinkageDescriptor::NoLinkage)));
}

#[test]
fn repeated_evaluation_requests_the_same_directories() {
    let run = || {
        let (mut p, first) = Pipeline::start(directive("/tmp/proj", Some("foo")), &config(), span());
        let second = p.step(PipelineEvent::DirMade).unwrap();
        (expect_make_dir(first), expect_make_dir(second))
    };
    let (build1, out1) = run();
    // The second evaluation sees both directories already present; the
    // request is the same create-if-absent pair, never a failure.
    let (build2, out2) = run();
    assert_eq!(build1, build2);
    assert_eq!(out1, out2);
}

#[test]
fn configure_diagnostics_halt_before_any_build_invocation() {
    let (mut p, _) = Pipeline::start(directive("/tmp/proj", None), &config(), span());
    p.step(PipelineEvent::DirMade).unwrap();
    p.step(PipelineEvent::DirMade).unwrap();
    let next = p.step(PipelineEvent::ToolDone(ProcessOutcome::Completed(String::from(
        "error: bad config",
    ))));
    // No further action: in particular, no build-step invocation occurs.
    assert!(next.is_none());
    assert!(p.fragment.is_none());
    assert_eq!(p.diagnostics.len(), 1);
    assert_eq!(p.diagnostics[0].kind, DiagnosticKind::ToolDiagnosticError);
    assert_eq!(p.diagnostics[0].message, "error: bad config");
    assert_eq!(p.diagnostics[0].span, span());
    // The failed evaluation stays inert whatever arrives afterwards.
    assert!(p.step(silent()).is_none());
    assert_eq!(p.diagnostics.len(), 1);
}

#[test]
fn build_diagnostics_are_fatal_too() {
    let (mut p, _) = Pipeline::start(directive("/tmp/proj", Some("foo")), &config(), span());
    p.step(PipelineEvent::DirMade).unwrap();
    p.step(PipelineEvent::DirMade).unwrap();
    p.step(silent()).unwrap();
    let next = p.step(PipelineEvent::ToolDone(ProcessOutcome::Completed(String::from(
        "undefined reference",
    ))));
    assert!(next.is_none());
    assert!(p.fragment.is_none());
    assert_eq!(p.diagnostics.len(), 1);
    assert_eq!(p.diagnostics[0].kind, DiagnosticKind::ToolDiagnosticError);
    assert_eq!(p.diagnostics[0].message, "undefined reference");
}

#[test]
fn directory_creation_failure_is_a_workspace_error() {
    let (mut p, _) = Pipeline::start(directive("/tmp/proj", None), &config(), span());
    let next = p.step(PipelineEvent::DirFailed(String::from("permission denied")));
    assert!(next.is_none());
    assert!(p.fragment.is_none());
    assert_eq!(p.diagnostics.len(), 1);
    assert_eq!(p.diagnostics[0].kind, DiagnosticKind::WorkspaceError);
    assert_eq!(p.diagnostics[0].message, "permission denied");
}

#[test]
fn output_directory_failure_is_a_workspace_error() {
    let (mut p, _) = Pipeline::start(directive("/tmp/proj", None), &config(), span());
    p.step(PipelineEvent::DirMade).unwrap();
    let next = p.step(PipelineEvent::DirFailed(String::from("disk full")));
    assert!(next.is_none());
    assert_eq!(p.diagnostics.len(), 1);
    assert_eq!(p.diagnostics[0].kind, DiagnosticKind::WorkspaceError);
    assert_eq!(p.diagnostics[0].message, "disk full");
}

#[test]
fn spawn_failure_is_a_tool_spawn_error() {
    let (mut p, _) = Pipeline::start(directive("/tmp/proj", None), &config(), span());
    p.step(PipelineEvent::DirMade).unwrap();
    p.step(PipelineEvent::DirMade).unwrap();
    let next = p.step(PipelineEvent::ToolDone(ProcessOutcome::SpawnFailed(String::from(
        "command not found",
    ))));
    assert!(next.is_none());
    assert!(p.fragment.is_none());
    assert_eq!(p.diagnostics.len(), 1);
    assert_eq!(p.diagnostics[0].kind, DiagnosticKind::ToolSpawnError);
    assert_eq!(p.diagnostics[0].message, "command not found");
}

#[test]
fn malformed_directives_become_span_level_errors() {
    let d = malformed_diagnostic(String::from("too many arguments"), span());
    assert_eq!(d.kind, DiagnosticKind::MalformedDirective);
    assert_eq!(d.span, span());
    assert_eq!(d.message, "too many arguments");
}

#[test]
fn unavailable_stderr_warns_and_continues() {
    let (mut p, _) = Pipeline::start(directive("/tmp/proj", Some("foo")), &config(), span());
    p.step(PipelineEvent::DirMade).unwrap();
    p.step(PipelineEvent::DirMade).unwrap();
    let build = expect_run_tool(
        p.step(PipelineEvent::ToolDone(ProcessOutcome::StderrUnavailable)).unwrap(),
    );
    assert_eq!(build.step, StepKind::BuildStep);
    assert!(p.step(PipelineEvent::ToolDone(ProcessOutcome::StderrUnavailable)).is_none());
    // Two warnings were reported, yet the evaluation succeeded.
    assert_eq!(p.diagnostics.len(), 2);
    assert!(p
        .diagnostics
        .iter()
        .all(|d| d.kind == DiagnosticKind::StreamUnavailableWarning
            && d.message == "could not open stderr pipe"));
    assert!(matches!(
        p.fragment,
        Some(LinkageDescriptor::Linkage { .. })
    ));
}
