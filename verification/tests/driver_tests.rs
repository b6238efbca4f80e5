use bendpipe::driver::{
    apply_entrypoint, check_mode, desugar_mode, gen_hvm_mode, prepare_external_gen, prepare_run,
    present_run_result, render_external_result,
};
use bendpipe::pipeline::ModeKind;
use bendpipe::warn::{CliWarnOpts, DiagnosticSeverity, WarnGroup, WarningArgs};
use std::path::Path;

fn load(code: &str) -> bend::fun::Book {
    let origin = Path::new("test.bend");
    bend::load_to_book(
        origin,
        code,
        bend::imports::DefaultLoader::new(origin),
        bend::diagnostics::DiagnosticsConfig::default(),
    )
    .unwrap()
}

fn no_warn_flags() -> CliWarnOpts {
    CliWarnOpts { warns: vec![], denies: vec![], allows: vec![] }
}

#[test]
fn clean_program_checks_successfully_with_empty_diagnostics() {
    let mut book = load("main = 0\n");
    let r = check_mode(&mut book, &vec![], &no_warn_flags(), &vec![]);
    match r {
        Ok(text) => assert_eq!(text.trim(), ""),
        Err(d) => panic!("unexpected fatal diagnostics: {}", d),
    }
}

#[test]
fn denied_finding_fails_check_and_names_it() {
    let mut book = load("foo = 0\n\nmain = 0\n");
    let warn_opts = CliWarnOpts {
        warns: vec![],
        denies: vec![WarningArgs::UnusedDefinition],
        allows: vec![],
    };
    let r = check_mode(&mut book, &vec![], &warn_opts, &vec![WarnGroup::Denies]);
    match r {
        Ok(text) => panic!("expected a fatal finding, got: {}", text),
        Err(d) => {
            let text = format!("{}", d);
            assert!(text.contains("foo"), "finding not in error text: {}", text);
        }
    }
}

#[test]
fn allowed_finding_passes_check() {
    let mut book = load("foo = 0\n\nmain = 0\n");
    let warn_opts = CliWarnOpts {
        warns: vec![],
        denies: vec![],
        allows: vec![WarningArgs::UnusedDefinition],
    };
    let r = check_mode(&mut book, &vec![], &warn_opts, &vec![WarnGroup::Allows]);
    assert!(r.is_ok());
}

#[test]
fn desugar_returns_the_program_text() {
    let mut book = load("main = 0\n");
    let r = desugar_mode(&mut book, &vec![], &no_warn_flags(), &vec![], false);
    let (diags, text) = r.unwrap();
    assert_eq!(diags.trim(), "");
    assert!(text.contains("main"), "program text: {}", text);
}

#[test]
fn gen_hvm_returns_the_intermediate_text() {
    let mut book = load("main = 0\n");
    let r = gen_hvm_mode(&mut book, &vec![], &no_warn_flags(), &vec![]);
    let (_, ir) = r.unwrap();
    assert!(ir.contains("@main"), "intermediate text: {}", ir);
}

#[test]
fn external_gen_plans_fixed_location_and_subcommand() {
    let mut book = load("main = 0\n");
    let r = prepare_external_gen(ModeKind::GenC, &mut book, &vec![], &no_warn_flags(), &vec![]);
    let p = r.unwrap();
    assert_eq!(p.location, ".out.hvm");
    assert_eq!(p.subcommand, "gen-c");
    assert!(p.artifact_text.contains("@main"));

    let mut book = load("main = 0\n");
    let r = prepare_external_gen(ModeKind::GenCu, &mut book, &vec![], &no_warn_flags(), &vec![]);
    assert_eq!(r.unwrap().subcommand, "gen-cu");
}

#[test]
fn prepare_run_is_permissive_and_selects_the_runtime() {
    let (opts, cfg, cmd) = prepare_run(ModeKind::RunC, false, &vec![], &no_warn_flags(), &vec![]);
    assert_eq!(cmd, "run-c");
    assert_eq!(cfg.unused_definition, DiagnosticSeverity::Allow);
    assert_eq!(cfg.recursion_cycle, DiagnosticSeverity::Allow);
    assert!(opts.eta);
}

#[test]
fn external_result_is_decoded_lossily_with_status_text() {
    let stdout: Vec<u8> = vec![0xff, b'h', b'i'];
    let stderr: Vec<u8> = b"warn".to_vec();
    let (out, err, status) = render_external_result(&stdout, &stderr, false, "exit status: 1");
    assert_eq!(out, "\u{FFFD}hi");
    assert_eq!(err, "warn");
    assert_eq!(status, "exit status: 1");
    let (_, _, status) = render_external_result(&stdout, &stderr, true, "exit status: 0");
    assert_eq!(status, "");
}

#[test]
fn run_result_presentation() {
    let term = bend::fun::parser::FunParser::new(bend::fun::Name::new("args"), "42", false)
        .parse_term()
        .unwrap();
    let diags = bend::diagnostics::Diagnostics::default();
    let (err, line, stats) = present_run_result(&term, &diags, false, true, "RWTS: 7");
    assert_eq!(err.trim(), "");
    assert_eq!(line, "Result: 42");
    assert_eq!(stats, "RWTS: 7");
    let (_, line, stats) = present_run_result(&term, &diags, true, false, "RWTS: 7");
    assert!(line.starts_with("Result:\n"));
    assert_eq!(stats, "");
}

#[test]
fn entrypoint_override_is_recorded() {
    let mut book = load("go = 0\n\nmain = 0\n");
    apply_entrypoint(&mut book, &Some("go".to_string()));
    assert_eq!(book.entrypoint, Some(bend::fun::Name::new("go")));
    let mut book = load("main = 0\n");
    apply_entrypoint(&mut book, &None);
    assert_eq!(book.entrypoint, None);
}
