//! The per-mode driver functions: each resolves the configuration from
//! the ordered flags, runs the stages its mode requires through the
//! library boundary, and renders what the caller prints. Fatal
//! diagnostics come back as the error; the caller renders them and
//! reports failure.

use crate::bend_api::{
    book_text, book_text_pretty, check_book_call, compile_book_call, decode_utf8_lossy,
    desugar_book_call, diagnostics_text, set_book_entrypoint, term_text, term_text_pretty,
    utf8_lossy_of,
};
use crate::opts::{compile_opts_from_cli, default_opts, resolve_opts, CompileOptions, OptArgs};
use crate::pipeline::{
    artifact_path, base_diagnostics_cfg, external_status_line, gen_cmd, is_gen_external_kind,
    is_run_kind, render_run_result, run_cmd, spec_gen_cmd, spec_run_cmd, ModeKind,
};
use crate::warn::{
    default_cfg, resolve_warnings, set_warning_cfg_from_cli, uniform_cfg, CliWarnOpts,
    DiagnosticsSettings, DiagnosticSeverity, WarnGroup,
};
use vstd::prelude::*;

verus! {

/// The per-group queues hold a category for every tag of their group in
/// the merged stream.
pub open spec fn warn_flags_wf(warn_opts: CliWarnOpts, order: Seq<WarnGroup>) -> bool {
    &&& crate::warn::group_count(order, WarnGroup::Warns) <= warn_opts.warns@.len()
    &&& crate::warn::group_count(order, WarnGroup::Denies) <= warn_opts.denies@.len()
    &&& crate::warn::group_count(order, WarnGroup::Allows) <= warn_opts.allows@.len()
}

/// Records the entrypoint override on a loaded program, when one was
/// given.
pub fn apply_entrypoint(book: &mut bend::fun::Book, entrypoint: &Option<String>) {
    match entrypoint {
        Some(name) => set_book_entrypoint(book, name.as_str()),
        None => {},
    }
}

/// Checking mode: resolves the configuration, checks the program, and
/// returns the rendered non-fatal findings; a fatal finding is the
/// error.
pub fn check_mode(
    book: &mut bend::fun::Book,
    comp_opts: &Vec<OptArgs>,
    warn_opts: &CliWarnOpts,
    order: &Vec<WarnGroup>,
) -> (r: Result<String, bend::diagnostics::Diagnostics>)
    requires
        warn_flags_wf(*warn_opts, order@),
{
    let cfg = set_warning_cfg_from_cli(DiagnosticsSettings::default(), warn_opts, order);
    let opts = compile_opts_from_cli(comp_opts);
    match check_book_call(book, &cfg, &opts) {
        Ok(d) => Ok(diagnostics_text(&d)),
        Err(d) => Err(d),
    }
}

/// Desugaring mode: runs the term-level passes and returns the rendered
/// findings and the resulting program, pretty or compact.
pub fn desugar_mode(
    book: &mut bend::fun::Book,
    comp_opts: &Vec<OptArgs>,
    warn_opts: &CliWarnOpts,
    order: &Vec<WarnGroup>,
    pretty: bool,
) -> (r: Result<(String, String), bend::diagnostics::Diagnostics>)
    requires
        warn_flags_wf(*warn_opts, order@),
{
    let cfg = set_warning_cfg_from_cli(DiagnosticsSettings::default(), warn_opts, order);
    let opts = compile_opts_from_cli(comp_opts);
    match desugar_book_call(book, &cfg, &opts) {
        Ok(d) => {
            let text = if pretty {
                book_text_pretty(book)
            } else {
                book_text(book)
            };
            Ok((diagnostics_text(&d), text))
        },
        Err(d) => Err(d),
    }
}

/// Intermediate-generation mode: lowers the program and returns the
/// rendered findings and the intermediate-representation text.
pub fn gen_hvm_mode(
    book: &mut bend::fun::Book,
    comp_opts: &Vec<OptArgs>,
    warn_opts: &CliWarnOpts,
    order: &Vec<WarnGroup>,
) -> (r: Result<(String, String), bend::diagnostics::Diagnostics>)
    requires
        warn_flags_wf(*warn_opts, order@),
{
    let cfg = set_warning_cfg_from_cli(DiagnosticsSettings::default(), warn_opts, order);
    let opts = compile_opts_from_cli(comp_opts);
    match compile_book_call(book, &cfg, &opts) {
        Ok(p) => Ok((diagnostics_text(&p.0), p.1)),
        Err(d) => Err(d),
    }
}

/// What the external code-generation modes hand to the process gateway:
/// the artifact text, the transient location to write it to, and the
/// subcommand to invoke the tool with.
pub struct ExternalGenPlan {
    pub artifact_text: String,
    pub diagnostics: String,
    pub location: &'static str,
    pub subcommand: &'static str,
}

/// External code-generation modes: lowers the program and plans the
/// hand-off. The artifact goes to the fixed transient location and the
/// subcommand matches the mode.
pub fn prepare_external_gen(
    kind: ModeKind,
    book: &mut bend::fun::Book,
    comp_opts: &Vec<OptArgs>,
    warn_opts: &CliWarnOpts,
    order: &Vec<WarnGroup>,
) -> (r: Result<ExternalGenPlan, bend::diagnostics::Diagnostics>)
    requires
        is_gen_external_kind(kind),
        warn_flags_wf(*warn_opts, order@),
    ensures
        r matches Ok(p) ==> p.location@ == ".out.hvm"@ && p.subcommand@ == spec_gen_cmd(kind),
{
    let cfg = set_warning_cfg_from_cli(DiagnosticsSettings::default(), warn_opts, order);
    let opts = compile_opts_from_cli(comp_opts);
    match compile_book_call(book, &cfg, &opts) {
        Ok(p) => Ok(
            ExternalGenPlan {
                diagnostics: diagnostics_text(&p.0),
                artifact_text: p.1,
                location: artifact_path(),
                subcommand: gen_cmd(kind),
            },
        ),
        Err(d) => Err(d),
    }
}

/// What an external invocation's captured streams render to: decoded
/// standard output and standard error, and the status line — empty on
/// success, the status text otherwise, never a failure of the pipeline.
pub fn render_external_result(stdout: &Vec<u8>, stderr: &Vec<u8>, success: bool, status: &str) -> (r:
    (String, String, String))
    ensures
        r.0@ == utf8_lossy_of(stdout@),
        r.1@ == utf8_lossy_of(stderr@),
        success ==> r.2@ == Seq::<char>::empty(),
        !success ==> r.2@ == status@,
{
    (decode_utf8_lossy(stdout), decode_utf8_lossy(stderr), external_status_line(success, status))
}

/// Execution modes: the resolved options, the permissive-by-default
/// diagnostics configuration, and the runtime subcommand. Checking is
/// permissive (everything allowed) unless verbose is requested.
pub fn prepare_run(
    kind: ModeKind,
    verbose: bool,
    comp_opts: &Vec<OptArgs>,
    warn_opts: &CliWarnOpts,
    order: &Vec<WarnGroup>,
) -> (r: (CompileOptions, DiagnosticsSettings, &'static str))
    requires
        is_run_kind(kind),
        warn_flags_wf(*warn_opts, order@),
    ensures
        r.0 == resolve_opts(default_opts(), comp_opts@),
        r.1 == resolve_warnings(
            uniform_cfg(DiagnosticSeverity::Allow, verbose),
            order@,
            warn_opts.warns@,
            warn_opts.denies@,
            warn_opts.allows@,
        ),
        r.2@ == spec_run_cmd(kind),
{
    let cfg = set_warning_cfg_from_cli(base_diagnostics_cfg(kind, verbose), warn_opts, order);
    let opts = compile_opts_from_cli(comp_opts);
    (opts, cfg, run_cmd(kind))
}

/// What an execution result renders to: the findings for the error
/// channel, the value line for standard output, and the statistics line
/// — the statistics only when requested, verbatim.
pub fn present_run_result(
    term: &bend::fun::Term,
    diags: &bend::diagnostics::Diagnostics,
    pretty: bool,
    print_stats: bool,
    stats: &str,
) -> (r: (String, String, String))
    ensures
        pretty ==> r.1@.len() >= "Result:\n"@.len() && r.1@.subrange(
            0,
            "Result:\n"@.len() as int,
        ) == "Result:\n"@,
        !pretty ==> r.1@.len() >= "Result: "@.len() && r.1@.subrange(
            0,
            "Result: "@.len() as int,
        ) == "Result: "@,
        print_stats ==> r.2@ == stats@,
        !print_stats ==> r.2@ == Seq::<char>::empty(),
{
    let text = if pretty {
        term_text_pretty(term)
    } else {
        term_text(term)
    };
    let line = render_run_result(text.as_str(), pretty);
    proof {
        if pretty {
            assert(line@.subrange(0, "Result:\n"@.len() as int) =~= "Result:\n"@);
        } else {
            assert(line@.subrange(0, "Result: "@.len() as int) =~= "Result: "@);
        }
    }
    let stats_line: String = if print_stats {
        stats.to_owned()
    } else {
        String::new()
    };
    (diagnostics_text(diags), line, stats_line)
}

} // verus!
