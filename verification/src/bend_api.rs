//! The boundary to the bend compiler library: the loaded program, its
//! diagnostics and result terms are opaque values carried through the
//! driver, and every call into the library goes through a trusted
//! wrapper declared here.

use vstd::prelude::*;

verus! {

#[verifier::external_type_specification]
#[verifier::external_body]
pub struct ExBendBook(bend::fun::Book);

#[verifier::external_type_specification]
#[verifier::external_body]
pub struct ExBendTerm(bend::fun::Term);

#[verifier::external_type_specification]
#[verifier::external_body]
pub struct ExBendDiagnostics(bend::diagnostics::Diagnostics);

#[verifier::external_type_specification]
#[verifier::external_body]
pub struct ExBendDiagnosticsConfig(bend::diagnostics::DiagnosticsConfig);

#[verifier::external_type_specification]
#[verifier::external_body]
pub struct ExBendSeverity(bend::diagnostics::Severity);

#[verifier::external_type_specification]
#[verifier::external_body]
pub struct ExBendCompileOpts(bend::CompileOpts);

#[verifier::external_type_specification]
#[verifier::external_body]
pub struct ExBendOptLevel(bend::OptLevel);

#[verifier::external_type_specification]
#[verifier::external_body]
pub struct ExBendAdtEncoding(bend::AdtEncoding);

/// Relies on bend's Severity enum: maps each severity to the outside
/// variant of the same meaning, one arm each.
#[verifier::external_body]
fn to_bend_severity(s: crate::warn::DiagnosticSeverity) -> bend::diagnostics::Severity {
    match s {
        crate::warn::DiagnosticSeverity::Allow => bend::diagnostics::Severity::Allow,
        crate::warn::DiagnosticSeverity::Warning => bend::diagnostics::Severity::Warning,
        crate::warn::DiagnosticSeverity::Error => bend::diagnostics::Severity::Error,
    }
}

/// Relies on bend's DiagnosticsConfig record: builds it field for field
/// from the library's resolved configuration.
#[verifier::external_body]
fn to_bend_cfg(c: &crate::warn::DiagnosticsSettings) -> bend::diagnostics::DiagnosticsConfig {
    bend::diagnostics::DiagnosticsConfig {
        verbose: c.verbose,
        irrefutable_match: to_bend_severity(c.irrefutable_match),
        redundant_match: to_bend_severity(c.redundant_match),
        unreachable_match: to_bend_severity(c.unreachable_match),
        unused_definition: to_bend_severity(c.unused_definition),
        repeated_bind: to_bend_severity(c.repeated_bind),
        recursion_cycle: to_bend_severity(c.recursion_cycle),
        missing_main: to_bend_severity(c.missing_main),
        import_shadow: to_bend_severity(c.import_shadow),
    }
}

/// Relies on bend's CompileOpts record: builds it field for field from
/// the library's resolved options. The driver never selects a target
/// architecture.
#[verifier::external_body]
fn to_bend_opts(o: &crate::opts::CompileOptions) -> bend::CompileOpts {
    bend::CompileOpts {
        target_architecture: bend::CompilerTarget::Unknown,
        eta: o.eta,
        prune: o.prune,
        linearize_matches: to_bend_opt_level(o.linearize_matches),
        float_combinators: o.float_combinators,
        merge: o.merge,
        inline: o.inline,
        check_net_size: o.check_net_size,
        type_check: o.type_check,
        adt_encoding: to_bend_adt_encoding(o.adt_encoding),
    }
}

/// Relies on bend's OptLevel enum: one arm per variant.
#[verifier::external_body]
fn to_bend_opt_level(l: crate::opts::LinearizeLevel) -> bend::OptLevel {
    match l {
        crate::opts::LinearizeLevel::Disabled => bend::OptLevel::Disabled,
        crate::opts::LinearizeLevel::Enabled => bend::OptLevel::Enabled,
        crate::opts::LinearizeLevel::Alt => bend::OptLevel::Alt,
    }
}

/// Relies on bend's AdtEncoding enum: one arm per variant.
#[verifier::external_body]
fn to_bend_adt_encoding(a: crate::opts::AdtEncodingScheme) -> bend::AdtEncoding {
    match a {
        crate::opts::AdtEncodingScheme::Scott => bend::AdtEncoding::Scott,
        crate::opts::AdtEncodingScheme::NumScott => bend::AdtEncoding::NumScott,
    }
}

/// Relies on bend::fun::Name::new and the book's public entrypoint
/// field: records the entrypoint override on the loaded program.
#[verifier::external_body]
pub(crate) fn set_book_entrypoint(book: &mut bend::fun::Book, name: &str) {
    book.entrypoint = Some(bend::fun::Name::new(name.to_owned()));
}

/// Relies on bend::check_book: compiles the program with the given
/// options and hands back its accumulated findings; a fatal finding
/// comes back as the error.
#[verifier::external_body]
pub(crate) fn check_book_call(
    book: &mut bend::fun::Book,
    cfg: &crate::warn::DiagnosticsSettings,
    opts: &crate::opts::CompileOptions,
) -> Result<bend::diagnostics::Diagnostics, bend::diagnostics::Diagnostics> {
    bend::check_book(book, to_bend_cfg(cfg), to_bend_opts(opts))
}

/// Relies on bend::desugar_book: runs the term-level desugaring passes
/// on the program in place.
#[verifier::external_body]
pub(crate) fn desugar_book_call(
    book: &mut bend::fun::Book,
    cfg: &crate::warn::DiagnosticsSettings,
    opts: &crate::opts::CompileOptions,
) -> Result<bend::diagnostics::Diagnostics, bend::diagnostics::Diagnostics> {
    bend::desugar_book(book, to_bend_opts(opts), to_bend_cfg(cfg), None)
}

/// Relies on bend::compile_book and bend::hvm::hvm_book_show_pretty:
/// lowers the program and renders the intermediate representation as
/// the text the external tool accepts.
#[verifier::external_body]
pub(crate) fn compile_book_call(
    book: &mut bend::fun::Book,
    cfg: &crate::warn::DiagnosticsSettings,
    opts: &crate::opts::CompileOptions,
) -> Result<(bend::diagnostics::Diagnostics, String), bend::diagnostics::Diagnostics> {
    match bend::compile_book(book, to_bend_opts(opts), to_bend_cfg(cfg), None) {
        Ok(r) => Ok((r.diagnostics, bend::hvm::hvm_book_show_pretty(&r.hvm_book))),
        Err(d) => Err(d),
    }
}

/// Relies on the Display impl of bend's Diagnostics: renders the
/// accumulated findings as text.
#[verifier::external_body]
pub(crate) fn diagnostics_text(d: &bend::diagnostics::Diagnostics) -> String {
    format!("{}", d)
}

/// Relies on the Display impl of bend's Book: the compact rendering of
/// the program.
#[verifier::external_body]
pub(crate) fn book_text(book: &bend::fun::Book) -> String {
    format!("{}", book)
}

/// Relies on bend::fun::Book::display_pretty: the indented rendering of
/// the program.
#[verifier::external_body]
pub(crate) fn book_text_pretty(book: &bend::fun::Book) -> String {
    format!("{}", book.display_pretty())
}

/// Relies on the Display impl of bend's Term: the compact one-line
/// rendering of a result value.
#[verifier::external_body]
pub(crate) fn term_text(t: &bend::fun::Term) -> String {
    format!("{}", t)
}

/// Relies on bend::fun::Term::display_pretty: the recursive pretty
/// rendering of a result value, with indentation depth starting at zero.
#[verifier::external_body]
pub(crate) fn term_text_pretty(t: &bend::fun::Term) -> String {
    format!("{}", t.display_pretty(0))
}

/// What the lossy UTF-8 decoding of a byte sequence reads as; a pure
/// function of the bytes alone.
pub uninterp spec fn utf8_lossy_of(bytes: Seq<u8>) -> Seq<char>;

/// Relies on String::from_utf8_lossy: decodes captured process output,
/// replacing invalid sequences, never failing; the result depends on
/// the bytes alone.
#[verifier::external_body]
pub(crate) fn decode_utf8_lossy(bytes: &Vec<u8>) -> (r: String)
    ensures
        r@ == utf8_lossy_of(bytes@),
{
    String::from_utf8_lossy(bytes).into_owned()
}

} // verus!
