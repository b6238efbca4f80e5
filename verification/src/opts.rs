//! Resolution of an ordered list of optimization toggles into one
//! immutable compile-options record.
//!
//! Duplicates are legal; later entries win for the field they set. The
//! `All` / `NoAll` meta-toggles set only the optimizing passes they are
//! documented to cover, so an explicit per-flag toggle after them
//! overrides that one field (last-write-wins).

use vstd::prelude::*;

verus! {

/// How aggressively match linearization runs.
#[derive(Clone, Copy, Debug, PartialEq, Eq, Structural)]
pub enum LinearizeLevel {
    Disabled,
    Enabled,
    Alt,
}

/// Encoding scheme for algebraic data types.
#[derive(Clone, Copy, Debug, PartialEq, Eq, Structural)]
pub enum AdtEncodingScheme {
    Scott,
    NumScott,
}

/// One optimization toggle as given on the invocation, in order.
#[derive(Clone, Copy, Debug, PartialEq, Eq, Structural)]
pub enum OptArgs {
    All,
    NoAll,
    Eta,
    NoEta,
    Prune,
    NoPrune,
    LinearizeMatches,
    LinearizeMatchesAlt,
    NoLinearizeMatches,
    FloatCombinators,
    NoFloatCombinators,
    Merge,
    NoMerge,
    Inline,
    NoInline,
    CheckNetSize,
    NoCheckNetSize,
    AdtScott,
    AdtNumScott,
}

/// The resolved compile-options record. Constructed once per
/// invocation, immutable afterwards.
#[derive(Clone, Copy, Debug, PartialEq, Eq, Structural)]
pub struct CompileOptions {
    pub eta: bool,
    pub prune: bool,
    pub linearize_matches: LinearizeLevel,
    pub float_combinators: bool,
    pub merge: bool,
    pub inline: bool,
    pub check_net_size: bool,
    pub type_check: bool,
    pub adt_encoding: AdtEncodingScheme,
}

/// The default for every toggle: eta, linearize-matches,
/// float-combinators, net-size checking and type checking on, the rest
/// off, num-scott ADT encoding.
pub open spec fn default_opts() -> CompileOptions {
    CompileOptions {
        eta: true,
        prune: false,
        linearize_matches: LinearizeLevel::Enabled,
        float_combinators: true,
        merge: false,
        inline: false,
        check_net_size: true,
        type_check: true,
        adt_encoding: AdtEncodingScheme::NumScott,
    }
}

/// The record after `All`: every optimizing pass on; net-size checking
/// and the ADT encoding are not covered by the meta-toggle and keep
/// their current value.
pub open spec fn with_all_set(o: CompileOptions) -> CompileOptions {
    CompileOptions {
        eta: true,
        prune: true,
        linearize_matches: LinearizeLevel::Enabled,
        float_combinators: true,
        merge: true,
        inline: true,
        type_check: true,
        ..o
    }
}

/// The record after `NoAll`: every optimizing pass off; net-size
/// checking, type checking and the ADT encoding keep their current
/// value.
pub open spec fn with_no_all_set(o: CompileOptions) -> CompileOptions {
    CompileOptions {
        eta: false,
        prune: false,
        linearize_matches: LinearizeLevel::Disabled,
        float_combinators: false,
        merge: false,
        inline: false,
        ..o
    }
}

/// The effect of one toggle on the record.
pub open spec fn apply_opt(o: CompileOptions, a: OptArgs) -> CompileOptions {
    match a {
        OptArgs::All => with_all_set(o),
        OptArgs::NoAll => with_no_all_set(o),
        OptArgs::Eta => CompileOptions { eta: true, ..o },
        OptArgs::NoEta => CompileOptions { eta: false, ..o },
        OptArgs::Prune => CompileOptions { prune: true, ..o },
        OptArgs::NoPrune => CompileOptions { prune: false, ..o },
        OptArgs::LinearizeMatches => CompileOptions { linearize_matches: LinearizeLevel::Enabled, ..o },
        OptArgs::LinearizeMatchesAlt => CompileOptions { linearize_matches: LinearizeLevel::Alt, ..o },
        OptArgs::NoLinearizeMatches => CompileOptions { linearize_matches: LinearizeLevel::Disabled, ..o },
        OptArgs::FloatCombinators => CompileOptions { float_combinators: true, ..o },
        OptArgs::NoFloatCombinators => CompileOptions { float_combinators: false, ..o },
        OptArgs::Merge => CompileOptions { merge: true, ..o },
        OptArgs::NoMerge => CompileOptions { merge: false, ..o },
        OptArgs::Inline => CompileOptions { inline: true, ..o },
        OptArgs::NoInline => CompileOptions { inline: false, ..o },
        OptArgs::CheckNetSize => CompileOptions { check_net_size: true, ..o },
        OptArgs::NoCheckNetSize => CompileOptions { check_net_size: false, ..o },
        OptArgs::AdtScott => CompileOptions { adt_encoding: AdtEncodingScheme::Scott, ..o },
        OptArgs::AdtNumScott => CompileOptions { adt_encoding: AdtEncodingScheme::NumScott, ..o },
    }
}

/// The record after folding an ordered toggle list over a base record.
pub open spec fn resolve_opts(base: CompileOptions, args: Seq<OptArgs>) -> CompileOptions
    decreases args.len(),
{
    if args.len() == 0 {
        base
    } else {
        apply_opt(resolve_opts(base, args.drop_last()), args.last())
    }
}

impl Default for CompileOptions {
    /// The default record, one field at a time.
    fn default() -> (r: CompileOptions)
        ensures
            r == default_opts(),
    {
        CompileOptions {
            eta: true,
            prune: false,
            linearize_matches: LinearizeLevel::Enabled,
            float_combinators: true,
            merge: false,
            inline: false,
            check_net_size: true,
            type_check: true,
            adt_encoding: AdtEncodingScheme::NumScott,
        }
    }
}

impl CompileOptions {
    /// Turns every optimizing pass on, keeping the fields the
    /// meta-toggle does not cover.
    pub fn set_all(self) -> (r: CompileOptions)
        ensures
            r == with_all_set(self),
    {
        CompileOptions {
            eta: true,
            prune: true,
            linearize_matches: LinearizeLevel::Enabled,
            float_combinators: true,
            merge: true,
            inline: true,
            type_check: true,
            ..self
        }
    }

    /// Turns every optimizing pass off, keeping the fields the
    /// meta-toggle does not cover.
    pub fn set_no_all(self) -> (r: CompileOptions)
        ensures
            r == with_no_all_set(self),
    {
        CompileOptions {
            eta: false,
            prune: false,
            linearize_matches: LinearizeLevel::Disabled,
            float_combinators: false,
            merge: false,
            inline: false,
            ..self
        }
    }
}

/// Folds the ordered toggle list into one record, starting from the
/// defaults. Later entries win for the field they set.
pub fn compile_opts_from_cli(args: &Vec<OptArgs>) -> (r: CompileOptions)
    ensures
        r == resolve_opts(default_opts(), args@),
{
    let mut opts = CompileOptions::default();
    let mut i: usize = 0;
    while i < args.len()
        invariant
            i <= args.len(),
            opts == resolve_opts(default_opts(), args@.take(i as int)),
        decreases args.len() - i,
    {
        let a = args[i];
        opts = match a {
            OptArgs::All => opts.set_all(),
            OptArgs::NoAll => opts.set_no_all(),
            OptArgs::Eta => CompileOptions { eta: true, ..opts },
            OptArgs::NoEta => CompileOptions { eta: false, ..opts },
            OptArgs::Prune => CompileOptions { prune: true, ..opts },
            OptArgs::NoPrune => CompileOptions { prune: false, ..opts },
            OptArgs::LinearizeMatches => CompileOptions {
                linearize_matches: LinearizeLevel::Enabled,
                ..opts
            },
            OptArgs::LinearizeMatchesAlt => CompileOptions {
                linearize_matches: LinearizeLevel::Alt,
                ..opts
            },
            OptArgs::NoLinearizeMatches => CompileOptions {
                linearize_matches: LinearizeLevel::Disabled,
                ..opts
            },
            OptArgs::FloatCombinators => CompileOptions { float_combinators: true, ..opts },
            OptArgs::NoFloatCombinators => CompileOptions { float_combinators: false, ..opts },
            OptArgs::Merge => CompileOptions { merge: true, ..opts },
            OptArgs::NoMerge => CompileOptions { merge: false, ..opts },
            OptArgs::Inline => CompileOptions { inline: true, ..opts },
            OptArgs::NoInline => CompileOptions { inline: false, ..opts },
            OptArgs::CheckNetSize => CompileOptions { check_net_size: true, ..opts },
            OptArgs::NoCheckNetSize => CompileOptions { check_net_size: false, ..opts },
            OptArgs::AdtScott => CompileOptions { adt_encoding: AdtEncodingScheme::Scott, ..opts },
            OptArgs::AdtNumScott => CompileOptions { adt_encoding: AdtEncodingScheme::NumScott, ..opts },
        };
        proof {
            assert(args@.take(i as int + 1).drop_last() =~= args@.take(i as int));
            assert(args@.take(i as int + 1).last() == args@[i as int]);
        }
        i = i + 1;
    }
    proof {
        assert(args@.take(args@.len() as int) =~= args@);
    }
    opts
}

/// Whether the optimizing pass that `d` disables is currently on. `d`
/// must be one of the explicit disabling toggles covered by the `All`
/// meta-toggle.
pub open spec fn pass_enabled(o: CompileOptions, d: OptArgs) -> bool {
    match d {
        OptArgs::NoEta => o.eta,
        OptArgs::NoPrune => o.prune,
        OptArgs::NoLinearizeMatches => o.linearize_matches == LinearizeLevel::Enabled,
        OptArgs::NoFloatCombinators => o.float_combinators,
        OptArgs::NoMerge => o.merge,
        OptArgs::NoInline => o.inline,
        _ => false,
    }
}

/// Law: whatever toggles came before, `All` followed by an explicit
/// "disable X" leaves X disabled, and "disable X" followed by `All`
/// leaves X enabled — the later toggle wins.
pub proof fn lemma_all_vs_explicit_disable(base: CompileOptions, prefix: Seq<OptArgs>, d: OptArgs)
    requires
        d == OptArgs::NoEta || d == OptArgs::NoPrune || d == OptArgs::NoLinearizeMatches
            || d == OptArgs::NoFloatCombinators || d == OptArgs::NoMerge || d == OptArgs::NoInline,
    ensures
        !pass_enabled(resolve_opts(base, prefix.push(OptArgs::All).push(d)), d),
        pass_enabled(resolve_opts(base, prefix.push(d).push(OptArgs::All)), d),
{
    let s1 = prefix.push(OptArgs::All).push(d);
    let s2 = prefix.push(d).push(OptArgs::All);
    assert(s1.drop_last() =~= prefix.push(OptArgs::All));
    assert(prefix.push(OptArgs::All).drop_last() =~= prefix);
    assert(s2.drop_last() =~= prefix.push(d));
    assert(prefix.push(d).drop_last() =~= prefix);
}

} // verus!
