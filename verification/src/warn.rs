//! Resolution of ordered warn/deny/allow declarations into one
//! diagnostics-configuration record.
//!
//! The three severity groups arrive as three per-group queues plus one
//! merged stream of group tags that preserves the true relative order
//! of occurrence across all groups. Replaying the merged stream against
//! the queues gives global last-write-wins semantics: a later token for
//! a category overrides an earlier one even when the two came from
//! different groups.

use vstd::prelude::*;

verus! {

/// DiagnosticSeverity of one diagnostic category: ignored, reported, or fatal.
#[derive(Clone, Copy, Debug, PartialEq, Eq, Structural)]
pub enum DiagnosticSeverity {
    Allow,
    Warning,
    Error,
}

/// One category token as given on the invocation. `All` is synthetic:
/// it stands for every real category at once.
#[derive(Clone, Copy, Debug, PartialEq, Eq, Structural)]
pub enum WarningArgs {
    All,
    IrrefutableMatch,
    RedundantMatch,
    UnreachableMatch,
    UnusedDefinition,
    RepeatedBind,
    RecursionCycle,
}

/// Which severity group a token came from.
#[derive(Clone, Copy, Debug, PartialEq, Eq, Structural)]
pub enum WarnGroup {
    Warns,
    Denies,
    Allows,
}

/// The per-group category queues, each in original occurrence order.
#[derive(Clone, Debug)]
pub struct CliWarnOpts {
    pub warns: Vec<WarningArgs>,
    pub denies: Vec<WarningArgs>,
    pub allows: Vec<WarningArgs>,
}

/// The resolved diagnostics configuration: a severity per category,
/// plus the verbosity flag.
#[derive(Clone, Copy, Debug, PartialEq, Eq, Structural)]
pub struct DiagnosticsSettings {
    pub verbose: bool,
    pub irrefutable_match: DiagnosticSeverity,
    pub redundant_match: DiagnosticSeverity,
    pub unreachable_match: DiagnosticSeverity,
    pub unused_definition: DiagnosticSeverity,
    pub repeated_bind: DiagnosticSeverity,
    pub recursion_cycle: DiagnosticSeverity,
    pub missing_main: DiagnosticSeverity,
    pub import_shadow: DiagnosticSeverity,
}

/// The configuration with every selectable category at `severity`.
/// A missing entrypoint is always fatal and is not selectable.
pub open spec fn uniform_cfg(severity: DiagnosticSeverity, verbose: bool) -> DiagnosticsSettings {
    DiagnosticsSettings {
        verbose: verbose,
        irrefutable_match: severity,
        redundant_match: severity,
        unreachable_match: severity,
        unused_definition: severity,
        repeated_bind: severity,
        recursion_cycle: severity,
        missing_main: DiagnosticSeverity::Error,
        import_shadow: severity,
    }
}

/// The default configuration: everything a warning, except that
/// recursion cycles and a missing entrypoint are fatal.
pub open spec fn default_cfg() -> DiagnosticsSettings {
    DiagnosticsSettings {
        recursion_cycle: DiagnosticSeverity::Error,
        ..uniform_cfg(DiagnosticSeverity::Warning, false)
    }
}

impl DiagnosticsSettings {
    /// Builds the configuration with every selectable category at
    /// `severity`.
    pub fn new(severity: DiagnosticSeverity, verbose: bool) -> (r: DiagnosticsSettings)
        ensures
            r == uniform_cfg(severity, verbose),
    {
        DiagnosticsSettings {
            verbose: verbose,
            irrefutable_match: severity,
            redundant_match: severity,
            unreachable_match: severity,
            unused_definition: severity,
            repeated_bind: severity,
            recursion_cycle: severity,
            missing_main: DiagnosticSeverity::Error,
            import_shadow: severity,
        }
    }
}

impl Default for DiagnosticsSettings {
    /// The default configuration, as `default_cfg` states it.
    fn default() -> (r: DiagnosticsSettings)
        ensures
            r == default_cfg(),
    {
        DiagnosticsSettings {
            recursion_cycle: DiagnosticSeverity::Error,
            ..DiagnosticsSettings::new(DiagnosticSeverity::Warning, false)
        }
    }
}

/// The severity a group's tokens select.
pub open spec fn sev_of_group(g: WarnGroup) -> DiagnosticSeverity {
    match g {
        WarnGroup::Warns => DiagnosticSeverity::Warning,
        WarnGroup::Denies => DiagnosticSeverity::Error,
        WarnGroup::Allows => DiagnosticSeverity::Allow,
    }
}

/// Setting one category (or, for `All`, every real category) to a
/// severity.
pub open spec fn apply_warning(c: DiagnosticsSettings, sev: DiagnosticSeverity, w: WarningArgs) -> DiagnosticsSettings {
    match w {
        WarningArgs::All => DiagnosticsSettings {
            irrefutable_match: sev,
            redundant_match: sev,
            unreachable_match: sev,
            unused_definition: sev,
            repeated_bind: sev,
            recursion_cycle: sev,
            ..c
        },
        WarningArgs::IrrefutableMatch => DiagnosticsSettings { irrefutable_match: sev, ..c },
        WarningArgs::RedundantMatch => DiagnosticsSettings { redundant_match: sev, ..c },
        WarningArgs::UnreachableMatch => DiagnosticsSettings { unreachable_match: sev, ..c },
        WarningArgs::UnusedDefinition => DiagnosticsSettings { unused_definition: sev, ..c },
        WarningArgs::RepeatedBind => DiagnosticsSettings { repeated_bind: sev, ..c },
        WarningArgs::RecursionCycle => DiagnosticsSettings { recursion_cycle: sev, ..c },
    }
}

/// How many tags of the stream belong to group `g`.
pub open spec fn group_count(order: Seq<WarnGroup>, g: WarnGroup) -> nat
    decreases order.len(),
{
    if order.len() == 0 {
        0
    } else {
        group_count(order.drop_last(), g) + if order.last() == g { 1nat } else { 0nat }
    }
}

/// The category the token at position `i` of the merged stream names:
/// the next unconsumed entry of its group's queue.
pub open spec fn cat_at(
    order: Seq<WarnGroup>,
    warns: Seq<WarningArgs>,
    denies: Seq<WarningArgs>,
    allows: Seq<WarningArgs>,
    i: int,
) -> WarningArgs {
    let k = group_count(order.take(i), order[i]) as int;
    match order[i] {
        WarnGroup::Warns => warns[k],
        WarnGroup::Denies => denies[k],
        WarnGroup::Allows => allows[k],
    }
}

/// The configuration after replaying the first `n` tokens of the
/// merged stream.
pub open spec fn resolve_warnings_upto(
    c: DiagnosticsSettings,
    order: Seq<WarnGroup>,
    warns: Seq<WarningArgs>,
    denies: Seq<WarningArgs>,
    allows: Seq<WarningArgs>,
    n: int,
) -> DiagnosticsSettings
    decreases n,
{
    if n <= 0 {
        c
    } else {
        apply_warning(
            resolve_warnings_upto(c, order, warns, denies, allows, n - 1),
            sev_of_group(order[n - 1]),
            cat_at(order, warns, denies, allows, n - 1),
        )
    }
}

/// The configuration after replaying the whole merged stream.
pub open spec fn resolve_warnings(
    c: DiagnosticsSettings,
    order: Seq<WarnGroup>,
    warns: Seq<WarningArgs>,
    denies: Seq<WarningArgs>,
    allows: Seq<WarningArgs>,
) -> DiagnosticsSettings {
    resolve_warnings_upto(c, order, warns, denies, allows, order.len() as int)
}

/// A prefix of the merged stream holds at most as many tags of a group
/// as the whole stream.
proof fn lemma_group_count_take_le(order: Seq<WarnGroup>, g: WarnGroup, i: int)
    requires
        0 <= i <= order.len(),
    ensures
        group_count(order.take(i), g) <= group_count(order, g),
    decreases order.len() - i,
{
    if i == order.len() {
        assert(order.take(i) =~= order);
    } else {
        lemma_group_count_take_le(order, g, i + 1);
        assert(order.take(i + 1).drop_last() =~= order.take(i));
        assert(order.take(i + 1).last() == order[i]);
    }
}

/// Sets one category (or all of them) on the record; the executable
/// mirror of `apply_warning`.
fn set_severity(cfg: &mut DiagnosticsSettings, severity: DiagnosticSeverity, cli_val: WarningArgs)
    ensures
        *final(cfg) == apply_warning(*old(cfg), severity, cli_val),
{
    match cli_val {
        WarningArgs::All => {
            cfg.irrefutable_match = severity;
            cfg.redundant_match = severity;
            cfg.unreachable_match = severity;
            cfg.unused_definition = severity;
            cfg.repeated_bind = severity;
            cfg.recursion_cycle = severity;
        },
        WarningArgs::IrrefutableMatch => {
            cfg.irrefutable_match = severity;
        },
        WarningArgs::RedundantMatch => {
            cfg.redundant_match = severity;
        },
        WarningArgs::UnreachableMatch => {
            cfg.unreachable_match = severity;
        },
        WarningArgs::UnusedDefinition => {
            cfg.unused_definition = severity;
        },
        WarningArgs::RepeatedBind => {
            cfg.repeated_bind = severity;
        },
        WarningArgs::RecursionCycle => {
            cfg.recursion_cycle = severity;
        },
    }
}

/// Replays the merged group-tag stream against the three per-group
/// queues, in lockstep, setting each named category's severity in
/// original global order.
pub fn set_warning_cfg_from_cli(
    cfg: DiagnosticsSettings,
    warn_opts: &CliWarnOpts,
    order: &Vec<WarnGroup>,
) -> (r: DiagnosticsSettings)
    requires
        group_count(order@, WarnGroup::Warns) <= warn_opts.warns@.len(),
        group_count(order@, WarnGroup::Denies) <= warn_opts.denies@.len(),
        group_count(order@, WarnGroup::Allows) <= warn_opts.allows@.len(),
    ensures
        r == resolve_warnings(cfg, order@, warn_opts.warns@, warn_opts.denies@, warn_opts.allows@),
{
    let mut cur = cfg;
    let mut iw: usize = 0;
    let mut id: usize = 0;
    let mut ia: usize = 0;
    let mut i: usize = 0;
    while i < order.len()
        invariant
            i <= order.len(),
            iw == group_count(order@.take(i as int), WarnGroup::Warns),
            id == group_count(order@.take(i as int), WarnGroup::Denies),
            ia == group_count(order@.take(i as int), WarnGroup::Allows),
            group_count(order@, WarnGroup::Warns) <= warn_opts.warns@.len(),
            group_count(order@, WarnGroup::Denies) <= warn_opts.denies@.len(),
            group_count(order@, WarnGroup::Allows) <= warn_opts.allows@.len(),
            cur == resolve_warnings_upto(
                cfg,
                order@,
                warn_opts.warns@,
                warn_opts.denies@,
                warn_opts.allows@,
                i as int,
            ),
        decreases order.len() - i,
    {
        proof {
            lemma_group_count_take_le(order@, WarnGroup::Warns, i as int + 1);
            lemma_group_count_take_le(order@, WarnGroup::Denies, i as int + 1);
            lemma_group_count_take_le(order@, WarnGroup::Allows, i as int + 1);
            assert(order@.take(i as int + 1).drop_last() =~= order@.take(i as int));
            assert(order@.take(i as int + 1).last() == order@[i as int]);
            assert(group_count(order@.take(i as int + 1), WarnGroup::Warns) == group_count(
                order@.take(i as int),
                WarnGroup::Warns,
            ) + (if order@[i as int] == WarnGroup::Warns {
                1nat
            } else {
                0nat
            }));
            assert(group_count(order@.take(i as int + 1), WarnGroup::Denies) == group_count(
                order@.take(i as int),
                WarnGroup::Denies,
            ) + (if order@[i as int] == WarnGroup::Denies {
                1nat
            } else {
                0nat
            }));
            assert(group_count(order@.take(i as int + 1), WarnGroup::Allows) == group_count(
                order@.take(i as int),
                WarnGroup::Allows,
            ) + (if order@[i as int] == WarnGroup::Allows {
                1nat
            } else {
                0nat
            }));
        }
        match order[i] {
            WarnGroup::Warns => {
                let nw: usize = warn_opts.warns.len();
                assert(iw < nw);
                set_severity(&mut cur, DiagnosticSeverity::Warning, warn_opts.warns[iw]);
                iw = iw + 1;
            },
            WarnGroup::Denies => {
                let nd: usize = warn_opts.denies.len();
                assert(id < nd);
                set_severity(&mut cur, DiagnosticSeverity::Error, warn_opts.denies[id]);
                id = id + 1;
            },
            WarnGroup::Allows => {
                let na: usize = warn_opts.allows.len();
                assert(ia < na);
                set_severity(&mut cur, DiagnosticSeverity::Allow, warn_opts.allows[ia]);
                ia = ia + 1;
            },
        }
        i = i + 1;
    }
    proof {
        assert(order@.take(order@.len() as int) =~= order@);
    }
    cur
}


/// The severity the configuration holds for a real category (`All` is
/// not a real category; for it the result is meaningless).
pub open spec fn get_sev(c: DiagnosticsSettings, cat: WarningArgs) -> DiagnosticSeverity {
    match cat {
        WarningArgs::All => c.irrefutable_match,
        WarningArgs::IrrefutableMatch => c.irrefutable_match,
        WarningArgs::RedundantMatch => c.redundant_match,
        WarningArgs::UnreachableMatch => c.unreachable_match,
        WarningArgs::UnusedDefinition => c.unused_definition,
        WarningArgs::RepeatedBind => c.repeated_bind,
        WarningArgs::RecursionCycle => c.recursion_cycle,
    }
}

/// Whether the token at position `i` of the merged stream references
/// category `cat`, either by naming it or through the synthetic `All`.
pub open spec fn touches(
    order: Seq<WarnGroup>,
    warns: Seq<WarningArgs>,
    denies: Seq<WarningArgs>,
    allows: Seq<WarningArgs>,
    i: int,
    cat: WarningArgs,
) -> bool {
    cat_at(order, warns, denies, allows, i) == cat || cat_at(order, warns, denies, allows, i)
        == WarningArgs::All
}

/// The greatest position below `n` whose token references `cat`, or -1
/// if no token does.
pub open spec fn last_touch(
    order: Seq<WarnGroup>,
    warns: Seq<WarningArgs>,
    denies: Seq<WarningArgs>,
    allows: Seq<WarningArgs>,
    cat: WarningArgs,
    n: int,
) -> int
    decreases n,
{
    if n <= 0 {
        -1
    } else if touches(order, warns, denies, allows, n - 1, cat) {
        n - 1
    } else {
        last_touch(order, warns, denies, allows, cat, n - 1)
    }
}

/// Law: for every interleaving of warn/deny/allow tokens, the resolved
/// severity of a category equals the severity selected by the token
/// with the greatest original position that references it, and stays at
/// its starting value when no token does.
pub proof fn lemma_last_write_wins(
    c: DiagnosticsSettings,
    order: Seq<WarnGroup>,
    warns: Seq<WarningArgs>,
    denies: Seq<WarningArgs>,
    allows: Seq<WarningArgs>,
    cat: WarningArgs,
    n: int,
)
    requires
        cat != WarningArgs::All,
        0 <= n <= order.len(),
    ensures
        ({
            let lt = last_touch(order, warns, denies, allows, cat, n);
            get_sev(resolve_warnings_upto(c, order, warns, denies, allows, n), cat) == (if lt >= 0 {
                sev_of_group(order[lt])
            } else {
                get_sev(c, cat)
            })
        }),
    decreases n,
{
    if n > 0 {
        lemma_last_write_wins(c, order, warns, denies, allows, cat, n - 1);
    }
}

/// A position that references the category, with no reference after it,
/// is the last reference.
proof fn lemma_last_touch_at(
    order: Seq<WarnGroup>,
    warns: Seq<WarningArgs>,
    denies: Seq<WarningArgs>,
    allows: Seq<WarningArgs>,
    cat: WarningArgs,
    i: int,
    n: int,
)
    requires
        0 <= i < n,
        touches(order, warns, denies, allows, i, cat),
        forall|k: int| i < k < n ==> !touches(order, warns, denies, allows, k, cat),
    ensures
        last_touch(order, warns, denies, allows, cat, n) == i,
    decreases n,
{
    if i < n - 1 {
        lemma_last_touch_at(order, warns, denies, allows, cat, i, n - 1);
    }
}

/// Law: a synthetic `All` token sets every real category to its
/// position's severity, and that severity stands as long as no later
/// token references the category again.
pub proof fn lemma_all_sets_category(
    c: DiagnosticsSettings,
    order: Seq<WarnGroup>,
    warns: Seq<WarningArgs>,
    denies: Seq<WarningArgs>,
    allows: Seq<WarningArgs>,
    i: int,
    n: int,
    cat: WarningArgs,
)
    requires
        cat != WarningArgs::All,
        0 <= i < n <= order.len(),
        cat_at(order, warns, denies, allows, i) == WarningArgs::All,
        forall|k: int| i < k < n ==> !touches(order, warns, denies, allows, k, cat),
    ensures
        get_sev(resolve_warnings_upto(c, order, warns, denies, allows, n), cat) == sev_of_group(
            order[i],
        ),
{
    lemma_last_touch_at(order, warns, denies, allows, cat, i, n);
    lemma_last_write_wins(c, order, warns, denies, allows, cat, n);
}

/// Law: a specific category token after an `All` overrides that one
/// category alone; every other category untouched after the `All` keeps
/// the `All` position's severity.
pub proof fn lemma_specific_overrides_all(
    c: DiagnosticsSettings,
    order: Seq<WarnGroup>,
    warns: Seq<WarningArgs>,
    denies: Seq<WarningArgs>,
    allows: Seq<WarningArgs>,
    i: int,
    j: int,
    n: int,
    cat: WarningArgs,
    other: WarningArgs,
)
    requires
        cat != WarningArgs::All,
        other != WarningArgs::All,
        other != cat,
        0 <= i < j < n <= order.len(),
        cat_at(order, warns, denies, allows, i) == WarningArgs::All,
        cat_at(order, warns, denies, allows, j) == cat,
        forall|k: int| j < k < n ==> !touches(order, warns, denies, allows, k, cat),
        forall|k: int|
            i < k < n && k != j ==> !touches(order, warns, denies, allows, k, other),
    ensures
        get_sev(resolve_warnings_upto(c, order, warns, denies, allows, n), cat) == sev_of_group(
            order[j],
        ),
        get_sev(resolve_warnings_upto(c, order, warns, denies, allows, n), other) == sev_of_group(
            order[i],
        ),
{
    lemma_last_touch_at(order, warns, denies, allows, cat, j, n);
    lemma_last_write_wins(c, order, warns, denies, allows, cat, n);
    assert(!touches(order, warns, denies, allows, j, other));
    lemma_last_touch_at(order, warns, denies, allows, other, i, n);
    lemma_last_write_wins(c, order, warns, denies, allows, other, n);
}

} // verus!
