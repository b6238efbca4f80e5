use bendpipe::warn::{
    set_warning_cfg_from_cli, CliWarnOpts, DiagnosticSeverity, DiagnosticsSettings, WarnGroup,
    WarningArgs,
};

fn queues(
    warns: Vec<WarningArgs>,
    denies: Vec<WarningArgs>,
    allows: Vec<WarningArgs>,
) -> CliWarnOpts {
    CliWarnOpts { warns, denies, allows }
}

#[test]
fn default_severities() {
    let c = DiagnosticsSettings::default();
    assert_eq!(c.recursion_cycle, DiagnosticSeverity::Error);
    assert_eq!(c.missing_main, DiagnosticSeverity::Error);
    assert_eq!(c.unused_definition, DiagnosticSeverity::Warning);
    assert_eq!(c.irrefutable_match, DiagnosticSeverity::Warning);
    assert_eq!(c.repeated_bind, DiagnosticSeverity::Warning);
    assert!(!c.verbose);
}

#[test]
fn empty_flags_keep_the_base() {
    let base = DiagnosticsSettings::default();
    let c = set_warning_cfg_from_cli(base, &queues(vec![], vec![], vec![]), &vec![]);
    assert_eq!(c, base);
}

#[test]
fn later_token_wins_across_groups() {
    let wo = queues(vec![WarningArgs::RepeatedBind], vec![WarningArgs::RepeatedBind], vec![]);
    let c = set_warning_cfg_from_cli(
        DiagnosticsSettings::default(),
        &wo,
        &vec![WarnGroup::Warns, WarnGroup::Denies],
    );
    assert_eq!(c.repeated_bind, DiagnosticSeverity::Error);
}

#[test]
fn later_token_wins_across_groups_reversed() {
    let wo = queues(vec![WarningArgs::RepeatedBind], vec![WarningArgs::RepeatedBind], vec![]);
    let c = set_warning_cfg_from_cli(
        DiagnosticsSettings::default(),
        &wo,
        &vec![WarnGroup::Denies, WarnGroup::Warns],
    );
    assert_eq!(c.repeated_bind, DiagnosticSeverity::Warning);
}

#[test]
fn all_sets_every_real_category() {
    let wo = queues(vec![], vec![WarningArgs::All], vec![]);
    let c = set_warning_cfg_from_cli(DiagnosticsSettings::default(), &wo, &vec![WarnGroup::Denies]);
    assert_eq!(c.irrefutable_match, DiagnosticSeverity::Error);
    assert_eq!(c.redundant_match, DiagnosticSeverity::Error);
    assert_eq!(c.unreachable_match, DiagnosticSeverity::Error);
    assert_eq!(c.unused_definition, DiagnosticSeverity::Error);
    assert_eq!(c.repeated_bind, DiagnosticSeverity::Error);
    assert_eq!(c.recursion_cycle, DiagnosticSeverity::Error);
}

#[test]
fn specific_after_all_overrides_that_category_alone() {
    let wo = queues(vec![], vec![WarningArgs::All], vec![WarningArgs::RepeatedBind]);
    let c = set_warning_cfg_from_cli(
        DiagnosticsSettings::default(),
        &wo,
        &vec![WarnGroup::Denies, WarnGroup::Allows],
    );
    assert_eq!(c.repeated_bind, DiagnosticSeverity::Allow);
    assert_eq!(c.unused_definition, DiagnosticSeverity::Error);
    assert_eq!(c.recursion_cycle, DiagnosticSeverity::Error);
}

#[test]
fn all_at_later_position_overrides_specific() {
    let wo = queues(vec![], vec![WarningArgs::All], vec![WarningArgs::RepeatedBind]);
    let c = set_warning_cfg_from_cli(
        DiagnosticsSettings::default(),
        &wo,
        &vec![WarnGroup::Allows, WarnGroup::Denies],
    );
    assert_eq!(c.repeated_bind, DiagnosticSeverity::Error);
}

#[test]
fn same_group_later_occurrence_wins() {
    let wo = queues(
        vec![],
        vec![],
        vec![WarningArgs::UnusedDefinition, WarningArgs::UnusedDefinition],
    );
    let c = set_warning_cfg_from_cli(
        DiagnosticsSettings::default(),
        &wo,
        &vec![WarnGroup::Allows, WarnGroup::Allows],
    );
    assert_eq!(c.unused_definition, DiagnosticSeverity::Allow);
}

#[test]
fn uniform_base_for_permissive_checking() {
    let c = DiagnosticsSettings::new(DiagnosticSeverity::Allow, true);
    assert_eq!(c.unused_definition, DiagnosticSeverity::Allow);
    assert_eq!(c.recursion_cycle, DiagnosticSeverity::Allow);
    assert_eq!(c.missing_main, DiagnosticSeverity::Error);
    assert!(c.verbose);
}

#[test]
fn three_way_interleaving_greatest_position_wins() {
    let wo = queues(
        vec![WarningArgs::RecursionCycle],
        vec![WarningArgs::RecursionCycle],
        vec![WarningArgs::RecursionCycle],
    );
    let c = set_warning_cfg_from_cli(
        DiagnosticsSettings::default(),
        &wo,
        &vec![WarnGroup::Denies, WarnGroup::Allows, WarnGroup::Warns],
    );
    assert_eq!(c.recursion_cycle, DiagnosticSeverity::Warning);
    let c = set_warning_cfg_from_cli(
        DiagnosticsSettings::default(),
        &wo,
        &vec![WarnGroup::Warns, WarnGroup::Denies, WarnGroup::Allows],
    );
    assert_eq!(c.recursion_cycle, DiagnosticSeverity::Allow);
}
