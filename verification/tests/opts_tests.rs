use bendpipe::opts::{
    compile_opts_from_cli, AdtEncodingScheme, LinearizeLevel, OptArgs,
};

#[test]
fn defaults_when_no_toggles() {
    let o = compile_opts_from_cli(&vec![]);
    assert!(o.eta);
    assert!(!o.prune);
    assert_eq!(o.linearize_matches, LinearizeLevel::Enabled);
    assert!(o.float_combinators);
    assert!(!o.merge);
    assert!(!o.inline);
    assert!(o.check_net_size);
    assert!(o.type_check);
    assert_eq!(o.adt_encoding, AdtEncodingScheme::NumScott);
}

#[test]
fn enable_all_then_explicit_disable_wins() {
    let o = compile_opts_from_cli(&vec![OptArgs::All, OptArgs::NoEta]);
    assert!(!o.eta);
    assert!(o.prune);
    assert!(o.merge);
    assert!(o.inline);
}

#[test]
fn explicit_disable_then_enable_all_wins() {
    let o = compile_opts_from_cli(&vec![OptArgs::NoEta, OptArgs::All]);
    assert!(o.eta);
}

#[test]
fn later_duplicate_wins_per_field() {
    let o = compile_opts_from_cli(&vec![OptArgs::Eta, OptArgs::NoEta, OptArgs::Merge]);
    assert!(!o.eta);
    assert!(o.merge);
    let o = compile_opts_from_cli(&vec![OptArgs::NoMerge, OptArgs::Merge]);
    assert!(o.merge);
}

#[test]
fn meta_toggle_spares_uncovered_fields() {
    let o = compile_opts_from_cli(&vec![OptArgs::NoCheckNetSize, OptArgs::All]);
    assert!(!o.check_net_size);
    let o = compile_opts_from_cli(&vec![OptArgs::AdtScott, OptArgs::All]);
    assert_eq!(o.adt_encoding, AdtEncodingScheme::Scott);
    let o = compile_opts_from_cli(&vec![OptArgs::NoAll]);
    assert!(o.type_check);
    assert!(o.check_net_size);
    assert!(!o.eta);
    assert_eq!(o.linearize_matches, LinearizeLevel::Disabled);
}

#[test]
fn linearize_levels_resolve() {
    let o = compile_opts_from_cli(&vec![OptArgs::LinearizeMatchesAlt]);
    assert_eq!(o.linearize_matches, LinearizeLevel::Alt);
    let o = compile_opts_from_cli(&vec![OptArgs::NoLinearizeMatches]);
    assert_eq!(o.linearize_matches, LinearizeLevel::Disabled);
    let o = compile_opts_from_cli(&vec![OptArgs::NoLinearizeMatches, OptArgs::LinearizeMatches]);
    assert_eq!(o.linearize_matches, LinearizeLevel::Enabled);
}
