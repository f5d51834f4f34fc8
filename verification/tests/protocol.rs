//! Scenario tests for the registry's merge, derivation, reconciliation,
//! override, and query surfaces.

use option_registry::options::Density;
use option_registry::options::Heuristics;
use option_registry::options::ImportGranularity;
use option_registry::options::OptionId;
use option_registry::options::OptionValue;
use option_registry::options::StyleEdition;
use option_registry::options::Version;
use option_registry::overlay::PartialConfig;
use option_registry::registry::OverrideError;
use option_registry::registry::Registry;
use option_registry::registry::Warning;

fn empty_overlay() -> PartialConfig {
    PartialConfig {
        max_width: None,
        use_small_heuristics: None,
        fn_call_width: None,
        attr_fn_like_width: None,
        struct_lit_width: None,
        struct_variant_width: None,
        array_width: None,
        chain_width: None,
        merge_imports: None,
        imports_granularity: None,
        fn_args_layout: None,
        fn_params_layout: None,
        hide_parse_errors: None,
        show_parse_errors: None,
        version: None,
        style_edition: None,
        ignore: None,
        verbose: None,
        verbose_diff: None,
    }
}

#[test]
fn default_registries_are_identical() {
    let a = Registry::default_with_style_edition(StyleEdition::Edition2021, false);
    let b = Registry::default_with_style_edition(StyleEdition::Edition2021, false);
    assert_eq!(a.all_options(), b.all_options());
    let ids = option_registry::options::all_option_ids();
    for id in ids {
        assert!(!a.was_set(id));
        assert!(!a.was_set_cli(id));
        assert!(!b.was_set(id));
        assert!(!b.was_set_cli(id));
    }
    assert!(a.warnings().is_empty());
}

#[test]
fn default_values_match_catalog() {
    let mut r = Registry::default_with_style_edition(StyleEdition::Edition2015, false);
    assert_eq!(r.max_width(), 100);
    assert_eq!(r.fn_call_width(), 60);
    assert_eq!(r.attr_fn_like_width(), 70);
    assert_eq!(r.struct_lit_width(), 18);
    assert_eq!(r.struct_variant_width(), 35);
    assert_eq!(r.array_width(), 60);
    assert_eq!(r.chain_width(), 60);
    assert_eq!(r.use_small_heuristics(), Heuristics::Default);
    assert_eq!(r.imports_granularity(), ImportGranularity::Preserve);
    assert_eq!(r.fn_params_layout(), Density::Tall);
    assert_eq!(r.show_parse_errors(), true);
    assert_eq!(r.version(), Version::One);
    assert_eq!(r.style_edition(), StyleEdition::Edition2015);
    assert!(r.ignore().is_empty());
}

#[test]
fn provenance_is_monotonic_across_operations() {
    let mut r = Registry::default_with_style_edition(StyleEdition::Edition2015, true);
    r.set_cli(OptionId::MaxWidth, OptionValue::UInt(90));
    assert!(r.was_set_cli(OptionId::MaxWidth));
    r.override_value("max_width", "80").unwrap();
    assert!(r.was_set(OptionId::MaxWidth));
    assert!(r.was_set_cli(OptionId::MaxWidth));
    let mut p = empty_overlay();
    p.fn_call_width = Some(50);
    r.fill_from_parsed_config(p, "");
    assert!(r.was_set(OptionId::MaxWidth));
    assert!(r.was_set_cli(OptionId::MaxWidth));
    assert!(r.was_set(OptionId::FnCallWidth));
}

#[test]
fn heuristics_clamp_to_max_width() {
    let mut r = Registry::default_with_style_edition(StyleEdition::Edition2015, true);
    let mut p = empty_overlay();
    p.max_width = Some(50);
    p.chain_width = Some(80);
    r.fill_from_parsed_config(p, "");
    assert_eq!(r.chain_width(), 50);
    assert!(r
        .warnings()
        .contains(&Warning::WidthExceedsMaxWidth(OptionId::ChainWidth)));
}

#[test]
fn heuristics_off_uses_no_limit_sentinel() {
    let mut r = Registry::default_with_style_edition(StyleEdition::Edition2015, true);
    let mut p = empty_overlay();
    p.use_small_heuristics = Some(Heuristics::Off);
    r.fill_from_parsed_config(p, "");
    assert_eq!(r.fn_call_width(), usize::MAX);
    assert_eq!(r.attr_fn_like_width(), usize::MAX);
    assert_eq!(r.struct_lit_width(), usize::MAX);
    assert_eq!(r.struct_variant_width(), usize::MAX);
    assert_eq!(r.array_width(), usize::MAX);
    assert_eq!(r.chain_width(), usize::MAX);
}

#[test]
fn heuristics_max_equals_max_width() {
    let mut r = Registry::default_with_style_edition(StyleEdition::Edition2015, true);
    let mut p = empty_overlay();
    p.max_width = Some(120);
    p.use_small_heuristics = Some(Heuristics::Max);
    r.fill_from_parsed_config(p, "");
    assert_eq!(r.fn_call_width(), 120);
    assert_eq!(r.attr_fn_like_width(), 120);
    assert_eq!(r.struct_lit_width(), 120);
    assert_eq!(r.struct_variant_width(), 120);
    assert_eq!(r.array_width(), 120);
    assert_eq!(r.chain_width(), 120);
}

#[test]
fn heuristics_default_scales_max_width() {
    let mut r = Registry::default_with_style_edition(StyleEdition::Edition2015, true);
    r.set(OptionId::MaxWidth, OptionValue::UInt(200));
    assert_eq!(r.fn_call_width(), 120);
    assert_eq!(r.attr_fn_like_width(), 140);
    assert_eq!(r.struct_lit_width(), 36);
    assert_eq!(r.struct_variant_width(), 70);
    assert_eq!(r.array_width(), 120);
    assert_eq!(r.chain_width(), 120);
}

#[test]
fn merge_imports_true_becomes_crate() {
    let mut r = Registry::default_with_style_edition(StyleEdition::Edition2015, true);
    let mut p = empty_overlay();
    p.merge_imports = Some(true);
    r.fill_from_parsed_config(p, "");
    assert_eq!(r.imports_granularity(), ImportGranularity::Crate);
    assert!(r
        .warnings()
        .contains(&Warning::Deprecated(OptionId::MergeImports)));
}

#[test]
fn merge_imports_false_becomes_preserve() {
    let mut r = Registry::default_with_style_edition(StyleEdition::Edition2015, true);
    let mut p = empty_overlay();
    p.merge_imports = Some(false);
    r.fill_from_parsed_config(p, "");
    assert_eq!(r.imports_granularity(), ImportGranularity::Preserve);
}

#[test]
fn replacement_wins_over_legacy_alias() {
    let mut r = Registry::default_with_style_edition(StyleEdition::Edition2015, true);
    let mut p = empty_overlay();
    p.merge_imports = Some(true);
    p.imports_granularity = Some(ImportGranularity::Module);
    r.fill_from_parsed_config(p, "");
    assert_eq!(r.imports_granularity(), ImportGranularity::Module);
    assert!(r.warnings().contains(&Warning::SupersededByReplacement(
        OptionId::MergeImports,
        OptionId::ImportsGranularity
    )));
}

#[test]
fn fn_args_layout_migrates_to_fn_params_layout() {
    let mut r = Registry::default_with_style_edition(StyleEdition::Edition2015, true);
    let mut p = empty_overlay();
    p.fn_args_layout = Some(Density::Vertical);
    r.fill_from_parsed_config(p, "");
    assert_eq!(r.fn_params_layout(), Density::Vertical);
    assert!(r
        .warnings()
        .contains(&Warning::Deprecated(OptionId::FnArgsLayout)));
}

#[test]
fn version_migrates_to_style_edition() {
    let mut r = Registry::default_with_style_edition(StyleEdition::Edition2015, true);
    let mut p = empty_overlay();
    p.version = Some(Version::Two);
    r.fill_from_parsed_config(p, "");
    assert_eq!(r.style_edition(), StyleEdition::Edition2024);
}

#[test]
fn unstable_option_rejected_on_stable_channel() {
    let mut r = Registry::default_with_style_edition(StyleEdition::Edition2015, false);
    let mut p = empty_overlay();
    p.imports_granularity = Some(ImportGranularity::Crate);
    r.fill_from_parsed_config(p, "");
    assert_eq!(r.imports_granularity(), ImportGranularity::Preserve);
    assert!(!r.was_set(OptionId::ImportsGranularity));
    assert!(r
        .warnings()
        .contains(&Warning::OptionUnstable(OptionId::ImportsGranularity)));
}

#[test]
fn unstable_variant_rejected_on_stable_channel() {
    let mut r = Registry::default_with_style_edition(StyleEdition::Edition2015, false);
    let mut p = empty_overlay();
    p.style_edition = Some(StyleEdition::Edition2024);
    r.fill_from_parsed_config(p, "");
    assert_eq!(r.style_edition(), StyleEdition::Edition2015);
    assert!(r
        .warnings()
        .contains(&Warning::VariantUnstable(OptionId::StyleEdition)));
}

#[test]
fn override_bypasses_stability_oracle() {
    let mut r = Registry::default_with_style_edition(StyleEdition::Edition2015, false);
    r.override_value("imports_granularity", "Crate").unwrap();
    assert_eq!(r.imports_granularity(), ImportGranularity::Crate);
    assert!(r.was_set(OptionId::ImportsGranularity));
}

#[test]
fn unparsable_override_is_fatal_and_leaves_registry_untouched() {
    let mut r = Registry::default_with_style_edition(StyleEdition::Edition2015, false);
    let e = r.override_value("max_width", "not-a-number").unwrap_err();
    match e {
        OverrideError::ParseFailed { key, text, expected } => {
            assert_eq!(key, "max_width");
            assert_eq!(text, "not-a-number");
            assert_eq!(expected, "<unsigned integer>");
        }
        other => panic!("unexpected error: {:?}", other),
    }
    assert_eq!(r.max_width(), 100);
    assert!(!r.was_set(OptionId::MaxWidth));
}

#[test]
fn unknown_override_key_is_fatal() {
    let mut r = Registry::default_with_style_edition(StyleEdition::Edition2015, false);
    let e = r.override_value("no_such_option", "1").unwrap_err();
    match e {
        OverrideError::UnknownKey { key } => assert_eq!(key, "no_such_option"),
        other => panic!("unexpected error: {:?}", other),
    }
}

#[test]
fn used_options_snapshot_holds_exactly_the_read_options() {
    let mut r = Registry::default_with_style_edition(StyleEdition::Edition2015, false);
    let _ = r.max_width();
    let _ = r.chain_width();
    let _ = r.show_parse_errors();
    let used = r.used_options();
    assert_eq!(used.max_width, Some(100));
    assert_eq!(used.chain_width, Some(60));
    assert_eq!(used.show_parse_errors, Some(true));
    assert_eq!(used.use_small_heuristics, None);
    assert_eq!(used.fn_call_width, None);
    assert_eq!(used.attr_fn_like_width, None);
    assert_eq!(used.struct_lit_width, None);
    assert_eq!(used.struct_variant_width, None);
    assert_eq!(used.array_width, None);
    assert_eq!(used.merge_imports, None);
    assert_eq!(used.imports_granularity, None);
    assert_eq!(used.fn_args_layout, None);
    assert_eq!(used.fn_params_layout, None);
    assert_eq!(used.hide_parse_errors, None);
    assert_eq!(used.version, None);
    assert_eq!(used.style_edition, None);
    assert_eq!(used.ignore, None);
    assert_eq!(used.verbose, None);
    assert_eq!(used.verbose_diff, None);
}

#[test]
fn all_options_reports_every_value() {
    let r = Registry::default_with_style_edition(StyleEdition::Edition2018, false);
    let all = r.all_options();
    assert_eq!(all.max_width, Some(100));
    assert_eq!(all.style_edition, Some(StyleEdition::Edition2018));
    assert_eq!(all.ignore, Some(Vec::new()));
}

#[test]
fn is_default_requires_explicit_set() {
    let mut r = Registry::default_with_style_edition(StyleEdition::Edition2015, true);
    assert!(!r.is_default("max_width"));
    r.override_value("max_width", "100").unwrap();
    assert!(r.is_default("max_width"));
    r.override_value("max_width", "90").unwrap();
    assert!(!r.is_default("max_width"));
    assert!(!r.is_default("no_such_option"));
}

#[test]
fn ignore_list_gains_base_directory_prefix() {
    let mut r = Registry::default_with_style_edition(StyleEdition::Edition2015, true);
    let mut p = empty_overlay();
    p.ignore = Some(vec![
        String::from("target"),
        String::from("/abs/path"),
        String::from("src/generated"),
    ]);
    r.fill_from_parsed_config(p, "/base");
    let got = r.ignore();
    assert_eq!(
        got,
        vec![
            String::from("/base/target"),
            String::from("/abs/path"),
            String::from("/base/src/generated"),
        ]
    );
}

#[test]
fn hide_parse_errors_migrates_to_show_parse_errors() {
    let mut r = Registry::default_with_style_edition(StyleEdition::Edition2015, true);
    r.set(OptionId::HideParseErrors, OptionValue::Bool(true));
    assert!(!r.was_set(OptionId::HideParseErrors));
    let mut p = empty_overlay();
    p.hide_parse_errors = Some(true);
    r.fill_from_parsed_config(p, "");
    assert_eq!(r.show_parse_errors(), true);
    assert!(r
        .warnings()
        .contains(&Warning::Deprecated(OptionId::HideParseErrors)));
}

#[test]
fn setter_reruns_heuristics_each_time() {
    let mut r = Registry::default_with_style_edition(StyleEdition::Edition2015, true);
    r.set(OptionId::UseSmallHeuristics, OptionValue::Mode(Heuristics::Off));
    assert_eq!(r.array_width(), usize::MAX);
    r.set(OptionId::UseSmallHeuristics, OptionValue::Mode(Heuristics::Default));
    assert_eq!(r.array_width(), 60);
}
