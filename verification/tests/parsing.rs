//! Tests of the textual value grammar and the name/key validators.

use option_registry::options::Heuristics;
use option_registry::options::ImportGranularity;
use option_registry::options::OptionId;
use option_registry::options::StyleEdition;
use option_registry::options::is_hidden_option;
use option_registry::options::is_valid_name;
use option_registry::options::name_to_id;
use option_registry::options::doc_hint;
use option_registry::parse::is_valid_key_val;
use option_registry::parse::parse_bool;
use option_registry::parse::parse_edition;
use option_registry::parse::parse_granularity;
use option_registry::parse::parse_heuristics;
use option_registry::parse::parse_usize;
use option_registry::parse::split_list;

#[test]
fn usize_grammar() {
    assert_eq!(parse_usize("0"), Some(0));
    assert_eq!(parse_usize("120"), Some(120));
    assert_eq!(parse_usize(""), None);
    assert_eq!(parse_usize("12a"), None);
    assert_eq!(parse_usize("-3"), None);
    assert_eq!(parse_usize("99999999999999999999999999999999"), None);
}

#[test]
fn bool_grammar() {
    assert_eq!(parse_bool("true"), Some(true));
    assert_eq!(parse_bool("false"), Some(false));
    assert_eq!(parse_bool("True"), None);
}

#[test]
fn enum_grammars() {
    assert_eq!(parse_heuristics("Off"), Some(Heuristics::Off));
    assert_eq!(parse_heuristics("off"), None);
    assert_eq!(parse_granularity("Crate"), Some(ImportGranularity::Crate));
    assert_eq!(parse_edition("2024"), Some(StyleEdition::Edition2024));
    assert_eq!(parse_edition("2016"), None);
}

#[test]
fn list_grammar_splits_on_commas() {
    assert_eq!(split_list(""), Vec::<String>::new());
    assert_eq!(split_list("a"), vec![String::from("a")]);
    assert_eq!(
        split_list("a,b,c"),
        vec![String::from("a"), String::from("b"), String::from("c")]
    );
    assert_eq!(split_list("a,,b"), vec![
        String::from("a"),
        String::from(""),
        String::from("b")
    ]);
}

#[test]
fn name_lookup_and_validation() {
    assert_eq!(name_to_id("max_width"), Some(OptionId::MaxWidth));
    assert_eq!(name_to_id("verbose_diff"), Some(OptionId::VerboseDiff));
    assert_eq!(name_to_id("nope"), None);
    assert!(is_valid_name("chain_width"));
    assert!(!is_valid_name("chainwidth"));
}

#[test]
fn key_val_validation() {
    assert!(is_valid_key_val("max_width", "88"));
    assert!(!is_valid_key_val("max_width", "eight"));
    assert!(is_valid_key_val("use_small_heuristics", "Max"));
    assert!(!is_valid_key_val("use_small_heuristics", "max"));
    assert!(is_valid_key_val("ignore", "a,b"));
    assert!(!is_valid_key_val("unknown", "1"));
}

#[test]
fn hidden_options_denylist() {
    assert!(is_hidden_option("verbose"));
    assert!(is_hidden_option("verbose_diff"));
    assert!(is_hidden_option("file_lines"));
    assert!(is_hidden_option("width_heuristics"));
    assert!(is_hidden_option("merge_imports"));
    assert!(is_hidden_option("fn_args_layout"));
    assert!(is_hidden_option("hide_parse_errors"));
    assert!(!is_hidden_option("version"));
    assert!(!is_hidden_option("max_width"));
}

#[test]
fn doc_hints_describe_value_types() {
    assert_eq!(doc_hint(OptionId::MaxWidth), "<unsigned integer>");
    assert_eq!(doc_hint(OptionId::MergeImports), "<boolean>");
    assert_eq!(doc_hint(OptionId::UseSmallHeuristics), "Default|Max|Off");
    assert_eq!(doc_hint(OptionId::Ignore), "[<string>, ...]");
}
