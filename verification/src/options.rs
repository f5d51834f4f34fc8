//! The option catalog: the fixed set of configuration options, their value
//! types, per-style-edition defaults, stability tiers, textual names, doc
//! hints, and the denylist of options hidden from generated documentation.

use vstd::prelude::*;

verus! {

/// A formatting-style generation; fixed when a registry is built and used to
/// select every option's compiled-in default.
#[derive(Clone, Copy, PartialEq, Eq, Structural, Debug)]
pub enum StyleEdition {
    Edition2015,
    Edition2018,
    Edition2021,
    Edition2024,
}

/// The three-way mode governing how the dependent width options are derived
/// from `max_width`.
#[derive(Clone, Copy, PartialEq, Eq, Structural, Debug)]
pub enum Heuristics {
    Default,
    Max,
    Off,
}

/// How imports are grouped; the canonical replacement for the deprecated
/// boolean `merge_imports`.
#[derive(Clone, Copy, PartialEq, Eq, Structural, Debug)]
pub enum ImportGranularity {
    Preserve,
    Crate,
    Module,
    Item,
    One,
}

/// Parameter-list layout; the shared value type of `fn_args_layout` and its
/// canonical replacement `fn_params_layout`.
#[derive(Clone, Copy, PartialEq, Eq, Structural, Debug)]
pub enum Density {
    Compressed,
    Tall,
    Vertical,
}

/// The deprecated two-way formatting version switch, superseded by
/// `style_edition`.
#[derive(Clone, Copy, PartialEq, Eq, Structural, Debug)]
pub enum Version {
    One,
    Two,
}

/// Identifies one option of the fixed catalog.
#[derive(Clone, Copy, PartialEq, Eq, Structural, Debug)]
pub enum OptionId {
    MaxWidth,
    UseSmallHeuristics,
    FnCallWidth,
    AttrFnLikeWidth,
    StructLitWidth,
    StructVariantWidth,
    ArrayWidth,
    ChainWidth,
    MergeImports,
    ImportsGranularity,
    FnArgsLayout,
    FnParamsLayout,
    HideParseErrors,
    ShowParseErrors,
    Version,
    StyleEdition,
    Ignore,
    Verbose,
    VerboseDiff,
}

/// A dynamically typed option value, used where the registry is addressed by
/// `OptionId` rather than through a typed accessor.
#[derive(Clone, PartialEq, Debug)]
pub enum OptionValue {
    Bool(bool),
    UInt(usize),
    Mode(Heuristics),
    Gran(ImportGranularity),
    Dens(Density),
    Ver(Version),
    Ed(StyleEdition),
    List(Vec<String>),
}

/// The mathematical value of an `OptionValue`: identical except that a string
/// list is a sequence of character sequences.
#[verifier::ext_equal]
pub enum ValueView {
    Bool(bool),
    UInt(usize),
    Mode(Heuristics),
    Gran(ImportGranularity),
    Dens(Density),
    Ver(Version),
    Ed(StyleEdition),
    List(Seq<Seq<char>>),
}

/// The mathematical contents of a list of strings.
pub open spec fn strs_view(v: Seq<String>) -> Seq<Seq<char>> {
    v.map_values(|s: String| s@)
}

impl View for OptionValue {
    type V = ValueView;

    open spec fn view(&self) -> ValueView {
        match self {
            OptionValue::Bool(b) => ValueView::Bool(*b),
            OptionValue::UInt(w) => ValueView::UInt(*w),
            OptionValue::Mode(m) => ValueView::Mode(*m),
            OptionValue::Gran(g) => ValueView::Gran(*g),
            OptionValue::Dens(d) => ValueView::Dens(*d),
            OptionValue::Ver(v) => ValueView::Ver(*v),
            OptionValue::Ed(e) => ValueView::Ed(*e),
            OptionValue::List(l) => ValueView::List(strs_view(l@)),
        }
    }
}

pub open spec fn vv_bool(x: ValueView) -> bool {
    match x {
        ValueView::Bool(b) => b,
        _ => false,
    }
}

pub open spec fn vv_uint(x: ValueView) -> usize {
    match x {
        ValueView::UInt(w) => w,
        _ => 0,
    }
}

pub open spec fn vv_mode(x: ValueView) -> Heuristics {
    match x {
        ValueView::Mode(m) => m,
        _ => Heuristics::Default,
    }
}

pub open spec fn vv_gran(x: ValueView) -> ImportGranularity {
    match x {
        ValueView::Gran(g) => g,
        _ => ImportGranularity::Preserve,
    }
}

pub open spec fn vv_dens(x: ValueView) -> Density {
    match x {
        ValueView::Dens(d) => d,
        _ => Density::Tall,
    }
}

pub open spec fn vv_ver(x: ValueView) -> Version {
    match x {
        ValueView::Ver(v) => v,
        _ => Version::One,
    }
}

pub open spec fn vv_ed(x: ValueView) -> StyleEdition {
    match x {
        ValueView::Ed(e) => e,
        _ => StyleEdition::Edition2015,
    }
}

pub open spec fn vv_list(x: ValueView) -> Seq<Seq<char>> {
    match x {
        ValueView::List(l) => l,
        _ => Seq::empty(),
    }
}

/// Whether a dynamically typed value carries the value type that the catalog
/// declares for the given option.
pub open spec fn fits(id: OptionId, x: ValueView) -> bool {
    match id {
        OptionId::MaxWidth => x is UInt,
        OptionId::UseSmallHeuristics => x is Mode,
        OptionId::FnCallWidth => x is UInt,
        OptionId::AttrFnLikeWidth => x is UInt,
        OptionId::StructLitWidth => x is UInt,
        OptionId::StructVariantWidth => x is UInt,
        OptionId::ArrayWidth => x is UInt,
        OptionId::ChainWidth => x is UInt,
        OptionId::MergeImports => x is Bool,
        OptionId::ImportsGranularity => x is Gran,
        OptionId::FnArgsLayout => x is Dens,
        OptionId::FnParamsLayout => x is Dens,
        OptionId::HideParseErrors => x is Bool,
        OptionId::ShowParseErrors => x is Bool,
        OptionId::Version => x is Ver,
        OptionId::StyleEdition => x is Ed,
        OptionId::Ignore => x is List,
        OptionId::Verbose => x is Bool,
        OptionId::VerboseDiff => x is Bool,
    }
}

/// Whether the option, as declared in the catalog, may be assigned at all
/// outside a nightly-class build.
pub open spec fn option_is_stable(id: OptionId) -> bool {
    match id {
        OptionId::MergeImports => false,
        OptionId::ImportsGranularity => false,
        OptionId::Version => false,
        OptionId::HideParseErrors => false,
        OptionId::ShowParseErrors => false,
        OptionId::Ignore => false,
        _ => true,
    }
}

/// Stability of a value itself: a variant may be unstable even on a stable
/// option. The 2024 style edition is the one experimental variant.
pub open spec fn variant_is_stable(x: ValueView) -> bool {
    match x {
        ValueView::Ed(e) => e != StyleEdition::Edition2024,
        _ => true,
    }
}

/// Exec mirror of [`option_is_stable`].
pub fn option_is_stable_exec(id: OptionId) -> (r: bool)
    ensures
        r == option_is_stable(id),
{
    match id {
        OptionId::MergeImports => false,
        OptionId::ImportsGranularity => false,
        OptionId::Version => false,
        OptionId::HideParseErrors => false,
        OptionId::ShowParseErrors => false,
        OptionId::Ignore => false,
        _ => true,
    }
}

/// Exec mirror of [`variant_is_stable`].
pub fn variant_is_stable_exec(v: &OptionValue) -> (r: bool)
    ensures
        r == variant_is_stable(v@),
{
    match v {
        OptionValue::Ed(e) => !matches!(e, StyleEdition::Edition2024),
        _ => true,
    }
}

/// The compiled-in default of an option for a given style edition.
pub open spec fn default_view(id: OptionId, e: StyleEdition) -> ValueView {
    match id {
        OptionId::MaxWidth => ValueView::UInt(100),
        OptionId::UseSmallHeuristics => ValueView::Mode(Heuristics::Default),
        OptionId::FnCallWidth => ValueView::UInt(60),
        OptionId::AttrFnLikeWidth => ValueView::UInt(70),
        OptionId::StructLitWidth => ValueView::UInt(18),
        OptionId::StructVariantWidth => ValueView::UInt(35),
        OptionId::ArrayWidth => ValueView::UInt(60),
        OptionId::ChainWidth => ValueView::UInt(60),
        OptionId::MergeImports => ValueView::Bool(false),
        OptionId::ImportsGranularity => ValueView::Gran(ImportGranularity::Preserve),
        OptionId::FnArgsLayout => ValueView::Dens(Density::Tall),
        OptionId::FnParamsLayout => ValueView::Dens(Density::Tall),
        OptionId::HideParseErrors => ValueView::Bool(false),
        OptionId::ShowParseErrors => ValueView::Bool(true),
        OptionId::Version => ValueView::Ver(Version::One),
        OptionId::StyleEdition => ValueView::Ed(e),
        OptionId::Ignore => ValueView::List(Seq::empty()),
        OptionId::Verbose => ValueView::Bool(false),
        OptionId::VerboseDiff => ValueView::Bool(false),
    }
}

/// The per-edition default of an option as a dynamically typed value.
pub fn default_value(id: OptionId, e: StyleEdition) -> (r: OptionValue)
    ensures
        r@ == default_view(id, e),
{
    let r = match id {
        OptionId::MaxWidth => OptionValue::UInt(100),
        OptionId::UseSmallHeuristics => OptionValue::Mode(Heuristics::Default),
        OptionId::FnCallWidth => OptionValue::UInt(60),
        OptionId::AttrFnLikeWidth => OptionValue::UInt(70),
        OptionId::StructLitWidth => OptionValue::UInt(18),
        OptionId::StructVariantWidth => OptionValue::UInt(35),
        OptionId::ArrayWidth => OptionValue::UInt(60),
        OptionId::ChainWidth => OptionValue::UInt(60),
        OptionId::MergeImports => OptionValue::Bool(false),
        OptionId::ImportsGranularity => OptionValue::Gran(ImportGranularity::Preserve),
        OptionId::FnArgsLayout => OptionValue::Dens(Density::Tall),
        OptionId::FnParamsLayout => OptionValue::Dens(Density::Tall),
        OptionId::HideParseErrors => OptionValue::Bool(false),
        OptionId::ShowParseErrors => OptionValue::Bool(true),
        OptionId::Version => OptionValue::Ver(Version::One),
        OptionId::StyleEdition => OptionValue::Ed(e),
        OptionId::Ignore => OptionValue::List(Vec::new()),
        OptionId::Verbose => OptionValue::Bool(false),
        OptionId::VerboseDiff => OptionValue::Bool(false),
    };
    proof {
        if id is Ignore {
            assert(r@ =~= default_view(id, e));
        }
    }
    r
}

/// The textual name of an option, as a configuration file or a `key=value`
/// override writes it.
pub open spec fn name_view(id: OptionId) -> Seq<char> {
    match id {
        OptionId::MaxWidth => "max_width"@,
        OptionId::UseSmallHeuristics => "use_small_heuristics"@,
        OptionId::FnCallWidth => "fn_call_width"@,
        OptionId::AttrFnLikeWidth => "attr_fn_like_width"@,
        OptionId::StructLitWidth => "struct_lit_width"@,
        OptionId::StructVariantWidth => "struct_variant_width"@,
        OptionId::ArrayWidth => "array_width"@,
        OptionId::ChainWidth => "chain_width"@,
        OptionId::MergeImports => "merge_imports"@,
        OptionId::ImportsGranularity => "imports_granularity"@,
        OptionId::FnArgsLayout => "fn_args_layout"@,
        OptionId::FnParamsLayout => "fn_params_layout"@,
        OptionId::HideParseErrors => "hide_parse_errors"@,
        OptionId::ShowParseErrors => "show_parse_errors"@,
        OptionId::Version => "version"@,
        OptionId::StyleEdition => "style_edition"@,
        OptionId::Ignore => "ignore"@,
        OptionId::Verbose => "verbose"@,
        OptionId::VerboseDiff => "verbose_diff"@,
    }
}

/// The textual name of an option.
pub fn option_name(id: OptionId) -> (r: &'static str)
    ensures
        r@ == name_view(id),
{
    match id {
        OptionId::MaxWidth => "max_width",
        OptionId::UseSmallHeuristics => "use_small_heuristics",
        OptionId::FnCallWidth => "fn_call_width",
        OptionId::AttrFnLikeWidth => "attr_fn_like_width",
        OptionId::StructLitWidth => "struct_lit_width",
        OptionId::StructVariantWidth => "struct_variant_width",
        OptionId::ArrayWidth => "array_width",
        OptionId::ChainWidth => "chain_width",
        OptionId::MergeImports => "merge_imports",
        OptionId::ImportsGranularity => "imports_granularity",
        OptionId::FnArgsLayout => "fn_args_layout",
        OptionId::FnParamsLayout => "fn_params_layout",
        OptionId::HideParseErrors => "hide_parse_errors",
        OptionId::ShowParseErrors => "show_parse_errors",
        OptionId::Version => "version",
        OptionId::StyleEdition => "style_edition",
        OptionId::Ignore => "ignore",
        OptionId::Verbose => "verbose",
        OptionId::VerboseDiff => "verbose_diff",
    }
}

/// The doc hint for an option's value type: a pipe-separated variant list for
/// enum-like options, `<type>` otherwise.
pub open spec fn doc_hint_view(id: OptionId) -> Seq<char> {
    match id {
        OptionId::UseSmallHeuristics => "Default|Max|Off"@,
        OptionId::ImportsGranularity => "Preserve|Crate|Module|Item|One"@,
        OptionId::FnArgsLayout => "Compressed|Tall|Vertical"@,
        OptionId::FnParamsLayout => "Compressed|Tall|Vertical"@,
        OptionId::Version => "One|Two"@,
        OptionId::StyleEdition => "2015|2018|2021|2024"@,
        OptionId::Ignore => "[<string>, ...]"@,
        OptionId::MergeImports => "<boolean>"@,
        OptionId::HideParseErrors => "<boolean>"@,
        OptionId::ShowParseErrors => "<boolean>"@,
        OptionId::Verbose => "<boolean>"@,
        OptionId::VerboseDiff => "<boolean>"@,
        _ => "<unsigned integer>"@,
    }
}

/// The doc hint for an option's value type.
pub fn doc_hint(id: OptionId) -> (r: &'static str)
    ensures
        r@ == doc_hint_view(id),
{
    match id {
        OptionId::UseSmallHeuristics => "Default|Max|Off",
        OptionId::ImportsGranularity => "Preserve|Crate|Module|Item|One",
        OptionId::FnArgsLayout => "Compressed|Tall|Vertical",
        OptionId::FnParamsLayout => "Compressed|Tall|Vertical",
        OptionId::Version => "One|Two",
        OptionId::StyleEdition => "2015|2018|2021|2024",
        OptionId::Ignore => "[<string>, ...]",
        OptionId::MergeImports => "<boolean>",
        OptionId::HideParseErrors => "<boolean>",
        OptionId::ShowParseErrors => "<boolean>",
        OptionId::Verbose => "<boolean>",
        OptionId::VerboseDiff => "<boolean>",
        _ => "<unsigned integer>",
    }
}

/// Character-sequence equality of two string slices.
pub fn str_eq(a: &str, b: &str) -> (r: bool)
    ensures
        r == (a@ == b@),
{
    let la = a.unicode_len();
    let lb = b.unicode_len();
    if la != lb {
        proof {
            assert(a@.len() != b@.len());
        }
        return false;
    }
    let mut i: usize = 0;
    while i < la
        invariant
            la == a@.len(),
            la == b@.len(),
            i <= la,
            forall|j: int| 0 <= j < i ==> a@[j] == b@[j],
        decreases la - i,
    {
        if a.get_char(i) != b.get_char(i) {
            return false;
        }
        i += 1;
    }
    proof {
        assert(a@ =~= b@);
    }
    true
}

/// Looks an option name up in the catalog.
pub open spec fn name_to_id_view(s: Seq<char>) -> Option<OptionId> {
    if s == "max_width"@ {
        Some(OptionId::MaxWidth)
    } else if s == "use_small_heuristics"@ {
        Some(OptionId::UseSmallHeuristics)
    } else if s == "fn_call_width"@ {
        Some(OptionId::FnCallWidth)
    } else if s == "attr_fn_like_width"@ {
        Some(OptionId::AttrFnLikeWidth)
    } else if s == "struct_lit_width"@ {
        Some(OptionId::StructLitWidth)
    } else if s == "struct_variant_width"@ {
        Some(OptionId::StructVariantWidth)
    } else if s == "array_width"@ {
        Some(OptionId::ArrayWidth)
    } else if s == "chain_width"@ {
        Some(OptionId::ChainWidth)
    } else if s == "merge_imports"@ {
        Some(OptionId::MergeImports)
    } else if s == "imports_granularity"@ {
        Some(OptionId::ImportsGranularity)
    } else if s == "fn_args_layout"@ {
        Some(OptionId::FnArgsLayout)
    } else if s == "fn_params_layout"@ {
        Some(OptionId::FnParamsLayout)
    } else if s == "hide_parse_errors"@ {
        Some(OptionId::HideParseErrors)
    } else if s == "show_parse_errors"@ {
        Some(OptionId::ShowParseErrors)
    } else if s == "version"@ {
        Some(OptionId::Version)
    } else if s == "style_edition"@ {
        Some(OptionId::StyleEdition)
    } else if s == "ignore"@ {
        Some(OptionId::Ignore)
    } else if s == "verbose"@ {
        Some(OptionId::Verbose)
    } else if s == "verbose_diff"@ {
        Some(OptionId::VerboseDiff)
    } else {
        None
    }
}

/// Looks an option name up in the catalog.
pub fn name_to_id(s: &str) -> (r: Option<OptionId>)
    ensures
        r == name_to_id_view(s@),
{
    if str_eq(s, "max_width") {
        Some(OptionId::MaxWidth)
    } else if str_eq(s, "use_small_heuristics") {
        Some(OptionId::UseSmallHeuristics)
    } else if str_eq(s, "fn_call_width") {
        Some(OptionId::FnCallWidth)
    } else if str_eq(s, "attr_fn_like_width") {
        Some(OptionId::AttrFnLikeWidth)
    } else if str_eq(s, "struct_lit_width") {
        Some(OptionId::StructLitWidth)
    } else if str_eq(s, "struct_variant_width") {
        Some(OptionId::StructVariantWidth)
    } else if str_eq(s, "array_width") {
        Some(OptionId::ArrayWidth)
    } else if str_eq(s, "chain_width") {
        Some(OptionId::ChainWidth)
    } else if str_eq(s, "merge_imports") {
        Some(OptionId::MergeImports)
    } else if str_eq(s, "imports_granularity") {
        Some(OptionId::ImportsGranularity)
    } else if str_eq(s, "fn_args_layout") {
        Some(OptionId::FnArgsLayout)
    } else if str_eq(s, "fn_params_layout") {
        Some(OptionId::FnParamsLayout)
    } else if str_eq(s, "hide_parse_errors") {
        Some(OptionId::HideParseErrors)
    } else if str_eq(s, "show_parse_errors") {
        Some(OptionId::ShowParseErrors)
    } else if str_eq(s, "version") {
        Some(OptionId::Version)
    } else if str_eq(s, "style_edition") {
        Some(OptionId::StyleEdition)
    } else if str_eq(s, "ignore") {
        Some(OptionId::Ignore)
    } else if str_eq(s, "verbose") {
        Some(OptionId::Verbose)
    } else if str_eq(s, "verbose_diff") {
        Some(OptionId::VerboseDiff)
    } else {
        None
    }
}

/// Whether the text names an option of the catalog.
pub fn is_valid_name(s: &str) -> (r: bool)
    ensures
        r == (name_to_id_view(s@) is Some),
{
    name_to_id(s).is_some()
}

/// Whether an option, even when otherwise eligible, must be left out of
/// generated documentation.
pub open spec fn is_hidden_view(s: Seq<char>) -> bool {
    ||| s == "verbose"@
    ||| s == "verbose_diff"@
    ||| s == "file_lines"@
    ||| s == "width_heuristics"@
    ||| s == "merge_imports"@
    ||| s == "fn_args_layout"@
    ||| s == "hide_parse_errors"@
}

/// Whether an option name is on the fixed denylist excluded from generated
/// documentation.
pub fn is_hidden_option(s: &str) -> (r: bool)
    ensures
        r == is_hidden_view(s@),
{
    str_eq(s, "verbose") || str_eq(s, "verbose_diff") || str_eq(s, "file_lines") || str_eq(
        s,
        "width_heuristics",
    ) || str_eq(s, "merge_imports") || str_eq(s, "fn_args_layout") || str_eq(
        s,
        "hide_parse_errors",
    )
}

/// All options of the catalog, in catalog order.
pub fn all_option_ids() -> (r: Vec<OptionId>)
    ensures
        r@ =~= seq![
            OptionId::MaxWidth,
            OptionId::UseSmallHeuristics,
            OptionId::FnCallWidth,
            OptionId::AttrFnLikeWidth,
            OptionId::StructLitWidth,
            OptionId::StructVariantWidth,
            OptionId::ArrayWidth,
            OptionId::ChainWidth,
            OptionId::MergeImports,
            OptionId::ImportsGranularity,
            OptionId::FnArgsLayout,
            OptionId::FnParamsLayout,
            OptionId::HideParseErrors,
            OptionId::ShowParseErrors,
            OptionId::Version,
            OptionId::StyleEdition,
            OptionId::Ignore,
            OptionId::Verbose,
            OptionId::VerboseDiff,
        ],
{
    let mut v: Vec<OptionId> = Vec::new();
    v.push(OptionId::MaxWidth);
    v.push(OptionId::UseSmallHeuristics);
    v.push(OptionId::FnCallWidth);
    v.push(OptionId::AttrFnLikeWidth);
    v.push(OptionId::StructLitWidth);
    v.push(OptionId::StructVariantWidth);
    v.push(OptionId::ArrayWidth);
    v.push(OptionId::ChainWidth);
    v.push(OptionId::MergeImports);
    v.push(OptionId::ImportsGranularity);
    v.push(OptionId::FnArgsLayout);
    v.push(OptionId::FnParamsLayout);
    v.push(OptionId::HideParseErrors);
    v.push(OptionId::ShowParseErrors);
    v.push(OptionId::Version);
    v.push(OptionId::StyleEdition);
    v.push(OptionId::Ignore);
    v.push(OptionId::Verbose);
    v.push(OptionId::VerboseDiff);
    v
}

} // verus!
