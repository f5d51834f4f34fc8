//! The configuration registry: one slot per option of the catalog, the
//! stability oracle, the merge of a sparse overlay, width-heuristics
//! derivation, deprecated-alias reconciliation, the three setter surfaces,
//! and the read-only queries.

use vstd::prelude::*;

use crate::options::Density;
use crate::options::Heuristics;
use crate::options::ImportGranularity;
use crate::options::OptionId;
use crate::options::OptionValue;
use crate::options::StyleEdition;
use crate::options::ValueView;
use crate::options::Version;
use crate::options::default_view;
use crate::options::fits;
use crate::options::option_is_stable;
use crate::options::option_is_stable_exec;
use crate::options::name_to_id_view;
use crate::options::strs_view;
use crate::options::variant_is_stable;
use crate::options::variant_is_stable_exec;
use crate::options::vv_bool;
use crate::options::vv_dens;
use crate::options::vv_ed;
use crate::options::vv_gran;
use crate::options::vv_list;
use crate::options::vv_mode;
use crate::options::vv_uint;
use crate::options::vv_ver;
use crate::parse::parse_view;
use crate::parse::parse_value;
use vstd::string::StrSliceExecFns;

verus! {

/// One option's resolved value together with its bookkeeping flags.
#[verifier::ext_equal]
pub struct Slot<T> {
    /// The current resolved value.
    pub value: T,
    /// Set the first time any consumer reads the value.
    pub is_used: bool,
    /// Fixed at construction from the catalog: whether this option may be
    /// set at all outside a nightly-class build.
    pub is_stable: bool,
    /// True once a non-CLI, non-default assignment (file merge, programmatic
    /// set, or a `key=value` override) has succeeded.
    pub was_set: bool,
    /// True once a CLI-flag assignment has succeeded; independent of
    /// `was_set`.
    pub was_set_cli: bool,
}

/// A recoverable diagnostic: every rejected or deprecated assignment leaves
/// one behind instead of failing the run.
#[derive(Clone, Copy, PartialEq, Eq, Structural, Debug)]
pub enum Warning {
    /// A file merge tried to set an option that is unstable on this channel.
    OptionUnstable(OptionId),
    /// A file merge tried to set a value whose variant is unstable on this
    /// channel.
    VariantUnstable(OptionId),
    /// A dependent width option exceeded `max_width` and was clamped.
    WidthExceedsMaxWidth(OptionId),
    /// A deprecated option was set through some channel.
    Deprecated(OptionId),
    /// A deprecated option and its canonical replacement were both set; the
    /// replacement won and the legacy value was discarded.
    SupersededByReplacement(OptionId, OptionId),
}

/// The mathematical state of a registry.
#[verifier::ext_equal]
pub struct RegView {
    pub max_width: Slot<usize>,
    pub use_small_heuristics: Slot<Heuristics>,
    pub fn_call_width: Slot<usize>,
    pub attr_fn_like_width: Slot<usize>,
    pub struct_lit_width: Slot<usize>,
    pub struct_variant_width: Slot<usize>,
    pub array_width: Slot<usize>,
    pub chain_width: Slot<usize>,
    pub merge_imports: Slot<bool>,
    pub imports_granularity: Slot<ImportGranularity>,
    pub fn_args_layout: Slot<Density>,
    pub fn_params_layout: Slot<Density>,
    pub hide_parse_errors: Slot<bool>,
    pub show_parse_errors: Slot<bool>,
    pub version: Slot<Version>,
    pub style_edition: Slot<StyleEdition>,
    pub ignore: Slot<Seq<Seq<char>>>,
    pub verbose: Slot<bool>,
    pub verbose_diff: Slot<bool>,
    pub edition: StyleEdition,
    pub nightly: bool,
    pub warnings: Seq<Warning>,
}

/// The configuration registry: the sole owner of every option slot, the
/// style edition it was built for, the build channel, and the warnings
/// accumulated by merges and reconciliations.
pub struct Registry {
    max_width: Slot<usize>,
    use_small_heuristics: Slot<Heuristics>,
    fn_call_width: Slot<usize>,
    attr_fn_like_width: Slot<usize>,
    struct_lit_width: Slot<usize>,
    struct_variant_width: Slot<usize>,
    array_width: Slot<usize>,
    chain_width: Slot<usize>,
    merge_imports: Slot<bool>,
    imports_granularity: Slot<ImportGranularity>,
    fn_args_layout: Slot<Density>,
    fn_params_layout: Slot<Density>,
    hide_parse_errors: Slot<bool>,
    show_parse_errors: Slot<bool>,
    version: Slot<Version>,
    style_edition: Slot<StyleEdition>,
    ignore: Slot<Vec<String>>,
    verbose: Slot<bool>,
    verbose_diff: Slot<bool>,
    edition: StyleEdition,
    nightly: bool,
    warnings: Vec<Warning>,
}

impl View for Registry {
    type V = RegView;

    closed spec fn view(&self) -> RegView {
        RegView {
            max_width: self.max_width,
            use_small_heuristics: self.use_small_heuristics,
            fn_call_width: self.fn_call_width,
            attr_fn_like_width: self.attr_fn_like_width,
            struct_lit_width: self.struct_lit_width,
            struct_variant_width: self.struct_variant_width,
            array_width: self.array_width,
            chain_width: self.chain_width,
            merge_imports: self.merge_imports,
            imports_granularity: self.imports_granularity,
            fn_args_layout: self.fn_args_layout,
            fn_params_layout: self.fn_params_layout,
            hide_parse_errors: self.hide_parse_errors,
            show_parse_errors: self.show_parse_errors,
            version: self.version,
            style_edition: self.style_edition,
            ignore: Slot {
                value: strs_view(self.ignore.value@),
                is_used: self.ignore.is_used,
                is_stable: self.ignore.is_stable,
                was_set: self.ignore.was_set,
                was_set_cli: self.ignore.was_set_cli,
            },
            verbose: self.verbose,
            verbose_diff: self.verbose_diff,
            edition: self.edition,
            nightly: self.nightly,
            warnings: self.warnings@,
        }
    }
}

/// Every slot carries the stability tier that the catalog declares for it.
pub open spec fn wf_view(v: RegView) -> bool {
    &&& v.max_width.is_stable == option_is_stable(OptionId::MaxWidth)
    &&& v.use_small_heuristics.is_stable == option_is_stable(OptionId::UseSmallHeuristics)
    &&& v.fn_call_width.is_stable == option_is_stable(OptionId::FnCallWidth)
    &&& v.attr_fn_like_width.is_stable == option_is_stable(OptionId::AttrFnLikeWidth)
    &&& v.struct_lit_width.is_stable == option_is_stable(OptionId::StructLitWidth)
    &&& v.struct_variant_width.is_stable == option_is_stable(OptionId::StructVariantWidth)
    &&& v.array_width.is_stable == option_is_stable(OptionId::ArrayWidth)
    &&& v.chain_width.is_stable == option_is_stable(OptionId::ChainWidth)
    &&& v.merge_imports.is_stable == option_is_stable(OptionId::MergeImports)
    &&& v.imports_granularity.is_stable == option_is_stable(OptionId::ImportsGranularity)
    &&& v.fn_args_layout.is_stable == option_is_stable(OptionId::FnArgsLayout)
    &&& v.fn_params_layout.is_stable == option_is_stable(OptionId::FnParamsLayout)
    &&& v.hide_parse_errors.is_stable == option_is_stable(OptionId::HideParseErrors)
    &&& v.show_parse_errors.is_stable == option_is_stable(OptionId::ShowParseErrors)
    &&& v.version.is_stable == option_is_stable(OptionId::Version)
    &&& v.style_edition.is_stable == option_is_stable(OptionId::StyleEdition)
    &&& v.ignore.is_stable == option_is_stable(OptionId::Ignore)
    &&& v.verbose.is_stable == option_is_stable(OptionId::Verbose)
    &&& v.verbose_diff.is_stable == option_is_stable(OptionId::VerboseDiff)
}

/// The catalog stability tier carried by the slot of the given option.
pub open spec fn slot_is_stable(v: RegView, id: OptionId) -> bool {
    match id {
        OptionId::MaxWidth => v.max_width.is_stable,
        OptionId::UseSmallHeuristics => v.use_small_heuristics.is_stable,
        OptionId::FnCallWidth => v.fn_call_width.is_stable,
        OptionId::AttrFnLikeWidth => v.attr_fn_like_width.is_stable,
        OptionId::StructLitWidth => v.struct_lit_width.is_stable,
        OptionId::StructVariantWidth => v.struct_variant_width.is_stable,
        OptionId::ArrayWidth => v.array_width.is_stable,
        OptionId::ChainWidth => v.chain_width.is_stable,
        OptionId::MergeImports => v.merge_imports.is_stable,
        OptionId::ImportsGranularity => v.imports_granularity.is_stable,
        OptionId::FnArgsLayout => v.fn_args_layout.is_stable,
        OptionId::FnParamsLayout => v.fn_params_layout.is_stable,
        OptionId::HideParseErrors => v.hide_parse_errors.is_stable,
        OptionId::ShowParseErrors => v.show_parse_errors.is_stable,
        OptionId::Version => v.version.is_stable,
        OptionId::StyleEdition => v.style_edition.is_stable,
        OptionId::Ignore => v.ignore.is_stable,
        OptionId::Verbose => v.verbose.is_stable,
        OptionId::VerboseDiff => v.verbose_diff.is_stable,
    }
}

/// Whether the option was set by a non-CLI assignment.
pub open spec fn slot_was_set(v: RegView, id: OptionId) -> bool {
    match id {
        OptionId::MaxWidth => v.max_width.was_set,
        OptionId::UseSmallHeuristics => v.use_small_heuristics.was_set,
        OptionId::FnCallWidth => v.fn_call_width.was_set,
        OptionId::AttrFnLikeWidth => v.attr_fn_like_width.was_set,
        OptionId::StructLitWidth => v.struct_lit_width.was_set,
        OptionId::StructVariantWidth => v.struct_variant_width.was_set,
        OptionId::ArrayWidth => v.array_width.was_set,
        OptionId::ChainWidth => v.chain_width.was_set,
        OptionId::MergeImports => v.merge_imports.was_set,
        OptionId::ImportsGranularity => v.imports_granularity.was_set,
        OptionId::FnArgsLayout => v.fn_args_layout.was_set,
        OptionId::FnParamsLayout => v.fn_params_layout.was_set,
        OptionId::HideParseErrors => v.hide_parse_errors.was_set,
        OptionId::ShowParseErrors => v.show_parse_errors.was_set,
        OptionId::Version => v.version.was_set,
        OptionId::StyleEdition => v.style_edition.was_set,
        OptionId::Ignore => v.ignore.was_set,
        OptionId::Verbose => v.verbose.was_set,
        OptionId::VerboseDiff => v.verbose_diff.was_set,
    }
}

/// Whether the option was set by a CLI-flag assignment.
pub open spec fn slot_was_set_cli(v: RegView, id: OptionId) -> bool {
    match id {
        OptionId::MaxWidth => v.max_width.was_set_cli,
        OptionId::UseSmallHeuristics => v.use_small_heuristics.was_set_cli,
        OptionId::FnCallWidth => v.fn_call_width.was_set_cli,
        OptionId::AttrFnLikeWidth => v.attr_fn_like_width.was_set_cli,
        OptionId::StructLitWidth => v.struct_lit_width.was_set_cli,
        OptionId::StructVariantWidth => v.struct_variant_width.was_set_cli,
        OptionId::ArrayWidth => v.array_width.was_set_cli,
        OptionId::ChainWidth => v.chain_width.was_set_cli,
        OptionId::MergeImports => v.merge_imports.was_set_cli,
        OptionId::ImportsGranularity => v.imports_granularity.was_set_cli,
        OptionId::FnArgsLayout => v.fn_args_layout.was_set_cli,
        OptionId::FnParamsLayout => v.fn_params_layout.was_set_cli,
        OptionId::HideParseErrors => v.hide_parse_errors.was_set_cli,
        OptionId::ShowParseErrors => v.show_parse_errors.was_set_cli,
        OptionId::Version => v.version.was_set_cli,
        OptionId::StyleEdition => v.style_edition.was_set_cli,
        OptionId::Ignore => v.ignore.was_set_cli,
        OptionId::Verbose => v.verbose.was_set_cli,
        OptionId::VerboseDiff => v.verbose_diff.was_set_cli,
    }
}

/// Whether the option has been read by any consumer.
pub open spec fn slot_is_used(v: RegView, id: OptionId) -> bool {
    match id {
        OptionId::MaxWidth => v.max_width.is_used,
        OptionId::UseSmallHeuristics => v.use_small_heuristics.is_used,
        OptionId::FnCallWidth => v.fn_call_width.is_used,
        OptionId::AttrFnLikeWidth => v.attr_fn_like_width.is_used,
        OptionId::StructLitWidth => v.struct_lit_width.is_used,
        OptionId::StructVariantWidth => v.struct_variant_width.is_used,
        OptionId::ArrayWidth => v.array_width.is_used,
        OptionId::ChainWidth => v.chain_width.is_used,
        OptionId::MergeImports => v.merge_imports.is_used,
        OptionId::ImportsGranularity => v.imports_granularity.is_used,
        OptionId::FnArgsLayout => v.fn_args_layout.is_used,
        OptionId::FnParamsLayout => v.fn_params_layout.is_used,
        OptionId::HideParseErrors => v.hide_parse_errors.is_used,
        OptionId::ShowParseErrors => v.show_parse_errors.is_used,
        OptionId::Version => v.version.is_used,
        OptionId::StyleEdition => v.style_edition.is_used,
        OptionId::Ignore => v.ignore.is_used,
        OptionId::Verbose => v.verbose.is_used,
        OptionId::VerboseDiff => v.verbose_diff.is_used,
    }
}

/// The option's current value, dynamically typed.
pub open spec fn slot_value_v(v: RegView, id: OptionId) -> ValueView {
    match id {
        OptionId::MaxWidth => ValueView::UInt(v.max_width.value),
        OptionId::UseSmallHeuristics => ValueView::Mode(v.use_small_heuristics.value),
        OptionId::FnCallWidth => ValueView::UInt(v.fn_call_width.value),
        OptionId::AttrFnLikeWidth => ValueView::UInt(v.attr_fn_like_width.value),
        OptionId::StructLitWidth => ValueView::UInt(v.struct_lit_width.value),
        OptionId::StructVariantWidth => ValueView::UInt(v.struct_variant_width.value),
        OptionId::ArrayWidth => ValueView::UInt(v.array_width.value),
        OptionId::ChainWidth => ValueView::UInt(v.chain_width.value),
        OptionId::MergeImports => ValueView::Bool(v.merge_imports.value),
        OptionId::ImportsGranularity => ValueView::Gran(v.imports_granularity.value),
        OptionId::FnArgsLayout => ValueView::Dens(v.fn_args_layout.value),
        OptionId::FnParamsLayout => ValueView::Dens(v.fn_params_layout.value),
        OptionId::HideParseErrors => ValueView::Bool(v.hide_parse_errors.value),
        OptionId::ShowParseErrors => ValueView::Bool(v.show_parse_errors.value),
        OptionId::Version => ValueView::Ver(v.version.value),
        OptionId::StyleEdition => ValueView::Ed(v.style_edition.value),
        OptionId::Ignore => ValueView::List(v.ignore.value),
        OptionId::Verbose => ValueView::Bool(v.verbose.value),
        OptionId::VerboseDiff => ValueView::Bool(v.verbose_diff.value),
    }
}

/// The registry with the option's value replaced; flags untouched.
pub open spec fn assign_value(v: RegView, id: OptionId, x: ValueView) -> RegView {
    match id {
        OptionId::MaxWidth => RegView {
            max_width: Slot { value: vv_uint(x), ..v.max_width },
            ..v
        },
        OptionId::UseSmallHeuristics => RegView {
            use_small_heuristics: Slot { value: vv_mode(x), ..v.use_small_heuristics },
            ..v
        },
        OptionId::FnCallWidth => RegView {
            fn_call_width: Slot { value: vv_uint(x), ..v.fn_call_width },
            ..v
        },
        OptionId::AttrFnLikeWidth => RegView {
            attr_fn_like_width: Slot { value: vv_uint(x), ..v.attr_fn_like_width },
            ..v
        },
        OptionId::StructLitWidth => RegView {
            struct_lit_width: Slot { value: vv_uint(x), ..v.struct_lit_width },
            ..v
        },
        OptionId::StructVariantWidth => RegView {
            struct_variant_width: Slot { value: vv_uint(x), ..v.struct_variant_width },
            ..v
        },
        OptionId::ArrayWidth => RegView {
            array_width: Slot { value: vv_uint(x), ..v.array_width },
            ..v
        },
        OptionId::ChainWidth => RegView {
            chain_width: Slot { value: vv_uint(x), ..v.chain_width },
            ..v
        },
        OptionId::MergeImports => RegView {
            merge_imports: Slot { value: vv_bool(x), ..v.merge_imports },
            ..v
        },
        OptionId::ImportsGranularity => RegView {
            imports_granularity: Slot { value: vv_gran(x), ..v.imports_granularity },
            ..v
        },
        OptionId::FnArgsLayout => RegView {
            fn_args_layout: Slot { value: vv_dens(x), ..v.fn_args_layout },
            ..v
        },
        OptionId::FnParamsLayout => RegView {
            fn_params_layout: Slot { value: vv_dens(x), ..v.fn_params_layout },
            ..v
        },
        OptionId::HideParseErrors => RegView {
            hide_parse_errors: Slot { value: vv_bool(x), ..v.hide_parse_errors },
            ..v
        },
        OptionId::ShowParseErrors => RegView {
            show_parse_errors: Slot { value: vv_bool(x), ..v.show_parse_errors },
            ..v
        },
        OptionId::Version => RegView { version: Slot { value: vv_ver(x), ..v.version }, ..v },
        OptionId::StyleEdition => RegView {
            style_edition: Slot { value: vv_ed(x), ..v.style_edition },
            ..v
        },
        OptionId::Ignore => RegView { ignore: Slot { value: vv_list(x), ..v.ignore }, ..v },
        OptionId::Verbose => RegView { verbose: Slot { value: vv_bool(x), ..v.verbose }, ..v },
        OptionId::VerboseDiff => RegView {
            verbose_diff: Slot { value: vv_bool(x), ..v.verbose_diff },
            ..v
        },
    }
}

/// The registry with the option's `was_set` flag raised.
pub open spec fn mark_was_set(v: RegView, id: OptionId) -> RegView {
    match id {
        OptionId::MaxWidth => RegView { max_width: Slot { was_set: true, ..v.max_width }, ..v },
        OptionId::UseSmallHeuristics => RegView {
            use_small_heuristics: Slot { was_set: true, ..v.use_small_heuristics },
            ..v
        },
        OptionId::FnCallWidth => RegView {
            fn_call_width: Slot { was_set: true, ..v.fn_call_width },
            ..v
        },
        OptionId::AttrFnLikeWidth => RegView {
            attr_fn_like_width: Slot { was_set: true, ..v.attr_fn_like_width },
            ..v
        },
        OptionId::StructLitWidth => RegView {
            struct_lit_width: Slot { was_set: true, ..v.struct_lit_width },
            ..v
        },
        OptionId::StructVariantWidth => RegView {
            struct_variant_width: Slot { was_set: true, ..v.struct_variant_width },
            ..v
        },
        OptionId::ArrayWidth => RegView {
            array_width: Slot { was_set: true, ..v.array_width },
            ..v
        },
        OptionId::ChainWidth => RegView {
            chain_width: Slot { was_set: true, ..v.chain_width },
            ..v
        },
        OptionId::MergeImports => RegView {
            merge_imports: Slot { was_set: true, ..v.merge_imports },
            ..v
        },
        OptionId::ImportsGranularity => RegView {
            imports_granularity: Slot { was_set: true, ..v.imports_granularity },
            ..v
        },
        OptionId::FnArgsLayout => RegView {
            fn_args_layout: Slot { was_set: true, ..v.fn_args_layout },
            ..v
        },
        OptionId::FnParamsLayout => RegView {
            fn_params_layout: Slot { was_set: true, ..v.fn_params_layout },
            ..v
        },
        OptionId::HideParseErrors => RegView {
            hide_parse_errors: Slot { was_set: true, ..v.hide_parse_errors },
            ..v
        },
        OptionId::ShowParseErrors => RegView {
            show_parse_errors: Slot { was_set: true, ..v.show_parse_errors },
            ..v
        },
        OptionId::Version => RegView { version: Slot { was_set: true, ..v.version }, ..v },
        OptionId::StyleEdition => RegView {
            style_edition: Slot { was_set: true, ..v.style_edition },
            ..v
        },
        OptionId::Ignore => RegView { ignore: Slot { was_set: true, ..v.ignore }, ..v },
        OptionId::Verbose => RegView { verbose: Slot { was_set: true, ..v.verbose }, ..v },
        OptionId::VerboseDiff => RegView {
            verbose_diff: Slot { was_set: true, ..v.verbose_diff },
            ..v
        },
    }
}

/// The registry with the option's `was_set_cli` flag raised.
pub open spec fn mark_was_set_cli(v: RegView, id: OptionId) -> RegView {
    match id {
        OptionId::MaxWidth => RegView {
            max_width: Slot { was_set_cli: true, ..v.max_width },
            ..v
        },
        OptionId::UseSmallHeuristics => RegView {
            use_small_heuristics: Slot { was_set_cli: true, ..v.use_small_heuristics },
            ..v
        },
        OptionId::FnCallWidth => RegView {
            fn_call_width: Slot { was_set_cli: true, ..v.fn_call_width },
            ..v
        },
        OptionId::AttrFnLikeWidth => RegView {
            attr_fn_like_width: Slot { was_set_cli: true, ..v.attr_fn_like_width },
            ..v
        },
        OptionId::StructLitWidth => RegView {
            struct_lit_width: Slot { was_set_cli: true, ..v.struct_lit_width },
            ..v
        },
        OptionId::StructVariantWidth => RegView {
            struct_variant_width: Slot { was_set_cli: true, ..v.struct_variant_width },
            ..v
        },
        OptionId::ArrayWidth => RegView {
            array_width: Slot { was_set_cli: true, ..v.array_width },
            ..v
        },
        OptionId::ChainWidth => RegView {
            chain_width: Slot { was_set_cli: true, ..v.chain_width },
            ..v
        },
        OptionId::MergeImports => RegView {
            merge_imports: Slot { was_set_cli: true, ..v.merge_imports },
            ..v
        },
        OptionId::ImportsGranularity => RegView {
            imports_granularity: Slot { was_set_cli: true, ..v.imports_granularity },
            ..v
        },
        OptionId::FnArgsLayout => RegView {
            fn_args_layout: Slot { was_set_cli: true, ..v.fn_args_layout },
            ..v
        },
        OptionId::FnParamsLayout => RegView {
            fn_params_layout: Slot { was_set_cli: true, ..v.fn_params_layout },
            ..v
        },
        OptionId::HideParseErrors => RegView {
            hide_parse_errors: Slot { was_set_cli: true, ..v.hide_parse_errors },
            ..v
        },
        OptionId::ShowParseErrors => RegView {
            show_parse_errors: Slot { was_set_cli: true, ..v.show_parse_errors },
            ..v
        },
        OptionId::Version => RegView { version: Slot { was_set_cli: true, ..v.version }, ..v },
        OptionId::StyleEdition => RegView {
            style_edition: Slot { was_set_cli: true, ..v.style_edition },
            ..v
        },
        OptionId::Ignore => RegView { ignore: Slot { was_set_cli: true, ..v.ignore }, ..v },
        OptionId::Verbose => RegView { verbose: Slot { was_set_cli: true, ..v.verbose }, ..v },
        OptionId::VerboseDiff => RegView {
            verbose_diff: Slot { was_set_cli: true, ..v.verbose_diff },
            ..v
        },
    }
}

/// The registry with the option's `is_used` flag raised.
pub open spec fn mark_used(v: RegView, id: OptionId) -> RegView {
    match id {
        OptionId::MaxWidth => RegView { max_width: Slot { is_used: true, ..v.max_width }, ..v },
        OptionId::UseSmallHeuristics => RegView {
            use_small_heuristics: Slot { is_used: true, ..v.use_small_heuristics },
            ..v
        },
        OptionId::FnCallWidth => RegView {
            fn_call_width: Slot { is_used: true, ..v.fn_call_width },
            ..v
        },
        OptionId::AttrFnLikeWidth => RegView {
            attr_fn_like_width: Slot { is_used: true, ..v.attr_fn_like_width },
            ..v
        },
        OptionId::StructLitWidth => RegView {
            struct_lit_width: Slot { is_used: true, ..v.struct_lit_width },
            ..v
        },
        OptionId::StructVariantWidth => RegView {
            struct_variant_width: Slot { is_used: true, ..v.struct_variant_width },
            ..v
        },
        OptionId::ArrayWidth => RegView {
            array_width: Slot { is_used: true, ..v.array_width },
            ..v
        },
        OptionId::ChainWidth => RegView {
            chain_width: Slot { is_used: true, ..v.chain_width },
            ..v
        },
        OptionId::MergeImports => RegView {
            merge_imports: Slot { is_used: true, ..v.merge_imports },
            ..v
        },
        OptionId::ImportsGranularity => RegView {
            imports_granularity: Slot { is_used: true, ..v.imports_granularity },
            ..v
        },
        OptionId::FnArgsLayout => RegView {
            fn_args_layout: Slot { is_used: true, ..v.fn_args_layout },
            ..v
        },
        OptionId::FnParamsLayout => RegView {
            fn_params_layout: Slot { is_used: true, ..v.fn_params_layout },
            ..v
        },
        OptionId::HideParseErrors => RegView {
            hide_parse_errors: Slot { is_used: true, ..v.hide_parse_errors },
            ..v
        },
        OptionId::ShowParseErrors => RegView {
            show_parse_errors: Slot { is_used: true, ..v.show_parse_errors },
            ..v
        },
        OptionId::Version => RegView { version: Slot { is_used: true, ..v.version }, ..v },
        OptionId::StyleEdition => RegView {
            style_edition: Slot { is_used: true, ..v.style_edition },
            ..v
        },
        OptionId::Ignore => RegView { ignore: Slot { is_used: true, ..v.ignore }, ..v },
        OptionId::Verbose => RegView { verbose: Slot { is_used: true, ..v.verbose }, ..v },
        OptionId::VerboseDiff => RegView {
            verbose_diff: Slot { is_used: true, ..v.verbose_diff },
            ..v
        },
    }
}

/// The accept/reject rule of the stability oracle: a nightly-class build may
/// set anything; elsewhere both the option and the value's variant must be
/// stable.
pub open spec fn oracle_accepts(nightly: bool, option_stable: bool, value_stable: bool) -> bool {
    nightly || (option_stable && value_stable)
}

/// The warning the oracle leaves behind for a rejected assignment.
pub open spec fn reject_warning(option_stable: bool, id: OptionId) -> Warning {
    if !option_stable {
        Warning::OptionUnstable(id)
    } else {
        Warning::VariantUnstable(id)
    }
}

/// Decides whether an assignment of `value` to the option is permitted,
/// given the option's declared stability and the build channel. On
/// rejection, the returned warning identifies the option and the reason;
/// the caller skips the assignment and keeps the prior value.
pub fn is_stable_option_and_value(id: OptionId, option_stable: bool, value: &OptionValue, nightly: bool) -> (r: (
    bool,
    Option<Warning>,
))
    ensures
        r.0 == oracle_accepts(nightly, option_stable, variant_is_stable(value@)),
        r.0 ==> r.1 is None,
        !r.0 ==> r.1 == Some(reject_warning(option_stable, id)),
{
    if nightly {
        (true, None)
    } else if !option_stable {
        (false, Some(Warning::OptionUnstable(id)))
    } else if !variant_is_stable_exec(value) {
        (false, Some(Warning::VariantUnstable(id)))
    } else {
        (true, None)
    }
}

/// A freshly constructed slot: the given default value and stability tier,
/// all bookkeeping flags false.
pub open spec fn fresh_slot<T>(value: T, stable: bool) -> Slot<T> {
    Slot { value, is_used: false, is_stable: stable, was_set: false, was_set_cli: false }
}

/// The registry that `default_with_style_edition` builds: every slot seeded
/// with the catalog's per-edition default, every flag false, no warnings.
pub open spec fn default_reg(e: StyleEdition, nightly: bool) -> RegView {
    RegView {
        max_width: fresh_slot(100usize, true),
        use_small_heuristics: fresh_slot(Heuristics::Default, true),
        fn_call_width: fresh_slot(60usize, true),
        attr_fn_like_width: fresh_slot(70usize, true),
        struct_lit_width: fresh_slot(18usize, true),
        struct_variant_width: fresh_slot(35usize, true),
        array_width: fresh_slot(60usize, true),
        chain_width: fresh_slot(60usize, true),
        merge_imports: fresh_slot(false, false),
        imports_granularity: fresh_slot(ImportGranularity::Preserve, false),
        fn_args_layout: fresh_slot(Density::Tall, true),
        fn_params_layout: fresh_slot(Density::Tall, true),
        hide_parse_errors: fresh_slot(false, false),
        show_parse_errors: fresh_slot(true, false),
        version: fresh_slot(Version::One, false),
        style_edition: fresh_slot(e, true),
        ignore: fresh_slot(Seq::empty(), false),
        verbose: fresh_slot(false, true),
        verbose_diff: fresh_slot(false, true),
        edition: e,
        nightly,
        warnings: Seq::empty(),
    }
}

/// The derived value of a dependent width option under the given mode:
/// `max_width` itself for `Max`, the no-limit sentinel for `Off`, and a
/// fixed proportional fraction of `max_width` for `Default`.
pub open spec fn derived_width(mode: Heuristics, mw: usize, pct: int) -> usize {
    match mode {
        Heuristics::Default => (mw as int * pct / 100) as usize,
        Heuristics::Max => mw,
        Heuristics::Off => usize::MAX,
    }
}

/// Resolves one dependent width slot: an explicitly set value wins unless it
/// exceeds `max_width`, in which case it is clamped down; an unset slot
/// takes the derived value outright.
pub open spec fn resolved_slot(s: Slot<usize>, mode: Heuristics, mw: usize, pct: int) -> Slot<
    usize,
> {
    if !s.was_set {
        Slot { value: derived_width(mode, mw, pct), ..s }
    } else if s.value > mw {
        Slot { value: mw, ..s }
    } else {
        s
    }
}

/// Whether resolving the slot clamps an explicitly set value.
pub open spec fn clamps(s: Slot<usize>, mw: usize) -> bool {
    s.was_set && s.value > mw
}

pub open spec fn warn_if(b: bool, w: Warning) -> Seq<Warning> {
    if b {
        seq![w]
    } else {
        Seq::empty()
    }
}

/// The heuristics step for `fn_call_width`.
pub open spec fn w_fn_call(v: RegView, mode: Heuristics, mw: usize) -> RegView {
    RegView {
        fn_call_width: resolved_slot(v.fn_call_width, mode, mw, 60),
        warnings: v.warnings + warn_if(
            clamps(v.fn_call_width, mw),
            Warning::WidthExceedsMaxWidth(OptionId::FnCallWidth),
        ),
        ..v
    }
}

/// The heuristics step for `attr_fn_like_width`.
pub open spec fn w_attr_fn_like(v: RegView, mode: Heuristics, mw: usize) -> RegView {
    RegView {
        attr_fn_like_width: resolved_slot(v.attr_fn_like_width, mode, mw, 70),
        warnings: v.warnings + warn_if(
            clamps(v.attr_fn_like_width, mw),
            Warning::WidthExceedsMaxWidth(OptionId::AttrFnLikeWidth),
        ),
        ..v
    }
}

/// The heuristics step for `struct_lit_width`.
pub open spec fn w_struct_lit(v: RegView, mode: Heuristics, mw: usize) -> RegView {
    RegView {
        struct_lit_width: resolved_slot(v.struct_lit_width, mode, mw, 18),
        warnings: v.warnings + warn_if(
            clamps(v.struct_lit_width, mw),
            Warning::WidthExceedsMaxWidth(OptionId::StructLitWidth),
        ),
        ..v
    }
}

/// The heuristics step for `struct_variant_width`.
pub open spec fn w_struct_variant(v: RegView, mode: Heuristics, mw: usize) -> RegView {
    RegView {
        struct_variant_width: resolved_slot(v.struct_variant_width, mode, mw, 35),
        warnings: v.warnings + warn_if(
            clamps(v.struct_variant_width, mw),
            Warning::WidthExceedsMaxWidth(OptionId::StructVariantWidth),
        ),
        ..v
    }
}

/// The heuristics step for `array_width`.
pub open spec fn w_array(v: RegView, mode: Heuristics, mw: usize) -> RegView {
    RegView {
        array_width: resolved_slot(v.array_width, mode, mw, 60),
        warnings: v.warnings + warn_if(
            clamps(v.array_width, mw),
            Warning::WidthExceedsMaxWidth(OptionId::ArrayWidth),
        ),
        ..v
    }
}

/// The heuristics step for `chain_width`.
pub open spec fn w_chain(v: RegView, mode: Heuristics, mw: usize) -> RegView {
    RegView {
        chain_width: resolved_slot(v.chain_width, mode, mw, 60),
        warnings: v.warnings + warn_if(
            clamps(v.chain_width, mw),
            Warning::WidthExceedsMaxWidth(OptionId::ChainWidth),
        ),
        ..v
    }
}

/// One width-heuristics derivation run: all six dependent widths resolved
/// against the current `max_width` and mode, in a fixed order.
pub open spec fn heuristics_pass(v: RegView) -> RegView {
    let mw = v.max_width.value;
    let mode = v.use_small_heuristics.value;
    w_chain(
        w_array(
            w_struct_variant(
                w_struct_lit(w_attr_fn_like(w_fn_call(v, mode, mw), mode, mw), mode, mw),
                mode,
                mw,
            ),
            mode,
            mw,
        ),
        mode,
        mw,
    )
}

/// How a legacy boolean `merge_imports` reads as an import granularity.
pub open spec fn merge_imports_translation(b: bool) -> ImportGranularity {
    if b {
        ImportGranularity::Crate
    } else {
        ImportGranularity::Preserve
    }
}

/// How a legacy `version` reads as a style edition.
pub open spec fn version_translation(v: Version) -> StyleEdition {
    match v {
        Version::One => StyleEdition::Edition2015,
        Version::Two => StyleEdition::Edition2024,
    }
}

/// One reconciliation run of `merge_imports` against `imports_granularity`.
pub open spec fn merge_imports_pass(v: RegView) -> RegView {
    if !v.merge_imports.was_set {
        v
    } else {
        let v1 = RegView {
            warnings: v.warnings.push(Warning::Deprecated(OptionId::MergeImports)),
            ..v
        };
        if v.imports_granularity.was_set || v.imports_granularity.was_set_cli {
            RegView {
                warnings: v1.warnings.push(
                    Warning::SupersededByReplacement(
                        OptionId::MergeImports,
                        OptionId::ImportsGranularity,
                    ),
                ),
                ..v1
            }
        } else {
            RegView {
                imports_granularity: Slot {
                    value: merge_imports_translation(v.merge_imports.value),
                    ..v.imports_granularity
                },
                ..v1
            }
        }
    }
}

/// One reconciliation run of `fn_args_layout` against `fn_params_layout`.
pub open spec fn fn_args_layout_pass(v: RegView) -> RegView {
    if !v.fn_args_layout.was_set {
        v
    } else {
        let v1 = RegView {
            warnings: v.warnings.push(Warning::Deprecated(OptionId::FnArgsLayout)),
            ..v
        };
        if v.fn_params_layout.was_set || v.fn_params_layout.was_set_cli {
            RegView {
                warnings: v1.warnings.push(
                    Warning::SupersededByReplacement(
                        OptionId::FnArgsLayout,
                        OptionId::FnParamsLayout,
                    ),
                ),
                ..v1
            }
        } else {
            RegView {
                fn_params_layout: Slot { value: v.fn_args_layout.value, ..v.fn_params_layout },
                ..v1
            }
        }
    }
}

/// One reconciliation run of `hide_parse_errors` against
/// `show_parse_errors`.
pub open spec fn hide_parse_errors_pass(v: RegView) -> RegView {
    if !v.hide_parse_errors.was_set {
        v
    } else {
        let v1 = RegView {
            warnings: v.warnings.push(Warning::Deprecated(OptionId::HideParseErrors)),
            ..v
        };
        if v.show_parse_errors.was_set || v.show_parse_errors.was_set_cli {
            RegView {
                warnings: v1.warnings.push(
                    Warning::SupersededByReplacement(
                        OptionId::HideParseErrors,
                        OptionId::ShowParseErrors,
                    ),
                ),
                ..v1
            }
        } else {
            RegView {
                show_parse_errors: Slot { value: v.hide_parse_errors.value, ..v.show_parse_errors },
                ..v1
            }
        }
    }
}

/// One reconciliation run of `version` against `style_edition`.
pub open spec fn version_pass(v: RegView) -> RegView {
    if !v.version.was_set {
        v
    } else {
        let v1 = RegView {
            warnings: v.warnings.push(Warning::Deprecated(OptionId::Version)),
            ..v
        };
        if v.style_edition.was_set || v.style_edition.was_set_cli {
            RegView {
                warnings: v1.warnings.push(
                    Warning::SupersededByReplacement(OptionId::Version, OptionId::StyleEdition),
                ),
                ..v1
            }
        } else {
            RegView {
                style_edition: Slot {
                    value: version_translation(v.version.value),
                    ..v.style_edition
                },
                ..v1
            }
        }
    }
}

/// An ignore-list entry with the base directory applied: rooted entries are
/// kept, all others gain the directory as a prefix.
pub open spec fn prefixed(dir: Seq<char>, e: Seq<char>) -> Seq<char> {
    if e.len() > 0 && e[0] == '/' {
        e
    } else if dir.len() == 0 {
        e
    } else {
        dir + "/"@ + e
    }
}

/// The base-directory pass over the path-pattern option.
pub open spec fn ignore_prefix_pass(v: RegView, dir: Seq<char>) -> RegView {
    RegView {
        ignore: Slot {
            value: v.ignore.value.map_values(|e: Seq<char>| prefixed(dir, e)),
            ..v.ignore
        },
        ..v
    }
}

/// The recomputations that re-run after a mutation of the given option: the
/// dependency table from option to derived state.
pub open spec fn recompute_for(v: RegView, id: OptionId) -> RegView {
    match id {
        OptionId::MaxWidth | OptionId::UseSmallHeuristics | OptionId::FnCallWidth
            | OptionId::AttrFnLikeWidth | OptionId::StructLitWidth | OptionId::StructVariantWidth
            | OptionId::ArrayWidth | OptionId::ChainWidth => heuristics_pass(v),
        OptionId::MergeImports => merge_imports_pass(v),
        OptionId::FnArgsLayout => fn_args_layout_pass(v),
        OptionId::HideParseErrors => hide_parse_errors_pass(v),
        OptionId::Version => version_pass(v),
        _ => v,
    }
}

/// A programmatic `set`: the value alone changes, then the dependency table
/// re-runs.
pub open spec fn set_spec(v: RegView, id: OptionId, x: ValueView) -> RegView {
    recompute_for(assign_value(v, id, x), id)
}

/// A CLI-flag `set`: the value changes, CLI provenance is recorded, then
/// the dependency table re-runs.
pub open spec fn set_cli_spec(v: RegView, id: OptionId, x: ValueView) -> RegView {
    recompute_for(mark_was_set_cli(assign_value(v, id, x), id), id)
}

/// A successful `key=value` override: the value changes bypassing the
/// stability oracle, non-CLI provenance is recorded, then the dependency
/// table re-runs.
pub open spec fn override_spec(v: RegView, id: OptionId, x: ValueView) -> RegView {
    recompute_for(mark_was_set(assign_value(v, id, x), id), id)
}

/// One option merged from the overlay: an absent entry changes nothing; a
/// present one is installed with `was_set` provenance if the stability
/// oracle accepts it, and otherwise leaves only a warning behind.
pub open spec fn merge_field(v: RegView, id: OptionId, x: Option<ValueView>) -> RegView {
    match x {
        None => v,
        Some(xv) => if oracle_accepts(v.nightly, slot_is_stable(v, id), variant_is_stable(xv)) {
            mark_was_set(assign_value(v, id, xv), id)
        } else {
            RegView {
                warnings: v.warnings.push(reject_warning(slot_is_stable(v, id), id)),
                ..v
            }
        },
    }
}

/// A scaled dependent width: `mw * pct / 100`, computed without overflow.
fn scaled(mw: usize, pct: usize) -> (r: usize)
    requires
        1 <= pct <= 70,
    ensures
        r as int == mw as int * pct as int / 100,
{
    let q = mw / 100;
    let rem = mw % 100;
    proof {
        let m = mw as int;
        let p = pct as int;
        vstd::arithmetic::div_mod::lemma_fundamental_div_mod(m, 100);
        assert(m == 100 * (q as int) + rem as int);
        assert(m * p == (q as int * p) * 100 + rem as int * p) by (nonlinear_arith)
            requires
                m == 100 * (q as int) + rem as int,
        ;
        vstd::arithmetic::div_mod::lemma_hoist_over_denominator(
            rem as int * p,
            q as int * p,
            100nat,
        );
        assert(m * p / 100 == q as int * p + rem as int * p / 100);
        assert(rem as int * p <= 6930) by (nonlinear_arith)
            requires
                (rem as int) < 100,
                0 <= rem as int,
                0 < p <= 70,
        ;
        assert(0 <= rem as int * p) by (nonlinear_arith)
            requires
                0 <= rem as int,
                0 <= p,
        ;
        assert(m * p <= m * 100) by (nonlinear_arith)
            requires
                0 <= m,
                p <= 100,
        ;
        vstd::arithmetic::div_mod::lemma_div_is_ordered(m * p, m * 100, 100);
        vstd::arithmetic::div_mod::lemma_div_multiples_vanish(m, 100);
        assert(m * 100 == 100 * m);
        assert(m * p / 100 <= m);
        assert(0 <= q as int * p) by (nonlinear_arith)
            requires
                0 <= q as int,
                0 <= p,
        ;
        vstd::arithmetic::div_mod::lemma_div_is_ordered(0, rem as int * p, 100);
    }
    let scaled_rem = (rem * pct) / 100;
    let r = q * pct + scaled_rem;
    r
}

/// The derived value of a dependent width for the current mode.
fn derived_width_exec(mode: Heuristics, mw: usize, pct: usize) -> (r: usize)
    requires
        1 <= pct <= 70,
    ensures
        r == derived_width(mode, mw, pct as int),
{
    match mode {
        Heuristics::Default => {
            let r = scaled(mw, pct);
            proof {
                assert(r == derived_width(Heuristics::Default, mw, pct as int));
            }
            r
        },
        Heuristics::Max => mw,
        Heuristics::Off => usize::MAX,
    }
}

impl Registry {
    /// The registry is well formed: each slot carries its catalog stability.
    pub open spec fn wf(&self) -> bool {
        wf_view(self@)
    }

    /// Re-derives the six dependent widths from `max_width` and the current
    /// mode, clamping explicitly set widths that exceed `max_width` and
    /// warning for each clamp.
    /// The `fn_call_width` step of a heuristics run.
    fn step_fn_call(&mut self, mode: Heuristics, mw: usize)
        ensures
            final(self)@ == w_fn_call(old(self)@, mode, mw),
    {
        if !self.fn_call_width.was_set {
            self.fn_call_width.value = derived_width_exec(mode, mw, 60);
        } else if self.fn_call_width.value > mw {
            self.fn_call_width.value = mw;
            self.warnings.push(Warning::WidthExceedsMaxWidth(OptionId::FnCallWidth));
        }
        proof {
            assert(self@ =~= w_fn_call(old(self)@, mode, mw));
        }
    }

    /// The `attr_fn_like_width` step of a heuristics run.
    fn step_attr_fn_like(&mut self, mode: Heuristics, mw: usize)
        ensures
            final(self)@ == w_attr_fn_like(old(self)@, mode, mw),
    {
        if !self.attr_fn_like_width.was_set {
            self.attr_fn_like_width.value = derived_width_exec(mode, mw, 70);
        } else if self.attr_fn_like_width.value > mw {
            self.attr_fn_like_width.value = mw;
            self.warnings.push(Warning::WidthExceedsMaxWidth(OptionId::AttrFnLikeWidth));
        }
        proof {
            assert(self@ =~= w_attr_fn_like(old(self)@, mode, mw));
        }
    }

    /// The `struct_lit_width` step of a heuristics run.
    fn step_struct_lit(&mut self, mode: Heuristics, mw: usize)
        ensures
            final(self)@ == w_struct_lit(old(self)@, mode, mw),
    {
        if !self.struct_lit_width.was_set {
            self.struct_lit_width.value = derived_width_exec(mode, mw, 18);
        } else if self.struct_lit_width.value > mw {
            self.struct_lit_width.value = mw;
            self.warnings.push(Warning::WidthExceedsMaxWidth(OptionId::StructLitWidth));
        }
        proof {
            assert(self@ =~= w_struct_lit(old(self)@, mode, mw));
        }
    }

    /// The `struct_variant_width` step of a heuristics run.
    fn step_struct_variant(&mut self, mode: Heuristics, mw: usize)
        ensures
            final(self)@ == w_struct_variant(old(self)@, mode, mw),
    {
        if !self.struct_variant_width.was_set {
            self.struct_variant_width.value = derived_width_exec(mode, mw, 35);
        } else if self.struct_variant_width.value > mw {
            self.struct_variant_width.value = mw;
            self.warnings.push(Warning::WidthExceedsMaxWidth(OptionId::StructVariantWidth));
        }
        proof {
            assert(self@ =~= w_struct_variant(old(self)@, mode, mw));
        }
    }

    /// The `array_width` step of a heuristics run.
    fn step_array(&mut self, mode: Heuristics, mw: usize)
        ensures
            final(self)@ == w_array(old(self)@, mode, mw),
    {
        if !self.array_width.was_set {
            self.array_width.value = derived_width_exec(mode, mw, 60);
        } else if self.array_width.value > mw {
            self.array_width.value = mw;
            self.warnings.push(Warning::WidthExceedsMaxWidth(OptionId::ArrayWidth));
        }
        proof {
            assert(self@ =~= w_array(old(self)@, mode, mw));
        }
    }

    /// The `chain_width` step of a heuristics run.
    fn step_chain(&mut self, mode: Heuristics, mw: usize)
        ensures
            final(self)@ == w_chain(old(self)@, mode, mw),
    {
        if !self.chain_width.was_set {
            self.chain_width.value = derived_width_exec(mode, mw, 60);
        } else if self.chain_width.value > mw {
            self.chain_width.value = mw;
            self.warnings.push(Warning::WidthExceedsMaxWidth(OptionId::ChainWidth));
        }
        proof {
            assert(self@ =~= w_chain(old(self)@, mode, mw));
        }
    }

    pub(crate) fn run_heuristics(&mut self)
        ensures
            final(self)@ == heuristics_pass(old(self)@),
    {
        let mw = self.max_width.value;
        let mode = self.use_small_heuristics.value;
        self.step_fn_call(mode, mw);
        self.step_attr_fn_like(mode, mw);
        self.step_struct_lit(mode, mw);
        self.step_struct_variant(mode, mw);
        self.step_array(mode, mw);
        self.step_chain(mode, mw);
    }

    /// Reconciles the deprecated `merge_imports` with
    /// `imports_granularity`.
    pub(crate) fn run_merge_imports(&mut self)
        ensures
            final(self)@ == merge_imports_pass(old(self)@),
    {
        if self.merge_imports.was_set {
            self.warnings.push(Warning::Deprecated(OptionId::MergeImports));
            if self.imports_granularity.was_set || self.imports_granularity.was_set_cli {
                self.warnings.push(
                    Warning::SupersededByReplacement(
                        OptionId::MergeImports,
                        OptionId::ImportsGranularity,
                    ),
                );
            } else {
                self.imports_granularity.value = if self.merge_imports.value {
                    ImportGranularity::Crate
                } else {
                    ImportGranularity::Preserve
                };
            }
        }
        proof {
            assert(self@ =~= merge_imports_pass(old(self)@));
        }
    }

    /// Reconciles the deprecated `fn_args_layout` with `fn_params_layout`.
    pub(crate) fn run_fn_args_layout(&mut self)
        ensures
            final(self)@ == fn_args_layout_pass(old(self)@),
    {
        if self.fn_args_layout.was_set {
            self.warnings.push(Warning::Deprecated(OptionId::FnArgsLayout));
            if self.fn_params_layout.was_set || self.fn_params_layout.was_set_cli {
                self.warnings.push(
                    Warning::SupersededByReplacement(
                        OptionId::FnArgsLayout,
                        OptionId::FnParamsLayout,
                    ),
                );
            } else {
                self.fn_params_layout.value = self.fn_args_layout.value;
            }
        }
        proof {
            assert(self@ =~= fn_args_layout_pass(old(self)@));
        }
    }

    /// Reconciles the deprecated `hide_parse_errors` with
    /// `show_parse_errors`.
    pub(crate) fn run_hide_parse_errors(&mut self)
        ensures
            final(self)@ == hide_parse_errors_pass(old(self)@),
    {
        if self.hide_parse_errors.was_set {
            self.warnings.push(Warning::Deprecated(OptionId::HideParseErrors));
            if self.show_parse_errors.was_set || self.show_parse_errors.was_set_cli {
                self.warnings.push(
                    Warning::SupersededByReplacement(
                        OptionId::HideParseErrors,
                        OptionId::ShowParseErrors,
                    ),
                );
            } else {
                self.show_parse_errors.value = self.hide_parse_errors.value;
            }
        }
        proof {
            assert(self@ =~= hide_parse_errors_pass(old(self)@));
        }
    }

    /// Reconciles the deprecated `version` with `style_edition`.
    pub(crate) fn run_version(&mut self)
        ensures
            final(self)@ == version_pass(old(self)@),
    {
        if self.version.was_set {
            self.warnings.push(Warning::Deprecated(OptionId::Version));
            if self.style_edition.was_set || self.style_edition.was_set_cli {
                self.warnings.push(
                    Warning::SupersededByReplacement(OptionId::Version, OptionId::StyleEdition),
                );
            } else {
                self.style_edition.value = match self.version.value {
                    Version::One => StyleEdition::Edition2015,
                    Version::Two => StyleEdition::Edition2024,
                };
            }
        }
        proof {
            assert(self@ =~= version_pass(old(self)@));
        }
    }

    /// Applies the base directory to every non-rooted ignore-list entry.
    pub(crate) fn set_ignore(&mut self, dir: &str)
        ensures
            final(self)@ == ignore_prefix_pass(old(self)@, dir@),
    {
        let dlen = dir.unicode_len();
        let n = self.ignore.value.len();
        let mut out: Vec<String> = Vec::new();
        let mut i: usize = 0;
        while i < n
            invariant
                *self == *old(self),
                n == self.ignore.value.len(),
                dlen == dir@.len(),
                0 <= i <= n,
                out@.len() == i,
                forall|j: int|
                    0 <= j < i ==> out@[j]@ == prefixed(dir@, self.ignore.value@[j]@),
            decreases n - i,
        {
            let entry: &String = &self.ignore.value[i];
            let s: &str = entry.as_str();
            let elen = s.unicode_len();
            if elen > 0 && s.get_char(0) == '/' {
                out.push(entry.clone());
            } else if dlen == 0 {
                out.push(entry.clone());
            } else {
                let mut t = dir.to_owned();
                t.append("/");
                t.append(s);
                out.push(t);
            }
            i += 1;
        }
        self.ignore.value = out;
        proof {
            assert(strs_view(self.ignore.value@) =~= old(self)@.ignore.value.map_values(
                |e: Seq<char>| prefixed(dir@, e),
            ));
            assert(self@ =~= ignore_prefix_pass(old(self)@, dir@));
        }
    }

    fn put_max_width(&mut self, w: usize)
        ensures
            final(self)@ == assign_value(old(self)@, OptionId::MaxWidth, ValueView::UInt(w)),
    {
        self.max_width.value = w;
        proof {
            assert(self@ =~= assign_value(old(self)@, OptionId::MaxWidth, ValueView::UInt(w)));
        }
    }

    fn flag_set_max_width(&mut self)
        ensures
            final(self)@ == mark_was_set(old(self)@, OptionId::MaxWidth),
    {
        self.max_width.was_set = true;
        proof {
            assert(self@ =~= mark_was_set(old(self)@, OptionId::MaxWidth));
        }
    }

    fn flag_cli_max_width(&mut self)
        ensures
            final(self)@ == mark_was_set_cli(old(self)@, OptionId::MaxWidth),
    {
        self.max_width.was_set_cli = true;
        proof {
            assert(self@ =~= mark_was_set_cli(old(self)@, OptionId::MaxWidth));
        }
    }

    fn put_use_small_heuristics(&mut self, w: Heuristics)
        ensures
            final(self)@ == assign_value(old(self)@, OptionId::UseSmallHeuristics, ValueView::Mode(w)),
    {
        self.use_small_heuristics.value = w;
        proof {
            assert(self@ =~= assign_value(old(self)@, OptionId::UseSmallHeuristics, ValueView::Mode(w)));
        }
    }

    fn flag_set_use_small_heuristics(&mut self)
        ensures
            final(self)@ == mark_was_set(old(self)@, OptionId::UseSmallHeuristics),
    {
        self.use_small_heuristics.was_set = true;
        proof {
            assert(self@ =~= mark_was_set(old(self)@, OptionId::UseSmallHeuristics));
        }
    }

    fn flag_cli_use_small_heuristics(&mut self)
        ensures
            final(self)@ == mark_was_set_cli(old(self)@, OptionId::UseSmallHeuristics),
    {
        self.use_small_heuristics.was_set_cli = true;
        proof {
            assert(self@ =~= mark_was_set_cli(old(self)@, OptionId::UseSmallHeuristics));
        }
    }

    fn put_fn_call_width(&mut self, w: usize)
        ensures
            final(self)@ == assign_value(old(self)@, OptionId::FnCallWidth, ValueView::UInt(w)),
    {
        self.fn_call_width.value = w;
        proof {
            assert(self@ =~= assign_value(old(self)@, OptionId::FnCallWidth, ValueView::UInt(w)));
        }
    }

    fn flag_set_fn_call_width(&mut self)
        ensures
            final(self)@ == mark_was_set(old(self)@, OptionId::FnCallWidth),
    {
        self.fn_call_width.was_set = true;
        proof {
            assert(self@ =~= mark_was_set(old(self)@, OptionId::FnCallWidth));
        }
    }

    fn flag_cli_fn_call_width(&mut self)
        ensures
            final(self)@ == mark_was_set_cli(old(self)@, OptionId::FnCallWidth),
    {
        self.fn_call_width.was_set_cli = true;
        proof {
            assert(self@ =~= mark_was_set_cli(old(self)@, OptionId::FnCallWidth));
        }
    }

    fn put_attr_fn_like_width(&mut self, w: usize)
        ensures
            final(self)@ == assign_value(old(self)@, OptionId::AttrFnLikeWidth, ValueView::UInt(w)),
    {
        self.attr_fn_like_width.value = w;
        proof {
            assert(self@ =~= assign_value(old(self)@, OptionId::AttrFnLikeWidth, ValueView::UInt(w)));
        }
    }

    fn flag_set_attr_fn_like_width(&mut self)
        ensures
            final(self)@ == mark_was_set(old(self)@, OptionId::AttrFnLikeWidth),
    {
        self.attr_fn_like_width.was_set = true;
        proof {
            assert(self@ =~= mark_was_set(old(self)@, OptionId::AttrFnLikeWidth));
        }
    }

    fn flag_cli_attr_fn_like_width(&mut self)
        ensures
            final(self)@ == mark_was_set_cli(old(self)@, OptionId::AttrFnLikeWidth),
    {
        self.attr_fn_like_width.was_set_cli = true;
        proof {
            assert(self@ =~= mark_was_set_cli(old(self)@, OptionId::AttrFnLikeWidth));
        }
    }

    fn put_struct_lit_width(&mut self, w: usize)
        ensures
            final(self)@ == assign_value(old(self)@, OptionId::StructLitWidth, ValueView::UInt(w)),
    {
        self.struct_lit_width.value = w;
        proof {
            assert(self@ =~= assign_value(old(self)@, OptionId::StructLitWidth, ValueView::UInt(w)));
        }
    }

    fn flag_set_struct_lit_width(&mut self)
        ensures
            final(self)@ == mark_was_set(old(self)@, OptionId::StructLitWidth),
    {
        self.struct_lit_width.was_set = true;
        proof {
            assert(self@ =~= mark_was_set(old(self)@, OptionId::StructLitWidth));
        }
    }

    fn flag_cli_struct_lit_width(&mut self)
        ensures
            final(self)@ == mark_was_set_cli(old(self)@, OptionId::StructLitWidth),
    {
        self.struct_lit_width.was_set_cli = true;
        proof {
            assert(self@ =~= mark_was_set_cli(old(self)@, OptionId::StructLitWidth));
        }
    }

    fn put_struct_variant_width(&mut self, w: usize)
        ensures
            final(self)@ == assign_value(old(self)@, OptionId::StructVariantWidth, ValueView::UInt(w)),
    {
        self.struct_variant_width.value = w;
        proof {
            assert(self@ =~= assign_value(old(self)@, OptionId::StructVariantWidth, ValueView::UInt(w)));
        }
    }

    fn flag_set_struct_variant_width(&mut self)
        ensures
            final(self)@ == mark_was_set(old(self)@, OptionId::StructVariantWidth),
    {
        self.struct_variant_width.was_set = true;
        proof {
            assert(self@ =~= mark_was_set(old(self)@, OptionId::StructVariantWidth));
        }
    }

    fn flag_cli_struct_variant_width(&mut self)
        ensures
            final(self)@ == mark_was_set_cli(old(self)@, OptionId::StructVariantWidth),
    {
        self.struct_variant_width.was_set_cli = true;
        proof {
            assert(self@ =~= mark_was_set_cli(old(self)@, OptionId::StructVariantWidth));
        }
    }

    fn put_array_width(&mut self, w: usize)
        ensures
            final(self)@ == assign_value(old(self)@, OptionId::ArrayWidth, ValueView::UInt(w)),
    {
        self.array_width.value = w;
        proof {
            assert(self@ =~= assign_value(old(self)@, OptionId::ArrayWidth, ValueView::UInt(w)));
        }
    }

    fn flag_set_array_width(&mut self)
        ensures
            final(self)@ == mark_was_set(old(self)@, OptionId::ArrayWidth),
    {
        self.array_width.was_set = true;
        proof {
            assert(self@ =~= mark_was_set(old(self)@, OptionId::ArrayWidth));
        }
    }

    fn flag_cli_array_width(&mut self)
        ensures
            final(self)@ == mark_was_set_cli(old(self)@, OptionId::ArrayWidth),
    {
        self.array_width.was_set_cli = true;
        proof {
            assert(self@ =~= mark_was_set_cli(old(self)@, OptionId::ArrayWidth));
        }
    }

    fn put_chain_width(&mut self, w: usize)
        ensures
            final(self)@ == assign_value(old(self)@, OptionId::ChainWidth, ValueView::UInt(w)),
    {
        self.chain_width.value = w;
        proof {
            assert(self@ =~= assign_value(old(self)@, OptionId::ChainWidth, ValueView::UInt(w)));
        }
    }

    fn flag_set_chain_width(&mut self)
        ensures
            final(self)@ == mark_was_set(old(self)@, OptionId::ChainWidth),
    {
        self.chain_width.was_set = true;
        proof {
            assert(self@ =~= mark_was_set(old(self)@, OptionId::ChainWidth));
        }
    }

    fn flag_cli_chain_width(&mut self)
        ensures
            final(self)@ == mark_was_set_cli(old(self)@, OptionId::ChainWidth),
    {
        self.chain_width.was_set_cli = true;
        proof {
            assert(self@ =~= mark_was_set_cli(old(self)@, OptionId::ChainWidth));
        }
    }

    fn put_merge_imports(&mut self, w: bool)
        ensures
            final(self)@ == assign_value(old(self)@, OptionId::MergeImports, ValueView::Bool(w)),
    {
        self.merge_imports.value = w;
        proof {
            assert(self@ =~= assign_value(old(self)@, OptionId::MergeImports, ValueView::Bool(w)));
        }
    }

    fn flag_set_merge_imports(&mut self)
        ensures
            final(self)@ == mark_was_set(old(self)@, OptionId::MergeImports),
    {
        self.merge_imports.was_set = true;
        proof {
            assert(self@ =~= mark_was_set(old(self)@, OptionId::MergeImports));
        }
    }

    fn flag_cli_merge_imports(&mut self)
        ensures
            final(self)@ == mark_was_set_cli(old(self)@, OptionId::MergeImports),
    {
        self.merge_imports.was_set_cli = true;
        proof {
            assert(self@ =~= mark_was_set_cli(old(self)@, OptionId::MergeImports));
        }
    }

    fn put_imports_granularity(&mut self, w: ImportGranularity)
        ensures
            final(self)@ == assign_value(old(self)@, OptionId::ImportsGranularity, ValueView::Gran(w)),
    {
        self.imports_granularity.value = w;
        proof {
            assert(self@ =~= assign_value(old(self)@, OptionId::ImportsGranularity, ValueView::Gran(w)));
        }
    }

    fn flag_set_imports_granularity(&mut self)
        ensures
            final(self)@ == mark_was_set(old(self)@, OptionId::ImportsGranularity),
    {
        self.imports_granularity.was_set = true;
        proof {
            assert(self@ =~= mark_was_set(old(self)@, OptionId::ImportsGranularity));
        }
    }

    fn flag_cli_imports_granularity(&mut self)
        ensures
            final(self)@ == mark_was_set_cli(old(self)@, OptionId::ImportsGranularity),
    {
        self.imports_granularity.was_set_cli = true;
        proof {
            assert(self@ =~= mark_was_set_cli(old(self)@, OptionId::ImportsGranularity));
        }
    }

    fn put_fn_args_layout(&mut self, w: Density)
        ensures
            final(self)@ == assign_value(old(self)@, OptionId::FnArgsLayout, ValueView::Dens(w)),
    {
        self.fn_args_layout.value = w;
        proof {
            assert(self@ =~= assign_value(old(self)@, OptionId::FnArgsLayout, ValueView::Dens(w)));
        }
    }

    fn flag_set_fn_args_layout(&mut self)
        ensures
            final(self)@ == mark_was_set(old(self)@, OptionId::FnArgsLayout),
    {
        self.fn_args_layout.was_set = true;
        proof {
            assert(self@ =~= mark_was_set(old(self)@, OptionId::FnArgsLayout));
        }
    }

    fn flag_cli_fn_args_layout(&mut self)
        ensures
            final(self)@ == mark_was_set_cli(old(self)@, OptionId::FnArgsLayout),
    {
        self.fn_args_layout.was_set_cli = true;
        proof {
            assert(self@ =~= mark_was_set_cli(old(self)@, OptionId::FnArgsLayout));
        }
    }

    fn put_fn_params_layout(&mut self, w: Density)
        ensures
            final(self)@ == assign_value(old(self)@, OptionId::FnParamsLayout, ValueView::Dens(w)),
    {
        self.fn_params_layout.value = w;
        proof {
            assert(self@ =~= assign_value(old(self)@, OptionId::FnParamsLayout, ValueView::Dens(w)));
        }
    }

    fn flag_set_fn_params_layout(&mut self)
        ensures
            final(self)@ == mark_was_set(old(self)@, OptionId::FnParamsLayout),
    {
        self.fn_params_layout.was_set = true;
        proof {
            assert(self@ =~= mark_was_set(old(self)@, OptionId::FnParamsLayout));
        }
    }

    fn flag_cli_fn_params_layout(&mut self)
        ensures
            final(self)@ == mark_was_set_cli(old(self)@, OptionId::FnParamsLayout),
    {
        self.fn_params_layout.was_set_cli = true;
        proof {
            assert(self@ =~= mark_was_set_cli(old(self)@, OptionId::FnParamsLayout));
        }
    }

    fn put_hide_parse_errors(&mut self, w: bool)
        ensures
            final(self)@ == assign_value(old(self)@, OptionId::HideParseErrors, ValueView::Bool(w)),
    {
        self.hide_parse_errors.value = w;
        proof {
            assert(self@ =~= assign_value(old(self)@, OptionId::HideParseErrors, ValueView::Bool(w)));
        }
    }

    fn flag_set_hide_parse_errors(&mut self)
        ensures
            final(self)@ == mark_was_set(old(self)@, OptionId::HideParseErrors),
    {
        self.hide_parse_errors.was_set = true;
        proof {
            assert(self@ =~= mark_was_set(old(self)@, OptionId::HideParseErrors));
        }
    }

    fn flag_cli_hide_parse_errors(&mut self)
        ensures
            final(self)@ == mark_was_set_cli(old(self)@, OptionId::HideParseErrors),
    {
        self.hide_parse_errors.was_set_cli = true;
        proof {
            assert(self@ =~= mark_was_set_cli(old(self)@, OptionId::HideParseErrors));
        }
    }

    fn put_show_parse_errors(&mut self, w: bool)
        ensures
            final(self)@ == assign_value(old(self)@, OptionId::ShowParseErrors, ValueView::Bool(w)),
    {
        self.show_parse_errors.value = w;
        proof {
            assert(self@ =~= assign_value(old(self)@, OptionId::ShowParseErrors, ValueView::Bool(w)));
        }
    }

    fn flag_set_show_parse_errors(&mut self)
        ensures
            final(self)@ == mark_was_set(old(self)@, OptionId::ShowParseErrors),
    {
        self.show_parse_errors.was_set = true;
        proof {
            assert(self@ =~= mark_was_set(old(self)@, OptionId::ShowParseErrors));
        }
    }

    fn flag_cli_show_parse_errors(&mut self)
        ensures
            final(self)@ == mark_was_set_cli(old(self)@, OptionId::ShowParseErrors),
    {
        self.show_parse_errors.was_set_cli = true;
        proof {
            assert(self@ =~= mark_was_set_cli(old(self)@, OptionId::ShowParseErrors));
        }
    }

    fn put_version(&mut self, w: Version)
        ensures
            final(self)@ == assign_value(old(self)@, OptionId::Version, ValueView::Ver(w)),
    {
        self.version.value = w;
        proof {
            assert(self@ =~= assign_value(old(self)@, OptionId::Version, ValueView::Ver(w)));
        }
    }

    fn flag_set_version(&mut self)
        ensures
            final(self)@ == mark_was_set(old(self)@, OptionId::Version),
    {
        self.version.was_set = true;
        proof {
            assert(self@ =~= mark_was_set(old(self)@, OptionId::Version));
        }
    }

    fn flag_cli_version(&mut self)
        ensures
            final(self)@ == mark_was_set_cli(old(self)@, OptionId::Version),
    {
        self.version.was_set_cli = true;
        proof {
            assert(self@ =~= mark_was_set_cli(old(self)@, OptionId::Version));
        }
    }

    fn put_style_edition(&mut self, w: StyleEdition)
        ensures
            final(self)@ == assign_value(old(self)@, OptionId::StyleEdition, ValueView::Ed(w)),
    {
        self.style_edition.value = w;
        proof {
            assert(self@ =~= assign_value(old(self)@, OptionId::StyleEdition, ValueView::Ed(w)));
        }
    }

    fn flag_set_style_edition(&mut self)
        ensures
            final(self)@ == mark_was_set(old(self)@, OptionId::StyleEdition),
    {
        self.style_edition.was_set = true;
        proof {
            assert(self@ =~= mark_was_set(old(self)@, OptionId::StyleEdition));
        }
    }

    fn flag_cli_style_edition(&mut self)
        ensures
            final(self)@ == mark_was_set_cli(old(self)@, OptionId::StyleEdition),
    {
        self.style_edition.was_set_cli = true;
        proof {
            assert(self@ =~= mark_was_set_cli(old(self)@, OptionId::StyleEdition));
        }
    }

    fn put_ignore(&mut self, w: Vec<String>)
        ensures
            final(self)@ == assign_value(old(self)@, OptionId::Ignore, ValueView::List(strs_view(w@))),
    {
        self.ignore.value = w;
        proof {
            assert(self@ =~= assign_value(old(self)@, OptionId::Ignore, ValueView::List(strs_view(w@))));
        }
    }

    fn flag_set_ignore(&mut self)
        ensures
            final(self)@ == mark_was_set(old(self)@, OptionId::Ignore),
    {
        self.ignore.was_set = true;
        proof {
            assert(self@ =~= mark_was_set(old(self)@, OptionId::Ignore));
        }
    }

    fn flag_cli_ignore(&mut self)
        ensures
            final(self)@ == mark_was_set_cli(old(self)@, OptionId::Ignore),
    {
        self.ignore.was_set_cli = true;
        proof {
            assert(self@ =~= mark_was_set_cli(old(self)@, OptionId::Ignore));
        }
    }

    fn put_verbose(&mut self, w: bool)
        ensures
            final(self)@ == assign_value(old(self)@, OptionId::Verbose, ValueView::Bool(w)),
    {
        self.verbose.value = w;
        proof {
            assert(self@ =~= assign_value(old(self)@, OptionId::Verbose, ValueView::Bool(w)));
        }
    }

    fn flag_set_verbose(&mut self)
        ensures
            final(self)@ == mark_was_set(old(self)@, OptionId::Verbose),
    {
        self.verbose.was_set = true;
        proof {
            assert(self@ =~= mark_was_set(old(self)@, OptionId::Verbose));
        }
    }

    fn flag_cli_verbose(&mut self)
        ensures
            final(self)@ == mark_was_set_cli(old(self)@, OptionId::Verbose),
    {
        self.verbose.was_set_cli = true;
        proof {
            assert(self@ =~= mark_was_set_cli(old(self)@, OptionId::Verbose));
        }
    }

    fn put_verbose_diff(&mut self, w: bool)
        ensures
            final(self)@ == assign_value(old(self)@, OptionId::VerboseDiff, ValueView::Bool(w)),
    {
        self.verbose_diff.value = w;
        proof {
            assert(self@ =~= assign_value(old(self)@, OptionId::VerboseDiff, ValueView::Bool(w)));
        }
    }

    fn flag_set_verbose_diff(&mut self)
        ensures
            final(self)@ == mark_was_set(old(self)@, OptionId::VerboseDiff),
    {
        self.verbose_diff.was_set = true;
        proof {
            assert(self@ =~= mark_was_set(old(self)@, OptionId::VerboseDiff));
        }
    }

    fn flag_cli_verbose_diff(&mut self)
        ensures
            final(self)@ == mark_was_set_cli(old(self)@, OptionId::VerboseDiff),
    {
        self.verbose_diff.was_set_cli = true;
        proof {
            assert(self@ =~= mark_was_set_cli(old(self)@, OptionId::VerboseDiff));
        }
    }

    /// Installs a dynamically typed value into the option's slot; flags are
    /// untouched.
    pub(crate) fn install(&mut self, id: OptionId, v: OptionValue)
        requires
            fits(id, v@),
        ensures
            final(self)@ == assign_value(old(self)@, id, v@),
    {
        match id {
            OptionId::MaxWidth => match v {
                OptionValue::UInt(w) => self.put_max_width(w),
                _ => proof {
                    assert(false);
                },
            },
            OptionId::UseSmallHeuristics => match v {
                OptionValue::Mode(w) => self.put_use_small_heuristics(w),
                _ => proof {
                    assert(false);
                },
            },
            OptionId::FnCallWidth => match v {
                OptionValue::UInt(w) => self.put_fn_call_width(w),
                _ => proof {
                    assert(false);
                },
            },
            OptionId::AttrFnLikeWidth => match v {
                OptionValue::UInt(w) => self.put_attr_fn_like_width(w),
                _ => proof {
                    assert(false);
                },
            },
            OptionId::StructLitWidth => match v {
                OptionValue::UInt(w) => self.put_struct_lit_width(w),
                _ => proof {
                    assert(false);
                },
            },
            OptionId::StructVariantWidth => match v {
                OptionValue::UInt(w) => self.put_struct_variant_width(w),
                _ => proof {
                    assert(false);
                },
            },
            OptionId::ArrayWidth => match v {
                OptionValue::UInt(w) => self.put_array_width(w),
                _ => proof {
                    assert(false);
                },
            },
            OptionId::ChainWidth => match v {
                OptionValue::UInt(w) => self.put_chain_width(w),
                _ => proof {
                    assert(false);
                },
            },
            OptionId::MergeImports => match v {
                OptionValue::Bool(w) => self.put_merge_imports(w),
                _ => proof {
                    assert(false);
                },
            },
            OptionId::ImportsGranularity => match v {
                OptionValue::Gran(w) => self.put_imports_granularity(w),
                _ => proof {
                    assert(false);
                },
            },
            OptionId::FnArgsLayout => match v {
                OptionValue::Dens(w) => self.put_fn_args_layout(w),
                _ => proof {
                    assert(false);
                },
            },
            OptionId::FnParamsLayout => match v {
                OptionValue::Dens(w) => self.put_fn_params_layout(w),
                _ => proof {
                    assert(false);
                },
            },
            OptionId::HideParseErrors => match v {
                OptionValue::Bool(w) => self.put_hide_parse_errors(w),
                _ => proof {
                    assert(false);
                },
            },
            OptionId::ShowParseErrors => match v {
                OptionValue::Bool(w) => self.put_show_parse_errors(w),
                _ => proof {
                    assert(false);
                },
            },
            OptionId::Version => match v {
                OptionValue::Ver(w) => self.put_version(w),
                _ => proof {
                    assert(false);
                },
            },
            OptionId::StyleEdition => match v {
                OptionValue::Ed(w) => self.put_style_edition(w),
                _ => proof {
                    assert(false);
                },
            },
            OptionId::Ignore => match v {
                OptionValue::List(w) => self.put_ignore(w),
                _ => proof {
                    assert(false);
                },
            },
            OptionId::Verbose => match v {
                OptionValue::Bool(w) => self.put_verbose(w),
                _ => proof {
                    assert(false);
                },
            },
            OptionId::VerboseDiff => match v {
                OptionValue::Bool(w) => self.put_verbose_diff(w),
                _ => proof {
                    assert(false);
                },
            },
        }
    }

    /// Raises the option's `was_set` flag.
    pub(crate) fn mark_set(&mut self, id: OptionId)
        ensures
            final(self)@ == mark_was_set(old(self)@, id),
    {
        match id {
            OptionId::MaxWidth => self.flag_set_max_width(),
            OptionId::UseSmallHeuristics => self.flag_set_use_small_heuristics(),
            OptionId::FnCallWidth => self.flag_set_fn_call_width(),
            OptionId::AttrFnLikeWidth => self.flag_set_attr_fn_like_width(),
            OptionId::StructLitWidth => self.flag_set_struct_lit_width(),
            OptionId::StructVariantWidth => self.flag_set_struct_variant_width(),
            OptionId::ArrayWidth => self.flag_set_array_width(),
            OptionId::ChainWidth => self.flag_set_chain_width(),
            OptionId::MergeImports => self.flag_set_merge_imports(),
            OptionId::ImportsGranularity => self.flag_set_imports_granularity(),
            OptionId::FnArgsLayout => self.flag_set_fn_args_layout(),
            OptionId::FnParamsLayout => self.flag_set_fn_params_layout(),
            OptionId::HideParseErrors => self.flag_set_hide_parse_errors(),
            OptionId::ShowParseErrors => self.flag_set_show_parse_errors(),
            OptionId::Version => self.flag_set_version(),
            OptionId::StyleEdition => self.flag_set_style_edition(),
            OptionId::Ignore => self.flag_set_ignore(),
            OptionId::Verbose => self.flag_set_verbose(),
            OptionId::VerboseDiff => self.flag_set_verbose_diff(),
        }
    }

    /// Raises the option's `was_set_cli` flag.
    pub(crate) fn mark_set_cli(&mut self, id: OptionId)
        ensures
            final(self)@ == mark_was_set_cli(old(self)@, id),
    {
        match id {
            OptionId::MaxWidth => self.flag_cli_max_width(),
            OptionId::UseSmallHeuristics => self.flag_cli_use_small_heuristics(),
            OptionId::FnCallWidth => self.flag_cli_fn_call_width(),
            OptionId::AttrFnLikeWidth => self.flag_cli_attr_fn_like_width(),
            OptionId::StructLitWidth => self.flag_cli_struct_lit_width(),
            OptionId::StructVariantWidth => self.flag_cli_struct_variant_width(),
            OptionId::ArrayWidth => self.flag_cli_array_width(),
            OptionId::ChainWidth => self.flag_cli_chain_width(),
            OptionId::MergeImports => self.flag_cli_merge_imports(),
            OptionId::ImportsGranularity => self.flag_cli_imports_granularity(),
            OptionId::FnArgsLayout => self.flag_cli_fn_args_layout(),
            OptionId::FnParamsLayout => self.flag_cli_fn_params_layout(),
            OptionId::HideParseErrors => self.flag_cli_hide_parse_errors(),
            OptionId::ShowParseErrors => self.flag_cli_show_parse_errors(),
            OptionId::Version => self.flag_cli_version(),
            OptionId::StyleEdition => self.flag_cli_style_edition(),
            OptionId::Ignore => self.flag_cli_ignore(),
            OptionId::Verbose => self.flag_cli_verbose(),
            OptionId::VerboseDiff => self.flag_cli_verbose_diff(),
        }
    }

    /// Re-runs the recomputations that depend on the given option.
    fn recompute(&mut self, id: OptionId)
        ensures
            final(self)@ == recompute_for(old(self)@, id),
    {
        match id {
            OptionId::MaxWidth | OptionId::UseSmallHeuristics | OptionId::FnCallWidth
                | OptionId::AttrFnLikeWidth | OptionId::StructLitWidth
                | OptionId::StructVariantWidth | OptionId::ArrayWidth | OptionId::ChainWidth => {
                self.run_heuristics();
            },
            OptionId::MergeImports => self.run_merge_imports(),
            OptionId::FnArgsLayout => self.run_fn_args_layout(),
            OptionId::HideParseErrors => self.run_hide_parse_errors(),
            OptionId::Version => self.run_version(),
            _ => {},
        }
    }


    /// The stability tier carried by the option's slot.
    fn slot_stable(&self, id: OptionId) -> (r: bool)
        ensures
            r == slot_is_stable(self@, id),
    {
        match id {
            OptionId::MaxWidth => self.max_width.is_stable,
            OptionId::UseSmallHeuristics => self.use_small_heuristics.is_stable,
            OptionId::FnCallWidth => self.fn_call_width.is_stable,
            OptionId::AttrFnLikeWidth => self.attr_fn_like_width.is_stable,
            OptionId::StructLitWidth => self.struct_lit_width.is_stable,
            OptionId::StructVariantWidth => self.struct_variant_width.is_stable,
            OptionId::ArrayWidth => self.array_width.is_stable,
            OptionId::ChainWidth => self.chain_width.is_stable,
            OptionId::MergeImports => self.merge_imports.is_stable,
            OptionId::ImportsGranularity => self.imports_granularity.is_stable,
            OptionId::FnArgsLayout => self.fn_args_layout.is_stable,
            OptionId::FnParamsLayout => self.fn_params_layout.is_stable,
            OptionId::HideParseErrors => self.hide_parse_errors.is_stable,
            OptionId::ShowParseErrors => self.show_parse_errors.is_stable,
            OptionId::Version => self.version.is_stable,
            OptionId::StyleEdition => self.style_edition.is_stable,
            OptionId::Ignore => self.ignore.is_stable,
            OptionId::Verbose => self.verbose.is_stable,
            OptionId::VerboseDiff => self.verbose_diff.is_stable,
        }
    }

    /// Merges one present overlay entry: the stability oracle decides; an
    /// accepted value is installed with `was_set` provenance, a rejected
    /// one leaves only a warning.
    pub(crate) fn apply_file_value(&mut self, id: OptionId, v: OptionValue)
        requires
            fits(id, v@),
        ensures
            final(self)@ == merge_field(old(self)@, id, Some(v@)),
    {
        let ghost x = v@;
        let stable = self.slot_stable(id);
        let nightly = self.nightly;
        let (ok, w) = is_stable_option_and_value(id, stable, &v, nightly);
        if ok {
            self.install(id, v);
            self.mark_set(id);
        } else {
            match w {
                Some(wn) => {
                    self.warnings.push(wn);
                    proof {
                        assert(self@ =~= merge_field(old(self)@, id, Some(x)));
                    }
                },
                None => {
                    proof {
                        assert(false);
                    }
                },
            }
        }
    }

    /// The programmatic setter: replaces the option's value without marking
    /// any provenance, then re-runs the dependent recomputations.
    pub fn set(&mut self, id: OptionId, v: OptionValue)
        requires
            fits(id, v@),
        ensures
            final(self)@ == set_spec(old(self)@, id, v@),
    {
        self.install(id, v);
        self.recompute(id);
    }

    /// The CLI setter: replaces the option's value, records CLI provenance,
    /// then re-runs the dependent recomputations.
    pub fn set_cli(&mut self, id: OptionId, v: OptionValue)
        requires
            fits(id, v@),
        ensures
            final(self)@ == set_cli_spec(old(self)@, id, v@),
    {
        self.install(id, v);
        self.mark_set_cli(id);
        self.recompute(id);
    }

    /// Builds the registry of compiled-in defaults for a style edition on
    /// the given build channel: every value the catalog default, every
    /// provenance and usage flag false, no warnings.
    pub fn default_with_style_edition(e: StyleEdition, nightly: bool) -> (r: Registry)
        ensures
            r@ == default_reg(e, nightly),
            r.wf(),
    {
        let r = Registry {
            max_width: Slot {
                value: 100,
                is_used: false,
                is_stable: true,
                was_set: false,
                was_set_cli: false,
            },
            use_small_heuristics: Slot {
                value: Heuristics::Default,
                is_used: false,
                is_stable: true,
                was_set: false,
                was_set_cli: false,
            },
            fn_call_width: Slot {
                value: 60,
                is_used: false,
                is_stable: true,
                was_set: false,
                was_set_cli: false,
            },
            attr_fn_like_width: Slot {
                value: 70,
                is_used: false,
                is_stable: true,
                was_set: false,
                was_set_cli: false,
            },
            struct_lit_width: Slot {
                value: 18,
                is_used: false,
                is_stable: true,
                was_set: false,
                was_set_cli: false,
            },
            struct_variant_width: Slot {
                value: 35,
                is_used: false,
                is_stable: true,
                was_set: false,
                was_set_cli: false,
            },
            array_width: Slot {
                value: 60,
                is_used: false,
                is_stable: true,
                was_set: false,
                was_set_cli: false,
            },
            chain_width: Slot {
                value: 60,
                is_used: false,
                is_stable: true,
                was_set: false,
                was_set_cli: false,
            },
            merge_imports: Slot {
                value: false,
                is_used: false,
                is_stable: false,
                was_set: false,
                was_set_cli: false,
            },
            imports_granularity: Slot {
                value: ImportGranularity::Preserve,
                is_used: false,
                is_stable: false,
                was_set: false,
                was_set_cli: false,
            },
            fn_args_layout: Slot {
                value: Density::Tall,
                is_used: false,
                is_stable: true,
                was_set: false,
                was_set_cli: false,
            },
            fn_params_layout: Slot {
                value: Density::Tall,
                is_used: false,
                is_stable: true,
                was_set: false,
                was_set_cli: false,
            },
            hide_parse_errors: Slot {
                value: false,
                is_used: false,
                is_stable: false,
                was_set: false,
                was_set_cli: false,
            },
            show_parse_errors: Slot {
                value: true,
                is_used: false,
                is_stable: false,
                was_set: false,
                was_set_cli: false,
            },
            version: Slot {
                value: Version::One,
                is_used: false,
                is_stable: false,
                was_set: false,
                was_set_cli: false,
            },
            style_edition: Slot {
                value: e,
                is_used: false,
                is_stable: true,
                was_set: false,
                was_set_cli: false,
            },
            ignore: Slot {
                value: Vec::new(),
                is_used: false,
                is_stable: false,
                was_set: false,
                was_set_cli: false,
            },
            verbose: Slot {
                value: false,
                is_used: false,
                is_stable: true,
                was_set: false,
                was_set_cli: false,
            },
            verbose_diff: Slot {
                value: false,
                is_used: false,
                is_stable: true,
                was_set: false,
                was_set_cli: false,
            },
            edition: e,
            nightly,
            warnings: Vec::new(),
        };
        proof {
            assert(r@ =~= default_reg(e, nightly));
        }
        r
    }

    /// The warnings accumulated so far, oldest first.
    pub fn warnings(&self) -> (r: &Vec<Warning>)
        ensures
            r@ == self@.warnings,
    {
        &self.warnings
    }

    /// The build channel the registry was constructed for.
    pub fn is_nightly(&self) -> (r: bool)
        ensures
            r == self@.nightly,
    {
        self.nightly
    }

    /// The style edition the registry was constructed for.
    pub fn construction_edition(&self) -> (r: StyleEdition)
        ensures
            r == self@.edition,
    {
        self.edition
    }

    /// Whether the option was explicitly set by a configuration file, the
    /// programmatic setter, or a `key=value` override.
    pub fn was_set(&self, id: OptionId) -> (r: bool)
        ensures
            r == slot_was_set(self@, id),
    {
        match id {
            OptionId::MaxWidth => self.max_width.was_set,
            OptionId::UseSmallHeuristics => self.use_small_heuristics.was_set,
            OptionId::FnCallWidth => self.fn_call_width.was_set,
            OptionId::AttrFnLikeWidth => self.attr_fn_like_width.was_set,
            OptionId::StructLitWidth => self.struct_lit_width.was_set,
            OptionId::StructVariantWidth => self.struct_variant_width.was_set,
            OptionId::ArrayWidth => self.array_width.was_set,
            OptionId::ChainWidth => self.chain_width.was_set,
            OptionId::MergeImports => self.merge_imports.was_set,
            OptionId::ImportsGranularity => self.imports_granularity.was_set,
            OptionId::FnArgsLayout => self.fn_args_layout.was_set,
            OptionId::FnParamsLayout => self.fn_params_layout.was_set,
            OptionId::HideParseErrors => self.hide_parse_errors.was_set,
            OptionId::ShowParseErrors => self.show_parse_errors.was_set,
            OptionId::Version => self.version.was_set,
            OptionId::StyleEdition => self.style_edition.was_set,
            OptionId::Ignore => self.ignore.was_set,
            OptionId::Verbose => self.verbose.was_set,
            OptionId::VerboseDiff => self.verbose_diff.was_set,
        }
    }

    /// Whether the option was explicitly set via a CLI flag.
    pub fn was_set_cli(&self, id: OptionId) -> (r: bool)
        ensures
            r == slot_was_set_cli(self@, id),
    {
        match id {
            OptionId::MaxWidth => self.max_width.was_set_cli,
            OptionId::UseSmallHeuristics => self.use_small_heuristics.was_set_cli,
            OptionId::FnCallWidth => self.fn_call_width.was_set_cli,
            OptionId::AttrFnLikeWidth => self.attr_fn_like_width.was_set_cli,
            OptionId::StructLitWidth => self.struct_lit_width.was_set_cli,
            OptionId::StructVariantWidth => self.struct_variant_width.was_set_cli,
            OptionId::ArrayWidth => self.array_width.was_set_cli,
            OptionId::ChainWidth => self.chain_width.was_set_cli,
            OptionId::MergeImports => self.merge_imports.was_set_cli,
            OptionId::ImportsGranularity => self.imports_granularity.was_set_cli,
            OptionId::FnArgsLayout => self.fn_args_layout.was_set_cli,
            OptionId::FnParamsLayout => self.fn_params_layout.was_set_cli,
            OptionId::HideParseErrors => self.hide_parse_errors.was_set_cli,
            OptionId::ShowParseErrors => self.show_parse_errors.was_set_cli,
            OptionId::Version => self.version.was_set_cli,
            OptionId::StyleEdition => self.style_edition.was_set_cli,
            OptionId::Ignore => self.ignore.was_set_cli,
            OptionId::Verbose => self.verbose.was_set_cli,
            OptionId::VerboseDiff => self.verbose_diff.was_set_cli,
        }
    }
}

} // verus!


use crate::overlay::PCView;
use crate::overlay::PartialConfig;
use crate::options::doc_hint;
use crate::options::doc_hint_view;
use crate::options::name_to_id;

verus! {

/// The fatal outcome of a `key=value` override: the run cannot proceed, so
/// the caller must abort with the error's contents.
#[derive(Debug, PartialEq, Eq)]
pub enum OverrideError {
    /// The key names no option of the catalog.
    UnknownKey { key: String },
    /// The value text does not parse into the option's value type; the
    /// error names the key, the rejected text, and the expected type.
    ParseFailed { key: String, text: String, expected: &'static str },
}

/// The error of a failed override names the key, the text, and the
/// expected type, and arises exactly when lookup or parsing failed.
pub open spec fn err_names(e: OverrideError, key: Seq<char>, val: Seq<char>) -> bool {
    match e {
        OverrideError::UnknownKey { key: k } => k@ == key && name_to_id_view(key) is None,
        OverrideError::ParseFailed { key: k, text, expected } => k@ == key && text@ == val
            && match name_to_id_view(key) {
            Some(id) => parse_view(id, val) is None && expected@ == doc_hint_view(id),
            None => false,
        },
    }
}

/// The overlay of options whose values have been read.
pub open spec fn used_view(v: RegView) -> PCView {
    PCView {
        max_width: if v.max_width.is_used {
            Some(v.max_width.value)
        } else {
            None
        },
        use_small_heuristics: if v.use_small_heuristics.is_used {
            Some(v.use_small_heuristics.value)
        } else {
            None
        },
        fn_call_width: if v.fn_call_width.is_used {
            Some(v.fn_call_width.value)
        } else {
            None
        },
        attr_fn_like_width: if v.attr_fn_like_width.is_used {
            Some(v.attr_fn_like_width.value)
        } else {
            None
        },
        struct_lit_width: if v.struct_lit_width.is_used {
            Some(v.struct_lit_width.value)
        } else {
            None
        },
        struct_variant_width: if v.struct_variant_width.is_used {
            Some(v.struct_variant_width.value)
        } else {
            None
        },
        array_width: if v.array_width.is_used {
            Some(v.array_width.value)
        } else {
            None
        },
        chain_width: if v.chain_width.is_used {
            Some(v.chain_width.value)
        } else {
            None
        },
        merge_imports: if v.merge_imports.is_used {
            Some(v.merge_imports.value)
        } else {
            None
        },
        imports_granularity: if v.imports_granularity.is_used {
            Some(v.imports_granularity.value)
        } else {
            None
        },
        fn_args_layout: if v.fn_args_layout.is_used {
            Some(v.fn_args_layout.value)
        } else {
            None
        },
        fn_params_layout: if v.fn_params_layout.is_used {
            Some(v.fn_params_layout.value)
        } else {
            None
        },
        hide_parse_errors: if v.hide_parse_errors.is_used {
            Some(v.hide_parse_errors.value)
        } else {
            None
        },
        show_parse_errors: if v.show_parse_errors.is_used {
            Some(v.show_parse_errors.value)
        } else {
            None
        },
        version: if v.version.is_used {
            Some(v.version.value)
        } else {
            None
        },
        style_edition: if v.style_edition.is_used {
            Some(v.style_edition.value)
        } else {
            None
        },
        ignore: if v.ignore.is_used {
            Some(v.ignore.value)
        } else {
            None
        },
        verbose: if v.verbose.is_used {
            Some(v.verbose.value)
        } else {
            None
        },
        verbose_diff: if v.verbose_diff.is_used {
            Some(v.verbose_diff.value)
        } else {
            None
        },
    }
}

/// The overlay of every current value.
pub open spec fn all_view(v: RegView) -> PCView {
    PCView {
        max_width: Some(v.max_width.value),
        use_small_heuristics: Some(v.use_small_heuristics.value),
        fn_call_width: Some(v.fn_call_width.value),
        attr_fn_like_width: Some(v.attr_fn_like_width.value),
        struct_lit_width: Some(v.struct_lit_width.value),
        struct_variant_width: Some(v.struct_variant_width.value),
        array_width: Some(v.array_width.value),
        chain_width: Some(v.chain_width.value),
        merge_imports: Some(v.merge_imports.value),
        imports_granularity: Some(v.imports_granularity.value),
        fn_args_layout: Some(v.fn_args_layout.value),
        fn_params_layout: Some(v.fn_params_layout.value),
        hide_parse_errors: Some(v.hide_parse_errors.value),
        show_parse_errors: Some(v.show_parse_errors.value),
        version: Some(v.version.value),
        style_edition: Some(v.style_edition.value),
        ignore: Some(v.ignore.value),
        verbose: Some(v.verbose.value),
        verbose_diff: Some(v.verbose_diff.value),
    }
}

/// Whether the option was explicitly set and its current value equals the
/// compiled default for the registry's style edition.
pub open spec fn is_default_of(v: RegView, id: OptionId) -> bool {
    match id {
        OptionId::MaxWidth => v.max_width.was_set && v.max_width.value == 100,
        OptionId::UseSmallHeuristics => v.use_small_heuristics.was_set
            && v.use_small_heuristics.value == Heuristics::Default,
        OptionId::FnCallWidth => v.fn_call_width.was_set && v.fn_call_width.value == 60,
        OptionId::AttrFnLikeWidth => v.attr_fn_like_width.was_set && v.attr_fn_like_width.value
            == 70,
        OptionId::StructLitWidth => v.struct_lit_width.was_set && v.struct_lit_width.value == 18,
        OptionId::StructVariantWidth => v.struct_variant_width.was_set
            && v.struct_variant_width.value == 35,
        OptionId::ArrayWidth => v.array_width.was_set && v.array_width.value == 60,
        OptionId::ChainWidth => v.chain_width.was_set && v.chain_width.value == 60,
        OptionId::MergeImports => v.merge_imports.was_set && !v.merge_imports.value,
        OptionId::ImportsGranularity => v.imports_granularity.was_set
            && v.imports_granularity.value == ImportGranularity::Preserve,
        OptionId::FnArgsLayout => v.fn_args_layout.was_set && v.fn_args_layout.value
            == Density::Tall,
        OptionId::FnParamsLayout => v.fn_params_layout.was_set && v.fn_params_layout.value
            == Density::Tall,
        OptionId::HideParseErrors => v.hide_parse_errors.was_set && !v.hide_parse_errors.value,
        OptionId::ShowParseErrors => v.show_parse_errors.was_set && v.show_parse_errors.value,
        OptionId::Version => v.version.was_set && v.version.value == Version::One,
        OptionId::StyleEdition => v.style_edition.was_set && v.style_edition.value == v.edition,
        OptionId::Ignore => v.ignore.was_set && v.ignore.value == Seq::<Seq<char>>::empty(),
        OptionId::Verbose => v.verbose.was_set && !v.verbose.value,
        OptionId::VerboseDiff => v.verbose_diff.was_set && !v.verbose_diff.value,
    }
}

/// The text-keyed form of [`is_default_of`]: false for an unknown key.
pub open spec fn is_default_view(v: RegView, s: Seq<char>) -> bool {
    match name_to_id_view(s) {
        Some(id) => is_default_of(v, id),
        None => false,
    }
}

/// A fresh copy of a list of strings.
fn clone_strings(v: &Vec<String>) -> (r: Vec<String>)
    ensures
        r@ == v@,
{
    let mut r: Vec<String> = Vec::new();
    let mut i: usize = 0;
    while i < v.len()
        invariant
            0 <= i <= v@.len(),
            r@ =~= v@.take(i as int),
        decreases v@.len() - i,
    {
        r.push(v[i].clone());
        proof {
            assert(r@ =~= v@.take(i as int + 1));
        }
        i += 1;
    }
    proof {
        assert(r@ =~= v@);
    }
    r
}

impl Registry {
    /// An ad-hoc `key=value` override. Parsing is strict: an unknown key or
    /// unparsable text is fatal and the caller must abort with the error,
    /// which names the key, the text, and the expected type; the registry
    /// is untouched. A successful override bypasses the stability oracle by
    /// design, records `was_set` provenance, and re-runs the dependent
    /// recomputations.
    pub fn override_value(&mut self, key: &str, val: &str) -> (r: Result<(), OverrideError>)
        ensures
            match name_to_id_view(key@) {
                None => r is Err && final(self)@ == old(self)@,
                Some(id) => match parse_view(id, val@) {
                    None => r is Err && final(self)@ == old(self)@,
                    Some(x) => r is Ok && final(self)@ == override_spec(old(self)@, id, x),
                },
            },
            r matches Err(e) ==> err_names(e, key@, val@),
    {
        match name_to_id(key) {
            None => Err(OverrideError::UnknownKey { key: key.to_owned() }),
            Some(id) => match parse_value(id, val) {
                None => Err(
                    OverrideError::ParseFailed {
                        key: key.to_owned(),
                        text: val.to_owned(),
                        expected: doc_hint(id),
                    },
                ),
                Some(v) => {
                    self.install(id, v);
                    self.mark_set(id);
                    self.recompute(id);
                    Ok(())
                },
            },
        }
    }

    /// The overlay of exactly the options some consumer has read: a
    /// snapshot of what this run actually consulted.
    #[verifier::rlimit(100)]
    #[verifier::spinoff_prover]
    pub fn used_options(&self) -> (r: PartialConfig)
        ensures
            r@ == used_view(self@),
    {
        let r = PartialConfig {
            max_width: if self.max_width.is_used {
                Some(self.max_width.value)
            } else {
                None
            },
            use_small_heuristics: if self.use_small_heuristics.is_used {
                Some(self.use_small_heuristics.value)
            } else {
                None
            },
            fn_call_width: if self.fn_call_width.is_used {
                Some(self.fn_call_width.value)
            } else {
                None
            },
            attr_fn_like_width: if self.attr_fn_like_width.is_used {
                Some(self.attr_fn_like_width.value)
            } else {
                None
            },
            struct_lit_width: if self.struct_lit_width.is_used {
                Some(self.struct_lit_width.value)
            } else {
                None
            },
            struct_variant_width: if self.struct_variant_width.is_used {
                Some(self.struct_variant_width.value)
            } else {
                None
            },
            array_width: if self.array_width.is_used {
                Some(self.array_width.value)
            } else {
                None
            },
            chain_width: if self.chain_width.is_used {
                Some(self.chain_width.value)
            } else {
                None
            },
            merge_imports: if self.merge_imports.is_used {
                Some(self.merge_imports.value)
            } else {
                None
            },
            imports_granularity: if self.imports_granularity.is_used {
                Some(self.imports_granularity.value)
            } else {
                None
            },
            fn_args_layout: if self.fn_args_layout.is_used {
                Some(self.fn_args_layout.value)
            } else {
                None
            },
            fn_params_layout: if self.fn_params_layout.is_used {
                Some(self.fn_params_layout.value)
            } else {
                None
            },
            hide_parse_errors: if self.hide_parse_errors.is_used {
                Some(self.hide_parse_errors.value)
            } else {
                None
            },
            show_parse_errors: if self.show_parse_errors.is_used {
                Some(self.show_parse_errors.value)
            } else {
                None
            },
            version: if self.version.is_used {
                Some(self.version.value)
            } else {
                None
            },
            style_edition: if self.style_edition.is_used {
                Some(self.style_edition.value)
            } else {
                None
            },
            ignore: if self.ignore.is_used {
                Some(clone_strings(&self.ignore.value))
            } else {
                None
            },
            verbose: if self.verbose.is_used {
                Some(self.verbose.value)
            } else {
                None
            },
            verbose_diff: if self.verbose_diff.is_used {
                Some(self.verbose_diff.value)
            } else {
                None
            },
        };
        proof {
            assert(r@ =~= used_view(self@));
        }
        r
    }

    /// The overlay of every current value, read or not.
    pub fn all_options(&self) -> (r: PartialConfig)
        ensures
            r@ == all_view(self@),
    {
        let r = PartialConfig {
            max_width: Some(self.max_width.value),
            use_small_heuristics: Some(self.use_small_heuristics.value),
            fn_call_width: Some(self.fn_call_width.value),
            attr_fn_like_width: Some(self.attr_fn_like_width.value),
            struct_lit_width: Some(self.struct_lit_width.value),
            struct_variant_width: Some(self.struct_variant_width.value),
            array_width: Some(self.array_width.value),
            chain_width: Some(self.chain_width.value),
            merge_imports: Some(self.merge_imports.value),
            imports_granularity: Some(self.imports_granularity.value),
            fn_args_layout: Some(self.fn_args_layout.value),
            fn_params_layout: Some(self.fn_params_layout.value),
            hide_parse_errors: Some(self.hide_parse_errors.value),
            show_parse_errors: Some(self.show_parse_errors.value),
            version: Some(self.version.value),
            style_edition: Some(self.style_edition.value),
            ignore: Some(clone_strings(&self.ignore.value)),
            verbose: Some(self.verbose.value),
            verbose_diff: Some(self.verbose_diff.value),
        };
        proof {
            assert(r@ =~= all_view(self@));
        }
        r
    }

    /// Whether the option restates its compiled default; see
    /// [`is_default_of`].
    /// Whether the two editions are the same generation.
    fn edition_eq(a: StyleEdition, b: StyleEdition) -> (r: bool)
        ensures
            r == (a == b),
    {
        match (a, b) {
            (StyleEdition::Edition2015, StyleEdition::Edition2015) => true,
            (StyleEdition::Edition2018, StyleEdition::Edition2018) => true,
            (StyleEdition::Edition2021, StyleEdition::Edition2021) => true,
            (StyleEdition::Edition2024, StyleEdition::Edition2024) => true,
            _ => false,
        }
    }

    /// Whether the option restates its compiled default; see
    /// [`is_default_of`]. First catalog segment.
    #[verifier::rlimit(100)]
    #[verifier::spinoff_prover]
    fn is_default_by_id_a(&self, id: OptionId) -> (r: Option<bool>)
        ensures
            match r {
                Some(b) => b == is_default_of(self@, id),
                None => true,
            },
            r is None <==> matches!(
                id,
                OptionId::Version | OptionId::StyleEdition | OptionId::Ignore | OptionId::Verbose
                    | OptionId::VerboseDiff,
            ),
    {
        match id {
            OptionId::MaxWidth => Some(self.max_width.was_set && self.max_width.value == 100),
            OptionId::UseSmallHeuristics => Some(
                self.use_small_heuristics.was_set && matches!(
                    self.use_small_heuristics.value,
                    Heuristics::Default,
                ),
            ),
            OptionId::FnCallWidth => Some(
                self.fn_call_width.was_set && self.fn_call_width.value == 60,
            ),
            OptionId::AttrFnLikeWidth => Some(
                self.attr_fn_like_width.was_set && self.attr_fn_like_width.value == 70,
            ),
            OptionId::StructLitWidth => Some(
                self.struct_lit_width.was_set && self.struct_lit_width.value == 18,
            ),
            OptionId::StructVariantWidth => Some(
                self.struct_variant_width.was_set && self.struct_variant_width.value == 35,
            ),
            OptionId::ArrayWidth => Some(self.array_width.was_set && self.array_width.value == 60),
            OptionId::ChainWidth => Some(self.chain_width.was_set && self.chain_width.value == 60),
            OptionId::MergeImports => Some(
                self.merge_imports.was_set && !self.merge_imports.value,
            ),
            OptionId::ImportsGranularity => Some(
                self.imports_granularity.was_set && matches!(
                    self.imports_granularity.value,
                    ImportGranularity::Preserve,
                ),
            ),
            OptionId::FnArgsLayout => Some(
                self.fn_args_layout.was_set && matches!(self.fn_args_layout.value, Density::Tall),
            ),
            OptionId::FnParamsLayout => Some(
                self.fn_params_layout.was_set && matches!(
                    self.fn_params_layout.value,
                    Density::Tall,
                ),
            ),
            OptionId::HideParseErrors => Some(
                self.hide_parse_errors.was_set && !self.hide_parse_errors.value,
            ),
            OptionId::ShowParseErrors => Some(
                self.show_parse_errors.was_set && self.show_parse_errors.value,
            ),
            _ => None,
        }
    }

    /// Whether the option restates its compiled default; see
    /// [`is_default_of`].
    #[verifier::rlimit(100)]
    #[verifier::spinoff_prover]
    fn is_default_by_id(&self, id: OptionId) -> (r: bool)
        ensures
            r == is_default_of(self@, id),
    {
        match self.is_default_by_id_a(id) {
            Some(b) => b,
            None => match id {
                OptionId::Version => self.version.was_set && matches!(
                    self.version.value,
                    Version::One,
                ),
                OptionId::StyleEdition => self.style_edition.was_set && Self::edition_eq(
                    self.style_edition.value,
                    self.edition,
                ),
                OptionId::Ignore => {
                    let r = self.ignore.was_set && self.ignore.value.len() == 0;
                    proof {
                        if self.ignore.value.len() == 0 {
                            assert(strs_view(self.ignore.value@) =~= Seq::<Seq<char>>::empty());
                        } else {
                            assert(strs_view(self.ignore.value@).len() > 0);
                        }
                    }
                    r
                },
                OptionId::Verbose => self.verbose.was_set && !self.verbose.value,
                OptionId::VerboseDiff => self.verbose_diff.was_set && !self.verbose_diff.value,
                _ => {
                    proof {
                        assert(false);
                    }
                    false
                },
            },
        }
    }

    /// Whether the option was explicitly set and merely restates the
    /// compiled default of the registry's style edition.
    pub fn is_default(&self, key: &str) -> (r: bool)
        ensures
            r == is_default_view(self@, key@),
    {
        match name_to_id(key) {
            None => false,
            Some(id) => self.is_default_by_id(id),
        }
    }

    /// The resolved value of `max_width`, by copy; the read is recorded.
    pub fn max_width(&mut self) -> (r: usize)
        ensures
            r == old(self)@.max_width.value,
            final(self)@ == mark_used(old(self)@, OptionId::MaxWidth),
    {
        self.max_width.is_used = true;
        proof {
            assert(self@ =~= mark_used(old(self)@, OptionId::MaxWidth));
        }
        self.max_width.value
    }

    /// The resolved value of `use_small_heuristics`, by copy; the read is recorded.
    pub fn use_small_heuristics(&mut self) -> (r: Heuristics)
        ensures
            r == old(self)@.use_small_heuristics.value,
            final(self)@ == mark_used(old(self)@, OptionId::UseSmallHeuristics),
    {
        self.use_small_heuristics.is_used = true;
        proof {
            assert(self@ =~= mark_used(old(self)@, OptionId::UseSmallHeuristics));
        }
        self.use_small_heuristics.value
    }

    /// The resolved value of `fn_call_width`, by copy; the read is recorded.
    pub fn fn_call_width(&mut self) -> (r: usize)
        ensures
            r == old(self)@.fn_call_width.value,
            final(self)@ == mark_used(old(self)@, OptionId::FnCallWidth),
    {
        self.fn_call_width.is_used = true;
        proof {
            assert(self@ =~= mark_used(old(self)@, OptionId::FnCallWidth));
        }
        self.fn_call_width.value
    }

    /// The resolved value of `attr_fn_like_width`, by copy; the read is recorded.
    pub fn attr_fn_like_width(&mut self) -> (r: usize)
        ensures
            r == old(self)@.attr_fn_like_width.value,
            final(self)@ == mark_used(old(self)@, OptionId::AttrFnLikeWidth),
    {
        self.attr_fn_like_width.is_used = true;
        proof {
            assert(self@ =~= mark_used(old(self)@, OptionId::AttrFnLikeWidth));
        }
        self.attr_fn_like_width.value
    }

    /// The resolved value of `struct_lit_width`, by copy; the read is recorded.
    pub fn struct_lit_width(&mut self) -> (r: usize)
        ensures
            r == old(self)@.struct_lit_width.value,
            final(self)@ == mark_used(old(self)@, OptionId::StructLitWidth),
    {
        self.struct_lit_width.is_used = true;
        proof {
            assert(self@ =~= mark_used(old(self)@, OptionId::StructLitWidth));
        }
        self.struct_lit_width.value
    }

    /// The resolved value of `struct_variant_width`, by copy; the read is recorded.
    pub fn struct_variant_width(&mut self) -> (r: usize)
        ensures
            r == old(self)@.struct_variant_width.value,
            final(self)@ == mark_used(old(self)@, OptionId::StructVariantWidth),
    {
        self.struct_variant_width.is_used = true;
        proof {
            assert(self@ =~= mark_used(old(self)@, OptionId::StructVariantWidth));
        }
        self.struct_variant_width.value
    }

    /// The resolved value of `array_width`, by copy; the read is recorded.
    pub fn array_width(&mut self) -> (r: usize)
        ensures
            r == old(self)@.array_width.value,
            final(self)@ == mark_used(old(self)@, OptionId::ArrayWidth),
    {
        self.array_width.is_used = true;
        proof {
            assert(self@ =~= mark_used(old(self)@, OptionId::ArrayWidth));
        }
        self.array_width.value
    }

    /// The resolved value of `chain_width`, by copy; the read is recorded.
    pub fn chain_width(&mut self) -> (r: usize)
        ensures
            r == old(self)@.chain_width.value,
            final(self)@ == mark_used(old(self)@, OptionId::ChainWidth),
    {
        self.chain_width.is_used = true;
        proof {
            assert(self@ =~= mark_used(old(self)@, OptionId::ChainWidth));
        }
        self.chain_width.value
    }

    /// The resolved value of `merge_imports`, by copy; the read is recorded.
    pub fn merge_imports(&mut self) -> (r: bool)
        ensures
            r == old(self)@.merge_imports.value,
            final(self)@ == mark_used(old(self)@, OptionId::MergeImports),
    {
        self.merge_imports.is_used = true;
        proof {
            assert(self@ =~= mark_used(old(self)@, OptionId::MergeImports));
        }
        self.merge_imports.value
    }

    /// The resolved value of `imports_granularity`, by copy; the read is recorded.
    pub fn imports_granularity(&mut self) -> (r: ImportGranularity)
        ensures
            r == old(self)@.imports_granularity.value,
            final(self)@ == mark_used(old(self)@, OptionId::ImportsGranularity),
    {
        self.imports_granularity.is_used = true;
        proof {
            assert(self@ =~= mark_used(old(self)@, OptionId::ImportsGranularity));
        }
        self.imports_granularity.value
    }

    /// The resolved value of `fn_args_layout`, by copy; the read is recorded.
    pub fn fn_args_layout(&mut self) -> (r: Density)
        ensures
            r == old(self)@.fn_args_layout.value,
            final(self)@ == mark_used(old(self)@, OptionId::FnArgsLayout),
    {
        self.fn_args_layout.is_used = true;
        proof {
            assert(self@ =~= mark_used(old(self)@, OptionId::FnArgsLayout));
        }
        self.fn_args_layout.value
    }

    /// The resolved value of `fn_params_layout`, by copy; the read is recorded.
    pub fn fn_params_layout(&mut self) -> (r: Density)
        ensures
            r == old(self)@.fn_params_layout.value,
            final(self)@ == mark_used(old(self)@, OptionId::FnParamsLayout),
    {
        self.fn_params_layout.is_used = true;
        proof {
            assert(self@ =~= mark_used(old(self)@, OptionId::FnParamsLayout));
        }
        self.fn_params_layout.value
    }

    /// The resolved value of `hide_parse_errors`, by copy; the read is recorded.
    pub fn hide_parse_errors(&mut self) -> (r: bool)
        ensures
            r == old(self)@.hide_parse_errors.value,
            final(self)@ == mark_used(old(self)@, OptionId::HideParseErrors),
    {
        self.hide_parse_errors.is_used = true;
        proof {
            assert(self@ =~= mark_used(old(self)@, OptionId::HideParseErrors));
        }
        self.hide_parse_errors.value
    }

    /// The resolved value of `show_parse_errors`, by copy; the read is recorded.
    pub fn show_parse_errors(&mut self) -> (r: bool)
        ensures
            r == old(self)@.show_parse_errors.value,
            final(self)@ == mark_used(old(self)@, OptionId::ShowParseErrors),
    {
        self.show_parse_errors.is_used = true;
        proof {
            assert(self@ =~= mark_used(old(self)@, OptionId::ShowParseErrors));
        }
        self.show_parse_errors.value
    }

    /// The resolved value of `version`, by copy; the read is recorded.
    pub fn version(&mut self) -> (r: Version)
        ensures
            r == old(self)@.version.value,
            final(self)@ == mark_used(old(self)@, OptionId::Version),
    {
        self.version.is_used = true;
        proof {
            assert(self@ =~= mark_used(old(self)@, OptionId::Version));
        }
        self.version.value
    }

    /// The resolved value of `style_edition`, by copy; the read is recorded.
    pub fn style_edition(&mut self) -> (r: StyleEdition)
        ensures
            r == old(self)@.style_edition.value,
            final(self)@ == mark_used(old(self)@, OptionId::StyleEdition),
    {
        self.style_edition.is_used = true;
        proof {
            assert(self@ =~= mark_used(old(self)@, OptionId::StyleEdition));
        }
        self.style_edition.value
    }

    /// The resolved value of `ignore`, by copy; the read is recorded.
    pub fn ignore(&mut self) -> (r: Vec<String>)
        ensures
            strs_view(r@) == old(self)@.ignore.value,
            final(self)@ == mark_used(old(self)@, OptionId::Ignore),
    {
        self.ignore.is_used = true;
        proof {
            assert(self@ =~= mark_used(old(self)@, OptionId::Ignore));
        }
        clone_strings(&self.ignore.value)
    }

    /// The resolved value of `verbose`, by copy; the read is recorded.
    pub fn verbose(&mut self) -> (r: bool)
        ensures
            r == old(self)@.verbose.value,
            final(self)@ == mark_used(old(self)@, OptionId::Verbose),
    {
        self.verbose.is_used = true;
        proof {
            assert(self@ =~= mark_used(old(self)@, OptionId::Verbose));
        }
        self.verbose.value
    }

    /// The resolved value of `verbose_diff`, by copy; the read is recorded.
    pub fn verbose_diff(&mut self) -> (r: bool)
        ensures
            r == old(self)@.verbose_diff.value,
            final(self)@ == mark_used(old(self)@, OptionId::VerboseDiff),
    {
        self.verbose_diff.is_used = true;
        proof {
            assert(self@ =~= mark_used(old(self)@, OptionId::VerboseDiff));
        }
        self.verbose_diff.value
    }

}

} // verus!
