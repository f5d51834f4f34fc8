//! The sparse overlay parsed from a configuration file, and its merge into
//! the registry.

use vstd::prelude::*;

use crate::options::Density;
use crate::options::Heuristics;
use crate::options::ImportGranularity;
use crate::options::OptionId;
use crate::options::OptionValue;
use crate::options::StyleEdition;
use crate::options::ValueView;
use crate::options::Version;
use crate::options::strs_view;
use crate::registry::RegView;
use crate::registry::Registry;
use crate::registry::heuristics_pass;
use crate::registry::ignore_prefix_pass;
use crate::registry::merge_imports_pass;
use crate::registry::fn_args_layout_pass;
use crate::registry::hide_parse_errors_pass;
use crate::registry::version_pass;
use crate::registry::merge_field;

verus! {

/// The Partial Overlay: one optional entry per catalog option. A present
/// entry means the user's file mentioned the option; an absent one leaves
/// the compiled default untouched during merge.
#[derive(Clone, PartialEq, Debug)]
pub struct PartialConfig {
    pub max_width: Option<usize>,
    pub use_small_heuristics: Option<Heuristics>,
    pub fn_call_width: Option<usize>,
    pub attr_fn_like_width: Option<usize>,
    pub struct_lit_width: Option<usize>,
    pub struct_variant_width: Option<usize>,
    pub array_width: Option<usize>,
    pub chain_width: Option<usize>,
    pub merge_imports: Option<bool>,
    pub imports_granularity: Option<ImportGranularity>,
    pub fn_args_layout: Option<Density>,
    pub fn_params_layout: Option<Density>,
    pub hide_parse_errors: Option<bool>,
    pub show_parse_errors: Option<bool>,
    pub version: Option<Version>,
    pub style_edition: Option<StyleEdition>,
    pub ignore: Option<Vec<String>>,
    pub verbose: Option<bool>,
    pub verbose_diff: Option<bool>,
}

/// The mathematical contents of an overlay.
#[verifier::ext_equal]
pub struct PCView {
    pub max_width: Option<usize>,
    pub use_small_heuristics: Option<Heuristics>,
    pub fn_call_width: Option<usize>,
    pub attr_fn_like_width: Option<usize>,
    pub struct_lit_width: Option<usize>,
    pub struct_variant_width: Option<usize>,
    pub array_width: Option<usize>,
    pub chain_width: Option<usize>,
    pub merge_imports: Option<bool>,
    pub imports_granularity: Option<ImportGranularity>,
    pub fn_args_layout: Option<Density>,
    pub fn_params_layout: Option<Density>,
    pub hide_parse_errors: Option<bool>,
    pub show_parse_errors: Option<bool>,
    pub version: Option<Version>,
    pub style_edition: Option<StyleEdition>,
    pub ignore: Option<Seq<Seq<char>>>,
    pub verbose: Option<bool>,
    pub verbose_diff: Option<bool>,
}

impl View for PartialConfig {
    type V = PCView;

    open spec fn view(&self) -> PCView {
        PCView {
            max_width: self.max_width,
            use_small_heuristics: self.use_small_heuristics,
            fn_call_width: self.fn_call_width,
            attr_fn_like_width: self.attr_fn_like_width,
            struct_lit_width: self.struct_lit_width,
            struct_variant_width: self.struct_variant_width,
            array_width: self.array_width,
            chain_width: self.chain_width,
            merge_imports: self.merge_imports,
            imports_granularity: self.imports_granularity,
            fn_args_layout: self.fn_args_layout,
            fn_params_layout: self.fn_params_layout,
            hide_parse_errors: self.hide_parse_errors,
            show_parse_errors: self.show_parse_errors,
            version: self.version,
            style_edition: self.style_edition,
            ignore: match &self.ignore {
                Some(l) => Some(strs_view(l@)),
                None => None,
            },
            verbose: self.verbose,
            verbose_diff: self.verbose_diff,
        }
    }
}

pub open spec fn opt_uint(o: Option<usize>) -> Option<ValueView> {
    match o {
        Some(w) => Some(ValueView::UInt(w)),
        None => None,
    }
}

pub open spec fn opt_bool(o: Option<bool>) -> Option<ValueView> {
    match o {
        Some(b) => Some(ValueView::Bool(b)),
        None => None,
    }
}

pub open spec fn opt_mode(o: Option<Heuristics>) -> Option<ValueView> {
    match o {
        Some(m) => Some(ValueView::Mode(m)),
        None => None,
    }
}

pub open spec fn opt_gran(o: Option<ImportGranularity>) -> Option<ValueView> {
    match o {
        Some(g) => Some(ValueView::Gran(g)),
        None => None,
    }
}

pub open spec fn opt_dens(o: Option<Density>) -> Option<ValueView> {
    match o {
        Some(d) => Some(ValueView::Dens(d)),
        None => None,
    }
}

pub open spec fn opt_ver(o: Option<Version>) -> Option<ValueView> {
    match o {
        Some(w) => Some(ValueView::Ver(w)),
        None => None,
    }
}

pub open spec fn opt_ed(o: Option<StyleEdition>) -> Option<ValueView> {
    match o {
        Some(e) => Some(ValueView::Ed(e)),
        None => None,
    }
}

pub open spec fn opt_list(o: Option<Seq<Seq<char>>>) -> Option<ValueView> {
    match o {
        Some(l) => Some(ValueView::List(l)),
        None => None,
    }
}

/// Overlay entries of one catalog segment, merged in order.
pub open spec fn merge_part1(v: RegView, p: PCView) -> RegView {
    let v1 = merge_field(v, OptionId::MaxWidth, opt_uint(p.max_width));
    let v2 = merge_field(v1, OptionId::UseSmallHeuristics, opt_mode(p.use_small_heuristics));
    let v3 = merge_field(v2, OptionId::FnCallWidth, opt_uint(p.fn_call_width));
    let v4 = merge_field(v3, OptionId::AttrFnLikeWidth, opt_uint(p.attr_fn_like_width));
    let v5 = merge_field(v4, OptionId::StructLitWidth, opt_uint(p.struct_lit_width));
    v5
}

/// Overlay entries of one catalog segment, merged in order.
pub open spec fn merge_part2(v: RegView, p: PCView) -> RegView {
    let v1 = merge_field(v, OptionId::StructVariantWidth, opt_uint(p.struct_variant_width));
    let v2 = merge_field(v1, OptionId::ArrayWidth, opt_uint(p.array_width));
    let v3 = merge_field(v2, OptionId::ChainWidth, opt_uint(p.chain_width));
    let v4 = merge_field(v3, OptionId::MergeImports, opt_bool(p.merge_imports));
    let v5 = merge_field(v4, OptionId::ImportsGranularity, opt_gran(p.imports_granularity));
    v5
}

/// Overlay entries of one catalog segment, merged in order.
pub open spec fn merge_part3(v: RegView, p: PCView) -> RegView {
    let v1 = merge_field(v, OptionId::FnArgsLayout, opt_dens(p.fn_args_layout));
    let v2 = merge_field(v1, OptionId::FnParamsLayout, opt_dens(p.fn_params_layout));
    let v3 = merge_field(v2, OptionId::HideParseErrors, opt_bool(p.hide_parse_errors));
    let v4 = merge_field(v3, OptionId::ShowParseErrors, opt_bool(p.show_parse_errors));
    let v5 = merge_field(v4, OptionId::Version, opt_ver(p.version));
    v5
}

/// Overlay entries of one catalog segment, merged in order.
pub open spec fn merge_part4(v: RegView, p: PCView) -> RegView {
    let v1 = merge_field(v, OptionId::StyleEdition, opt_ed(p.style_edition));
    let v2 = merge_field(v1, OptionId::Ignore, opt_list(p.ignore));
    let v3 = merge_field(v2, OptionId::Verbose, opt_bool(p.verbose));
    let v4 = merge_field(v3, OptionId::VerboseDiff, opt_bool(p.verbose_diff));
    v4
}

/// Every present overlay entry merged into the registry, in catalog order,
/// each through the stability oracle.
pub open spec fn merge_all(v: RegView, p: PCView) -> RegView {
    merge_part4(merge_part3(merge_part2(merge_part1(v, p), p), p), p)
}

/// The whole file merge: every present overlay entry merged through the
/// stability oracle, then, in this fixed order, the width-heuristics
/// derivation, the base-directory pass over the ignore list, and the four
/// deprecated-alias reconciliations.
pub open spec fn fill_spec(v: RegView, p: PCView, dir: Seq<char>) -> RegView {
    version_pass(
        hide_parse_errors_pass(
            fn_args_layout_pass(
                merge_imports_pass(ignore_prefix_pass(heuristics_pass(merge_all(v, p)), dir)),
            ),
        ),
    )
}

impl Registry {
    fn fill_part1(&mut self, parsed: &PartialConfig)
        ensures
            final(self)@ == merge_part1(old(self)@, parsed@),
    {
        let ghost pv = parsed@;
        if let Some(w) = parsed.max_width {
            self.apply_file_value(OptionId::MaxWidth, OptionValue::UInt(w));
        }
        proof {
            assert(self@ == merge_field(old(self)@, OptionId::MaxWidth, opt_uint(pv.max_width)));
        }
        let ghost m1 = self@;
        if let Some(w) = parsed.use_small_heuristics {
            self.apply_file_value(OptionId::UseSmallHeuristics, OptionValue::Mode(w));
        }
        proof {
            assert(self@ == merge_field(m1, OptionId::UseSmallHeuristics, opt_mode(pv.use_small_heuristics)));
        }
        let ghost m2 = self@;
        if let Some(w) = parsed.fn_call_width {
            self.apply_file_value(OptionId::FnCallWidth, OptionValue::UInt(w));
        }
        proof {
            assert(self@ == merge_field(m2, OptionId::FnCallWidth, opt_uint(pv.fn_call_width)));
        }
        let ghost m3 = self@;
        if let Some(w) = parsed.attr_fn_like_width {
            self.apply_file_value(OptionId::AttrFnLikeWidth, OptionValue::UInt(w));
        }
        proof {
            assert(self@ == merge_field(m3, OptionId::AttrFnLikeWidth, opt_uint(pv.attr_fn_like_width)));
        }
        let ghost m4 = self@;
        if let Some(w) = parsed.struct_lit_width {
            self.apply_file_value(OptionId::StructLitWidth, OptionValue::UInt(w));
        }
        proof {
            assert(self@ == merge_field(m4, OptionId::StructLitWidth, opt_uint(pv.struct_lit_width)));
        }
        let ghost m5 = self@;
    }

    fn fill_part2(&mut self, parsed: &PartialConfig)
        ensures
            final(self)@ == merge_part2(old(self)@, parsed@),
    {
        let ghost pv = parsed@;
        if let Some(w) = parsed.struct_variant_width {
            self.apply_file_value(OptionId::StructVariantWidth, OptionValue::UInt(w));
        }
        proof {
            assert(self@ == merge_field(old(self)@, OptionId::StructVariantWidth, opt_uint(pv.struct_variant_width)));
        }
        let ghost m1 = self@;
        if let Some(w) = parsed.array_width {
            self.apply_file_value(OptionId::ArrayWidth, OptionValue::UInt(w));
        }
        proof {
            assert(self@ == merge_field(m1, OptionId::ArrayWidth, opt_uint(pv.array_width)));
        }
        let ghost m2 = self@;
        if let Some(w) = parsed.chain_width {
            self.apply_file_value(OptionId::ChainWidth, OptionValue::UInt(w));
        }
        proof {
            assert(self@ == merge_field(m2, OptionId::ChainWidth, opt_uint(pv.chain_width)));
        }
        let ghost m3 = self@;
        if let Some(w) = parsed.merge_imports {
            self.apply_file_value(OptionId::MergeImports, OptionValue::Bool(w));
        }
        proof {
            assert(self@ == merge_field(m3, OptionId::MergeImports, opt_bool(pv.merge_imports)));
        }
        let ghost m4 = self@;
        if let Some(w) = parsed.imports_granularity {
            self.apply_file_value(OptionId::ImportsGranularity, OptionValue::Gran(w));
        }
        proof {
            assert(self@ == merge_field(m4, OptionId::ImportsGranularity, opt_gran(pv.imports_granularity)));
        }
        let ghost m5 = self@;
    }

    fn fill_part3(&mut self, parsed: &PartialConfig)
        ensures
            final(self)@ == merge_part3(old(self)@, parsed@),
    {
        let ghost pv = parsed@;
        if let Some(w) = parsed.fn_args_layout {
            self.apply_file_value(OptionId::FnArgsLayout, OptionValue::Dens(w));
        }
        proof {
            assert(self@ == merge_field(old(self)@, OptionId::FnArgsLayout, opt_dens(pv.fn_args_layout)));
        }
        let ghost m1 = self@;
        if let Some(w) = parsed.fn_params_layout {
            self.apply_file_value(OptionId::FnParamsLayout, OptionValue::Dens(w));
        }
        proof {
            assert(self@ == merge_field(m1, OptionId::FnParamsLayout, opt_dens(pv.fn_params_layout)));
        }
        let ghost m2 = self@;
        if let Some(w) = parsed.hide_parse_errors {
            self.apply_file_value(OptionId::HideParseErrors, OptionValue::Bool(w));
        }
        proof {
            assert(self@ == merge_field(m2, OptionId::HideParseErrors, opt_bool(pv.hide_parse_errors)));
        }
        let ghost m3 = self@;
        if let Some(w) = parsed.show_parse_errors {
            self.apply_file_value(OptionId::ShowParseErrors, OptionValue::Bool(w));
        }
        proof {
            assert(self@ == merge_field(m3, OptionId::ShowParseErrors, opt_bool(pv.show_parse_errors)));
        }
        let ghost m4 = self@;
        if let Some(w) = parsed.version {
            self.apply_file_value(OptionId::Version, OptionValue::Ver(w));
        }
        proof {
            assert(self@ == merge_field(m4, OptionId::Version, opt_ver(pv.version)));
        }
        let ghost m5 = self@;
    }

    fn fill_part4(&mut self, parsed: PartialConfig)
        ensures
            final(self)@ == merge_part4(old(self)@, parsed@),
    {
        let ghost pv = parsed@;
        if let Some(w) = parsed.style_edition {
            self.apply_file_value(OptionId::StyleEdition, OptionValue::Ed(w));
        }
        proof {
            assert(self@ == merge_field(old(self)@, OptionId::StyleEdition, opt_ed(pv.style_edition)));
        }
        let ghost m1 = self@;
        if let Some(w) = parsed.ignore {
            self.apply_file_value(OptionId::Ignore, OptionValue::List(w));
        }
        proof {
            assert(self@ == merge_field(m1, OptionId::Ignore, opt_list(pv.ignore)));
        }
        let ghost m2 = self@;
        if let Some(w) = parsed.verbose {
            self.apply_file_value(OptionId::Verbose, OptionValue::Bool(w));
        }
        proof {
            assert(self@ == merge_field(m2, OptionId::Verbose, opt_bool(pv.verbose)));
        }
        let ghost m3 = self@;
        if let Some(w) = parsed.verbose_diff {
            self.apply_file_value(OptionId::VerboseDiff, OptionValue::Bool(w));
        }
        proof {
            assert(self@ == merge_field(m3, OptionId::VerboseDiff, opt_bool(pv.verbose_diff)));
        }
        let ghost m4 = self@;
    }

    /// Merges an overlay produced by the file-parsing collaborator, then
    /// runs the fixed post-merge recomputation list. A rejected entry
    /// leaves the prior default untouched and a warning behind; nothing in
    /// a file merge ever aborts the run.
    pub fn fill_from_parsed_config(&mut self, parsed: PartialConfig, dir: &str)
        ensures
            final(self)@ == fill_spec(old(self)@, parsed@, dir@),
    {
        self.fill_part1(&parsed);
        self.fill_part2(&parsed);
        self.fill_part3(&parsed);
        self.fill_part4(parsed);
        self.run_heuristics();
        self.set_ignore(dir);
        self.run_merge_imports();
        self.run_fn_args_layout();
        self.run_hide_parse_errors();
        self.run_version();
    }
}

} // verus!
