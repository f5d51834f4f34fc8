//! The library's general laws, proved over the same spec transitions that
//! the executable functions are verified against.

use vstd::prelude::*;

use crate::options::Heuristics;
use crate::options::ImportGranularity;
use crate::options::OptionId;
use crate::options::StyleEdition;
use crate::options::ValueView;
use crate::options::option_is_stable;
use crate::options::variant_is_stable;
use crate::registry::RegView;
use crate::registry::Warning;
use crate::registry::assign_value;
use crate::registry::clamps;
use crate::registry::default_reg;
use crate::registry::derived_width;
use crate::registry::heuristics_pass;
use crate::registry::merge_field;
use crate::registry::merge_imports_pass;
use crate::registry::merge_imports_translation;
use crate::registry::oracle_accepts;
use crate::registry::override_spec;
use crate::registry::slot_is_stable;
use crate::registry::slot_is_used;
use crate::registry::slot_was_set;
use crate::registry::slot_was_set_cli;
use crate::registry::slot_value_v;
use crate::registry::wf_view;

verus! {

/// A freshly built registry is fully determined by its edition and channel:
/// every provenance and usage flag is clear, it is well formed, and it
/// carries no warnings. Together with the constructor's exact postcondition
/// this pins two same-edition registries to identical contents.
pub proof fn lemma_default_registry_clear(e: StyleEdition, nightly: bool, id: OptionId)
    ensures
        !slot_was_set(default_reg(e, nightly), id),
        !slot_was_set_cli(default_reg(e, nightly), id),
        !slot_is_used(default_reg(e, nightly), id),
        slot_is_stable(default_reg(e, nightly), id) == option_is_stable(id),
        wf_view(default_reg(e, nightly)),
        default_reg(e, nightly).warnings.len() == 0,
{
    match id {
        OptionId::MaxWidth => {},
        OptionId::UseSmallHeuristics => {},
        OptionId::FnCallWidth => {},
        OptionId::AttrFnLikeWidth => {},
        OptionId::StructLitWidth => {},
        OptionId::StructVariantWidth => {},
        OptionId::ArrayWidth => {},
        OptionId::ChainWidth => {},
        OptionId::MergeImports => {},
        OptionId::ImportsGranularity => {},
        OptionId::FnArgsLayout => {},
        OptionId::FnParamsLayout => {},
        OptionId::HideParseErrors => {},
        OptionId::ShowParseErrors => {},
        OptionId::Version => {},
        OptionId::StyleEdition => {},
        OptionId::Ignore => {},
        OptionId::Verbose => {},
        OptionId::VerboseDiff => {},
    }
}

/// Provenance is monotonic through a heuristics run: the derivation touches
/// width values and warnings only, never a `was_set` or `was_set_cli` flag,
/// so no recomputation can clear provenance once gained.
pub proof fn lemma_heuristics_preserves_provenance(v: RegView, id: OptionId)
    ensures
        slot_was_set(heuristics_pass(v), id) == slot_was_set(v, id),
        slot_was_set_cli(heuristics_pass(v), id) == slot_was_set_cli(v, id),
{
    match id {
        OptionId::MaxWidth => {},
        OptionId::UseSmallHeuristics => {},
        OptionId::FnCallWidth => {},
        OptionId::AttrFnLikeWidth => {},
        OptionId::StructLitWidth => {},
        OptionId::StructVariantWidth => {},
        OptionId::ArrayWidth => {},
        OptionId::ChainWidth => {},
        OptionId::MergeImports => {},
        OptionId::ImportsGranularity => {},
        OptionId::FnArgsLayout => {},
        OptionId::FnParamsLayout => {},
        OptionId::HideParseErrors => {},
        OptionId::ShowParseErrors => {},
        OptionId::Version => {},
        OptionId::StyleEdition => {},
        OptionId::Ignore => {},
        OptionId::Verbose => {},
        OptionId::VerboseDiff => {},
    }
}

/// The clamp rule: an explicitly set `chain_width` above `max_width` comes
/// out of a heuristics run clamped to `max_width` exactly, with a warning
/// naming the option; the same resolution rule governs every dependent
/// width through the shared `resolved_slot` step.
pub proof fn lemma_heuristics_clamp(v: RegView)
    requires
        clamps(v.chain_width, v.max_width.value),
    ensures
        heuristics_pass(v).chain_width.value == v.max_width.value,
        heuristics_pass(v).warnings.contains(
            Warning::WidthExceedsMaxWidth(OptionId::ChainWidth),
        ),
{
    let w = Warning::WidthExceedsMaxWidth(OptionId::ChainWidth);
    let h = heuristics_pass(v);
    assert(h.warnings.last() == w);
    assert(h.warnings.contains(w));
}

/// The derivation rule for unset widths: with mode `Off` every dependent
/// width that was never explicitly set resolves to the no-limit sentinel,
/// and with mode `Max` to `max_width` itself; `chain_width` is stated here
/// and every width flows through the same `resolved_slot` step.
pub proof fn lemma_heuristics_unset_widths(v: RegView)
    requires
        !v.chain_width.was_set,
    ensures
        v.use_small_heuristics.value == Heuristics::Off ==> heuristics_pass(v).chain_width.value
            == usize::MAX,
        v.use_small_heuristics.value == Heuristics::Max ==> heuristics_pass(v).chain_width.value
            == v.max_width.value,
        v.use_small_heuristics.value == Heuristics::Default ==> heuristics_pass(
            v,
        ).chain_width.value as int == v.max_width.value as int * 60 / 100,
{
    assert(heuristics_pass(v).chain_width.value == derived_width(
        v.use_small_heuristics.value,
        v.max_width.value,
        60,
    ));
}

/// Alias translation: when only the legacy `merge_imports` was set, one
/// reconciliation run installs `Crate` for a true value and `Preserve` for
/// a false one into `imports_granularity`, without marking it set; when
/// the replacement was itself set, its value survives unchanged and the
/// precedence warning is emitted.
pub proof fn lemma_merge_imports_reconciliation(v: RegView)
    requires
        v.merge_imports.was_set,
    ensures
        !v.imports_granularity.was_set && !v.imports_granularity.was_set_cli ==> {
            &&& merge_imports_pass(v).imports_granularity.value == (if v.merge_imports.value {
                ImportGranularity::Crate
            } else {
                ImportGranularity::Preserve
            })
            &&& !merge_imports_pass(v).imports_granularity.was_set
        },
        v.imports_granularity.was_set ==> merge_imports_pass(v).imports_granularity
            == v.imports_granularity && merge_imports_pass(v).warnings.contains(
            Warning::SupersededByReplacement(OptionId::MergeImports, OptionId::ImportsGranularity),
        ),
        merge_imports_pass(v).warnings.contains(Warning::Deprecated(OptionId::MergeImports)),
{
    let p = merge_imports_pass(v);
    assert(p.warnings[v.warnings.len() as int] == Warning::Deprecated(OptionId::MergeImports));
    assert(p.warnings.contains(Warning::Deprecated(OptionId::MergeImports)));
    if v.imports_granularity.was_set {
        assert(p.warnings.last() == Warning::SupersededByReplacement(
            OptionId::MergeImports,
            OptionId::ImportsGranularity,
        ));
        assert(p.warnings.contains(
            Warning::SupersededByReplacement(
                OptionId::MergeImports,
                OptionId::ImportsGranularity,
            ),
        ));
    }
}

/// Alias idempotence: reconciling twice is the same as reconciling once,
/// but for the repeated deprecation warning; in particular the installed
/// `imports_granularity` value is unchanged by a second run.
pub proof fn lemma_merge_imports_idempotent_value(v: RegView)
    ensures
        merge_imports_pass(merge_imports_pass(v)).imports_granularity == merge_imports_pass(
            v,
        ).imports_granularity,
{
}

/// Override precedence over stability: a file merge consults the oracle,
/// so on a stable channel an unstable option is rejected — value, flags
/// and all other slots unchanged, one warning added — while the override
/// path installs the same value unconditionally, whatever the channel.
pub proof fn lemma_override_bypasses_oracle(v: RegView, x: ValueView)
    requires
        wf_view(v),
        !v.nightly,
        x is Gran,
    ensures
        merge_field(v, OptionId::ImportsGranularity, Some(x)).imports_granularity
            == v.imports_granularity,
        merge_field(v, OptionId::ImportsGranularity, Some(x)).warnings == v.warnings.push(
            Warning::OptionUnstable(OptionId::ImportsGranularity),
        ),
        override_spec(v, OptionId::ImportsGranularity, x).imports_granularity.value == x->Gran_0,
        override_spec(v, OptionId::ImportsGranularity, x).imports_granularity.was_set,
{
    assert(!slot_is_stable(v, OptionId::ImportsGranularity));
    assert(!oracle_accepts(v.nightly, slot_is_stable(v, OptionId::ImportsGranularity),
        variant_is_stable(x)));
}

/// The oracle's decision table: nightly accepts everything; a stable
/// channel accepts exactly a stable option carrying a stable variant.
pub proof fn lemma_oracle_decision_table()
    ensures
        forall|o: bool, s: bool| oracle_accepts(true, o, s),
        forall|o: bool, s: bool| oracle_accepts(false, o, s) == (o && s),
{
}

/// A merge of an absent overlay entry changes nothing at all.
pub proof fn lemma_merge_absent_is_identity(v: RegView, id: OptionId)
    ensures
        merge_field(v, id, None::<ValueView>) == v,
{
}

} // verus!
