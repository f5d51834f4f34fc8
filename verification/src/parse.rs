//! Textual parsing of option values: the grammar behind `key=value`
//! overrides and the `is_valid_key_val` query.

use vstd::prelude::*;

use crate::options::Density;
use crate::options::Heuristics;
use crate::options::ImportGranularity;
use crate::options::OptionId;
use crate::options::OptionValue;
use crate::options::StyleEdition;
use crate::options::ValueView;
use crate::options::Version;
use crate::options::str_eq;
use crate::options::strs_view;

verus! {

/// A decimal digit.
pub open spec fn is_digit(c: char) -> bool {
    48 <= c as u32 && c as u32 <= 57
}

/// The numeric value of one decimal digit.
pub open spec fn digit_val(c: char) -> int {
    c as u32 - 48
}

/// Whether every character of the text is a decimal digit.
pub open spec fn all_digits(s: Seq<char>) -> bool {
    forall|i: int| 0 <= i < s.len() ==> is_digit(s[i])
}

/// The numeric value of a digit string, most significant digit first.
pub open spec fn dec_val(s: Seq<char>) -> int
    decreases s.len(),
{
    if s.len() == 0 {
        0
    } else {
        dec_val(s.drop_last()) * 10 + digit_val(s.last())
    }
}

/// A digit string's value is nonnegative.
pub proof fn lemma_dec_val_nonneg(s: Seq<char>)
    requires
        all_digits(s),
    ensures
        dec_val(s) >= 0,
    decreases s.len(),
{
    if s.len() > 0 {
        assert(all_digits(s.drop_last()));
        lemma_dec_val_nonneg(s.drop_last());
    }
}

/// Extending a digit string never shrinks its value.
pub proof fn lemma_dec_val_prefix(s: Seq<char>, i: int)
    requires
        all_digits(s),
        0 <= i <= s.len(),
    ensures
        dec_val(s.take(i)) <= dec_val(s),
    decreases s.len(),
{
    if i == s.len() {
        assert(s.take(i) =~= s);
    } else {
        let d = s.drop_last();
        assert(all_digits(d));
        assert(s.take(i) =~= d.take(i));
        lemma_dec_val_prefix(d, i);
        lemma_dec_val_nonneg(d);
        assert(dec_val(d) * 10 >= dec_val(d));
    }
}

/// Parses an unsigned decimal integer. Succeeds exactly on a nonempty
/// all-digit string whose value fits in `usize`.
pub fn parse_usize(s: &str) -> (r: Option<usize>)
    ensures
        match r {
            Some(v) => s@.len() > 0 && all_digits(s@) && v as int == dec_val(s@),
            None => s@.len() == 0 || !all_digits(s@) || dec_val(s@) > usize::MAX,
        },
{
    let n = s.unicode_len();
    if n == 0 {
        return None;
    }
    let mut acc: usize = 0;
    let mut i: usize = 0;
    while i < n
        invariant
            n == s@.len(),
            0 <= i <= n,
            all_digits(s@.take(i as int)),
            acc as int == dec_val(s@.take(i as int)),
        decreases n - i,
    {
        let c = s.get_char(i);
        let cu = c as u32;
        if cu < 48 || cu > 57 {
            proof {
                assert(!is_digit(s@[i as int]));
            }
            return None;
        }
        let d: usize = (cu - 48) as usize;
        proof {
            assert(s@.take(i as int + 1).drop_last() =~= s@.take(i as int));
            assert(s@.take(i as int + 1).last() == s@[i as int]);
            assert(is_digit(s@[i as int]));
            assert(dec_val(s@.take(i as int + 1)) == acc as int * 10 + d as int);
        }
        let shifted = match acc.checked_mul(10) {
            Some(x) => x,
            None => {
                proof {
                    if all_digits(s@) {
                        lemma_dec_val_prefix(s@, i as int + 1);
                    }
                }
                return None;
            },
        };
        let next = match shifted.checked_add(d) {
            Some(x) => x,
            None => {
                proof {
                    if all_digits(s@) {
                        lemma_dec_val_prefix(s@, i as int + 1);
                    }
                }
                return None;
            },
        };
        acc = next;
        i += 1;
    }
    proof {
        assert(s@.take(n as int) =~= s@);
    }
    Some(acc)
}

/// The boolean grammar: exactly `true` or `false`.
pub open spec fn parse_bool_view(s: Seq<char>) -> Option<bool> {
    if s == "true"@ {
        Some(true)
    } else if s == "false"@ {
        Some(false)
    } else {
        None
    }
}

/// Parses a boolean.
pub fn parse_bool(s: &str) -> (r: Option<bool>)
    ensures
        r == parse_bool_view(s@),
{
    if str_eq(s, "true") {
        Some(true)
    } else if str_eq(s, "false") {
        Some(false)
    } else {
        None
    }
}

/// The width-heuristics mode grammar.
pub open spec fn parse_heuristics_view(s: Seq<char>) -> Option<Heuristics> {
    if s == "Default"@ {
        Some(Heuristics::Default)
    } else if s == "Max"@ {
        Some(Heuristics::Max)
    } else if s == "Off"@ {
        Some(Heuristics::Off)
    } else {
        None
    }
}

/// Parses a width-heuristics mode.
pub fn parse_heuristics(s: &str) -> (r: Option<Heuristics>)
    ensures
        r == parse_heuristics_view(s@),
{
    if str_eq(s, "Default") {
        Some(Heuristics::Default)
    } else if str_eq(s, "Max") {
        Some(Heuristics::Max)
    } else if str_eq(s, "Off") {
        Some(Heuristics::Off)
    } else {
        None
    }
}

/// The import-granularity grammar.
pub open spec fn parse_granularity_view(s: Seq<char>) -> Option<ImportGranularity> {
    if s == "Preserve"@ {
        Some(ImportGranularity::Preserve)
    } else if s == "Crate"@ {
        Some(ImportGranularity::Crate)
    } else if s == "Module"@ {
        Some(ImportGranularity::Module)
    } else if s == "Item"@ {
        Some(ImportGranularity::Item)
    } else if s == "One"@ {
        Some(ImportGranularity::One)
    } else {
        None
    }
}

/// Parses an import granularity.
pub fn parse_granularity(s: &str) -> (r: Option<ImportGranularity>)
    ensures
        r == parse_granularity_view(s@),
{
    if str_eq(s, "Preserve") {
        Some(ImportGranularity::Preserve)
    } else if str_eq(s, "Crate") {
        Some(ImportGranularity::Crate)
    } else if str_eq(s, "Module") {
        Some(ImportGranularity::Module)
    } else if str_eq(s, "Item") {
        Some(ImportGranularity::Item)
    } else if str_eq(s, "One") {
        Some(ImportGranularity::One)
    } else {
        None
    }
}

/// The parameter-density grammar.
pub open spec fn parse_density_view(s: Seq<char>) -> Option<Density> {
    if s == "Compressed"@ {
        Some(Density::Compressed)
    } else if s == "Tall"@ {
        Some(Density::Tall)
    } else if s == "Vertical"@ {
        Some(Density::Vertical)
    } else {
        None
    }
}

/// Parses a parameter density.
pub fn parse_density(s: &str) -> (r: Option<Density>)
    ensures
        r == parse_density_view(s@),
{
    if str_eq(s, "Compressed") {
        Some(Density::Compressed)
    } else if str_eq(s, "Tall") {
        Some(Density::Tall)
    } else if str_eq(s, "Vertical") {
        Some(Density::Vertical)
    } else {
        None
    }
}

/// The deprecated version-switch grammar.
pub open spec fn parse_version_view(s: Seq<char>) -> Option<Version> {
    if s == "One"@ {
        Some(Version::One)
    } else if s == "Two"@ {
        Some(Version::Two)
    } else {
        None
    }
}

/// Parses a version switch.
pub fn parse_version(s: &str) -> (r: Option<Version>)
    ensures
        r == parse_version_view(s@),
{
    if str_eq(s, "One") {
        Some(Version::One)
    } else if str_eq(s, "Two") {
        Some(Version::Two)
    } else {
        None
    }
}

/// The style-edition grammar.
pub open spec fn parse_edition_view(s: Seq<char>) -> Option<StyleEdition> {
    if s == "2015"@ {
        Some(StyleEdition::Edition2015)
    } else if s == "2018"@ {
        Some(StyleEdition::Edition2018)
    } else if s == "2021"@ {
        Some(StyleEdition::Edition2021)
    } else if s == "2024"@ {
        Some(StyleEdition::Edition2024)
    } else {
        None
    }
}

/// Parses a style edition.
pub fn parse_edition(s: &str) -> (r: Option<StyleEdition>)
    ensures
        r == parse_edition_view(s@),
{
    if str_eq(s, "2015") {
        Some(StyleEdition::Edition2015)
    } else if str_eq(s, "2018") {
        Some(StyleEdition::Edition2018)
    } else if str_eq(s, "2021") {
        Some(StyleEdition::Edition2021)
    } else if str_eq(s, "2024") {
        Some(StyleEdition::Edition2024)
    } else {
        None
    }
}

/// Splits the remainder `s` at commas, with `cur` the entry read so far.
pub open spec fn split_acc(s: Seq<char>, cur: Seq<char>) -> Seq<Seq<char>>
    decreases s.len(),
{
    if s.len() == 0 {
        seq![cur]
    } else if s[0] == ',' {
        seq![cur] + split_acc(s.skip(1), Seq::empty())
    } else {
        split_acc(s.skip(1), cur.push(s[0]))
    }
}

/// The comma-separated-list grammar: empty text is the empty list; otherwise
/// the entries between commas, in order.
pub open spec fn split_commas(s: Seq<char>) -> Seq<Seq<char>> {
    if s.len() == 0 {
        Seq::empty()
    } else {
        split_acc(s, Seq::empty())
    }
}

/// Splits text at commas into its entries.
pub fn split_list(s: &str) -> (r: Vec<String>)
    ensures
        strs_view(r@) == split_commas(s@),
{
    let n = s.unicode_len();
    let mut out: Vec<String> = Vec::new();
    if n == 0 {
        proof {
            assert(strs_view(out@) =~= split_commas(s@));
        }
        return out;
    }
    let mut start: usize = 0;
    let mut i: usize = 0;
    proof {
        assert(s@.skip(0) =~= s@);
        assert(s@.subrange(0, 0) =~= Seq::<char>::empty());
        assert(strs_view(out@) + split_acc(s@, Seq::empty()) =~= split_acc(s@, Seq::empty()));
    }
    while i < n
        invariant
            n == s@.len(),
            0 <= start <= i <= n,
            n > 0,
            strs_view(out@) + split_acc(s@.skip(i as int), s@.subrange(start as int, i as int))
                =~= split_commas(s@),
        decreases n - i,
    {
        let c = s.get_char(i);
        if c == ',' {
            let entry = s.substring_char(start, i).to_owned();
            proof {
                assert(s@.skip(i as int)[0] == s@[i as int]);
                assert(s@.skip(i as int).skip(1) =~= s@.skip(i as int + 1));
                assert(strs_view(out@.push(entry)) =~= strs_view(out@) + seq![entry@]);
            }
            out.push(entry);
            start = i + 1;
            i += 1;
            proof {
                assert(s@.subrange(start as int, i as int) =~= Seq::<char>::empty());
            }
        } else {
            proof {
                assert(s@.skip(i as int)[0] == s@[i as int]);
                assert(s@.skip(i as int).skip(1) =~= s@.skip(i as int + 1));
                assert(s@.subrange(start as int, i as int).push(s@[i as int]) =~= s@.subrange(
                    start as int,
                    i as int + 1,
                ));
            }
            i += 1;
        }
    }
    let entry = s.substring_char(start, n).to_owned();
    proof {
        assert(s@.skip(n as int) =~= Seq::<char>::empty());
        assert(strs_view(out@.push(entry)) =~= strs_view(out@) + seq![entry@]);
    }
    out.push(entry);
    out
}

/// The value grammar of each option: what text a `key=value` override or
/// `is_valid_key_val` accepts for it, and the value that the text denotes.
pub open spec fn parse_view(id: OptionId, s: Seq<char>) -> Option<ValueView> {
    match id {
        OptionId::MaxWidth | OptionId::FnCallWidth | OptionId::AttrFnLikeWidth
            | OptionId::StructLitWidth | OptionId::StructVariantWidth | OptionId::ArrayWidth
            | OptionId::ChainWidth => if s.len() > 0 && all_digits(s) && dec_val(s)
            <= usize::MAX {
            Some(ValueView::UInt(dec_val(s) as usize))
        } else {
            None
        },
        OptionId::UseSmallHeuristics => match parse_heuristics_view(s) {
            Some(m) => Some(ValueView::Mode(m)),
            None => None,
        },
        OptionId::MergeImports | OptionId::HideParseErrors | OptionId::ShowParseErrors
            | OptionId::Verbose | OptionId::VerboseDiff => match parse_bool_view(s) {
            Some(b) => Some(ValueView::Bool(b)),
            None => None,
        },
        OptionId::ImportsGranularity => match parse_granularity_view(s) {
            Some(g) => Some(ValueView::Gran(g)),
            None => None,
        },
        OptionId::FnArgsLayout | OptionId::FnParamsLayout => match parse_density_view(s) {
            Some(d) => Some(ValueView::Dens(d)),
            None => None,
        },
        OptionId::Version => match parse_version_view(s) {
            Some(v) => Some(ValueView::Ver(v)),
            None => None,
        },
        OptionId::StyleEdition => match parse_edition_view(s) {
            Some(e) => Some(ValueView::Ed(e)),
            None => None,
        },
        OptionId::Ignore => Some(ValueView::List(split_commas(s))),
    }
}

/// Parses text into the value type that the catalog declares for the option.
pub fn parse_value(id: OptionId, s: &str) -> (r: Option<OptionValue>)
    ensures
        match r {
            Some(v) => parse_view(id, s@) == Some(v@),
            None => parse_view(id, s@) is None,
        },
{
    match id {
        OptionId::MaxWidth | OptionId::FnCallWidth | OptionId::AttrFnLikeWidth
            | OptionId::StructLitWidth | OptionId::StructVariantWidth | OptionId::ArrayWidth
            | OptionId::ChainWidth => match parse_usize(s) {
            Some(w) => {
                proof {
                    lemma_dec_val_nonneg(s@);
                }
                Some(OptionValue::UInt(w))
            },
            None => None,
        },
        OptionId::UseSmallHeuristics => match parse_heuristics(s) {
            Some(m) => Some(OptionValue::Mode(m)),
            None => None,
        },
        OptionId::MergeImports | OptionId::HideParseErrors | OptionId::ShowParseErrors
            | OptionId::Verbose | OptionId::VerboseDiff => match parse_bool(s) {
            Some(b) => Some(OptionValue::Bool(b)),
            None => None,
        },
        OptionId::ImportsGranularity => match parse_granularity(s) {
            Some(g) => Some(OptionValue::Gran(g)),
            None => None,
        },
        OptionId::FnArgsLayout | OptionId::FnParamsLayout => match parse_density(s) {
            Some(d) => Some(OptionValue::Dens(d)),
            None => None,
        },
        OptionId::Version => match parse_version(s) {
            Some(v) => Some(OptionValue::Ver(v)),
            None => None,
        },
        OptionId::StyleEdition => match parse_edition(s) {
            Some(e) => Some(OptionValue::Ed(e)),
            None => None,
        },
        OptionId::Ignore => {
            let l = split_list(s);
            Some(OptionValue::List(l))
        },
    }
}

/// Whether `key` names an option and `val` parses into that option's value
/// type; consults and mutates nothing.
pub fn is_valid_key_val(key: &str, val: &str) -> (r: bool)
    ensures
        r == match crate::options::name_to_id_view(key@) {
            Some(id) => parse_view(id, val@) is Some,
            None => false,
        },
{
    match crate::options::name_to_id(key) {
        Some(id) => parse_value(id, val).is_some(),
        None => false,
    }
}

} // verus!
