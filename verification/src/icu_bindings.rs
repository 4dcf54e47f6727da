//! The trusted boundary to the `icu` locale-data crates.
//!
//! Everything the library needs from `icu` passes through the items of this
//! module: locale canonicalization and the fallible construction of one
//! engine per formatter kind. The locale data is compiled into the binary and
//! fixed at build time, so whether a construction succeeds is a function of
//! the canonical locale string and the requested configuration alone; each
//! constructor's success is therefore pinned to a named outcome, while the
//! engine value itself stays opaque.

use vstd::prelude::*;
use icu::datetime::options::length::{Bag, Date, Time};
use icu::list::ListLength;
use crate::arena::EngineError;
use crate::cache::PluralRuleCategory;
use crate::resolver::{DateLength, ListStyle, ListType, TimeLength};

verus! {

#[verifier::external_type_specification]
#[verifier::external_body]
pub struct ExFixedDecimalFormatter(icu::decimal::FixedDecimalFormatter);

#[verifier::external_type_specification]
#[verifier::external_body]
pub struct ExDateFormatter(icu::datetime::DateFormatter);

#[verifier::external_type_specification]
#[verifier::external_body]
pub struct ExTimeFormatter(icu::datetime::TimeFormatter);

#[verifier::external_type_specification]
#[verifier::external_body]
pub struct ExDateTimeFormatter(icu::datetime::DateTimeFormatter);

#[verifier::external_type_specification]
#[verifier::external_body]
pub struct ExListFormatter(icu::list::ListFormatter);

#[verifier::external_type_specification]
#[verifier::external_body]
pub struct ExPluralRules(icu::plurals::PluralRules);

/// The canonical form of a locale identifier, or nothing where the string is
/// not a valid identifier. Both are functions of the string alone.
pub uninterp spec fn canonical_of(s: Seq<char>) -> Option<Seq<char>>;

/// Relies on `icu::locid::Locale`'s `FromStr` and `Display` impls: a locale
/// string parses into a locale value, and displaying that value yields the
/// canonical (case-normalized) form of the identifier; both depend on the
/// string alone.
#[verifier::external_body]
pub(crate) fn canonicalize_locale(s: &str) -> (r: Result<String, EngineError>)
    ensures
        r is Ok <==> canonical_of(s@) is Some,
        r matches Ok(c) ==> c@ == canonical_of(s@)->Some_0,
{
    match s.parse::<icu::locid::Locale>() {
        Ok(locale) => Ok(locale.to_string()),
        Err(_) => Err(EngineError),
    }
}

/// Whether `icu::decimal::FixedDecimalFormatter::try_new` with default
/// options succeeds for the locale string `canon`.
pub uninterp spec fn num_engine_outcome(canon: Seq<char>) -> bool;

/// Whether `icu::datetime::DateFormatter::try_new_with_length` succeeds for
/// the locale string `canon` and the date length encoded as `cfg`.
pub uninterp spec fn date_engine_outcome(canon: Seq<char>, cfg: u64) -> bool;

/// Whether `icu::datetime::TimeFormatter::try_new_with_length` succeeds for
/// the locale string `canon` and the time length encoded as `cfg`.
pub uninterp spec fn time_engine_outcome(canon: Seq<char>, cfg: u64) -> bool;

/// Whether `icu::datetime::DateTimeFormatter::try_new` succeeds for the
/// locale string `canon` and the length pair encoded as `cfg`.
pub uninterp spec fn datetime_engine_outcome(canon: Seq<char>, cfg: u64) -> bool;

/// Whether `icu::list::ListFormatter::try_new_and_with_length` succeeds for
/// the locale string `canon` and the list style encoded as `style_cfg`.
pub uninterp spec fn list_and_engine_outcome(canon: Seq<char>, style_cfg: u64) -> bool;

/// Whether `icu::list::ListFormatter::try_new_or_with_length` succeeds for
/// the locale string `canon` and the list style encoded as `style_cfg`.
pub uninterp spec fn list_or_engine_outcome(canon: Seq<char>, style_cfg: u64) -> bool;

/// Whether `icu::list::ListFormatter::try_new_unit_with_length` succeeds for
/// the locale string `canon` and the list style encoded as `style_cfg`.
pub uninterp spec fn list_unit_engine_outcome(canon: Seq<char>, style_cfg: u64) -> bool;

/// Whether `icu::plurals::PluralRules::try_new` succeeds for the locale
/// string `canon` and the rule category encoded as `cfg`.
pub uninterp spec fn plural_engine_outcome(canon: Seq<char>, cfg: u64) -> bool;

/// Whether the list constructor chosen by `list_type` succeeds for the locale
/// string `canon` and the list style encoded as `style_cfg`.
pub open spec fn spec_list_outcome(list_type: ListType, canon: Seq<char>, style_cfg: u64) -> bool {
    match list_type {
        ListType::And => list_and_engine_outcome(canon, style_cfg),
        ListType::Or => list_or_engine_outcome(canon, style_cfg),
        ListType::Unit => list_unit_engine_outcome(canon, style_cfg),
    }
}

/// Relies on `icu::decimal::FixedDecimalFormatter::try_new` with default
/// options, on the locale parsed back from `canon`: with the locale data
/// compiled in, the outcome depends on the string alone.
#[verifier::external_body]
pub(crate) fn construct_num_engine(canon: &str) -> (r: Result<
    icu::decimal::FixedDecimalFormatter,
    EngineError,
>)
    ensures
        r is Ok <==> num_engine_outcome(canon@),
{
    let loc: icu::locid::Locale = match canon.parse() { Ok(l) => l, Err(_) => return Err(EngineError) };
    icu::decimal::FixedDecimalFormatter::try_new(&loc.into(), Default::default()).map_err(
        |_| EngineError,
    )
}

/// Relies on `icu::datetime::DateFormatter::try_new_with_length`, on the
/// locale parsed back from `canon`: with the locale data compiled in, the
/// outcome depends on the string and the length alone.
#[verifier::external_body]
pub(crate) fn construct_date_engine(canon: &str, length: DateLength) -> (r: Result<
    icu::datetime::DateFormatter,
    EngineError,
>)
    ensures
        r is Ok <==> date_engine_outcome(canon@, crate::cache::spec_date_code(length)),
{
    let loc: icu::locid::Locale = match canon.parse() { Ok(l) => l, Err(_) => return Err(EngineError) };
    let l = match length { DateLength::Full => Date::Full, DateLength::Long => Date::Long, DateLength::Medium => Date::Medium, DateLength::Short => Date::Short };
    icu::datetime::DateFormatter::try_new_with_length(&loc.into(), l).map_err(|_| EngineError)
}

/// Relies on `icu::datetime::TimeFormatter::try_new_with_length`, on the
/// locale parsed back from `canon`: with the locale data compiled in, the
/// outcome depends on the string and the length alone.
#[verifier::external_body]
pub(crate) fn construct_time_engine(canon: &str, length: TimeLength) -> (r: Result<
    icu::datetime::TimeFormatter,
    EngineError,
>)
    ensures
        r is Ok <==> time_engine_outcome(canon@, crate::cache::spec_time_code(length)),
{
    let loc: icu::locid::Locale = match canon.parse() { Ok(l) => l, Err(_) => return Err(EngineError) };
    let l = match length { TimeLength::Full => Time::Full, TimeLength::Long => Time::Long, TimeLength::Medium => Time::Medium, TimeLength::Short => Time::Short };
    icu::datetime::TimeFormatter::try_new_with_length(&loc.into(), l).map_err(|_| EngineError)
}

/// Relies on `icu::datetime::DateTimeFormatter::try_new`, with an options bag
/// made by `length::Bag::from_date_time_style`, on the locale parsed back
/// from `canon`: with the locale data compiled in, the outcome depends on the
/// string and the two lengths alone.
#[verifier::external_body]
pub(crate) fn construct_datetime_engine(
    canon: &str,
    date_length: DateLength,
    time_length: TimeLength,
) -> (r: Result<icu::datetime::DateTimeFormatter, EngineError>)
    ensures
        r is Ok <==> datetime_engine_outcome(
            canon@,
            crate::cache::spec_datetime_code(date_length, time_length),
        ),
{
    let loc: icu::locid::Locale = match canon.parse() { Ok(l) => l, Err(_) => return Err(EngineError) };
    let d = match date_length { DateLength::Full => Date::Full, DateLength::Long => Date::Long, DateLength::Medium => Date::Medium, DateLength::Short => Date::Short };
    let t = match time_length { TimeLength::Full => Time::Full, TimeLength::Long => Time::Long, TimeLength::Medium => Time::Medium, TimeLength::Short => Time::Short };
    let options = Bag::from_date_time_style(d, t);
    icu::datetime::DateTimeFormatter::try_new(&loc.into(), options.into()).map_err(|_| EngineError)
}

/// Relies on `icu::list::ListFormatter::try_new_and_with_length`, on the
/// locale parsed back from `canon`: with the locale data compiled in, the
/// outcome depends on the string and the style alone.
#[verifier::external_body]
pub(crate) fn construct_list_and_engine(canon: &str, style: ListStyle) -> (r: Result<
    icu::list::ListFormatter,
    EngineError,
>)
    ensures
        r is Ok <==> list_and_engine_outcome(canon@, crate::cache::spec_list_style_code(style)),
{
    let loc: icu::locid::Locale = match canon.parse() { Ok(l) => l, Err(_) => return Err(EngineError) };
    let l = match style { ListStyle::Wide => ListLength::Wide, ListStyle::Short => ListLength::Short, ListStyle::Narrow => ListLength::Narrow };
    icu::list::ListFormatter::try_new_and_with_length(&loc.into(), l).map_err(|_| EngineError)
}

/// Relies on `icu::list::ListFormatter::try_new_or_with_length`, on the
/// locale parsed back from `canon`: with the locale data compiled in, the
/// outcome depends on the string and the style alone.
#[verifier::external_body]
pub(crate) fn construct_list_or_engine(canon: &str, style: ListStyle) -> (r: Result<
    icu::list::ListFormatter,
    EngineError,
>)
    ensures
        r is Ok <==> list_or_engine_outcome(canon@, crate::cache::spec_list_style_code(style)),
{
    let loc: icu::locid::Locale = match canon.parse() { Ok(l) => l, Err(_) => return Err(EngineError) };
    let l = match style { ListStyle::Wide => ListLength::Wide, ListStyle::Short => ListLength::Short, ListStyle::Narrow => ListLength::Narrow };
    icu::list::ListFormatter::try_new_or_with_length(&loc.into(), l).map_err(|_| EngineError)
}

/// Relies on `icu::list::ListFormatter::try_new_unit_with_length`, on the
/// locale parsed back from `canon`: with the locale data compiled in, the
/// outcome depends on the string and the style alone.
#[verifier::external_body]
pub(crate) fn construct_list_unit_engine(canon: &str, style: ListStyle) -> (r: Result<
    icu::list::ListFormatter,
    EngineError,
>)
    ensures
        r is Ok <==> list_unit_engine_outcome(canon@, crate::cache::spec_list_style_code(style)),
{
    let loc: icu::locid::Locale = match canon.parse() { Ok(l) => l, Err(_) => return Err(EngineError) };
    let l = match style { ListStyle::Wide => ListLength::Wide, ListStyle::Short => ListLength::Short, ListStyle::Narrow => ListLength::Narrow };
    icu::list::ListFormatter::try_new_unit_with_length(&loc.into(), l).map_err(|_| EngineError)
}

/// Relies on `icu::plurals::PluralRules::try_new`, on the locale parsed back
/// from `canon`: with the locale data compiled in, the outcome depends on the
/// string and the rule category alone.
#[verifier::external_body]
pub(crate) fn construct_plural_rules(canon: &str, category: PluralRuleCategory) -> (r: Result<
    icu::plurals::PluralRules,
    EngineError,
>)
    ensures
        r is Ok <==> plural_engine_outcome(canon@, crate::cache::spec_plural_code(category)),
{
    let loc: icu::locid::Locale = match canon.parse() { Ok(l) => l, Err(_) => return Err(EngineError) };
    let ty = match category { PluralRuleCategory::Cardinal => icu::plurals::PluralRuleType::Cardinal, PluralRuleCategory::Ordinal => icu::plurals::PluralRuleType::Ordinal };
    icu::plurals::PluralRules::try_new(&loc.into(), ty).map_err(|_| EngineError)
}

} // verus!
