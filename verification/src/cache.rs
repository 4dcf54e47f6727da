//! The run-time formatter cache.
//!
//! A [`Formatters`] value holds six independent sub-caches, one per engine
//! family (numbers, dates, times, date-times, lists, plural rules). A `get_*`
//! operation resolves a (locale, configuration) pair to the index of the
//! engine for that key, constructing the engine through the locale-data
//! boundary on the first request and finding the same entry ever after.
//! Indices stay valid for the cache's whole life, because entries are never
//! updated, moved or evicted. A construction failure changes nothing and
//! surfaces as a [`CacheError`] naming the kind, configuration and locale;
//! there is no fallback and no substitute engine.

use vstd::prelude::*;
use vstd::string::StringExecFns;
use crate::arena::{
    spec_find_key, lemma_push_preserves_other_lookups, EngineArena, EngineError,
};
use crate::icu_bindings::{
    canonical_of, canonicalize_locale, construct_date_engine, construct_datetime_engine,
    construct_list_and_engine, construct_list_or_engine, construct_list_unit_engine,
    construct_num_engine, construct_plural_rules, construct_time_engine, date_engine_outcome,
    datetime_engine_outcome, num_engine_outcome, plural_engine_outcome, spec_list_outcome,
    time_engine_outcome,
};
use crate::resolver::{DateLength, ListStyle, ListType, TimeLength};

verus! {

/// The category of plural rules an engine is asked for.
#[derive(Debug, Clone, Copy, PartialEq, Eq, Structural, Hash)]
pub enum PluralRuleCategory {
    Cardinal,
    Ordinal,
}

/// The engine family and configuration of one cache request.
#[derive(Debug, Clone, Copy, PartialEq, Eq, Structural, Hash)]
pub enum EngineKind {
    Number,
    Date(DateLength),
    Time(TimeLength),
    DateTime(DateLength, TimeLength),
    List(ListType, ListStyle),
    Plural(PluralRuleCategory),
}

/// A fatal construction failure: the locale-data engine could not build the
/// requested engine. The kind (with its configuration) and the locale
/// identify the failed request.
#[derive(Debug, Clone, PartialEq, Eq)]
pub struct CacheError {
    pub kind: EngineKind,
    pub locale: String,
}

/// The display name of a date length in diagnostics.
pub open spec fn spec_date_length_name(l: DateLength) -> Seq<char> {
    match l {
        DateLength::Full => "full"@,
        DateLength::Long => "long"@,
        DateLength::Medium => "medium"@,
        DateLength::Short => "short"@,
    }
}

/// The display name of a time length in diagnostics.
pub open spec fn spec_time_length_name(l: TimeLength) -> Seq<char> {
    match l {
        TimeLength::Full => "full"@,
        TimeLength::Long => "long"@,
        TimeLength::Medium => "medium"@,
        TimeLength::Short => "short"@,
    }
}

/// The display name of a list type in diagnostics.
pub open spec fn spec_list_type_name(t: ListType) -> Seq<char> {
    match t {
        ListType::And => "and"@,
        ListType::Or => "or"@,
        ListType::Unit => "unit"@,
    }
}

/// The display name of a list style in diagnostics.
pub open spec fn spec_list_style_name(s: ListStyle) -> Seq<char> {
    match s {
        ListStyle::Wide => "wide"@,
        ListStyle::Short => "short"@,
        ListStyle::Narrow => "narrow"@,
    }
}

/// The display name of a plural rule category in diagnostics.
pub open spec fn spec_plural_name(c: PluralRuleCategory) -> Seq<char> {
    match c {
        PluralRuleCategory::Cardinal => "cardinal"@,
        PluralRuleCategory::Ordinal => "ordinal"@,
    }
}

/// The description of an engine kind with its configuration, as it appears in
/// the fatal diagnostic.
pub open spec fn spec_kind_describe(kind: EngineKind) -> Seq<char> {
    match kind {
        EngineKind::Number => "number"@,
        EngineKind::Date(l) => "date ("@ + spec_date_length_name(l) + ")"@,
        EngineKind::Time(l) => "time ("@ + spec_time_length_name(l) + ")"@,
        EngineKind::DateTime(d, t) => "datetime ("@ + spec_date_length_name(d) + ", "@
            + spec_time_length_name(t) + ")"@,
        EngineKind::List(t, s) => "list ("@ + spec_list_type_name(t) + ", "@
            + spec_list_style_name(s) + ")"@,
        EngineKind::Plural(c) => "plural rules ("@ + spec_plural_name(c) + ")"@,
    }
}

fn date_length_name(l: DateLength) -> (r: &'static str)
    ensures
        r@ == spec_date_length_name(l),
{
    match l {
        DateLength::Full => "full",
        DateLength::Long => "long",
        DateLength::Medium => "medium",
        DateLength::Short => "short",
    }
}

fn time_length_name(l: TimeLength) -> (r: &'static str)
    ensures
        r@ == spec_time_length_name(l),
{
    match l {
        TimeLength::Full => "full",
        TimeLength::Long => "long",
        TimeLength::Medium => "medium",
        TimeLength::Short => "short",
    }
}

fn list_type_name(t: ListType) -> (r: &'static str)
    ensures
        r@ == spec_list_type_name(t),
{
    match t {
        ListType::And => "and",
        ListType::Or => "or",
        ListType::Unit => "unit",
    }
}

fn list_style_name(s: ListStyle) -> (r: &'static str)
    ensures
        r@ == spec_list_style_name(s),
{
    match s {
        ListStyle::Wide => "wide",
        ListStyle::Short => "short",
        ListStyle::Narrow => "narrow",
    }
}

fn plural_name(c: PluralRuleCategory) -> (r: &'static str)
    ensures
        r@ == spec_plural_name(c),
{
    match c {
        PluralRuleCategory::Cardinal => "cardinal",
        PluralRuleCategory::Ordinal => "ordinal",
    }
}

impl EngineKind {
    /// The kind with its configuration, spelled out for diagnostics.
    pub fn describe(&self) -> (r: String)
        ensures
            r@ == spec_kind_describe(*self),
    {
        match *self {
            EngineKind::Number => String::from_str("number"),
            EngineKind::Date(l) => {
                let mut s = String::from_str("date (");
                s.append(date_length_name(l));
                s.append(")");
                proof {
                    assert(s@ =~= spec_kind_describe(*self));
                }
                s
            },
            EngineKind::Time(l) => {
                let mut s = String::from_str("time (");
                s.append(time_length_name(l));
                s.append(")");
                proof {
                    assert(s@ =~= spec_kind_describe(*self));
                }
                s
            },
            EngineKind::DateTime(d, t) => {
                let mut s = String::from_str("datetime (");
                s.append(date_length_name(d));
                s.append(", ");
                s.append(time_length_name(t));
                s.append(")");
                proof {
                    assert(s@ =~= spec_kind_describe(*self));
                }
                s
            },
            EngineKind::List(t, st) => {
                let mut s = String::from_str("list (");
                s.append(list_type_name(t));
                s.append(", ");
                s.append(list_style_name(st));
                s.append(")");
                proof {
                    assert(s@ =~= spec_kind_describe(*self));
                }
                s
            },
            EngineKind::Plural(c) => {
                let mut s = String::from_str("plural rules (");
                s.append(plural_name(c));
                s.append(")");
                proof {
                    assert(s@ =~= spec_kind_describe(*self));
                }
                s
            },
        }
    }
}

impl CacheError {
    /// The fatal diagnostic of a failed construction: identifies the engine
    /// kind, its configuration and the locale of the request that failed.
    pub fn describe(&self) -> (r: String)
        ensures
            r@ == "failed to construct "@ + spec_kind_describe(self.kind)
                + " engine for locale \""@ + self.locale@ + "\""@,
    {
        let kind = self.kind.describe();
        let mut s = String::from_str("failed to construct ");
        s.append(kind.as_str());
        s.append(" engine for locale \"");
        s.append(self.locale.as_str());
        s.append("\"");
        s
    }
}

/// The cache key code of a date length.
pub open spec fn spec_date_code(l: DateLength) -> u64 {
    match l {
        DateLength::Full => 0,
        DateLength::Long => 1,
        DateLength::Medium => 2,
        DateLength::Short => 3,
    }
}

/// The cache key code of a time length.
pub open spec fn spec_time_code(l: TimeLength) -> u64 {
    match l {
        TimeLength::Full => 0,
        TimeLength::Long => 1,
        TimeLength::Medium => 2,
        TimeLength::Short => 3,
    }
}

/// The cache key code of a date-time configuration.
pub open spec fn spec_datetime_code(d: DateLength, t: TimeLength) -> u64 {
    (4 * spec_date_code(d) + spec_time_code(t)) as u64
}

/// The cache key code of a list type.
pub open spec fn spec_list_type_code(t: ListType) -> u64 {
    match t {
        ListType::And => 0,
        ListType::Or => 1,
        ListType::Unit => 2,
    }
}

/// The cache key code of a list style.
pub open spec fn spec_list_style_code(s: ListStyle) -> u64 {
    match s {
        ListStyle::Wide => 0,
        ListStyle::Short => 1,
        ListStyle::Narrow => 2,
    }
}

/// The cache key code of a list configuration.
pub open spec fn spec_list_code(t: ListType, s: ListStyle) -> u64 {
    (3 * spec_list_type_code(t) + spec_list_style_code(s)) as u64
}

/// The cache key code of a plural rule category.
pub open spec fn spec_plural_code(c: PluralRuleCategory) -> u64 {
    match c {
        PluralRuleCategory::Cardinal => 0,
        PluralRuleCategory::Ordinal => 1,
    }
}

/// Distinct date-time configurations use distinct cache key codes.
pub proof fn lemma_datetime_code_injective(d1: DateLength, t1: TimeLength, d2: DateLength, t2: TimeLength)
    ensures
        spec_datetime_code(d1, t1) == spec_datetime_code(d2, t2) ==> d1 == d2 && t1 == t2,
{
}

/// Distinct list configurations use distinct cache key codes.
pub proof fn lemma_list_code_injective(t1: ListType, s1: ListStyle, t2: ListType, s2: ListStyle)
    ensures
        spec_list_code(t1, s1) == spec_list_code(t2, s2) ==> t1 == t2 && s1 == s2,
{
}

fn date_code(l: DateLength) -> (r: u64)
    ensures
        r == spec_date_code(l),
{
    match l {
        DateLength::Full => 0,
        DateLength::Long => 1,
        DateLength::Medium => 2,
        DateLength::Short => 3,
    }
}

fn time_code(l: TimeLength) -> (r: u64)
    ensures
        r == spec_time_code(l),
{
    match l {
        TimeLength::Full => 0,
        TimeLength::Long => 1,
        TimeLength::Medium => 2,
        TimeLength::Short => 3,
    }
}

fn list_type_code(t: ListType) -> (r: u64)
    ensures
        r == spec_list_type_code(t),
{
    match t {
        ListType::And => 0,
        ListType::Or => 1,
        ListType::Unit => 2,
    }
}

fn list_style_code(s: ListStyle) -> (r: u64)
    ensures
        r == spec_list_style_code(s),
{
    match s {
        ListStyle::Wide => 0,
        ListStyle::Short => 1,
        ListStyle::Narrow => 2,
    }
}

fn plural_code(c: PluralRuleCategory) -> (r: u64)
    ensures
        r == spec_plural_code(c),
{
    match c {
        PluralRuleCategory::Cardinal => 0,
        PluralRuleCategory::Ordinal => 1,
    }
}

/// How one `get_*` operation that returned index `i` relates a sub-cache
/// before and after the call, for the canonical key `(canon, cfg)`: a hit
/// changes nothing and returns the stored index; a miss appends exactly one
/// entry for the key and returns its fresh index, leaving every existing
/// entry and engine in place.
pub open spec fn spec_cache_step<E>(
    pre: EngineArena<E>,
    post: EngineArena<E>,
    canon: Seq<char>,
    cfg: u64,
    i: int,
) -> bool {
    &&& post.wf()
    &&& spec_find_key(post.keys(), canon, cfg) == Option::Some(i)
    &&& match spec_find_key(pre.keys(), canon, cfg) {
        Option::Some(j) => i == j && post == pre,
        Option::None => {
            &&& i == pre.spec_len()
            &&& post.keys() == pre.keys().push((canon, cfg))
            &&& forall|j: int| 0 <= j < pre.spec_len() ==> post.engine_at(j) == pre.engine_at(j)
        },
    }
}

/// Construct-once: a second resolution of a key that a first resolution
/// already settled returns the same index and leaves the sub-cache exactly as
/// it was, whatever order the two requests arrived in.
pub proof fn lemma_cache_idempotence<E>(
    pre: EngineArena<E>,
    mid: EngineArena<E>,
    post: EngineArena<E>,
    canon: Seq<char>,
    cfg: u64,
    i: int,
    i2: int,
)
    requires
        spec_cache_step(pre, mid, canon, cfg, i),
        spec_cache_step(mid, post, canon, cfg, i2),
    ensures
        i2 == i,
        post == mid,
{
}

/// Cache partitioning: resolving one key never changes what any other key in
/// the same sub-cache resolves to.
pub proof fn lemma_cache_partitioning<E>(
    pre: EngineArena<E>,
    post: EngineArena<E>,
    canon: Seq<char>,
    cfg: u64,
    i: int,
    other_loc: Seq<char>,
    other_cfg: u64,
)
    requires
        spec_cache_step(pre, post, canon, cfg, i),
        (other_loc, other_cfg) != (canon, cfg),
    ensures
        spec_find_key(post.keys(), other_loc, other_cfg) == spec_find_key(
            pre.keys(),
            other_loc,
            other_cfg,
        ),
{
    if spec_find_key(pre.keys(), canon, cfg) is None {
        lemma_push_preserves_other_lookups(pre.keys(), (canon, cfg), other_loc, other_cfg);
    }
}

/// The process-wide formatter cache: six append-only sub-caches, one per
/// engine family. All operations are total lookups plus at most one
/// construction through the locale-data boundary.
pub struct Formatters {
    pub num: EngineArena<icu::decimal::FixedDecimalFormatter>,
    pub date: EngineArena<icu::datetime::DateFormatter>,
    pub time: EngineArena<icu::datetime::TimeFormatter>,
    pub datetime: EngineArena<icu::datetime::DateTimeFormatter>,
    pub list: EngineArena<icu::list::ListFormatter>,
    pub plural_rule: EngineArena<icu::plurals::PluralRules>,
}

impl Formatters {
    /// All six sub-caches are well-formed.
    pub open spec fn wf(&self) -> bool {
        &&& self.num.wf()
        &&& self.date.wf()
        &&& self.time.wf()
        &&& self.datetime.wf()
        &&& self.list.wf()
        &&& self.plural_rule.wf()
    }

    /// An empty cache.
    pub fn new() -> (r: Self)
        ensures
            r.wf(),
            r.num.spec_len() == 0,
            r.date.spec_len() == 0,
            r.time.spec_len() == 0,
            r.datetime.spec_len() == 0,
            r.list.spec_len() == 0,
            r.plural_rule.spec_len() == 0,
    {
        Formatters {
            num: EngineArena::new(),
            date: EngineArena::new(),
            time: EngineArena::new(),
            datetime: EngineArena::new(),
            list: EngineArena::new(),
            plural_rule: EngineArena::new(),
        }
    }

    /// Resolves the number formatter engine for `locale`, constructing it on
    /// the first request.
    pub fn get_num_formatter(&mut self, locale: &str) -> (r: Result<usize, CacheError>)
        requires
            old(self).wf(),
        ensures
            final(self).wf(),
            final(self).date == old(self).date,
            final(self).time == old(self).time,
            final(self).datetime == old(self).datetime,
            final(self).list == old(self).list,
            final(self).plural_rule == old(self).plural_rule,
            r matches Ok(i) ==> canonical_of(locale@) is Some && spec_cache_step(
                old(self).num,
                final(self).num,
                canonical_of(locale@)->Some_0,
                0,
                i as int,
            ),
            r is Err ==> *final(self) == *old(self),
            r matches Err(e) ==> e.kind == EngineKind::Number && e.locale@ == locale@ && (
            canonical_of(locale@) is Some ==> spec_find_key(
                old(self).num.keys(),
                canonical_of(locale@)->Some_0,
                0,
            ) is None),
            r is Ok <==> canonical_of(locale@) is Some && (spec_find_key(
                old(self).num.keys(),
                canonical_of(locale@)->Some_0,
                0,
            ) is Some || num_engine_outcome(canonical_of(locale@)->Some_0)),
    {
        let canon = match canonicalize_locale(locale) {
            Result::Ok(c) => c,
            Result::Err(_) => {
                return Result::Err(
                    CacheError { kind: EngineKind::Number, locale: String::from_str(locale) },
                );
            },
        };
        if let Option::Some(i) = self.num.find(canon.as_str(), 0) {
            return Result::Ok(i);
        }
        let built = construct_num_engine(canon.as_str());
        match self.num.insert_built(canon, 0, built) {
            Result::Ok(i) => Result::Ok(i),
            Result::Err(_) => Result::Err(
                CacheError { kind: EngineKind::Number, locale: String::from_str(locale) },
            ),
        }
    }

    /// Resolves the date formatter engine for `locale` with the given length,
    /// constructing it on the first request.
    pub fn get_date_formatter(&mut self, locale: &str, length: DateLength) -> (r: Result<
        usize,
        CacheError,
    >)
        requires
            old(self).wf(),
        ensures
            final(self).wf(),
            final(self).num == old(self).num,
            final(self).time == old(self).time,
            final(self).datetime == old(self).datetime,
            final(self).list == old(self).list,
            final(self).plural_rule == old(self).plural_rule,
            r matches Ok(i) ==> canonical_of(locale@) is Some && spec_cache_step(
                old(self).date,
                final(self).date,
                canonical_of(locale@)->Some_0,
                spec_date_code(length),
                i as int,
            ),
            r is Err ==> *final(self) == *old(self),
            r matches Err(e) ==> e.kind == EngineKind::Date(length) && e.locale@ == locale@ && (
            canonical_of(locale@) is Some ==> spec_find_key(
                old(self).date.keys(),
                canonical_of(locale@)->Some_0,
                spec_date_code(length),
            ) is None),
            r is Ok <==> canonical_of(locale@) is Some && (spec_find_key(
                old(self).date.keys(),
                canonical_of(locale@)->Some_0,
                spec_date_code(length),
            ) is Some || date_engine_outcome(
                canonical_of(locale@)->Some_0,
                spec_date_code(length),
            )),
    {
        let cfg = date_code(length);
        let canon = match canonicalize_locale(locale) {
            Result::Ok(c) => c,
            Result::Err(_) => {
                return Result::Err(
                    CacheError { kind: EngineKind::Date(length), locale: String::from_str(locale) },
                );
            },
        };
        if let Option::Some(i) = self.date.find(canon.as_str(), cfg) {
            return Result::Ok(i);
        }
        let built = construct_date_engine(canon.as_str(), length);
        match self.date.insert_built(canon, cfg, built) {
            Result::Ok(i) => Result::Ok(i),
            Result::Err(_) => Result::Err(
                CacheError { kind: EngineKind::Date(length), locale: String::from_str(locale) },
            ),
        }
    }

    /// Resolves the time formatter engine for `locale` with the given length,
    /// constructing it on the first request.
    pub fn get_time_formatter(&mut self, locale: &str, length: TimeLength) -> (r: Result<
        usize,
        CacheError,
    >)
        requires
            old(self).wf(),
        ensures
            final(self).wf(),
            final(self).num == old(self).num,
            final(self).date == old(self).date,
            final(self).datetime == old(self).datetime,
            final(self).list == old(self).list,
            final(self).plural_rule == old(self).plural_rule,
            r matches Ok(i) ==> canonical_of(locale@) is Some && spec_cache_step(
                old(self).time,
                final(self).time,
                canonical_of(locale@)->Some_0,
                spec_time_code(length),
                i as int,
            ),
            r is Err ==> *final(self) == *old(self),
            r matches Err(e) ==> e.kind == EngineKind::Time(length) && e.locale@ == locale@ && (
            canonical_of(locale@) is Some ==> spec_find_key(
                old(self).time.keys(),
                canonical_of(locale@)->Some_0,
                spec_time_code(length),
            ) is None),
            r is Ok <==> canonical_of(locale@) is Some && (spec_find_key(
                old(self).time.keys(),
                canonical_of(locale@)->Some_0,
                spec_time_code(length),
            ) is Some || time_engine_outcome(
                canonical_of(locale@)->Some_0,
                spec_time_code(length),
            )),
    {
        let cfg = time_code(length);
        let canon = match canonicalize_locale(locale) {
            Result::Ok(c) => c,
            Result::Err(_) => {
                return Result::Err(
                    CacheError { kind: EngineKind::Time(length), locale: String::from_str(locale) },
                );
            },
        };
        if let Option::Some(i) = self.time.find(canon.as_str(), cfg) {
            return Result::Ok(i);
        }
        let built = construct_time_engine(canon.as_str(), length);
        match self.time.insert_built(canon, cfg, built) {
            Result::Ok(i) => Result::Ok(i),
            Result::Err(_) => Result::Err(
                CacheError { kind: EngineKind::Time(length), locale: String::from_str(locale) },
            ),
        }
    }

    /// Resolves the date-time formatter engine for `locale` with the given
    /// pair of lengths, constructing it on the first request.
    pub fn get_datetime_formatter(
        &mut self,
        locale: &str,
        date_length: DateLength,
        time_length: TimeLength,
    ) -> (r: Result<usize, CacheError>)
        requires
            old(self).wf(),
        ensures
            final(self).wf(),
            final(self).num == old(self).num,
            final(self).date == old(self).date,
            final(self).time == old(self).time,
            final(self).list == old(self).list,
            final(self).plural_rule == old(self).plural_rule,
            r matches Ok(i) ==> canonical_of(locale@) is Some && spec_cache_step(
                old(self).datetime,
                final(self).datetime,
                canonical_of(locale@)->Some_0,
                spec_datetime_code(date_length, time_length),
                i as int,
            ),
            r is Err ==> *final(self) == *old(self),
            r matches Err(e) ==> e.kind == EngineKind::DateTime(date_length, time_length)
                && e.locale@ == locale@ && (canonical_of(locale@) is Some ==> spec_find_key(
                old(self).datetime.keys(),
                canonical_of(locale@)->Some_0,
                spec_datetime_code(date_length, time_length),
            ) is None),
            r is Ok <==> canonical_of(locale@) is Some && (spec_find_key(
                old(self).datetime.keys(),
                canonical_of(locale@)->Some_0,
                spec_datetime_code(date_length, time_length),
            ) is Some || datetime_engine_outcome(
                canonical_of(locale@)->Some_0,
                spec_datetime_code(date_length, time_length),
            )),
    {
        let cfg = 4 * date_code(date_length) + time_code(time_length);
        let canon = match canonicalize_locale(locale) {
            Result::Ok(c) => c,
            Result::Err(_) => {
                return Result::Err(
                    CacheError {
                        kind: EngineKind::DateTime(date_length, time_length),
                        locale: String::from_str(locale),
                    },
                );
            },
        };
        if let Option::Some(i) = self.datetime.find(canon.as_str(), cfg) {
            return Result::Ok(i);
        }
        let built = construct_datetime_engine(canon.as_str(), date_length, time_length);
        match self.datetime.insert_built(canon, cfg, built) {
            Result::Ok(i) => Result::Ok(i),
            Result::Err(_) => Result::Err(
                CacheError {
                    kind: EngineKind::DateTime(date_length, time_length),
                    locale: String::from_str(locale),
                },
            ),
        }
    }

    /// Resolves the list formatter engine for `locale` with the given type
    /// and style, constructing it on the first request.
    pub fn get_list_formatter(&mut self, locale: &str, list_type: ListType, style: ListStyle) -> (r:
        Result<usize, CacheError>)
        requires
            old(self).wf(),
        ensures
            final(self).wf(),
            final(self).num == old(self).num,
            final(self).date == old(self).date,
            final(self).time == old(self).time,
            final(self).datetime == old(self).datetime,
            final(self).plural_rule == old(self).plural_rule,
            r matches Ok(i) ==> canonical_of(locale@) is Some && spec_cache_step(
                old(self).list,
                final(self).list,
                canonical_of(locale@)->Some_0,
                spec_list_code(list_type, style),
                i as int,
            ),
            r is Err ==> *final(self) == *old(self),
            r matches Err(e) ==> e.kind == EngineKind::List(list_type, style) && e.locale@
                == locale@ && (canonical_of(locale@) is Some ==> spec_find_key(
                old(self).list.keys(),
                canonical_of(locale@)->Some_0,
                spec_list_code(list_type, style),
            ) is None),
            r is Ok <==> canonical_of(locale@) is Some && (spec_find_key(
                old(self).list.keys(),
                canonical_of(locale@)->Some_0,
                spec_list_code(list_type, style),
            ) is Some || spec_list_outcome(
                list_type,
                canonical_of(locale@)->Some_0,
                spec_list_style_code(style),
            )),
    {
        let cfg = 3 * list_type_code(list_type) + list_style_code(style);
        let canon = match canonicalize_locale(locale) {
            Result::Ok(c) => c,
            Result::Err(_) => {
                return Result::Err(
                    CacheError {
                        kind: EngineKind::List(list_type, style),
                        locale: String::from_str(locale),
                    },
                );
            },
        };
        if let Option::Some(i) = self.list.find(canon.as_str(), cfg) {
            return Result::Ok(i);
        }
        let built = match list_type {
            ListType::And => construct_list_and_engine(canon.as_str(), style),
            ListType::Or => construct_list_or_engine(canon.as_str(), style),
            ListType::Unit => construct_list_unit_engine(canon.as_str(), style),
        };
        match self.list.insert_built(canon, cfg, built) {
            Result::Ok(i) => Result::Ok(i),
            Result::Err(_) => Result::Err(
                CacheError {
                    kind: EngineKind::List(list_type, style),
                    locale: String::from_str(locale),
                },
            ),
        }
    }

    /// Resolves the plural-rule engine for `locale` with the given category,
    /// constructing it on the first request.
    pub fn get_plural_rules(&mut self, locale: &str, category: PluralRuleCategory) -> (r: Result<
        usize,
        CacheError,
    >)
        requires
            old(self).wf(),
        ensures
            final(self).wf(),
            final(self).num == old(self).num,
            final(self).date == old(self).date,
            final(self).time == old(self).time,
            final(self).datetime == old(self).datetime,
            final(self).list == old(self).list,
            r matches Ok(i) ==> canonical_of(locale@) is Some && spec_cache_step(
                old(self).plural_rule,
                final(self).plural_rule,
                canonical_of(locale@)->Some_0,
                spec_plural_code(category),
                i as int,
            ),
            r is Err ==> *final(self) == *old(self),
            r matches Err(e) ==> e.kind == EngineKind::Plural(category) && e.locale@ == locale@
                && (canonical_of(locale@) is Some ==> spec_find_key(
                old(self).plural_rule.keys(),
                canonical_of(locale@)->Some_0,
                spec_plural_code(category),
            ) is None),
            r is Ok <==> canonical_of(locale@) is Some && (spec_find_key(
                old(self).plural_rule.keys(),
                canonical_of(locale@)->Some_0,
                spec_plural_code(category),
            ) is Some || plural_engine_outcome(
                canonical_of(locale@)->Some_0,
                spec_plural_code(category),
            )),
    {
        let cfg = plural_code(category);
        let canon = match canonicalize_locale(locale) {
            Result::Ok(c) => c,
            Result::Err(_) => {
                return Result::Err(
                    CacheError {
                        kind: EngineKind::Plural(category),
                        locale: String::from_str(locale),
                    },
                );
            },
        };
        if let Option::Some(i) = self.plural_rule.find(canon.as_str(), cfg) {
            return Result::Ok(i);
        }
        let built = construct_plural_rules(canon.as_str(), category);
        match self.plural_rule.insert_built(canon, cfg, built) {
            Result::Ok(i) => Result::Ok(i),
            Result::Err(_) => Result::Err(
                CacheError {
                    kind: EngineKind::Plural(category),
                    locale: String::from_str(locale),
                },
            ),
        }
    }
}

} // verus!
