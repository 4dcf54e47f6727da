use i18n_format::arena::{EngineArena, EngineError};
use i18n_format::cache::{CacheError, EngineKind, Formatters, PluralRuleCategory};
use i18n_format::resolver::{DateLength, ListStyle, ListType, TimeLength};

#[test]
fn number_cache_idempotence() {
    let mut cache = Formatters::new();
    let first = cache.get_num_formatter("en").expect("a number engine for en");
    let second = cache.get_num_formatter("en").expect("a number engine for en");
    assert_eq!(first, second);
    assert_eq!(cache.num.entry_count(), 1);
}

#[test]
fn date_cache_idempotence() {
    let mut cache = Formatters::new();
    let first = cache
        .get_date_formatter("en", DateLength::Full)
        .expect("a date engine for en");
    let second = cache
        .get_date_formatter("en", DateLength::Full)
        .expect("a date engine for en");
    assert_eq!(first, second);
    assert_eq!(cache.date.entry_count(), 1);
}

#[test]
fn cache_partitioning() {
    let mut cache = Formatters::new();
    let full = cache.get_date_formatter("en", DateLength::Full).expect("date full");
    let medium = cache.get_date_formatter("en", DateLength::Medium).expect("date medium");
    assert_ne!(full, medium);
    assert_eq!(cache.date.entry_count(), 2);

    // A time request touches neither the date cache nor any other one.
    let time = cache.get_time_formatter("en", TimeLength::Short).expect("time short");
    assert_eq!(cache.date.entry_count(), 2);
    assert_eq!(cache.time.entry_count(), 1);
    assert_eq!(cache.num.entry_count(), 0);

    // The first date entry is still found unchanged.
    let full_again = cache.get_date_formatter("en", DateLength::Full).expect("date full");
    assert_eq!(full, full_again);
    assert_eq!(cache.date.entry_count(), 2);

    // A different locale gets its own entry.
    let fr = cache.get_date_formatter("fr", DateLength::Full).expect("date full fr");
    assert_ne!(full, fr);
    assert_eq!(cache.date.entry_count(), 3);
    let _ = time;
}

#[test]
fn locales_hit_one_slot_by_canonical_form() {
    let mut cache = Formatters::new();
    let a = cache.get_num_formatter("en-US").expect("en-US");
    let b = cache.get_num_formatter("en-us").expect("en-us");
    let c = cache.get_num_formatter("EN-US").expect("EN-US");
    assert_eq!(a, b);
    assert_eq!(a, c);
    assert_eq!(cache.num.entry_count(), 1);
}

#[test]
fn datetime_and_list_and_plural_requests() {
    let mut cache = Formatters::new();
    let dt = cache
        .get_datetime_formatter("en", DateLength::Full, TimeLength::Short)
        .expect("a datetime engine");
    let dt2 = cache
        .get_datetime_formatter("en", DateLength::Full, TimeLength::Short)
        .expect("a datetime engine");
    assert_eq!(dt, dt2);
    let other = cache
        .get_datetime_formatter("en", DateLength::Long, TimeLength::Medium)
        .expect("a datetime engine");
    assert_ne!(dt, other);
    assert_eq!(cache.datetime.entry_count(), 2);

    let and_wide = cache
        .get_list_formatter("en", ListType::And, ListStyle::Wide)
        .expect("a list engine");
    let or_wide = cache
        .get_list_formatter("en", ListType::Or, ListStyle::Wide)
        .expect("a list engine");
    let and_narrow = cache
        .get_list_formatter("en", ListType::And, ListStyle::Narrow)
        .expect("a list engine");
    assert_ne!(and_wide, or_wide);
    assert_ne!(and_wide, and_narrow);
    assert_eq!(cache.list.entry_count(), 3);

    let cardinal = cache
        .get_plural_rules("en", PluralRuleCategory::Cardinal)
        .expect("plural rules");
    let ordinal = cache
        .get_plural_rules("en", PluralRuleCategory::Ordinal)
        .expect("plural rules");
    assert_ne!(cardinal, ordinal);
    let cardinal_again = cache
        .get_plural_rules("en", PluralRuleCategory::Cardinal)
        .expect("plural rules");
    assert_eq!(cardinal, cardinal_again);
    assert_eq!(cache.plural_rule.entry_count(), 2);
}

#[test]
fn unsupported_time_length_is_a_fatal_construction_failure() {
    // The locale-data engine cannot build a plain time formatter that would
    // need a time zone: the request fails, nothing is cached, and no default
    // engine is substituted.
    let mut cache = Formatters::new();
    let err = cache
        .get_time_formatter("en", TimeLength::Full)
        .expect_err("a full-length bare time formatter is not constructible");
    assert_eq!(err.kind, EngineKind::Time(TimeLength::Full));
    assert_eq!(err.locale, "en");
    assert_eq!(cache.time.entry_count(), 0);
}

#[test]
fn invalid_locale_is_a_construction_failure() {
    let mut cache = Formatters::new();
    let err = cache
        .get_num_formatter("not a locale !!!")
        .expect_err("an invalid locale cannot yield an engine");
    assert_eq!(err.kind, EngineKind::Number);
    assert_eq!(err.locale, "not a locale !!!");
    assert_eq!(cache.num.entry_count(), 0);

    let err = cache
        .get_date_formatter("???", DateLength::Short)
        .expect_err("an invalid locale cannot yield an engine");
    assert_eq!(err.kind, EngineKind::Date(DateLength::Short));
    assert_eq!(cache.date.entry_count(), 0);
}

#[test]
fn fatal_construction_stores_no_substitute() {
    // A locale-data source that always fails construction: the failed outcome
    // is handed to the cache and must leave it unchanged, with the failure
    // passed on instead of any degraded or default engine.
    let mut arena: EngineArena<u64> = EngineArena::new();
    let r = arena.insert_built("en".to_string(), 0, Err(EngineError));
    assert!(r.is_err());
    assert_eq!(arena.entry_count(), 0);

    // A successful construction is stored under a fresh index.
    let r = arena.insert_built("en".to_string(), 0, Ok(7u64));
    assert_eq!(r, Ok(0));
    assert_eq!(arena.entry_count(), 1);
    assert_eq!(*arena.engine(0), 7u64);
    assert_eq!(arena.find("en", 0), Some(0));
    assert_eq!(arena.find("en", 1), None);
    assert_eq!(arena.find("fr", 0), None);
}

#[test]
fn construction_failure_diagnostic() {
    let err = CacheError { kind: EngineKind::Date(DateLength::Full), locale: "en".to_string() };
    assert_eq!(
        err.describe(),
        "failed to construct date (full) engine for locale \"en\""
    );
    let err = CacheError {
        kind: EngineKind::DateTime(DateLength::Medium, TimeLength::Short),
        locale: "zz-ZZ".to_string(),
    };
    assert_eq!(
        err.describe(),
        "failed to construct datetime (medium, short) engine for locale \"zz-ZZ\""
    );
    let err = CacheError {
        kind: EngineKind::Plural(PluralRuleCategory::Ordinal),
        locale: "en".to_string(),
    };
    assert_eq!(
        err.describe(),
        "failed to construct plural rules (ordinal) engine for locale \"en\""
    );
    let err = CacheError {
        kind: EngineKind::List(ListType::Unit, ListStyle::Narrow),
        locale: "fr".to_string(),
    };
    assert_eq!(
        err.describe(),
        "failed to construct list (unit, narrow) engine for locale \"fr\""
    );
}

#[test]
fn diagnostics_of_simple_kinds() {
    let err = CacheError { kind: EngineKind::Number, locale: "de".to_string() };
    assert_eq!(err.describe(), "failed to construct number engine for locale \"de\"");
    let err = CacheError { kind: EngineKind::Time(TimeLength::Full), locale: "en".to_string() };
    assert_eq!(err.describe(), "failed to construct time (full) engine for locale \"en\"");
}

#[test]
fn engines_are_retrievable_at_their_index() {
    let mut cache = Formatters::new();
    let i = cache.get_num_formatter("en").expect("a number engine");
    assert!(i < cache.num.entry_count());
    // The reference stays valid for as long as the cache lives: entries are
    // never moved or evicted.
    let _engine: &icu::decimal::FixedDecimalFormatter = cache.num.engine(i);
}
