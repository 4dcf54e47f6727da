use i18n_format::resolver::{DateLength, Formatter, ListStyle, ListType, TimeLength};

#[test]
fn bounds_per_kind() {
    assert_eq!(Formatter::Plain.to_bound(), "l_i18n_crate::__private::InterpolateVar");
    assert_eq!(Formatter::Number.to_bound(), "l_i18n_crate::__private::NumberFormatterInputFn");
    assert_eq!(
        Formatter::Date(DateLength::Full).to_bound(),
        "l_i18n_crate::__private::DateFormatterInputFn"
    );
    assert_eq!(
        Formatter::Time(TimeLength::Short).to_bound(),
        "l_i18n_crate::__private::TimeFormatterInputFn"
    );
    assert_eq!(
        Formatter::DateTime(DateLength::Long, TimeLength::Long).to_bound(),
        "l_i18n_crate::__private::DateTimeFormatterInputFn"
    );
    assert_eq!(
        Formatter::List(ListType::And, ListStyle::Wide).to_bound(),
        "l_i18n_crate::__private::ListFormatterInputFn"
    );
}

#[test]
fn string_bounds_per_kind() {
    assert_eq!(Formatter::Plain.to_string_bound(), "::std::fmt::Display");
    assert_eq!(Formatter::Number.to_string_bound(), "l_i18n_crate::__private::IntoFixedDecimal");
    assert_eq!(
        Formatter::Date(DateLength::Medium).to_string_bound(),
        "l_i18n_crate::__private::AsIcuDate"
    );
    assert_eq!(
        Formatter::Time(TimeLength::Full).to_string_bound(),
        "l_i18n_crate::__private::AsIcuTime"
    );
    assert_eq!(
        Formatter::DateTime(DateLength::Short, TimeLength::Short).to_string_bound(),
        "l_i18n_crate::__private::AsIcuDateTime"
    );
    assert_eq!(
        Formatter::List(ListType::Unit, ListStyle::Narrow).to_string_bound(),
        "l_i18n_crate::__private::WriteableList"
    );
}

#[test]
fn token_paths() {
    assert_eq!(
        DateLength::Full.token_path(),
        "l_i18n_crate::reexports::icu::datetime::options::length::Date::Full"
    );
    assert_eq!(
        TimeLength::Long.token_path(),
        "l_i18n_crate::reexports::icu::datetime::options::length::Time::Long"
    );
    assert_eq!(ListType::Or.token_path(), "l_i18n_crate::__private::ListType::Or");
    assert_eq!(
        ListStyle::Narrow.token_path(),
        "l_i18n_crate::reexports::icu::list::ListLength::Narrow"
    );
}

#[test]
fn var_into_view_plain_and_date() {
    assert_eq!(
        Formatter::Plain.var_into_view("count", "locale"),
        "leptos::IntoView::into_view(core::clone::Clone::clone(&count))"
    );
    assert_eq!(
        Formatter::Date(DateLength::Full).var_into_view("count", "locale"),
        "leptos::IntoView::into_view(l_i18n_crate::__private::format_date_to_string(locale, \
         core::clone::Clone::clone(&count), \
         l_i18n_crate::reexports::icu::datetime::options::length::Date::Full))"
    );
}

#[test]
fn var_into_view_number_and_list() {
    assert_eq!(
        Formatter::Number.var_into_view("n", "loc"),
        "leptos::IntoView::into_view(l_i18n_crate::__private::format_number_to_string(loc, \
         core::clone::Clone::clone(&n)))"
    );
    assert_eq!(
        Formatter::List(ListType::And, ListStyle::Wide).var_into_view("xs", "loc"),
        "leptos::IntoView::into_view(l_i18n_crate::__private::format_list_to_string(loc, \
         core::clone::Clone::clone(&xs), l_i18n_crate::__private::ListType::And, \
         l_i18n_crate::reexports::icu::list::ListLength::Wide))"
    );
}

#[test]
fn var_fmt_per_kind() {
    assert_eq!(
        Formatter::Plain.var_fmt("count", "locale"),
        "core::fmt::Display::fmt(count, __formatter)"
    );
    assert_eq!(
        Formatter::Number.var_fmt("count", "locale"),
        "l_i18n_crate::__private::format_number_to_formatter(__formatter, *locale, \
         core::clone::Clone::clone(count))"
    );
    assert_eq!(
        Formatter::Date(DateLength::Short).var_fmt("d", "loc"),
        "l_i18n_crate::__private::format_date_to_formatter(__formatter, *loc, d, \
         l_i18n_crate::reexports::icu::datetime::options::length::Date::Short)"
    );
    assert_eq!(
        Formatter::DateTime(DateLength::Full, TimeLength::Long).var_fmt("d", "loc"),
        "l_i18n_crate::__private::format_datetime_to_formatter(__formatter, *loc, d, \
         l_i18n_crate::reexports::icu::datetime::options::length::Date::Full, \
         l_i18n_crate::reexports::icu::datetime::options::length::Time::Long)"
    );
    assert_eq!(
        Formatter::List(ListType::Unit, ListStyle::Short).var_fmt("xs", "loc"),
        "l_i18n_crate::__private::format_list_to_formatter(__formatter, *loc, \
         core::clone::Clone::clone(xs), l_i18n_crate::__private::ListType::Unit, \
         l_i18n_crate::reexports::icu::list::ListLength::Short)"
    );
}

#[test]
fn var_fmt_and_view_for_time() {
    assert_eq!(
        Formatter::Time(TimeLength::Medium).var_fmt("t", "loc"),
        "l_i18n_crate::__private::format_time_to_formatter(__formatter, *loc, t, \
         l_i18n_crate::reexports::icu::datetime::options::length::Time::Medium)"
    );
    assert_eq!(
        Formatter::Time(TimeLength::Medium).var_into_view("t", "loc"),
        "leptos::IntoView::into_view(l_i18n_crate::__private::format_time_to_string(loc, \
         core::clone::Clone::clone(&t), \
         l_i18n_crate::reexports::icu::datetime::options::length::Time::Medium))"
    );
}

#[test]
fn cross_mode_same_family_and_configuration() {
    let kinds = vec![
        Formatter::Number,
        Formatter::Date(DateLength::Full),
        Formatter::Time(TimeLength::Medium),
        Formatter::DateTime(DateLength::Short, TimeLength::Full),
        Formatter::List(ListType::Or, ListStyle::Narrow),
    ];
    for f in kinds {
        let view = f.var_into_view("v", "loc");
        let writer = f.var_fmt("v", "loc");
        let family = f.family_name();
        // Both production modes dispatch to the same formatting family...
        assert!(view.contains(&format!("{family}_string(")));
        assert!(writer.contains(&format!("{family}_formatter(")));
        // ...and embed the same configuration tokens.
        match f {
            Formatter::Date(l) => {
                assert!(view.contains(l.token_path()));
                assert!(writer.contains(l.token_path()));
            }
            Formatter::Time(l) => {
                assert!(view.contains(l.token_path()));
                assert!(writer.contains(l.token_path()));
            }
            Formatter::DateTime(d, t) => {
                assert!(view.contains(d.token_path()) && view.contains(t.token_path()));
                assert!(writer.contains(d.token_path()) && writer.contains(t.token_path()));
            }
            Formatter::List(t, s) => {
                assert!(view.contains(t.token_path()) && view.contains(s.token_path()));
                assert!(writer.contains(t.token_path()) && writer.contains(s.token_path()));
            }
            _ => {}
        }
    }
}
