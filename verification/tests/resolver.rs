use i18n_format::resolver::{
    from_args_helper, recognized_name, DateLength, Formatter, ListStyle, ListType, TimeLength,
};

fn pairs(ps: &[(&str, &str)]) -> Vec<(String, String)> {
    ps.iter().map(|(a, b)| (a.to_string(), b.to_string())).collect()
}

#[test]
fn default_resolution_date() {
    assert_eq!(
        Formatter::from_name_and_args("date", None),
        Formatter::Date(DateLength::Medium)
    );
}

#[test]
fn default_resolution_time() {
    assert_eq!(
        Formatter::from_name_and_args("time", None),
        Formatter::Time(TimeLength::Short)
    );
}

#[test]
fn default_resolution_list() {
    assert_eq!(
        Formatter::from_name_and_args("list", None),
        Formatter::List(ListType::And, ListStyle::Wide)
    );
}

#[test]
fn default_resolution_number_and_datetime() {
    assert_eq!(Formatter::from_name_and_args("number", None), Formatter::Number);
    assert_eq!(
        Formatter::from_name_and_args("datetime", None),
        Formatter::DateTime(DateLength::Medium, TimeLength::Short)
    );
}

#[test]
fn argument_override() {
    let args = pairs(&[("date_length", "full"), ("time_length", "long")]);
    assert_eq!(
        Formatter::from_name_and_args("datetime", Some(&args)),
        Formatter::DateTime(DateLength::Full, TimeLength::Long)
    );
}

#[test]
fn first_match_wins() {
    let args = pairs(&[("date_length", "short"), ("date_length", "long")]);
    assert_eq!(
        Formatter::from_name_and_args("date", Some(&args)),
        Formatter::Date(DateLength::Short)
    );
}

#[test]
fn unknown_argument_tolerance() {
    let args = pairs(&[("foo", "bar")]);
    assert_eq!(Formatter::from_name_and_args("number", Some(&args)), Formatter::Number);
    assert_eq!(
        Formatter::from_name_and_args("date", Some(&args)),
        Formatter::Date(DateLength::Medium)
    );
}

#[test]
fn unrecognized_value_is_skipped() {
    let args = pairs(&[("date_length", "tiny")]);
    assert_eq!(
        Formatter::from_name_and_args("date", Some(&args)),
        Formatter::Date(DateLength::Medium)
    );
    let args = pairs(&[("date_length", "tiny"), ("date_length", "full")]);
    assert_eq!(
        Formatter::from_name_and_args("date", Some(&args)),
        Formatter::Date(DateLength::Full)
    );
}

#[test]
fn matching_is_exact_and_case_sensitive() {
    let args = pairs(&[("date_length", "Full"), ("DATE_LENGTH", "full")]);
    assert_eq!(
        Formatter::from_name_and_args("date", Some(&args)),
        Formatter::Date(DateLength::Medium)
    );
}

#[test]
fn list_arguments() {
    let args = pairs(&[("type", "or"), ("style", "narrow")]);
    assert_eq!(
        Formatter::from_name_and_args("list", Some(&args)),
        Formatter::List(ListType::Or, ListStyle::Narrow)
    );
    let args = pairs(&[("type", "unit")]);
    assert_eq!(
        Formatter::from_name_and_args("list", Some(&args)),
        Formatter::List(ListType::Unit, ListStyle::Wide)
    );
}

#[test]
fn from_args_on_each_enum() {
    assert_eq!(DateLength::from_args(None), DateLength::Medium);
    assert_eq!(TimeLength::from_args(None), TimeLength::Short);
    assert_eq!(ListType::from_args(None), ListType::And);
    assert_eq!(ListStyle::from_args(None), ListStyle::Wide);
    let args = pairs(&[("time_length", "medium")]);
    assert_eq!(TimeLength::from_args(Some(&args)), TimeLength::Medium);
}

#[test]
fn from_args_helper_scans_in_order() {
    let accepted: Vec<&str> = vec!["full", "long", "medium", "short"];
    let args = pairs(&[("other", "full"), ("date_length", "long")]);
    assert_eq!(from_args_helper(Some(&args), "date_length", &accepted), Some(1));
    assert_eq!(from_args_helper(Some(&args), "missing", &accepted), None);
    assert_eq!(from_args_helper(None, "date_length", &accepted), None);
}

#[test]
fn recognized_names() {
    assert!(recognized_name("number"));
    assert!(recognized_name("datetime"));
    assert!(recognized_name("date"));
    assert!(recognized_name("time"));
    assert!(recognized_name("list"));
    assert!(!recognized_name("currency"));
    assert!(!recognized_name("Date"));
    assert!(!recognized_name(""));
}

#[test]
fn defaults_of_the_value_types() {
    assert_eq!(DateLength::default(), DateLength::Medium);
    assert_eq!(TimeLength::default(), TimeLength::Short);
    assert_eq!(ListType::default(), ListType::And);
    assert_eq!(ListStyle::default(), ListStyle::Wide);
    assert_eq!(Formatter::default(), Formatter::Plain);
}
