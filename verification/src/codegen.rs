//! The code shapes derived from a resolved formatter kind.
//!
//! For each kind the resolver exposes: the capability bound the interpolated
//! value's type must satisfy (one per output flavour), and two production
//! expressions — one that yields a display-tree node and one that writes into
//! a text formatter. Both are produced here as plain source text; turning the
//! text into a token stream is left to the code-generation plumbing around
//! the library. The two production modes call the same formatting-function
//! family with the same configuration tokens, which is what keeps their
//! rendered output identical for one and the same value.

use vstd::prelude::*;
use vstd::string::StringExecFns;
use crate::resolver::{DateLength, Formatter, ListStyle, ListType, TimeLength};

verus! {

/// The token path of a date length in generated code.
pub open spec fn spec_date_token(l: DateLength) -> Seq<char> {
    match l {
        DateLength::Full => "l_i18n_crate::reexports::icu::datetime::options::length::Date::Full"@,
        DateLength::Long => "l_i18n_crate::reexports::icu::datetime::options::length::Date::Long"@,
        DateLength::Medium
            => "l_i18n_crate::reexports::icu::datetime::options::length::Date::Medium"@,
        DateLength::Short
            => "l_i18n_crate::reexports::icu::datetime::options::length::Date::Short"@,
    }
}

/// The token path of a time length in generated code.
pub open spec fn spec_time_token(l: TimeLength) -> Seq<char> {
    match l {
        TimeLength::Full => "l_i18n_crate::reexports::icu::datetime::options::length::Time::Full"@,
        TimeLength::Long => "l_i18n_crate::reexports::icu::datetime::options::length::Time::Long"@,
        TimeLength::Medium
            => "l_i18n_crate::reexports::icu::datetime::options::length::Time::Medium"@,
        TimeLength::Short
            => "l_i18n_crate::reexports::icu::datetime::options::length::Time::Short"@,
    }
}

/// The token path of a list type in generated code.
pub open spec fn spec_list_type_token(t: ListType) -> Seq<char> {
    match t {
        ListType::And => "l_i18n_crate::__private::ListType::And"@,
        ListType::Or => "l_i18n_crate::__private::ListType::Or"@,
        ListType::Unit => "l_i18n_crate::__private::ListType::Unit"@,
    }
}

/// The token path of a list style in generated code.
pub open spec fn spec_list_style_token(s: ListStyle) -> Seq<char> {
    match s {
        ListStyle::Wide => "l_i18n_crate::reexports::icu::list::ListLength::Wide"@,
        ListStyle::Short => "l_i18n_crate::reexports::icu::list::ListLength::Short"@,
        ListStyle::Narrow => "l_i18n_crate::reexports::icu::list::ListLength::Narrow"@,
    }
}

impl DateLength {
    /// The token path this length stands for in generated code.
    pub fn token_path(&self) -> (r: &'static str)
        ensures
            r@ == spec_date_token(*self),
    {
        match self {
            DateLength::Full => "l_i18n_crate::reexports::icu::datetime::options::length::Date::Full",
            DateLength::Long => "l_i18n_crate::reexports::icu::datetime::options::length::Date::Long",
            DateLength::Medium => "l_i18n_crate::reexports::icu::datetime::options::length::Date::Medium",
            DateLength::Short => "l_i18n_crate::reexports::icu::datetime::options::length::Date::Short",
        }
    }
}

impl TimeLength {
    /// The token path this length stands for in generated code.
    pub fn token_path(&self) -> (r: &'static str)
        ensures
            r@ == spec_time_token(*self),
    {
        match self {
            TimeLength::Full => "l_i18n_crate::reexports::icu::datetime::options::length::Time::Full",
            TimeLength::Long => "l_i18n_crate::reexports::icu::datetime::options::length::Time::Long",
            TimeLength::Medium => "l_i18n_crate::reexports::icu::datetime::options::length::Time::Medium",
            TimeLength::Short => "l_i18n_crate::reexports::icu::datetime::options::length::Time::Short",
        }
    }
}

impl ListType {
    /// The token path this list type stands for in generated code.
    pub fn token_path(&self) -> (r: &'static str)
        ensures
            r@ == spec_list_type_token(*self),
    {
        match self {
            ListType::And => "l_i18n_crate::__private::ListType::And",
            ListType::Or => "l_i18n_crate::__private::ListType::Or",
            ListType::Unit => "l_i18n_crate::__private::ListType::Unit",
        }
    }
}

impl ListStyle {
    /// The token path this list style stands for in generated code.
    pub fn token_path(&self) -> (r: &'static str)
        ensures
            r@ == spec_list_style_token(*self),
    {
        match self {
            ListStyle::Wide => "l_i18n_crate::reexports::icu::list::ListLength::Wide",
            ListStyle::Short => "l_i18n_crate::reexports::icu::list::ListLength::Short",
            ListStyle::Narrow => "l_i18n_crate::reexports::icu::list::ListLength::Narrow",
        }
    }
}

/// The capability bound of each kind for display-tree production.
pub open spec fn spec_to_bound(f: Formatter) -> Seq<char> {
    match f {
        Formatter::Plain => "l_i18n_crate::__private::InterpolateVar"@,
        Formatter::Number => "l_i18n_crate::__private::NumberFormatterInputFn"@,
        Formatter::Date(_) => "l_i18n_crate::__private::DateFormatterInputFn"@,
        Formatter::Time(_) => "l_i18n_crate::__private::TimeFormatterInputFn"@,
        Formatter::DateTime(_, _) => "l_i18n_crate::__private::DateTimeFormatterInputFn"@,
        Formatter::List(_, _) => "l_i18n_crate::__private::ListFormatterInputFn"@,
    }
}

/// The capability bound of each kind for writer production.
pub open spec fn spec_to_string_bound(f: Formatter) -> Seq<char> {
    match f {
        Formatter::Plain => "::std::fmt::Display"@,
        Formatter::Number => "l_i18n_crate::__private::IntoFixedDecimal"@,
        Formatter::Date(_) => "l_i18n_crate::__private::AsIcuDate"@,
        Formatter::Time(_) => "l_i18n_crate::__private::AsIcuTime"@,
        Formatter::DateTime(_, _) => "l_i18n_crate::__private::AsIcuDateTime"@,
        Formatter::List(_, _) => "l_i18n_crate::__private::WriteableList"@,
    }
}

/// The formatting-function family the display-tree production calls.
pub open spec fn spec_view_family(f: Formatter) -> Seq<char> {
    match f {
        Formatter::Plain => Seq::<char>::empty(),
        Formatter::Number => "format_number_to"@,
        Formatter::Date(_) => "format_date_to"@,
        Formatter::Time(_) => "format_time_to"@,
        Formatter::DateTime(_, _) => "format_datetime_to"@,
        Formatter::List(_, _) => "format_list_to"@,
    }
}

/// The formatting-function family the writer production calls.
pub open spec fn spec_writer_family(f: Formatter) -> Seq<char> {
    match f {
        Formatter::Plain => Seq::<char>::empty(),
        Formatter::Number => "format_number_to"@,
        Formatter::Date(_) => "format_date_to"@,
        Formatter::Time(_) => "format_time_to"@,
        Formatter::DateTime(_, _) => "format_datetime_to"@,
        Formatter::List(_, _) => "format_list_to"@,
    }
}

/// The configuration tokens the display-tree production passes on.
pub open spec fn spec_view_configs(f: Formatter) -> Seq<Seq<char>> {
    match f {
        Formatter::Plain => Seq::<Seq<char>>::empty(),
        Formatter::Number => Seq::<Seq<char>>::empty(),
        Formatter::Date(l) => seq![spec_date_token(l)],
        Formatter::Time(l) => seq![spec_time_token(l)],
        Formatter::DateTime(d, t) => seq![spec_date_token(d), spec_time_token(t)],
        Formatter::List(t, s) => seq![spec_list_type_token(t), spec_list_style_token(s)],
    }
}

/// The configuration tokens the writer production passes on.
pub open spec fn spec_writer_configs(f: Formatter) -> Seq<Seq<char>> {
    match f {
        Formatter::Plain => Seq::<Seq<char>>::empty(),
        Formatter::Number => Seq::<Seq<char>>::empty(),
        Formatter::Date(l) => seq![spec_date_token(l)],
        Formatter::Time(l) => seq![spec_time_token(l)],
        Formatter::DateTime(d, t) => seq![spec_date_token(d), spec_time_token(t)],
        Formatter::List(t, s) => seq![spec_list_type_token(t), spec_list_style_token(s)],
    }
}

/// Cross-mode consistency: for every kind, the display-tree production and
/// the writer production call the same formatting-function family with the
/// same configuration tokens, so for one (kind, configuration, locale, value)
/// both modes render through the same engine and produce the same text.
pub proof fn lemma_cross_mode_consistency(f: Formatter)
    ensures
        spec_view_family(f) == spec_writer_family(f),
        spec_view_configs(f) =~~= spec_writer_configs(f),
{
}

/// The trailing `, token` argument text of a configuration token list.
pub open spec fn spec_args_suffix(configs: Seq<Seq<char>>) -> Seq<char>
    decreases configs.len(),
{
    if configs.len() == 0 {
        Seq::<char>::empty()
    } else {
        ", "@ + configs[0] + spec_args_suffix(configs.drop_first())
    }
}

/// The display-tree production of a kind: source text that turns the value
/// named `key` into a renderable node, formatting it for the locale named
/// `locale_field`.
pub open spec fn spec_var_into_view(f: Formatter, key: Seq<char>, locale_field: Seq<char>) -> Seq<
    char,
> {
    match f {
        Formatter::Plain => "leptos::IntoView::into_view(core::clone::Clone::clone(&"@ + key
            + "))"@,
        _ => "leptos::IntoView::into_view(l_i18n_crate::__private::"@ + spec_view_family(f)
            + "_string("@ + locale_field + ", core::clone::Clone::clone(&"@ + key + ")"@
            + spec_args_suffix(spec_view_configs(f)) + "))"@,
    }
}

/// The value expression the writer production hands to the formatting call.
pub open spec fn spec_writer_value(f: Formatter, key: Seq<char>) -> Seq<char> {
    match f {
        Formatter::Number => "core::clone::Clone::clone("@ + key + ")"@,
        Formatter::List(_, _) => "core::clone::Clone::clone("@ + key + ")"@,
        _ => key,
    }
}

/// The writer production of a kind: source text that writes the value named
/// `key`, formatted for the locale named `locale_field`, into the
/// surrounding text formatter.
pub open spec fn spec_var_fmt(f: Formatter, key: Seq<char>, locale_field: Seq<char>) -> Seq<char> {
    match f {
        Formatter::Plain => "core::fmt::Display::fmt("@ + key + ", __formatter)"@,
        _ => "l_i18n_crate::__private::"@ + spec_writer_family(f) + "_formatter(__formatter, *"@
            + locale_field + ", "@ + spec_writer_value(f, key) + spec_args_suffix(
            spec_writer_configs(f),
        ) + ")"@,
    }
}

/// Unfolds `spec_args_suffix` for the token lists of up to two entries that
/// the six kinds use.
proof fn lemma_args_suffix_small(configs: Seq<Seq<char>>)
    ensures
        configs.len() == 0 ==> spec_args_suffix(configs) == Seq::<char>::empty(),
        configs.len() == 1 ==> spec_args_suffix(configs) == ", "@ + configs[0]
            + Seq::<char>::empty(),
        configs.len() == 2 ==> spec_args_suffix(configs) == ", "@ + configs[0] + (", "@
            + configs[1] + Seq::<char>::empty()),
{
    if configs.len() == 1 {
        assert(configs.drop_first().len() == 0);
        assert(spec_args_suffix(configs.drop_first()) == Seq::<char>::empty());
    }
    if configs.len() == 2 {
        let rest = configs.drop_first();
        assert(rest.len() == 1);
        assert(rest[0] == configs[1]);
        assert(rest.drop_first().len() == 0);
        assert(spec_args_suffix(rest.drop_first()) == Seq::<char>::empty());
        assert(spec_args_suffix(rest) == ", "@ + rest[0] + spec_args_suffix(rest.drop_first()));
        assert(spec_args_suffix(rest) == ", "@ + configs[1] + Seq::<char>::empty());
    }
}

impl Formatter {
    /// The capability bound the interpolated value's type must satisfy for
    /// display-tree production with this kind.
    pub fn to_bound(self) -> (r: &'static str)
        ensures
            r@ == spec_to_bound(self),
    {
        match self {
            Formatter::Plain => "l_i18n_crate::__private::InterpolateVar",
            Formatter::Number => "l_i18n_crate::__private::NumberFormatterInputFn",
            Formatter::Date(_) => "l_i18n_crate::__private::DateFormatterInputFn",
            Formatter::Time(_) => "l_i18n_crate::__private::TimeFormatterInputFn",
            Formatter::DateTime(_, _) => "l_i18n_crate::__private::DateTimeFormatterInputFn",
            Formatter::List(_, _) => "l_i18n_crate::__private::ListFormatterInputFn",
        }
    }

    /// The capability bound the interpolated value's type must satisfy for
    /// writer production with this kind.
    pub fn to_string_bound(self) -> (r: &'static str)
        ensures
            r@ == spec_to_string_bound(self),
    {
        match self {
            Formatter::Plain => "::std::fmt::Display",
            Formatter::Number => "l_i18n_crate::__private::IntoFixedDecimal",
            Formatter::Date(_) => "l_i18n_crate::__private::AsIcuDate",
            Formatter::Time(_) => "l_i18n_crate::__private::AsIcuTime",
            Formatter::DateTime(_, _) => "l_i18n_crate::__private::AsIcuDateTime",
            Formatter::List(_, _) => "l_i18n_crate::__private::WriteableList",
        }
    }

    /// The formatting-function family this kind formats through; empty for
    /// `Plain`, which formats through the value's own display.
    pub fn family_name(self) -> (r: &'static str)
        ensures
            r@ == spec_view_family(self),
            r@ == spec_writer_family(self),
    {
        proof {
            reveal_strlit("");
        }
        match self {
            Formatter::Plain => "",
            Formatter::Number => "format_number_to",
            Formatter::Date(_) => "format_date_to",
            Formatter::Time(_) => "format_time_to",
            Formatter::DateTime(_, _) => "format_datetime_to",
            Formatter::List(_, _) => "format_list_to",
        }
    }

    /// Appends the `, token` configuration arguments of this kind.
    fn append_config_args(self, s: &mut String)
        ensures
            final(s)@ == old(s)@ + spec_args_suffix(spec_view_configs(self)),
            final(s)@ == old(s)@ + spec_args_suffix(spec_writer_configs(self)),
    {
        proof {
            lemma_args_suffix_small(spec_view_configs(self));
        }
        match self {
            Formatter::Date(l) => {
                s.append(", ");
                s.append(l.token_path());
            },
            Formatter::Time(l) => {
                s.append(", ");
                s.append(l.token_path());
            },
            Formatter::DateTime(d, t) => {
                s.append(", ");
                s.append(d.token_path());
                s.append(", ");
                s.append(t.token_path());
            },
            Formatter::List(t, st) => {
                s.append(", ");
                s.append(t.token_path());
                s.append(", ");
                s.append(st.token_path());
            },
            _ => {},
        }
        proof {
            assert(s@ =~= old(s)@ + spec_args_suffix(spec_view_configs(self)));
        }
    }

    /// The display-tree production of this kind, as source text over the
    /// value named `key` and the locale named `locale_field`.
    pub fn var_into_view(self, key: &str, locale_field: &str) -> (r: String)
        ensures
            r@ == spec_var_into_view(self, key@, locale_field@),
    {
        match self {
            Formatter::Plain => {
                let mut s = String::from_str(
                    "leptos::IntoView::into_view(core::clone::Clone::clone(&",
                );
                s.append(key);
                s.append("))");
                proof {
                    assert(s@ =~= spec_var_into_view(self, key@, locale_field@));
                }
                s
            },
            _ => {
                let mut s = String::from_str("leptos::IntoView::into_view(l_i18n_crate::__private::");
                s.append(self.family_name());
                s.append("_string(");
                s.append(locale_field);
                s.append(", core::clone::Clone::clone(&");
                s.append(key);
                s.append(")");
                self.append_config_args(&mut s);
                s.append("))");
                proof {
                    assert(s@ =~= spec_var_into_view(self, key@, locale_field@));
                }
                s
            },
        }
    }

    /// The writer production of this kind, as source text over the value
    /// named `key`, the locale named `locale_field` and the surrounding text
    /// formatter.
    pub fn var_fmt(self, key: &str, locale_field: &str) -> (r: String)
        ensures
            r@ == spec_var_fmt(self, key@, locale_field@),
    {
        match self {
            Formatter::Plain => {
                let mut s = String::from_str("core::fmt::Display::fmt(");
                s.append(key);
                s.append(", __formatter)");
                proof {
                    assert(s@ =~= spec_var_fmt(self, key@, locale_field@));
                }
                s
            },
            _ => {
                let mut s = String::from_str("l_i18n_crate::__private::");
                s.append(self.family_name());
                s.append("_formatter(__formatter, *");
                s.append(locale_field);
                s.append(", ");
                match self {
                    Formatter::Number => {
                        s.append("core::clone::Clone::clone(");
                        s.append(key);
                        s.append(")");
                    },
                    Formatter::List(_, _) => {
                        s.append("core::clone::Clone::clone(");
                        s.append(key);
                        s.append(")");
                    },
                    _ => {
                        s.append(key);
                    },
                }
                self.append_config_args(&mut s);
                s.append(")");
                proof {
                    assert(s@ =~= spec_var_fmt(self, key@, locale_field@));
                }
                s
            },
        }
    }
}

} // verus!
