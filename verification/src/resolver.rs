//! The formatter descriptor resolver.
//!
//! A formatter request is a name (one of `"number"`, `"datetime"`, `"date"`,
//! `"time"`, `"list"`) plus an optional ordered list of `(name, value)`
//! argument pairs. The resolver turns such a request into a [`Formatter`]
//! kind whose configuration fields are filled in from the first recognized
//! argument, or from the field's default when no argument matches. Matching
//! is case-sensitive and exact; unrecognized argument names and values are
//! ignored.

use vstd::prelude::*;
use crate::text::str_eq;

verus! {

/// The length configuration of a date formatter. Defaults to `Medium`.
#[derive(Debug, Clone, Copy, PartialEq, Eq, Structural, Hash)]
pub enum DateLength {
    Full,
    Long,
    Medium,
    Short,
}

impl Default for DateLength {
    fn default() -> (r: Self)
        ensures
            r == DateLength::Medium,
    {
        DateLength::Medium
    }
}

/// The length configuration of a time formatter. Defaults to `Short`.
#[derive(Debug, Clone, Copy, PartialEq, Eq, Structural, Hash)]
pub enum TimeLength {
    Full,
    Long,
    Medium,
    Short,
}

impl Default for TimeLength {
    fn default() -> (r: Self)
        ensures
            r == TimeLength::Short,
    {
        TimeLength::Short
    }
}

/// The conjunction type of a list formatter. Defaults to `And`.
#[derive(Debug, Clone, Copy, PartialEq, Eq, Structural, Hash)]
pub enum ListType {
    And,
    Or,
    Unit,
}

impl Default for ListType {
    fn default() -> (r: Self)
        ensures
            r == ListType::And,
    {
        ListType::And
    }
}

/// The width configuration of a list formatter. Defaults to `Wide`.
#[derive(Debug, Clone, Copy, PartialEq, Eq, Structural, Hash)]
pub enum ListStyle {
    Wide,
    Short,
    Narrow,
}

impl Default for ListStyle {
    fn default() -> (r: Self)
        ensures
            r == ListStyle::Wide,
    {
        ListStyle::Wide
    }
}

/// The resolved formatter kind of one interpolation site, with its full
/// configuration. Defaults to `Plain` (no formatting, plain display).
#[derive(Debug, Clone, Copy, PartialEq, Eq, Structural, Hash)]
pub enum Formatter {
    Plain,
    Number,
    Date(DateLength),
    Time(TimeLength),
    DateTime(DateLength, TimeLength),
    List(ListType, ListStyle),
}

impl Default for Formatter {
    fn default() -> (r: Self)
        ensures
            r == Formatter::Plain,
    {
        Formatter::Plain
    }
}

/// The sequences of characters of an argument list, pair by pair.
pub open spec fn pairs_view(args: Seq<(String, String)>) -> Seq<(Seq<char>, Seq<char>)> {
    args.map_values(|p: (String, String)| (p.0@, p.1@))
}

/// The view of an optional argument list as handed to the resolver.
pub open spec fn opt_args_view(args: Option<&Vec<(String, String)>>) -> Option<
    Seq<(Seq<char>, Seq<char>)>,
> {
    match args {
        Option::Some(v) => Option::Some(pairs_view(v@)),
        Option::None => Option::None,
    }
}

/// The views of a list of accepted value literals.
pub open spec fn accepted_views(accepted: Seq<&str>) -> Seq<Seq<char>> {
    accepted.map_values(|s: &str| s@)
}

/// The index of the first element of `accepted` equal to `v`, if any.
pub open spec fn spec_value_index(accepted: Seq<Seq<char>>, v: Seq<char>) -> Option<int>
    decreases accepted.len(),
{
    if accepted.len() == 0 {
        Option::None
    } else if accepted[0] == v {
        Option::Some(0int)
    } else {
        match spec_value_index(accepted.drop_first(), v) {
            Option::Some(i) => Option::Some(i + 1),
            Option::None => Option::None,
        }
    }
}

/// What one scan of the argument list yields: the accepted-value index taken
/// from the first pair whose name is `name` and whose value is one of
/// `accepted`. Pairs with the right name but an unrecognized value are
/// skipped, exactly as pairs with another name are.
pub open spec fn spec_scan_args(
    args: Seq<(Seq<char>, Seq<char>)>,
    name: Seq<char>,
    accepted: Seq<Seq<char>>,
) -> Option<int>
    decreases args.len(),
{
    if args.len() == 0 {
        Option::None
    } else if args[0].0 == name && spec_value_index(accepted, args[0].1) is Some {
        spec_value_index(accepted, args[0].1)
    } else {
        spec_scan_args(args.drop_first(), name, accepted)
    }
}

/// The result of resolving one named argument against an optional argument
/// list: absent arguments resolve to nothing, so the caller's default wins.
pub open spec fn spec_from_args_helper(
    args: Option<Seq<(Seq<char>, Seq<char>)>>,
    name: Seq<char>,
    accepted: Seq<Seq<char>>,
) -> Option<int> {
    match args {
        Option::None => Option::None,
        Option::Some(s) => spec_scan_args(s, name, accepted),
    }
}

/// `spec_value_index` finds exactly the first occurrence, and fails exactly
/// when there is none.
pub proof fn lemma_value_index_properties(accepted: Seq<Seq<char>>, v: Seq<char>)
    ensures
        match spec_value_index(accepted, v) {
            Option::Some(i) => 0 <= i < accepted.len() && accepted[i] == v && (forall|k: int|
                0 <= k < i ==> accepted[k] != v),
            Option::None => forall|k: int| 0 <= k < accepted.len() ==> accepted[k] != v,
        },
    decreases accepted.len(),
{
    if accepted.len() > 0 && accepted[0] != v {
        let rest = accepted.drop_first();
        lemma_value_index_properties(rest, v);
        assert(forall|k: int| 1 <= k < accepted.len() ==> accepted[k] == rest[k - 1]);
        match spec_value_index(rest, v) {
            Option::Some(i) => {
                assert(accepted[i + 1] == rest[i]);
                assert forall|k: int| 0 <= k < i + 1 implies accepted[k] != v by {
                    if k >= 1 {
                        assert(accepted[k] == rest[k - 1]);
                    }
                }
            },
            Option::None => {
                assert forall|k: int| 0 <= k < accepted.len() implies accepted[k] != v by {
                    if k >= 1 {
                        assert(accepted[k] == rest[k - 1]);
                    }
                }
            },
        }
    }
}

/// The index of the first element of `accepted` equal to `v`.
fn value_index(accepted: &Vec<&str>, v: &str) -> (r: Option<usize>)
    ensures
        match r {
            Option::Some(j) => spec_value_index(accepted_views(accepted@), v@) == Option::Some(
                j as int,
            ),
            Option::None => spec_value_index(accepted_views(accepted@), v@) is None,
        },
{
    let ghost acc = accepted_views(accepted@);
    let mut j: usize = 0;
    let n = accepted.len();
    while j < n
        invariant
            n == accepted.len(),
            acc == accepted_views(accepted@),
            acc.len() == n,
            j <= n,
            forall|k: int| 0 <= k < j ==> acc[k] != v@,
        decreases n - j,
    {
        if str_eq(accepted[j], v) {
            proof {
                assert(acc[j as int] == accepted@[j as int]@);
                lemma_value_index_properties(acc, v@);
                assert(spec_value_index(acc, v@) == Option::Some(j as int));
            }
            return Option::Some(j);
        }
        proof {
            assert(acc[j as int] == accepted@[j as int]@);
        }
        j += 1;
    }
    proof {
        lemma_value_index_properties(acc, v@);
    }
    Option::None
}

/// Resolves one named argument: scans the pairs in order and returns the
/// accepted-value index of the first pair whose name is `name` and whose
/// value is one of `accepted`, or `None` when no pair matches or the list is
/// absent.
pub fn from_args_helper(
    args: Option<&Vec<(String, String)>>,
    name: &str,
    accepted: &Vec<&str>,
) -> (r: Option<usize>)
    ensures
        match r {
            Option::Some(j) => spec_from_args_helper(
                opt_args_view(args),
                name@,
                accepted_views(accepted@),
            ) == Option::Some(j as int),
            Option::None => spec_from_args_helper(
                opt_args_view(args),
                name@,
                accepted_views(accepted@),
            ) is None,
        },
{
    let arglist = match args {
        Option::Some(a) => a,
        Option::None => {
            return Option::None;
        },
    };
    let ghost pairs = pairs_view(arglist@);
    let ghost acc = accepted_views(accepted@);
    let mut i: usize = 0;
    let n = arglist.len();
    proof {
        assert(pairs.skip(0) =~= pairs);
    }
    while i < n
        invariant
            args == Option::Some(arglist),
            n == arglist.len(),
            pairs == pairs_view(arglist@),
            acc == accepted_views(accepted@),
            pairs.len() == n,
            i <= n,
            spec_scan_args(pairs, name@, acc) == spec_scan_args(pairs.skip(i as int), name@, acc),
        decreases n - i,
    {
        let ghost rest = pairs.skip(i as int);
        proof {
            assert(pairs[i as int] == (arglist@[i as int].0@, arglist@[i as int].1@));
            assert(rest[0] == pairs[i as int]);
        }
        let pair = &arglist[i];
        if str_eq(pair.0.as_str(), name) {
            if let Option::Some(j) = value_index(accepted, pair.1.as_str()) {
                proof {
                    assert(spec_value_index(acc, rest[0].1) == Option::Some(j as int));
                    assert(spec_scan_args(pairs, name@, acc) == Option::Some(j as int));
                    assert(opt_args_view(args) == Option::Some(pairs));
                }
                return Option::Some(j);
            }
        }
        proof {
            assert(!(rest[0].0 == name@ && spec_value_index(acc, rest[0].1) is Some));
            assert(rest.drop_first() =~= pairs.skip(i + 1));
        }
        i += 1;
    }
    proof {
        assert(pairs.skip(n as int).len() == 0);
    }
    Option::None
}

/// A scan result always indexes into the accepted values.
pub proof fn lemma_scan_args_in_range(
    args: Seq<(Seq<char>, Seq<char>)>,
    name: Seq<char>,
    accepted: Seq<Seq<char>>,
)
    ensures
        spec_scan_args(args, name, accepted) matches Option::Some(i) ==> 0 <= i < accepted.len(),
    decreases args.len(),
{
    if args.len() > 0 {
        if args[0].0 == name && spec_value_index(accepted, args[0].1) is Some {
            lemma_value_index_properties(accepted, args[0].1);
        } else {
            lemma_scan_args_in_range(args.drop_first(), name, accepted);
        }
    }
}

/// The accepted value literals of both length arguments.
pub open spec fn length_value_views() -> Seq<Seq<char>> {
    seq!["full"@, "long"@, "medium"@, "short"@]
}

/// The length selected by an index into `length_value_views`.
pub open spec fn date_length_of_index(i: int) -> DateLength {
    if i == 0 {
        DateLength::Full
    } else if i == 1 {
        DateLength::Long
    } else if i == 2 {
        DateLength::Medium
    } else {
        DateLength::Short
    }
}

/// The length selected by an index into `length_value_views`.
pub open spec fn time_length_of_index(i: int) -> TimeLength {
    if i == 0 {
        TimeLength::Full
    } else if i == 1 {
        TimeLength::Long
    } else if i == 2 {
        TimeLength::Medium
    } else {
        TimeLength::Short
    }
}

impl DateLength {
    /// What resolving the `date_length` argument yields: the first recognized
    /// value, or `Medium` when none matches.
    pub open spec fn spec_from_args(args: Option<Seq<(Seq<char>, Seq<char>)>>) -> DateLength {
        match spec_from_args_helper(args, "date_length"@, length_value_views()) {
            Option::Some(i) => date_length_of_index(i),
            Option::None => DateLength::Medium,
        }
    }

    /// Resolves the `date_length` argument against `full`, `long`, `medium`
    /// and `short`, defaulting to `Medium`.
    pub fn from_args(args: Option<&Vec<(String, String)>>) -> (r: Self)
        ensures
            r == Self::spec_from_args(opt_args_view(args)),
    {
        let accepted: Vec<&str> = vec!["full", "long", "medium", "short"];
        proof {
            assert(accepted_views(accepted@) =~= length_value_views());
        }
        let idx = from_args_helper(args, "date_length", &accepted);
        proof {
            if args is Some {
                lemma_scan_args_in_range(
                    pairs_view(args->Some_0@),
                    "date_length"@,
                    length_value_views(),
                );
            }
        }
        match idx {
            Option::Some(i) => {
                if i == 0 {
                    DateLength::Full
                } else if i == 1 {
                    DateLength::Long
                } else if i == 2 {
                    DateLength::Medium
                } else {
                    DateLength::Short
                }
            },
            Option::None => DateLength::Medium,
        }
    }
}

impl TimeLength {
    /// What resolving the `time_length` argument yields: the first recognized
    /// value, or `Short` when none matches.
    pub open spec fn spec_from_args(args: Option<Seq<(Seq<char>, Seq<char>)>>) -> TimeLength {
        match spec_from_args_helper(args, "time_length"@, length_value_views()) {
            Option::Some(i) => time_length_of_index(i),
            Option::None => TimeLength::Short,
        }
    }

    /// Resolves the `time_length` argument against `full`, `long`, `medium`
    /// and `short`, defaulting to `Short`.
    pub fn from_args(args: Option<&Vec<(String, String)>>) -> (r: Self)
        ensures
            r == Self::spec_from_args(opt_args_view(args)),
    {
        let accepted: Vec<&str> = vec!["full", "long", "medium", "short"];
        proof {
            assert(accepted_views(accepted@) =~= length_value_views());
        }
        let idx = from_args_helper(args, "time_length", &accepted);
        proof {
            if args is Some {
                lemma_scan_args_in_range(
                    pairs_view(args->Some_0@),
                    "time_length"@,
                    length_value_views(),
                );
            }
        }
        match idx {
            Option::Some(i) => {
                if i == 0 {
                    TimeLength::Full
                } else if i == 1 {
                    TimeLength::Long
                } else if i == 2 {
                    TimeLength::Medium
                } else {
                    TimeLength::Short
                }
            },
            Option::None => TimeLength::Short,
        }
    }
}

/// The accepted value literals of the list `type` argument.
pub open spec fn list_type_value_views() -> Seq<Seq<char>> {
    seq!["and"@, "or"@, "unit"@]
}

/// The accepted value literals of the list `style` argument.
pub open spec fn list_style_value_views() -> Seq<Seq<char>> {
    seq!["wide"@, "short"@, "narrow"@]
}

impl ListType {
    /// What resolving the `type` argument yields: the first recognized value,
    /// or `And` when none matches.
    pub open spec fn spec_from_args(args: Option<Seq<(Seq<char>, Seq<char>)>>) -> ListType {
        match spec_from_args_helper(args, "type"@, list_type_value_views()) {
            Option::Some(i) => if i == 0 {
                ListType::And
            } else if i == 1 {
                ListType::Or
            } else {
                ListType::Unit
            },
            Option::None => ListType::And,
        }
    }

    /// Resolves the `type` argument against `and`, `or` and `unit`,
    /// defaulting to `And`.
    pub fn from_args(args: Option<&Vec<(String, String)>>) -> (r: Self)
        ensures
            r == Self::spec_from_args(opt_args_view(args)),
    {
        let accepted: Vec<&str> = vec!["and", "or", "unit"];
        proof {
            assert(accepted_views(accepted@) =~= list_type_value_views());
        }
        let idx = from_args_helper(args, "type", &accepted);
        proof {
            if args is Some {
                lemma_scan_args_in_range(pairs_view(args->Some_0@), "type"@, list_type_value_views());
            }
        }
        match idx {
            Option::Some(i) => {
                if i == 0 {
                    ListType::And
                } else if i == 1 {
                    ListType::Or
                } else {
                    ListType::Unit
                }
            },
            Option::None => ListType::And,
        }
    }
}

impl ListStyle {
    /// What resolving the `style` argument yields: the first recognized
    /// value, or `Wide` when none matches.
    pub open spec fn spec_from_args(args: Option<Seq<(Seq<char>, Seq<char>)>>) -> ListStyle {
        match spec_from_args_helper(args, "style"@, list_style_value_views()) {
            Option::Some(i) => if i == 0 {
                ListStyle::Wide
            } else if i == 1 {
                ListStyle::Short
            } else {
                ListStyle::Narrow
            },
            Option::None => ListStyle::Wide,
        }
    }

    /// Resolves the `style` argument against `wide`, `short` and `narrow`,
    /// defaulting to `Wide`.
    pub fn from_args(args: Option<&Vec<(String, String)>>) -> (r: Self)
        ensures
            r == Self::spec_from_args(opt_args_view(args)),
    {
        let accepted: Vec<&str> = vec!["wide", "short", "narrow"];
        proof {
            assert(accepted_views(accepted@) =~= list_style_value_views());
        }
        let idx = from_args_helper(args, "style", &accepted);
        proof {
            if args is Some {
                lemma_scan_args_in_range(
                    pairs_view(args->Some_0@),
                    "style"@,
                    list_style_value_views(),
                );
            }
        }
        match idx {
            Option::Some(i) => {
                if i == 0 {
                    ListStyle::Wide
                } else if i == 1 {
                    ListStyle::Short
                } else {
                    ListStyle::Narrow
                }
            },
            Option::None => ListStyle::Wide,
        }
    }
}

/// Whether `name` is one of the five recognized formatter names.
pub open spec fn spec_recognized(name: Seq<char>) -> bool {
    ||| name == "number"@
    ||| name == "datetime"@
    ||| name == "date"@
    ||| name == "time"@
    ||| name == "list"@
}

/// The formatter kind that a recognized name and its arguments resolve to.
pub open spec fn spec_from_name_and_args(
    name: Seq<char>,
    args: Option<Seq<(Seq<char>, Seq<char>)>>,
) -> Formatter {
    if name == "number"@ {
        Formatter::Number
    } else if name == "datetime"@ {
        Formatter::DateTime(DateLength::spec_from_args(args), TimeLength::spec_from_args(args))
    } else if name == "date"@ {
        Formatter::Date(DateLength::spec_from_args(args))
    } else if name == "time"@ {
        Formatter::Time(TimeLength::spec_from_args(args))
    } else if name == "list"@ {
        Formatter::List(ListType::spec_from_args(args), ListStyle::spec_from_args(args))
    } else {
        Formatter::Plain
    }
}

/// Whether `name` is one of the recognized formatter names. A request with
/// any other name is a definitional error and must be rejected before
/// resolution.
pub fn recognized_name(name: &str) -> (r: bool)
    ensures
        r == spec_recognized(name@),
{
    str_eq(name, "number") || str_eq(name, "datetime") || str_eq(name, "date") || str_eq(
        name,
        "time",
    ) || str_eq(name, "list")
}

impl Formatter {
    /// Resolves a formatter request into its kind with a fully defaulted
    /// configuration. The name must be recognized; an unrecognized name is a
    /// definitional error at the request site, checked before this call.
    pub fn from_name_and_args(name: &str, args: Option<&Vec<(String, String)>>) -> (r: Formatter)
        requires
            spec_recognized(name@),
        ensures
            r == spec_from_name_and_args(name@, opt_args_view(args)),
    {
        if str_eq(name, "number") {
            Formatter::Number
        } else if str_eq(name, "datetime") {
            Formatter::DateTime(DateLength::from_args(args), TimeLength::from_args(args))
        } else if str_eq(name, "date") {
            Formatter::Date(DateLength::from_args(args))
        } else if str_eq(name, "time") {
            Formatter::Time(TimeLength::from_args(args))
        } else {
            proof {
                assert(name@ == "list"@);
            }
            Formatter::List(ListType::from_args(args), ListStyle::from_args(args))
        }
    }
}

} // verus!
