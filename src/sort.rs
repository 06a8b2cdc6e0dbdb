use vstd::prelude::*;

use crate::columns::{
    column_help, column_name_list, column_named, column_names, parse_column, ColumnEnum,
    ColumnEnumSorted, ColumnError,
};
use crate::text::{eq_ignore_ascii_case, join, str_eq_ignore_ascii_case};

verus! {

/// The order asked of the remote service.
#[derive(Clone, Copy, Debug, PartialEq, Eq, Hash, Structural)]
pub enum SortDirection {
    Asc,
    Desc,
}

/// Why a sort specification was refused.
#[derive(Debug)]
pub enum SortError {
    /// No field was given.
    EmptyOrMissingField,
    /// The field names no sortable column; `valid` lists the names that do.
    UnknownSortField { attempted: String, valid: Vec<String> },
    /// The direction is neither `asc` nor `desc`.
    UnknownDirection { attempted: String },
}

/// A validated `<field> <direction>` pair.
#[derive(Clone, Copy, Debug)]
pub struct SortArguments<T> {
    pub by: T,
    pub dir: SortDirection,
}

/// ASCII whitespace, as `split_ascii_whitespace` understands it.
pub open spec fn is_ascii_ws(c: char) -> bool {
    let v = c as u32;
    v == 32 || v == 9 || v == 10 || v == 12 || v == 13
}

/// The first place at or after `i` that holds no whitespace (or the end).
pub open spec fn skip_ws(s: Seq<char>, i: int) -> int
    decreases s.len() - i,
{
    if 0 <= i < s.len() && is_ascii_ws(s[i]) {
        skip_ws(s, i + 1)
    } else {
        i
    }
}

/// The first place at or after `i` that holds whitespace (or the end).
pub open spec fn word_end(s: Seq<char>, i: int) -> int
    decreases s.len() - i,
{
    if 0 <= i < s.len() && !is_ascii_ws(s[i]) {
        word_end(s, i + 1)
    } else {
        i
    }
}

/// The first whitespace-delimited word at or after `i`.
pub open spec fn word_from(s: Seq<char>, i: int) -> Option<Seq<char>> {
    let a = skip_ws(s, i);
    if a >= s.len() {
        None
    } else {
        Some(s.subrange(a, word_end(s, a)))
    }
}

/// The first word of a sort specification: the field.
pub open spec fn field_word(s: Seq<char>) -> Option<Seq<char>> {
    word_from(s, 0)
}

/// The second word of a sort specification: the direction, `asc` when absent.
/// Words after it are not read.
pub open spec fn direction_word(s: Seq<char>) -> Seq<char> {
    match word_from(s, word_end(s, skip_ws(s, 0))) {
        Some(w) => w,
        None => "asc"@,
    }
}

/// The direction named `s`, ASCII case ignored.
pub open spec fn direction_named(s: Seq<char>) -> Option<SortDirection> {
    if eq_ignore_ascii_case(s, "asc"@) {
        Some(SortDirection::Asc)
    } else if eq_ignore_ascii_case(s, "desc"@) {
        Some(SortDirection::Desc)
    } else {
        None
    }
}

/// The outcome of parsing `s` as a sort specification over the columns of `C`:
/// the column and direction, or `None` when `s` is refused.
pub open spec fn sort_parsed<C: ColumnEnum>(s: Seq<char>) -> Option<(C, SortDirection)> {
    match field_word(s) {
        None => None,
        Some(w) => match (column_named::<C>(w), direction_named(direction_word(s))) {
            (Some(c), Some(d)) => Some((c, d)),
            _ => None,
        },
    }
}

/// The message shown when `s` is refused as a sort specification.
pub open spec fn sort_error_text<C: ColumnEnum>(s: Seq<char>) -> Seq<char> {
    match field_word(s) {
        None => "missing sort field"@,
        Some(w) => if column_named::<C>(w) is None {
            "invalid sort field '"@ + w + "', expected one of: "@ + join(
                column_name_list::<C>(),
                " | "@,
            )
        } else {
            "invalid sort direction '"@ + direction_word(s) + "', expected one of: asc | desc"@
        },
    }
}

fn ws_at(s: &str, i: usize) -> (r: bool)
    requires
        i < s@.len(),
    ensures
        r == is_ascii_ws(s@[i as int]),
{
    let v = s.get_char(i) as u32;
    v == 32 || v == 9 || v == 10 || v == 12 || v == 13
}

/// Finds the next word at or after `from`: where it starts and where it ends.
fn next_word(s: &str, from: usize) -> (r: (usize, usize))
    requires
        from <= s@.len(),
    ensures
        r.0 as int == skip_ws(s@, from as int),
        r.1 as int == word_end(s@, r.0 as int),
        from <= r.0 <= r.1 <= s@.len(),
{
    let n = s.unicode_len();
    let mut a = from;
    while a < n && ws_at(s, a)
        invariant
            n == s@.len(),
            from <= a <= n,
            skip_ws(s@, from as int) == skip_ws(s@, a as int),
        decreases n - a,
    {
        a = a + 1;
    }
    let mut b = a;
    while b < n && !ws_at(s, b)
        invariant
            n == s@.len(),
            a <= b <= n,
            word_end(s@, a as int) == word_end(s@, b as int),
        decreases n - b,
    {
        b = b + 1;
    }
    (a, b)
}

impl SortDirection {
    /// The name users type.
    pub open spec fn spec_name(self) -> Seq<char> {
        match self {
            SortDirection::Asc => "asc"@,
            SortDirection::Desc => "desc"@,
        }
    }

    /// The text sent to the service.
    pub open spec fn wire_text(self) -> Seq<char> {
        match self {
            SortDirection::Asc => "ASC"@,
            SortDirection::Desc => "DESC"@,
        }
    }

    /// The name users type: `asc` or `desc`.
    pub fn name(&self) -> (r: &'static str)
        ensures
            r@ == self.spec_name(),
    {
        match self {
            SortDirection::Asc => "asc",
            SortDirection::Desc => "desc",
        }
    }

    /// The text sent to the service: `ASC` or `DESC`.
    pub fn to_string(&self) -> (r: String)
        ensures
            r@ == self.wire_text(),
    {
        match self {
            SortDirection::Asc => String::from_str("ASC"),
            SortDirection::Desc => String::from_str("DESC"),
        }
    }

    /// The direction named `s`, ASCII case ignored.
    pub fn parse(s: &str) -> (r: Option<SortDirection>)
        ensures
            r == direction_named(s@),
    {
        if str_eq_ignore_ascii_case(s, "asc") {
            proof {
                lemma_eq_ignore_case_symmetric(s@, "asc"@);
            }
            Some(SortDirection::Asc)
        } else if str_eq_ignore_ascii_case(s, "desc") {
            proof {
                lemma_eq_ignore_case_symmetric(s@, "asc"@);
                lemma_eq_ignore_case_symmetric(s@, "desc"@);
            }
            Some(SortDirection::Desc)
        } else {
            proof {
                lemma_eq_ignore_case_symmetric(s@, "asc"@);
                lemma_eq_ignore_case_symmetric(s@, "desc"@);
            }
            None
        }
    }

    /// The direction named `s`, ASCII case ignored, or a message naming what
    /// was given.
    pub fn value_parser(s: &str) -> (r: Result<SortDirection, String>)
        ensures
            r matches Ok(d) ==> direction_named(s@) == Some(d),
            r matches Err(m) ==> direction_named(s@) is None && m@
                == "invalid sort direction '"@ + s@ + "', expected one of: asc | desc"@,
    {
        match SortDirection::parse(s) {
            Some(d) => Ok(d),
            None => {
                let mut m = String::from_str("invalid sort direction '");
                m.append(s);
                m.append("', expected one of: asc | desc");
                Err(m)
            },
        }
    }

    /// The direction names joined by ` | `, for usage text.
    pub fn get_help_string() -> (r: String)
        ensures
            r@ == "asc | desc"@,
    {
        String::from_str("asc | desc")
    }
}

proof fn lemma_eq_ignore_case_symmetric(a: Seq<char>, b: Seq<char>)
    ensures
        eq_ignore_ascii_case(a, b) == eq_ignore_ascii_case(b, a),
{
}

impl SortError {
    /// The message shown to the user.
    pub fn message(&self) -> (r: String)
        ensures
            self matches SortError::EmptyOrMissingField ==> r@ == "missing sort field"@,
            self matches SortError::UnknownSortField { attempted, valid } ==> r@
                == "invalid sort field '"@ + attempted@ + "', expected one of: "@ + join(
                valid.deep_view(),
                " | "@,
            ),
            self matches SortError::UnknownDirection { attempted } ==> r@ == "invalid sort direction '"@
                + attempted@ + "', expected one of: asc | desc"@,
    {
        match self {
            SortError::EmptyOrMissingField => String::from_str("missing sort field"),
            SortError::UnknownSortField { attempted, valid } => {
                let mut m = String::from_str("invalid sort field '");
                m.append(attempted.as_str());
                m.append("', expected one of: ");
                let names = crate::text::join_strings(valid, " | ");
                m.append(names.as_str());
                m
            },
            SortError::UnknownDirection { attempted } => {
                let mut m = String::from_str("invalid sort direction '");
                m.append(attempted.as_str());
                m.append("', expected one of: asc | desc");
                m
            },
        }
    }
}

impl<T: ColumnEnumSorted> SortArguments<T> {
    /// Parses `<field> [<direction>]`: the field is a column name and the
    /// direction `asc` (the default) or `desc`, both ASCII case ignored.
    pub fn parse(s: &str) -> (r: Result<SortArguments<T>, SortError>)
        ensures
            r matches Ok(a) ==> sort_parsed::<T>(s@) == Some((a.by, a.dir)),
            r is Err <==> sort_parsed::<T>(s@) is None,
            r matches Err(SortError::EmptyOrMissingField) ==> field_word(s@) is None,
            r matches Err(SortError::UnknownSortField { attempted, valid }) ==> field_word(s@)
                == Some(attempted@) && column_named::<T>(attempted@) is None && valid.deep_view()
                == column_name_list::<T>(),
            r matches Err(SortError::UnknownDirection { attempted }) ==> field_word(s@) is Some
                && column_named::<T>(field_word(s@)->0) is Some && attempted@ == direction_word(s@)
                && direction_named(attempted@) is None,
    {
        let n = s.unicode_len();
        let (a, b) = next_word(s, 0);
        if a == n {
            return Err(SortError::EmptyOrMissingField);
        }
        let field = s.substring_char(a, b);
        let by = match parse_column::<T>(field) {
            Ok(c) => c,
            Err(ColumnError::UnknownColumn { attempted, valid }) => {
                return Err(SortError::UnknownSortField { attempted, valid });
            },
        };
        let (c, d) = next_word(s, b);
        proof {
            reveal_strlit("asc");
        }
        let dir_text: &str = if c == n {
            "asc"
        } else {
            s.substring_char(c, d)
        };
        assert(dir_text@ == direction_word(s@));
        match SortDirection::parse(dir_text) {
            Some(dir) => Ok(SortArguments { by, dir }),
            None => Err(SortError::UnknownDirection { attempted: String::from_str(dir_text) }),
        }
    }

    /// Parses a sort specification, giving the message of a refusal as text.
    pub fn value_parser(s: &str) -> (r: Result<SortArguments<T>, String>)
        ensures
            r matches Ok(a) ==> sort_parsed::<T>(s@) == Some((a.by, a.dir)),
            r matches Err(m) ==> sort_parsed::<T>(s@) is None && m@ == sort_error_text::<T>(s@),
    {
        match Self::parse(s) {
            Ok(a) => Ok(a),
            Err(e) => Err(e.message()),
        }
    }

    /// Usage text of the sort option: the grammar and the valid names.
    pub fn get_help() -> (r: String)
        ensures
            r@ == "<by> <direction>\nBY: "@ + join(column_name_list::<T>(), " | "@)
                + "\nDIRECTION: asc | desc"@,
    {
        let mut m = String::from_str("<by> <direction>\nBY: ");
        let names = column_help::<T>();
        m.append(names.as_str());
        m.append("\nDIRECTION: ");
        let dirs = SortDirection::get_help_string();
        m.append(dirs.as_str());
        proof {
            assert(("\nDIRECTION: "@ + "asc | desc"@) =~= "\nDIRECTION: asc | desc"@) by {
                reveal_strlit("\nDIRECTION: ");
                reveal_strlit("asc | desc");
                reveal_strlit("\nDIRECTION: asc | desc");
            }
        }
        assert(m@ =~= "<by> <direction>\nBY: "@ + join(column_name_list::<T>(), " | "@)
            + "\nDIRECTION: asc | desc"@);
        m
    }
}

} // verus!
