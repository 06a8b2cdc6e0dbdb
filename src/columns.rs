use vstd::prelude::*;

use crate::text::{eq_ignore_ascii_case, join, join_strings, str_eq_ignore_ascii_case};

verus! {

/// A column name that matches no column of the record type.
#[derive(Debug)]
pub enum ColumnError {
    UnknownColumn { attempted: String, valid: Vec<String> },
}

impl ColumnError {
    /// The message shown to the user.
    pub fn message(&self) -> (r: String)
        ensures
            self matches ColumnError::UnknownColumn { attempted, valid } ==> r@
                == "invalid column '"@ + attempted@ + "', expected one of: "@ + join(
                valid.deep_view(),
                " | "@,
            ),
    {
        match self {
            ColumnError::UnknownColumn { attempted, valid } => {
                let mut m = String::from_str("invalid column '");
                m.append(attempted.as_str());
                m.append("', expected one of: ");
                let names = join_strings(valid, " | ");
                m.append(names.as_str());
                m
            },
        }
    }
}

/// The closed, ordered set of display columns of one record type, with the
/// metadata of each.
pub trait ColumnEnum: Sized + Copy {
    /// Every column, in declaration order.
    spec fn all_columns() -> Seq<Self>;

    /// Where the column stands in `all_columns`.
    spec fn column_index(&self) -> int;

    /// The name users type to select the column.
    spec fn spec_name(&self) -> Seq<char>;

    /// The header text printed above the column.
    spec fn spec_header(&self) -> Seq<char>;

    /// The width the column never shrinks below; textual cells are cut to it
    /// unless wide output is asked for.
    spec fn spec_max_width(&self) -> usize;

    /// Whether the column is shown when no columns are chosen.
    spec fn spec_is_default(&self) -> bool;

    /// Whether cells are padded on the right (else on the left).
    spec fn spec_left_align(&self) -> bool;

    fn all() -> (r: Vec<Self>)
        ensures
            r@ == Self::all_columns(),
    ;

    fn index(&self) -> (r: usize)
        ensures
            r as int == self.column_index(),
            r < Self::all_columns().len(),
            Self::all_columns()[r as int] == *self,
    ;

    fn name(&self) -> (r: &'static str)
        ensures
            r@ == self.spec_name(),
    ;

    fn header(&self) -> (r: &'static str)
        ensures
            r@ == self.spec_header(),
    ;

    fn max_width(&self) -> (r: usize)
        ensures
            r == self.spec_max_width(),
    ;

    fn is_default(&self) -> (r: bool)
        ensures
            r == self.spec_is_default(),
    ;

    fn left_align(&self) -> (r: bool)
        ensures
            r == self.spec_left_align(),
    ;

    /// The columns shown when none are chosen: those marked default, in
    /// declaration order.
    fn default_columns() -> (r: Vec<Self>)
        ensures
            r@ == Self::all_columns().filter(|c: Self| c.spec_is_default()),
    {
        let all = Self::all();
        let mut out: Vec<Self> = Vec::new();
        let mut i: usize = 0;
        while i < all.len()
            invariant
                i <= all.len(),
                all@ == Self::all_columns(),
                out@ == all@.take(i as int).filter(|c: Self| c.spec_is_default()),
            decreases all.len() - i,
        {
            assert(all@.take(i + 1).drop_last() =~= all@.take(i as int));
            let c = all[i];
            if c.is_default() {
                out.push(c);
            }
            proof {
                reveal(Seq::filter);
            }
            i = i + 1;
        }
        assert(all@.take(all.len() as int) =~= all@);
        out
    }
}

/// A column set whose columns can also order the remote service's results.
pub trait ColumnEnumSorted: ColumnEnum {
    /// The key sent to the service for the column.
    spec fn spec_server_name(&self) -> Seq<char>;

    fn to_server_name(&self) -> (r: &'static str)
        ensures
            r@ == self.spec_server_name(),
    ;
}

/// The names of all columns of `C`, in declaration order.
pub open spec fn column_name_list<C: ColumnEnum>() -> Seq<Seq<char>> {
    Seq::new(C::all_columns().len(), |i: int| C::all_columns()[i].spec_name())
}

/// The first column of `cols` at or after `i` whose name equals `s`, ASCII
/// case ignored.
pub open spec fn first_named<C: ColumnEnum>(cols: Seq<C>, s: Seq<char>, i: int) -> Option<C>
    decreases cols.len() - i,
{
    if i < 0 || i >= cols.len() {
        None
    } else if eq_ignore_ascii_case(cols[i].spec_name(), s) {
        Some(cols[i])
    } else {
        first_named(cols, s, i + 1)
    }
}

/// The column of `C` named `s`, ASCII case ignored (the first such).
pub open spec fn column_named<C: ColumnEnum>(s: Seq<char>) -> Option<C> {
    first_named(C::all_columns(), s, 0)
}

/// The column of `C` whose name equals `s`, ASCII case ignored.
pub fn parse_column<C: ColumnEnum>(s: &str) -> (r: Result<C, ColumnError>)
    ensures
        r matches Ok(c) ==> column_named::<C>(s@) == Some(c),
        r is Err <==> column_named::<C>(s@) is None,
        r matches Err(ColumnError::UnknownColumn { attempted, valid }) ==> attempted@ == s@
            && valid.deep_view() == column_name_list::<C>(),
{
    let all = C::all();
    let mut i: usize = 0;
    while i < all.len()
        invariant
            i <= all.len(),
            all@ == C::all_columns(),
            first_named(all@, s@, 0) == first_named(all@, s@, i as int),
        decreases all.len() - i,
    {
        let c = all[i];
        if str_eq_ignore_ascii_case(c.name(), s) {
            return Ok(c);
        }
        i = i + 1;
    }
    Err(ColumnError::UnknownColumn { attempted: String::from_str(s), valid: column_names::<C>() })
}

/// The names of all columns of `C`, in declaration order.
pub fn column_names<C: ColumnEnum>() -> (r: Vec<String>)
    ensures
        r.deep_view() == column_name_list::<C>(),
{
    let all = C::all();
    let mut out: Vec<String> = Vec::new();
    let mut i: usize = 0;
    while i < all.len()
        invariant
            i <= all.len(),
            all@ == C::all_columns(),
            out.len() == i,
            forall|k: int| 0 <= k < i ==> #[trigger] out[k]@ == all@[k].spec_name(),
        decreases all.len() - i,
    {
        out.push(String::from_str(all[i].name()));
        i = i + 1;
    }
    assert(out.deep_view() =~= column_name_list::<C>());
    out
}

/// The names of all columns of `C` joined by ` | `, for usage text.
pub fn column_help<C: ColumnEnum>() -> (r: String)
    ensures
        r@ == join(column_name_list::<C>(), " | "@),
{
    join_strings(&column_names::<C>(), " | ")
}

/// No two columns of `C` have names that are equal with ASCII case ignored.
pub open spec fn names_distinct<C: ColumnEnum>() -> bool {
    forall|i: int, j: int|
        0 <= i < j < C::all_columns().len() ==> !eq_ignore_ascii_case(
            #[trigger] C::all_columns()[i].spec_name(),
            #[trigger] C::all_columns()[j].spec_name(),
        )
}

/// The default columns of `C`, in declaration order.
pub open spec fn default_column_list<C: ColumnEnum>() -> Seq<C> {
    C::all_columns().filter(|c: C| c.spec_is_default())
}

proof fn lemma_first_named_finds<C: ColumnEnum>(cols: Seq<C>, s: Seq<char>, k: int)
    requires
        0 <= k,
    ensures
        first_named(cols, s, k) is Some <==> exists|j: int|
            k <= j < cols.len() && eq_ignore_ascii_case(#[trigger] cols[j].spec_name(), s),
        first_named(cols, s, k) matches Some(c) ==> eq_ignore_ascii_case(c.spec_name(), s),
    decreases cols.len() - k,
{
    if k < cols.len() {
        lemma_first_named_finds(cols, s, k + 1);
        if !eq_ignore_ascii_case(cols[k].spec_name(), s) {
            if exists|j: int| k <= j < cols.len() && eq_ignore_ascii_case(#[trigger] cols[j].spec_name(), s) {
                let j = choose|j: int| k <= j < cols.len() && eq_ignore_ascii_case(#[trigger] cols[j].spec_name(), s);
                assert(j != k);
                assert(k + 1 <= j);
            }
        }
    }
}

proof fn lemma_first_named_unique<C: ColumnEnum>(cols: Seq<C>, s: Seq<char>, k: int, i: int)
    requires
        0 <= k <= i < cols.len(),
        eq_ignore_ascii_case(cols[i].spec_name(), s),
        forall|j: int| k <= j < i ==> !eq_ignore_ascii_case(#[trigger] cols[j].spec_name(), s),
    ensures
        first_named(cols, s, k) == Some(cols[i]),
    decreases i - k,
{
    if k < i {
        lemma_first_named_unique(cols, s, k + 1, i);
    }
}

/// Parsing a column name succeeds exactly when the text equals, ASCII case
/// ignored, the name of some column, and the column found carries that name.
pub proof fn lemma_parse_iff_named<C: ColumnEnum>(s: Seq<char>)
    ensures
        column_named::<C>(s) is Some <==> exists|i: int|
            0 <= i < C::all_columns().len() && eq_ignore_ascii_case(
                #[trigger] C::all_columns()[i].spec_name(),
                s,
            ),
        column_named::<C>(s) matches Some(c) ==> eq_ignore_ascii_case(c.spec_name(), s),
{
    lemma_first_named_finds(C::all_columns(), s, 0);
}

/// When column names are distinct, parsing the name of a column gives that
/// column back.
pub proof fn lemma_parse_round_trip<C: ColumnEnum>(i: int)
    requires
        names_distinct::<C>(),
        0 <= i < C::all_columns().len(),
    ensures
        column_named::<C>(C::all_columns()[i].spec_name()) == Some(C::all_columns()[i]),
{
    let cols = C::all_columns();
    let s = cols[i].spec_name();
    assert(eq_ignore_ascii_case(s, s));
    assert forall|j: int| 0 <= j < i implies !eq_ignore_ascii_case(#[trigger] cols[j].spec_name(), s) by {
        assert(!eq_ignore_ascii_case(cols[j].spec_name(), cols[i].spec_name()));
    }
    lemma_first_named_unique(cols, s, 0, i);
}

/// The default columns are columns of `C`, each marked default, and there is
/// one at least whenever some column is marked default.
pub proof fn lemma_default_columns<C: ColumnEnum>()
    ensures
        forall|k: int|
            0 <= k < default_column_list::<C>().len() ==> (#[trigger] default_column_list::<C>()[k]).spec_is_default()
                && C::all_columns().contains(default_column_list::<C>()[k]),
        (exists|i: int| 0 <= i < C::all_columns().len() && (#[trigger] C::all_columns()[i]).spec_is_default())
            ==> default_column_list::<C>().len() > 0,
{
    let all = C::all_columns();
    let defaults = default_column_list::<C>();
    assert forall|k: int| 0 <= k < defaults.len() implies (#[trigger] defaults[k]).spec_is_default()
        && all.contains(defaults[k]) by {
        all.lemma_filter_pred(|c: C| c.spec_is_default(), k);
        assert(defaults.contains(defaults[k]));
        all.lemma_filter_contains_rev(|c: C| c.spec_is_default(), defaults[k]);
    }
    if exists|i: int| 0 <= i < all.len() && (#[trigger] all[i]).spec_is_default() {
        let i = choose|i: int| 0 <= i < all.len() && (#[trigger] all[i]).spec_is_default();
        all.lemma_filter_contains(|c: C| c.spec_is_default(), i);
    }
}

} // verus!
