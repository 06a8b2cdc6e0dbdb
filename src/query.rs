use vstd::prelude::*;

use crate::columns::ColumnEnumSorted;
use crate::sort::SortArguments;
use crate::text::{join, join_strings};
use crate::values::{Date, ToRowValue};

verus! {

/// The query parameters of one request, in the order they were added.
pub struct Query<'a> {
    pairs: Vec<(&'a str, String)>,
}

/// Which funds and days a fund request is about.
pub struct FundFilter {
    pub date: Option<Date>,
    pub from: Option<Date>,
    pub codes: Vec<String>,
}

impl<'a> View for Query<'a> {
    type V = Seq<(Seq<char>, Seq<char>)>;

    /// Each parameter as its key and value.
    closed spec fn view(&self) -> Seq<(Seq<char>, Seq<char>)> {
        Seq::new(self.pairs.len() as nat, |i: int| (self.pairs[i].0@, self.pairs[i].1@))
    }
}

impl<'a> Query<'a> {
    /// A query with no parameters.
    pub fn new() -> (r: Query<'a>)
        ensures
            r@ == Seq::<(Seq<char>, Seq<char>)>::empty(),
    {
        let r = Query { pairs: Vec::new() };
        assert(r@ =~= Seq::<(Seq<char>, Seq<char>)>::empty());
        r
    }

    /// The parameters, in the order they were added.
    pub fn pairs(&self) -> (r: &Vec<(&'a str, String)>)
        ensures
            r.len() == self@.len(),
            forall|i: int| 0 <= i < r.len() ==> (#[trigger] r[i].0@, r[i].1@) == self@[i],
    {
        &self.pairs
    }

    fn push(&mut self, key: &'a str, value: String)
        ensures
            final(self)@ == old(self)@.push((key@, value@)),
    {
        self.pairs.push((key, value));
        assert(self@ =~= old(self)@.push((key@, value@)));
    }

    /// Adds `key` with the values joined by `,`, unless there are none.
    pub fn push_vec(&mut self, key: &'a str, values: Vec<String>)
        ensures
            values.len() == 0 ==> final(self)@ == old(self)@,
            values.len() > 0 ==> final(self)@ == old(self)@.push((key@, join(values.deep_view(), ","@))),
    {
        if values.len() > 0 {
            let joined = join_strings(&values, ",");
            self.push(key, joined);
        }
    }

    /// Adds `key` with the date written `MM.DD.YYYY`, when there is one.
    pub fn push_date(&mut self, key: &'a str, date: Option<Date>)
        ensures
            date is None ==> final(self)@ == old(self)@,
            date matches Some(d) ==> final(self)@ == old(self)@.push((key@, d.row_text())),
    {
        if let Some(d) = date {
            let text = d.to_row_value();
            self.push(key, text);
        }
    }

    /// Adds `sortBy` with the column's key on the service and
    /// `sortDirection` with `ASC` or `DESC`, when a sort was asked for.
    pub fn push_sort<T: ColumnEnumSorted>(&mut self, sort: Option<SortArguments<T>>)
        ensures
            sort is None ==> final(self)@ == old(self)@,
            sort matches Some(s) ==> final(self)@ == old(self)@.push(("sortBy"@, s.by.spec_server_name())).push(
                ("sortDirection"@, s.dir.wire_text()),
            ),
    {
        if let Some(s) = sort {
            let by = String::from_str(s.by.to_server_name());
            self.push("sortBy", by);
            let dir = s.dir.to_string();
            self.push("sortDirection", dir);
        }
    }

    /// Adds `key` with `true` when `value` holds; nothing otherwise.
    pub fn push_bool(&mut self, key: &'a str, value: bool)
        ensures
            !value ==> final(self)@ == old(self)@,
            value ==> final(self)@ == old(self)@.push((key@, "true"@)),
    {
        if value {
            self.push(key, String::from_str("true"));
        }
    }

    /// Adds the filter's `date`, `fetchFrom` and `codes` parameters, each only
    /// when given.
    pub fn push_fund_filter(&mut self, fund_filter: FundFilter)
        ensures
            final(self)@ == old(self)@ + date_param("date"@, fund_filter.date) + date_param(
                "fetchFrom"@,
                fund_filter.from,
            ) + list_param("codes"@, fund_filter.codes.deep_view()),
    {
        let FundFilter { date, from, codes } = fund_filter;
        let ghost v0 = self@;
        self.push_date("date", date);
        let ghost v1 = self@;
        self.push_date("fetchFrom", from);
        let ghost v2 = self@;
        self.push_vec("codes", codes);
        assert(v1 =~= v0 + date_param("date"@, date));
        assert(v2 =~= v1 + date_param("fetchFrom"@, from));
        assert(self@ =~= v2 + list_param("codes"@, codes.deep_view()));
    }
}

/// The parameter a date adds: none when absent.
pub open spec fn date_param(key: Seq<char>, date: Option<Date>) -> Seq<(Seq<char>, Seq<char>)> {
    match date {
        Some(d) => seq![(key, d.row_text())],
        None => Seq::empty(),
    }
}

/// The parameter a list adds: none when empty.
pub open spec fn list_param(key: Seq<char>, values: Seq<Seq<char>>) -> Seq<(Seq<char>, Seq<char>)> {
    if values.len() == 0 {
        Seq::empty()
    } else {
        seq![(key, join(values, ","@))]
    }
}

} // verus!
