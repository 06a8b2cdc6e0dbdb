use vstd::prelude::*;

use crate::columns::ColumnEnum;
use crate::render::{render_table, table_text, ColumnLayout};

verus! {

/// Spaces printed after every cell.
pub const COLUMN_SPACING: usize = 2;

/// One text per column of a record type, in declaration order: a record's
/// formatted fields, or the headers.
pub struct Row {
    pub cells: Vec<String>,
}

/// What the caller chose for one rendering: the columns (the default ones when
/// `None`), whether to leave out the header row, and whether to keep long text
/// whole.
pub struct TableArgs<C> {
    pub columns: Option<Vec<C>>,
    pub no_headers: bool,
    pub wide: bool,
}

/// A record type that can be shown as a table.
pub trait Table: Sized {
    type Column: ColumnEnum;

    /// The text of each column for this record, in declaration order.
    spec fn projection(&self, wide: bool) -> Seq<Seq<char>>;

    /// Formats every field of the record.
    fn from_value(&self, wide: bool) -> (r: Row)
        ensures
            r.cells.deep_view() == self.projection(wide),
            r.cells.len() == Self::Column::all_columns().len(),
    ;
}

/// The header of each column of `C`, in declaration order.
pub open spec fn header_cells<C: ColumnEnum>() -> Seq<Seq<char>> {
    Seq::new(C::all_columns().len(), |i: int| C::all_columns()[i].spec_header())
}

/// The cells of `cols`, in that order, taken from a full row.
pub open spec fn select_cells<C: ColumnEnum>(cells: Seq<Seq<char>>, cols: Seq<C>) -> Seq<Seq<char>> {
    Seq::new(cols.len(), |j: int| cells[cols[j].column_index()])
}

/// The layout of each chosen column.
pub open spec fn layouts_of<C: ColumnEnum>(cols: Seq<C>) -> Seq<ColumnLayout> {
    Seq::new(
        cols.len(),
        |j: int| ColumnLayout { max_width: cols[j].spec_max_width(), left_align: cols[j].spec_left_align() },
    )
}

/// The columns chosen, or the default ones.
pub open spec fn chosen_columns<C: ColumnEnum>(columns: Option<Seq<C>>) -> Seq<C> {
    match columns {
        Some(cols) => cols,
        None => C::all_columns().filter(|c: C| c.spec_is_default()),
    }
}

/// The full rows to print: the headers first when asked for, then one row per
/// record, in the order given.
pub open spec fn full_rows<T: Table>(list: Seq<T>, headers: bool, wide: bool) -> Seq<Seq<Seq<char>>> {
    let records = Seq::new(list.len(), |i: int| list[i].projection(wide));
    if headers {
        seq![header_cells::<T::Column>()] + records
    } else {
        records
    }
}

/// The chosen columns, if any, as a sequence.
pub open spec fn columns_view<C>(columns: &Option<Vec<C>>) -> Option<Seq<C>> {
    match columns {
        Some(v) => Some(v@),
        None => None,
    }
}

/// The lines of the table of `list`, limited to the chosen columns.
pub open spec fn table_of<T: Table>(
    list: Seq<T>,
    columns: Option<Seq<T::Column>>,
    headers: bool,
    wide: bool,
) -> Seq<Seq<char>> {
    let cols = chosen_columns(columns);
    let rows = full_rows(list, headers, wide);
    table_text(
        Seq::new(rows.len(), |i: int| select_cells(rows[i], cols)),
        layouts_of(cols),
        COLUMN_SPACING as nat,
    )
}

/// Rendering the same records with the same columns and flags always gives
/// the same lines.
pub proof fn lemma_table_deterministic<T: Table>(
    list: Seq<T>,
    columns: Option<Seq<T::Column>>,
    headers: bool,
    wide: bool,
    first: Seq<Seq<char>>,
    second: Seq<Seq<char>>,
)
    requires
        first == table_of(list, columns, headers, wide),
        second == table_of(list, columns, headers, wide),
    ensures
        first == second,
{
}

impl Row {
    /// The header row of `C`.
    pub fn from_headers<C: ColumnEnum>() -> (r: Row)
        ensures
            r.cells.deep_view() == header_cells::<C>(),
            r.cells.len() == C::all_columns().len(),
    {
        let all = C::all();
        let mut cells: Vec<String> = Vec::new();
        let mut i: usize = 0;
        while i < all.len()
            invariant
                i <= all.len(),
                all@ == C::all_columns(),
                cells.len() == i,
                forall|k: int| 0 <= k < i ==> #[trigger] cells[k]@ == all@[k].spec_header(),
            decreases all.len() - i,
        {
            cells.push(String::from_str(all[i].header()));
            i = i + 1;
        }
        assert(cells.deep_view() =~= header_cells::<C>());
        Row { cells }
    }

    /// The text of column `col`.
    pub fn value_for<C: ColumnEnum>(&self, col: &C) -> (r: &str)
        requires
            self.cells.len() == C::all_columns().len(),
        ensures
            r@ == self.cells[col.column_index()]@,
    {
        self.cells[col.index()].as_str()
    }

    /// The length of the text of column `col`, in characters.
    pub fn len_for<C: ColumnEnum>(&self, col: &C) -> (r: usize)
        requires
            self.cells.len() == C::all_columns().len(),
        ensures
            r == self.cells[col.column_index()]@.len(),
    {
        self.value_for(col).unicode_len()
    }
}

fn copy_columns<C: ColumnEnum>(cols: &Vec<C>) -> (r: Vec<C>)
    ensures
        r@ == cols@,
{
    let mut out: Vec<C> = Vec::new();
    let mut i: usize = 0;
    while i < cols.len()
        invariant
            i <= cols.len(),
            out@ == cols@.take(i as int),
        decreases cols.len() - i,
    {
        out.push(cols[i]);
        i = i + 1;
        assert(out@ =~= cols@.take(i as int));
    }
    assert(cols@.take(cols.len() as int) =~= cols@);
    out
}

/// Copies out the cells of `cols`, in that order.
fn select_row<C: ColumnEnum>(cells: &Vec<String>, cols: &Vec<C>) -> (r: Vec<String>)
    requires
        cells.len() == C::all_columns().len(),
    ensures
        r.deep_view() == select_cells(cells.deep_view(), cols@),
{
    let mut out: Vec<String> = Vec::new();
    let mut j: usize = 0;
    while j < cols.len()
        invariant
            j <= cols.len(),
            cells.len() == C::all_columns().len(),
            out.len() == j,
            forall|k: int|
                0 <= k < j ==> #[trigger] out[k]@ == cells.deep_view()[cols@[k].column_index()],
        decreases cols.len() - j,
    {
        let idx = cols[j].index();
        out.push(cells[idx].clone());
        j = j + 1;
    }
    assert(out.deep_view() =~= select_cells(cells.deep_view(), cols@));
    out
}

/// The lines of a table of `list`: the header row unless left out, then one
/// row per record in the order given, each limited to the chosen columns (the
/// default ones when none are chosen) and padded to the columns' widths.
pub fn table_lines<T: Table>(list: &Vec<T>, args: &TableArgs<T::Column>) -> (r: Vec<String>)
    ensures
        r.deep_view() == table_of(
            list@,
            columns_view(&args.columns),
            !args.no_headers,
            args.wide,
        ),
{
    let cols: Vec<T::Column> = match &args.columns {
        Some(v) => copy_columns(v),
        None => T::Column::default_columns(),
    };
    let ghost cols_spec = chosen_columns(columns_view(&args.columns));
    assert(cols@ == cols_spec);
    let ghost full = full_rows(list@, !args.no_headers, args.wide);
    let mut rows: Vec<Vec<String>> = Vec::new();
    let mut offset: usize = 0;
    if !args.no_headers {
        let header = Row::from_headers::<T::Column>();
        rows.push(select_row(&header.cells, &cols));
        offset = 1;
    }
    let mut i: usize = 0;
    while i < list.len()
        invariant
            i <= list.len(),
            cols@ == cols_spec,
            full == full_rows(list@, !args.no_headers, args.wide),
            offset == (if args.no_headers { 0usize } else { 1usize }),
            rows.len() == offset + i,
            forall|k: int|
                0 <= k < offset + i ==> #[trigger] rows[k].deep_view() == select_cells(full[k], cols_spec),
        decreases list.len() - i,
    {
        let row = list[i].from_value(args.wide);
        assert(full[offset + i] == list@[i as int].projection(args.wide));
        rows.push(select_row(&row.cells, &cols));
        i = i + 1;
    }
    let mut layouts: Vec<ColumnLayout> = Vec::new();
    let mut j: usize = 0;
    while j < cols.len()
        invariant
            j <= cols.len(),
            layouts@ == layouts_of(cols@).take(j as int),
        decreases cols.len() - j,
    {
        layouts.push(ColumnLayout { max_width: cols[j].max_width(), left_align: cols[j].left_align() });
        j = j + 1;
        assert(layouts@ =~= layouts_of(cols@).take(j as int));
    }
    assert(layouts@ =~= layouts_of(cols@));
    assert(rows.deep_view() =~= Seq::new(full.len(), |k: int| select_cells(full[k], cols_spec)));
    render_table(&layouts, &rows, COLUMN_SPACING)
}

} // verus!
