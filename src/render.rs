use vstd::prelude::*;

verus! {

/// How one selected column is laid out: the width it never shrinks below,
/// and on which side its cells are padded.
#[derive(Clone, Copy, Debug, PartialEq, Eq, Structural)]
pub struct ColumnLayout {
    pub max_width: usize,
    pub left_align: bool,
}

/// `n` spaces.
pub open spec fn spaces(n: nat) -> Seq<char> {
    Seq::new(n, |i: int| ' ')
}

/// The longest cell of column `j` over `rows`, in characters (0 when there
/// are no rows).
pub open spec fn longest_cell(rows: Seq<Seq<Seq<char>>>, j: int) -> nat
    decreases rows.len(),
{
    if rows.len() == 0 {
        0
    } else {
        let rest = longest_cell(rows.drop_last(), j);
        let here = rows.last()[j].len();
        if here > rest {
            here
        } else {
            rest
        }
    }
}

/// The display width of column `j`: its declared width, grown to fit the
/// longest cell.
pub open spec fn column_width(rows: Seq<Seq<Seq<char>>>, j: int, declared: nat) -> nat {
    let longest = longest_cell(rows, j);
    if longest > declared {
        longest
    } else {
        declared
    }
}

/// The widths of all columns of a layout over `rows`.
pub open spec fn column_widths(rows: Seq<Seq<Seq<char>>>, layouts: Seq<ColumnLayout>) -> Seq<nat> {
    Seq::new(layouts.len(), |j: int| column_width(rows, j, layouts[j].max_width as nat))
}

/// `s` padded with spaces to `width` characters: on the right when
/// left-aligned, on the left otherwise. Longer text is kept whole.
pub open spec fn padded(s: Seq<char>, width: nat, left_align: bool) -> Seq<char> {
    if s.len() >= width {
        s
    } else if left_align {
        s + spaces((width - s.len()) as nat)
    } else {
        spaces((width - s.len()) as nat) + s
    }
}

/// The first `k` cells of a row, each padded to its width and followed by
/// `spacing` spaces.
pub open spec fn line_prefix(
    cells: Seq<Seq<char>>,
    layouts: Seq<ColumnLayout>,
    widths: Seq<nat>,
    spacing: nat,
    k: nat,
) -> Seq<char>
    decreases k,
{
    if k == 0 {
        Seq::empty()
    } else {
        let j = k - 1;
        line_prefix(cells, layouts, widths, spacing, (k - 1) as nat) + padded(
            cells[j],
            widths[j],
            layouts[j].left_align,
        ) + spaces(spacing)
    }
}

/// One rendered line: every cell of the row padded to its column's width.
pub open spec fn line_text(
    cells: Seq<Seq<char>>,
    layouts: Seq<ColumnLayout>,
    widths: Seq<nat>,
    spacing: nat,
) -> Seq<char> {
    line_prefix(cells, layouts, widths, spacing, layouts.len())
}

/// The lines of a table: one per row, in order, with the widths measured over
/// all rows.
pub open spec fn table_text(
    rows: Seq<Seq<Seq<char>>>,
    layouts: Seq<ColumnLayout>,
    spacing: nat,
) -> Seq<Seq<char>> {
    let widths = column_widths(rows, layouts);
    Seq::new(rows.len(), |i: int| line_text(rows[i], layouts, widths, spacing))
}

/// Every row has one cell per column of the layout.
pub open spec fn rows_fit(rows: Seq<Seq<Seq<char>>>, ncols: nat) -> bool {
    forall|i: int| 0 <= i < rows.len() ==> #[trigger] rows[i].len() == ncols
}

/// Appends `n` spaces.
pub fn push_spaces(out: &mut String, n: usize)
    ensures
        final(out)@ == old(out)@ + spaces(n as nat),
{
    let mut i: usize = 0;
    assert(out@ =~= old(out)@ + spaces(0));
    while i < n
        invariant
            i <= n,
            out@ == old(out)@ + spaces(i as nat),
        decreases n - i,
    {
        out.append(" ");
        proof {
            reveal_strlit(" ");
            assert(" "@ =~= seq![' ']);
        }
        i = i + 1;
        assert(out@ =~= old(out)@ + spaces(i as nat));
    }
}

/// Appends `s` padded to `width` characters.
pub fn push_padded(out: &mut String, s: &str, width: usize, left_align: bool)
    ensures
        final(out)@ == old(out)@ + padded(s@, width as nat, left_align),
{
    let len = s.unicode_len();
    if len >= width {
        out.append(s);
    } else if left_align {
        out.append(s);
        push_spaces(out, width - len);
        assert(out@ =~= old(out)@ + padded(s@, width as nat, left_align));
    } else {
        push_spaces(out, width - len);
        out.append(s);
        assert(out@ =~= old(out)@ + padded(s@, width as nat, left_align));
    }
}

/// The width of each column: the declared width grown to the longest cell of
/// that column over all rows.
pub fn measure_columns(layouts: &Vec<ColumnLayout>, rows: &Vec<Vec<String>>) -> (r: Vec<usize>)
    requires
        rows_fit(rows.deep_view(), layouts.len() as nat),
    ensures
        r.len() == layouts.len(),
        forall|j: int|
            0 <= j < r.len() ==> r[j] as nat == column_widths(rows.deep_view(), layouts@)[j],
{
    let ghost all = rows.deep_view();
    let mut widths: Vec<usize> = Vec::new();
    let mut j: usize = 0;
    while j < layouts.len()
        invariant
            j <= layouts.len(),
            all == rows.deep_view(),
            rows_fit(all, layouts.len() as nat),
            widths.len() == j,
            forall|k: int|
                0 <= k < j ==> widths[k] as nat == column_width(
                    all,
                    k,
                    layouts[k].max_width as nat,
                ),
        decreases layouts.len() - j,
    {
        let mut w: usize = layouts[j].max_width;
        let mut i: usize = 0;
        while i < rows.len()
            invariant
                i <= rows.len(),
                j < layouts.len(),
                all == rows.deep_view(),
                all.len() == rows.len(),
                rows_fit(all, layouts.len() as nat),
                w as nat == column_width(all.take(i as int), j as int, layouts[j as int].max_width as nat),
            decreases rows.len() - i,
        {
            proof {
                assert(all.take(i + 1).drop_last() =~= all.take(i as int));
                assert(all[i as int].len() == layouts.len());
                assert(all[i as int][j as int] == rows[i as int][j as int]@);
            }
            let len = rows[i][j].as_str().unicode_len();
            if len > w {
                w = len;
            }
            i = i + 1;
        }
        assert(all.take(rows.len() as int) =~= all);
        widths.push(w);
        j = j + 1;
    }
    widths
}

/// Renders one row: each cell padded to its column's width and followed by
/// `spacing` spaces.
pub fn render_line(
    cells: &Vec<String>,
    layouts: &Vec<ColumnLayout>,
    widths: &Vec<usize>,
    spacing: usize,
) -> (r: String)
    requires
        cells.len() == layouts.len(),
        widths.len() == layouts.len(),
    ensures
        r@ == line_text(cells.deep_view(), layouts@, widths@.map_values(|w: usize| w as nat), spacing as nat),
{
    let ghost ws = widths@.map_values(|w: usize| w as nat);
    let ghost cs = cells.deep_view();
    let mut out = String::new();
    let mut j: usize = 0;
    while j < layouts.len()
        invariant
            j <= layouts.len(),
            cells.len() == layouts.len(),
            widths.len() == layouts.len(),
            ws == widths@.map_values(|w: usize| w as nat),
            cs == cells.deep_view(),
            out@ == line_prefix(cs, layouts@, ws, spacing as nat, j as nat),
        decreases layouts.len() - j,
    {
        assert(cs[j as int] == cells[j as int]@);
        push_padded(&mut out, cells[j].as_str(), widths[j], layouts[j].left_align);
        push_spaces(&mut out, spacing);
        assert(out@ =~= line_prefix(cs, layouts@, ws, spacing as nat, (j + 1) as nat));
        j = j + 1;
    }
    out
}

/// Renders a table: measures every column over all rows, then pads each cell
/// to its column's width. One line per row, in the order given.
pub fn render_table(layouts: &Vec<ColumnLayout>, rows: &Vec<Vec<String>>, spacing: usize) -> (r:
    Vec<String>)
    requires
        rows_fit(rows.deep_view(), layouts.len() as nat),
    ensures
        r.deep_view() == table_text(rows.deep_view(), layouts@, spacing as nat),
{
    let widths = measure_columns(layouts, rows);
    let ghost all = rows.deep_view();
    let ghost ws = widths@.map_values(|w: usize| w as nat);
    assert(ws =~= column_widths(all, layouts@));
    let mut lines: Vec<String> = Vec::new();
    let mut i: usize = 0;
    while i < rows.len()
        invariant
            i <= rows.len(),
            all == rows.deep_view(),
            all.len() == rows.len(),
            rows_fit(all, layouts.len() as nat),
            widths.len() == layouts.len(),
            ws == widths@.map_values(|w: usize| w as nat),
            ws == column_widths(all, layouts@),
            lines.len() == i,
            forall|k: int|
                0 <= k < i ==> #[trigger] lines[k]@ == line_text(all[k], layouts@, ws, spacing as nat),
        decreases rows.len() - i,
    {
        assert(all[i as int] == rows[i as int].deep_view());
        assert(all[i as int].len() == layouts.len());
        let line = render_line(&rows[i], layouts, &widths, spacing);
        lines.push(line);
        i = i + 1;
    }
    assert(lines.deep_view() =~= table_text(all, layouts@, spacing as nat));
    lines
}

/// A column is never narrower than its declared width, nor than any of its
/// cells.
pub proof fn lemma_width_covers_cells(rows: Seq<Seq<Seq<char>>>, j: int, declared: nat)
    ensures
        column_width(rows, j, declared) >= declared,
        forall|i: int|
            0 <= i < rows.len() ==> column_width(rows, j, declared) >= #[trigger] rows[i][j].len(),
    decreases rows.len(),
{
    if rows.len() > 0 {
        lemma_width_covers_cells(rows.drop_last(), j, declared);
        assert forall|i: int| 0 <= i < rows.len() implies column_width(rows, j, declared)
            >= #[trigger] rows[i][j].len() by {
            if i < rows.len() - 1 {
                assert(rows.drop_last()[i] == rows[i]);
            }
        }
    }
}

/// A cell no longer than its column's width is padded to exactly that width.
pub proof fn lemma_padded_len(s: Seq<char>, width: nat, left_align: bool)
    requires
        s.len() <= width,
    ensures
        padded(s, width, left_align).len() == width,
{
}

/// The total width of the first `k` columns, each followed by `spacing`.
pub open spec fn total_width(widths: Seq<nat>, spacing: nat, k: nat) -> nat
    decreases k,
{
    if k == 0 {
        0
    } else {
        total_width(widths, spacing, (k - 1) as nat) + widths[k - 1] + spacing
    }
}

proof fn lemma_line_prefix_len(
    cells: Seq<Seq<char>>,
    layouts: Seq<ColumnLayout>,
    widths: Seq<nat>,
    spacing: nat,
    k: nat,
)
    requires
        k <= cells.len(),
        k <= widths.len(),
        forall|j: int| 0 <= j < k ==> cells[j].len() <= #[trigger] widths[j],
    ensures
        line_prefix(cells, layouts, widths, spacing, k).len() == total_width(widths, spacing, k),
    decreases k,
{
    if k > 0 {
        lemma_line_prefix_len(cells, layouts, widths, spacing, (k - 1) as nat);
        lemma_padded_len(cells[k - 1], widths[k - 1], layouts[k - 1].left_align);
    }
}

/// The table is aligned: every line has the same length, the widths of all
/// columns with their spacing added up.
pub proof fn lemma_table_aligned(rows: Seq<Seq<Seq<char>>>, layouts: Seq<ColumnLayout>, spacing: nat)
    requires
        rows_fit(rows, layouts.len()),
    ensures
        forall|i: int|
            0 <= i < rows.len() ==> (#[trigger] table_text(rows, layouts, spacing)[i]).len()
                == total_width(column_widths(rows, layouts), spacing, layouts.len()),
{
    let widths = column_widths(rows, layouts);
    assert forall|i: int| 0 <= i < rows.len() implies (#[trigger] table_text(
        rows,
        layouts,
        spacing,
    )[i]).len() == total_width(widths, spacing, layouts.len()) by {
        assert forall|j: int| 0 <= j < layouts.len() implies rows[i][j].len() <= #[trigger] widths[j] by {
            lemma_width_covers_cells(rows, j, layouts[j].max_width as nat);
        }
        lemma_line_prefix_len(rows[i], layouts, widths, spacing, layouts.len());
    }
}

/// Rendering is a function of its inputs: the same rows, layout and spacing
/// always give the same lines.
pub proof fn lemma_render_deterministic(
    rows: Seq<Seq<Seq<char>>>,
    layouts: Seq<ColumnLayout>,
    spacing: nat,
    first: Seq<Seq<char>>,
    second: Seq<Seq<char>>,
)
    requires
        first == table_text(rows, layouts, spacing),
        second == table_text(rows, layouts, spacing),
    ensures
        first == second,
{
}

} // verus!
