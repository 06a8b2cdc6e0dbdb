use vstd::prelude::*;

use crate::columns::{
    default_column_list, lemma_default_columns, names_distinct, ColumnEnum, ColumnEnumSorted,
};
use crate::table::{Row, Table};
use crate::text::{trim_string, trimmed};
use crate::values::{UuidValue, ToRowValue};

verus! {

/// The columns of a [`Portfolio`] table.
#[derive(Clone, Copy, Debug, PartialEq, Eq, Hash, Structural)]
pub enum PortfolioColumn {
    Id,
    Name,
}

impl ColumnEnum for PortfolioColumn {
    open spec fn all_columns() -> Seq<Self> {
        seq![PortfolioColumn::Id, PortfolioColumn::Name]
    }

    open spec fn column_index(&self) -> int {
        match self {
            PortfolioColumn::Id => 0,
            PortfolioColumn::Name => 1,
        }
    }

    open spec fn spec_name(&self) -> Seq<char> {
        match self {
            PortfolioColumn::Id => "id"@,
            PortfolioColumn::Name => "name"@,
        }
    }

    open spec fn spec_header(&self) -> Seq<char> {
        match self {
            PortfolioColumn::Id => "Id"@,
            PortfolioColumn::Name => "Name"@,
        }
    }

    open spec fn spec_max_width(&self) -> usize {
        match self {
            PortfolioColumn::Id => 36,
            PortfolioColumn::Name => 50,
        }
    }

    open spec fn spec_is_default(&self) -> bool {
        match self {
            PortfolioColumn::Id => true,
            PortfolioColumn::Name => true,
        }
    }

    open spec fn spec_left_align(&self) -> bool {
        match self {
            PortfolioColumn::Id => true,
            PortfolioColumn::Name => true,
        }
    }

    fn all() -> (r: Vec<Self>) {
        let mut r: Vec<Self> = Vec::new();
        r.push(PortfolioColumn::Id);
        r.push(PortfolioColumn::Name);
        assert(r@ =~= Self::all_columns());
        r
    }

    fn index(&self) -> (r: usize) {
        match self {
            PortfolioColumn::Id => 0,
            PortfolioColumn::Name => 1,
        }
    }

    fn name(&self) -> (r: &'static str) {
        match self {
            PortfolioColumn::Id => "id",
            PortfolioColumn::Name => "name",
        }
    }

    fn header(&self) -> (r: &'static str) {
        match self {
            PortfolioColumn::Id => "Id",
            PortfolioColumn::Name => "Name",
        }
    }

    fn max_width(&self) -> (r: usize) {
        match self {
            PortfolioColumn::Id => 36,
            PortfolioColumn::Name => 50,
        }
    }

    fn is_default(&self) -> (r: bool) {
        match self {
            PortfolioColumn::Id => true,
            PortfolioColumn::Name => true,
        }
    }

    fn left_align(&self) -> (r: bool) {
        match self {
            PortfolioColumn::Id => true,
            PortfolioColumn::Name => true,
        }
    }
}

impl ColumnEnumSorted for PortfolioColumn {
    open spec fn spec_server_name(&self) -> Seq<char> {
        match self {
            PortfolioColumn::Id => "id"@,
            PortfolioColumn::Name => "name"@,
        }
    }

    fn to_server_name(&self) -> (r: &'static str) {
        match self {
            PortfolioColumn::Id => "id",
            PortfolioColumn::Name => "name",
        }
    }
}

impl PortfolioColumn {
    /// The column names are distinct, ASCII case ignored, and some column is
    /// shown by default.
    pub proof fn lemma_registry()
        ensures
            names_distinct::<Self>(),
            default_column_list::<Self>().len() > 0,
    {
        reveal_strlit("id");
        reveal_strlit("name");
        lemma_default_columns::<Self>();
        assert(Self::all_columns()[0].spec_is_default());
    }
}

/// A portfolio of funds.
pub struct Portfolio {
    pub id: UuidValue,
    pub name: String,
}

impl Table for Portfolio {
    type Column = PortfolioColumn;

    open spec fn projection(&self, wide: bool) -> Seq<Seq<char>> {
        seq![
            self.id.row_text(),
            trimmed(self.name@, PortfolioColumn::Name.spec_max_width() as nat, wide),
        ]
    }

    fn from_value(&self, wide: bool) -> (r: Row) {
        let mut cells: Vec<String> = Vec::new();
        cells.push(self.id.to_row_value());
        cells.push(trim_string(self.name.as_str(), PortfolioColumn::Name.max_width(), wide));
        assert(cells.deep_view() =~= self.projection(wide));
        Row { cells }
    }
}

} // verus!
