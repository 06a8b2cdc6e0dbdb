use vstd::prelude::*;

use crate::columns::{
    default_column_list, lemma_default_columns, names_distinct, ColumnEnum, ColumnEnumSorted,
};
use crate::table::{Row, Table};
use crate::text::{lemma_differ_at, trim_string, trimmed};
use crate::values::{Date, Fixed2, ToRowValue};

verus! {

/// The columns of a [`FundInfo`] table.
#[derive(Clone, Copy, Debug, PartialEq, Eq, Hash, Structural)]
pub enum FundInfoColumn {
    Code,
    Title,
    Provider,
    Date,
    Price,
    TotalValue,
}

impl ColumnEnum for FundInfoColumn {
    open spec fn all_columns() -> Seq<Self> {
        seq![
            FundInfoColumn::Code,
            FundInfoColumn::Title,
            FundInfoColumn::Provider,
            FundInfoColumn::Date,
            FundInfoColumn::Price,
            FundInfoColumn::TotalValue,
        ]
    }

    open spec fn column_index(&self) -> int {
        match self {
            FundInfoColumn::Code => 0,
            FundInfoColumn::Title => 1,
            FundInfoColumn::Provider => 2,
            FundInfoColumn::Date => 3,
            FundInfoColumn::Price => 4,
            FundInfoColumn::TotalValue => 5,
        }
    }

    open spec fn spec_name(&self) -> Seq<char> {
        match self {
            FundInfoColumn::Code => "code"@,
            FundInfoColumn::Title => "title"@,
            FundInfoColumn::Provider => "provider"@,
            FundInfoColumn::Date => "date"@,
            FundInfoColumn::Price => "price"@,
            FundInfoColumn::TotalValue => "total-value"@,
        }
    }

    open spec fn spec_header(&self) -> Seq<char> {
        match self {
            FundInfoColumn::Code => "Code"@,
            FundInfoColumn::Title => "Title"@,
            FundInfoColumn::Provider => "Provider"@,
            FundInfoColumn::Date => "Date"@,
            FundInfoColumn::Price => "Price"@,
            FundInfoColumn::TotalValue => "Total Value"@,
        }
    }

    open spec fn spec_max_width(&self) -> usize {
        match self {
            FundInfoColumn::Code => 3,
            FundInfoColumn::Title => 25,
            FundInfoColumn::Provider => 25,
            FundInfoColumn::Date => 10,
            FundInfoColumn::Price => 15,
            FundInfoColumn::TotalValue => 30,
        }
    }

    open spec fn spec_is_default(&self) -> bool {
        match self {
            FundInfoColumn::Code => true,
            FundInfoColumn::Title => true,
            FundInfoColumn::Provider => false,
            FundInfoColumn::Date => true,
            FundInfoColumn::Price => true,
            FundInfoColumn::TotalValue => false,
        }
    }

    open spec fn spec_left_align(&self) -> bool {
        match self {
            FundInfoColumn::Code => true,
            FundInfoColumn::Title => true,
            FundInfoColumn::Provider => true,
            FundInfoColumn::Date => true,
            FundInfoColumn::Price => false,
            FundInfoColumn::TotalValue => false,
        }
    }

    fn all() -> (r: Vec<Self>) {
        let mut r: Vec<Self> = Vec::new();
        r.push(FundInfoColumn::Code);
        r.push(FundInfoColumn::Title);
        r.push(FundInfoColumn::Provider);
        r.push(FundInfoColumn::Date);
        r.push(FundInfoColumn::Price);
        r.push(FundInfoColumn::TotalValue);
        assert(r@ =~= Self::all_columns());
        r
    }

    fn index(&self) -> (r: usize) {
        match self {
            FundInfoColumn::Code => 0,
            FundInfoColumn::Title => 1,
            FundInfoColumn::Provider => 2,
            FundInfoColumn::Date => 3,
            FundInfoColumn::Price => 4,
            FundInfoColumn::TotalValue => 5,
        }
    }

    fn name(&self) -> (r: &'static str) {
        match self {
            FundInfoColumn::Code => "code",
            FundInfoColumn::Title => "title",
            FundInfoColumn::Provider => "provider",
            FundInfoColumn::Date => "date",
            FundInfoColumn::Price => "price",
            FundInfoColumn::TotalValue => "total-value",
        }
    }

    fn header(&self) -> (r: &'static str) {
        match self {
            FundInfoColumn::Code => "Code",
            FundInfoColumn::Title => "Title",
            FundInfoColumn::Provider => "Provider",
            FundInfoColumn::Date => "Date",
            FundInfoColumn::Price => "Price",
            FundInfoColumn::TotalValue => "Total Value",
        }
    }

    fn max_width(&self) -> (r: usize) {
        match self {
            FundInfoColumn::Code => 3,
            FundInfoColumn::Title => 25,
            FundInfoColumn::Provider => 25,
            FundInfoColumn::Date => 10,
            FundInfoColumn::Price => 15,
            FundInfoColumn::TotalValue => 30,
        }
    }

    fn is_default(&self) -> (r: bool) {
        match self {
            FundInfoColumn::Code => true,
            FundInfoColumn::Title => true,
            FundInfoColumn::Provider => false,
            FundInfoColumn::Date => true,
            FundInfoColumn::Price => true,
            FundInfoColumn::TotalValue => false,
        }
    }

    fn left_align(&self) -> (r: bool) {
        match self {
            FundInfoColumn::Code => true,
            FundInfoColumn::Title => true,
            FundInfoColumn::Provider => true,
            FundInfoColumn::Date => true,
            FundInfoColumn::Price => false,
            FundInfoColumn::TotalValue => false,
        }
    }
}

impl ColumnEnumSorted for FundInfoColumn {
    open spec fn spec_server_name(&self) -> Seq<char> {
        match self {
            FundInfoColumn::Code => "code"@,
            FundInfoColumn::Title => "title"@,
            FundInfoColumn::Provider => "provider"@,
            FundInfoColumn::Date => "date"@,
            FundInfoColumn::Price => "price"@,
            FundInfoColumn::TotalValue => "totalValue"@,
        }
    }

    fn to_server_name(&self) -> (r: &'static str) {
        match self {
            FundInfoColumn::Code => "code",
            FundInfoColumn::Title => "title",
            FundInfoColumn::Provider => "provider",
            FundInfoColumn::Date => "date",
            FundInfoColumn::Price => "price",
            FundInfoColumn::TotalValue => "totalValue",
        }
    }
}

impl FundInfoColumn {
    /// The column names are distinct, ASCII case ignored, and some column is
    /// shown by default.
    pub proof fn lemma_registry()
        ensures
            names_distinct::<Self>(),
            default_column_list::<Self>().len() > 0,
    {
        reveal_strlit("code");
        reveal_strlit("title");
        reveal_strlit("provider");
        reveal_strlit("date");
        reveal_strlit("price");
        reveal_strlit("total-value");
        lemma_differ_at("code"@, "date"@, 0);
        lemma_differ_at("title"@, "price"@, 0);
        lemma_default_columns::<Self>();
        assert(Self::all_columns()[0].spec_is_default());
    }
}

/// Information on a fund.
pub struct FundInfo {
    pub code: String,
    pub title: String,
    pub provider: String,
    pub date: Date,
    pub price: Fixed2,
    pub total_value: Fixed2,
}

impl Table for FundInfo {
    type Column = FundInfoColumn;

    open spec fn projection(&self, wide: bool) -> Seq<Seq<char>> {
        seq![
            trimmed(self.code@, FundInfoColumn::Code.spec_max_width() as nat, wide),
            trimmed(self.title@, FundInfoColumn::Title.spec_max_width() as nat, wide),
            trimmed(self.provider@, FundInfoColumn::Provider.spec_max_width() as nat, wide),
            self.date.row_text(),
            self.price.row_text(),
            self.total_value.row_text(),
        ]
    }

    fn from_value(&self, wide: bool) -> (r: Row) {
        let mut cells: Vec<String> = Vec::new();
        cells.push(trim_string(self.code.as_str(), FundInfoColumn::Code.max_width(), wide));
        cells.push(trim_string(self.title.as_str(), FundInfoColumn::Title.max_width(), wide));
        cells.push(trim_string(self.provider.as_str(), FundInfoColumn::Provider.max_width(), wide));
        cells.push(self.date.to_row_value());
        cells.push(self.price.to_row_value());
        cells.push(self.total_value.to_row_value());
        assert(cells.deep_view() =~= self.projection(wide));
        Row { cells }
    }
}

} // verus!
