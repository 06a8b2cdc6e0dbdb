use vstd::prelude::*;

use crate::columns::{
    default_column_list, lemma_default_columns, names_distinct, ColumnEnum, ColumnEnumSorted,
};
use crate::table::{Row, Table};
use crate::text::{lemma_differ_at, trim_string, trimmed};
use crate::values::{Fixed2, ToRowValue};

verus! {

/// The columns of a [`FundToBuy`] table.
#[derive(Clone, Copy, Debug, PartialEq, Eq, Hash, Structural)]
pub enum FundToBuyColumn {
    Code,
    Title,
    Price,
    Amount,
    Weight,
}

impl ColumnEnum for FundToBuyColumn {
    open spec fn all_columns() -> Seq<Self> {
        seq![
            FundToBuyColumn::Code,
            FundToBuyColumn::Title,
            FundToBuyColumn::Price,
            FundToBuyColumn::Amount,
            FundToBuyColumn::Weight,
        ]
    }

    open spec fn column_index(&self) -> int {
        match self {
            FundToBuyColumn::Code => 0,
            FundToBuyColumn::Title => 1,
            FundToBuyColumn::Price => 2,
            FundToBuyColumn::Amount => 3,
            FundToBuyColumn::Weight => 4,
        }
    }

    open spec fn spec_name(&self) -> Seq<char> {
        match self {
            FundToBuyColumn::Code => "code"@,
            FundToBuyColumn::Title => "title"@,
            FundToBuyColumn::Price => "price"@,
            FundToBuyColumn::Amount => "amount"@,
            FundToBuyColumn::Weight => "weight"@,
        }
    }

    open spec fn spec_header(&self) -> Seq<char> {
        match self {
            FundToBuyColumn::Code => "Code"@,
            FundToBuyColumn::Title => "Title"@,
            FundToBuyColumn::Price => "Price"@,
            FundToBuyColumn::Amount => "Amount"@,
            FundToBuyColumn::Weight => "Weight"@,
        }
    }

    open spec fn spec_max_width(&self) -> usize {
        match self {
            FundToBuyColumn::Code => 3,
            FundToBuyColumn::Title => 25,
            FundToBuyColumn::Price => 15,
            FundToBuyColumn::Amount => 10,
            FundToBuyColumn::Weight => 15,
        }
    }

    open spec fn spec_is_default(&self) -> bool {
        match self {
            FundToBuyColumn::Code => true,
            FundToBuyColumn::Title => true,
            FundToBuyColumn::Price => true,
            FundToBuyColumn::Amount => true,
            FundToBuyColumn::Weight => true,
        }
    }

    open spec fn spec_left_align(&self) -> bool {
        match self {
            FundToBuyColumn::Code => true,
            FundToBuyColumn::Title => true,
            FundToBuyColumn::Price => true,
            FundToBuyColumn::Amount => true,
            FundToBuyColumn::Weight => true,
        }
    }

    fn all() -> (r: Vec<Self>) {
        let mut r: Vec<Self> = Vec::new();
        r.push(FundToBuyColumn::Code);
        r.push(FundToBuyColumn::Title);
        r.push(FundToBuyColumn::Price);
        r.push(FundToBuyColumn::Amount);
        r.push(FundToBuyColumn::Weight);
        assert(r@ =~= Self::all_columns());
        r
    }

    fn index(&self) -> (r: usize) {
        match self {
            FundToBuyColumn::Code => 0,
            FundToBuyColumn::Title => 1,
            FundToBuyColumn::Price => 2,
            FundToBuyColumn::Amount => 3,
            FundToBuyColumn::Weight => 4,
        }
    }

    fn name(&self) -> (r: &'static str) {
        match self {
            FundToBuyColumn::Code => "code",
            FundToBuyColumn::Title => "title",
            FundToBuyColumn::Price => "price",
            FundToBuyColumn::Amount => "amount",
            FundToBuyColumn::Weight => "weight",
        }
    }

    fn header(&self) -> (r: &'static str) {
        match self {
            FundToBuyColumn::Code => "Code",
            FundToBuyColumn::Title => "Title",
            FundToBuyColumn::Price => "Price",
            FundToBuyColumn::Amount => "Amount",
            FundToBuyColumn::Weight => "Weight",
        }
    }

    fn max_width(&self) -> (r: usize) {
        match self {
            FundToBuyColumn::Code => 3,
            FundToBuyColumn::Title => 25,
            FundToBuyColumn::Price => 15,
            FundToBuyColumn::Amount => 10,
            FundToBuyColumn::Weight => 15,
        }
    }

    fn is_default(&self) -> (r: bool) {
        match self {
            FundToBuyColumn::Code => true,
            FundToBuyColumn::Title => true,
            FundToBuyColumn::Price => true,
            FundToBuyColumn::Amount => true,
            FundToBuyColumn::Weight => true,
        }
    }

    fn left_align(&self) -> (r: bool) {
        match self {
            FundToBuyColumn::Code => true,
            FundToBuyColumn::Title => true,
            FundToBuyColumn::Price => true,
            FundToBuyColumn::Amount => true,
            FundToBuyColumn::Weight => true,
        }
    }
}

impl ColumnEnumSorted for FundToBuyColumn {
    open spec fn spec_server_name(&self) -> Seq<char> {
        match self {
            FundToBuyColumn::Code => "code"@,
            FundToBuyColumn::Title => "title"@,
            FundToBuyColumn::Price => "price"@,
            FundToBuyColumn::Amount => "amount"@,
            FundToBuyColumn::Weight => "weight"@,
        }
    }

    fn to_server_name(&self) -> (r: &'static str) {
        match self {
            FundToBuyColumn::Code => "code",
            FundToBuyColumn::Title => "title",
            FundToBuyColumn::Price => "price",
            FundToBuyColumn::Amount => "amount",
            FundToBuyColumn::Weight => "weight",
        }
    }
}

impl FundToBuyColumn {
    /// The column names are distinct, ASCII case ignored, and some column is
    /// shown by default.
    pub proof fn lemma_registry()
        ensures
            names_distinct::<Self>(),
            default_column_list::<Self>().len() > 0,
    {
        reveal_strlit("code");
        reveal_strlit("title");
        reveal_strlit("price");
        reveal_strlit("amount");
        reveal_strlit("weight");
        lemma_differ_at("title"@, "price"@, 0);
        lemma_differ_at("amount"@, "weight"@, 0);
        lemma_default_columns::<Self>();
        assert(Self::all_columns()[0].spec_is_default());
    }
}

/// How much of a fund to buy with a budget.
pub struct FundToBuy {
    pub code: String,
    pub title: String,
    pub price: Fixed2,
    pub amount: u32,
    pub weight: Fixed2,
}

impl Table for FundToBuy {
    type Column = FundToBuyColumn;

    open spec fn projection(&self, wide: bool) -> Seq<Seq<char>> {
        seq![
            trimmed(self.code@, FundToBuyColumn::Code.spec_max_width() as nat, wide),
            trimmed(self.title@, FundToBuyColumn::Title.spec_max_width() as nat, wide),
            self.price.row_text(),
            self.amount.row_text(),
            self.weight.row_text(),
        ]
    }

    fn from_value(&self, wide: bool) -> (r: Row) {
        let mut cells: Vec<String> = Vec::new();
        cells.push(trim_string(self.code.as_str(), FundToBuyColumn::Code.max_width(), wide));
        cells.push(trim_string(self.title.as_str(), FundToBuyColumn::Title.max_width(), wide));
        cells.push(self.price.to_row_value());
        cells.push(self.amount.to_row_value());
        cells.push(self.weight.to_row_value());
        assert(cells.deep_view() =~= self.projection(wide));
        Row { cells }
    }
}

} // verus!
