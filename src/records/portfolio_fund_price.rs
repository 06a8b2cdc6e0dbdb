use vstd::prelude::*;

use crate::columns::{
    default_column_list, lemma_default_columns, names_distinct, ColumnEnum, ColumnEnumSorted,
};
use crate::table::{Row, Table};
use crate::text::{lemma_differ_at, trim_string, trimmed};
use crate::values::{Date, Fixed2, UuidValue, ToRowValue};

verus! {

/// The columns of a [`PortfolioFundPrice`] table.
#[derive(Clone, Copy, Debug, PartialEq, Eq, Hash, Structural)]
pub enum PortfolioFundPriceColumn {
    PortfolioId,
    Code,
    Date,
    Title,
    NormalizedWeight,
    MinAmount,
    OwnedAmount,
    TotalMoneySpent,
}

impl ColumnEnum for PortfolioFundPriceColumn {
    open spec fn all_columns() -> Seq<Self> {
        seq![
            PortfolioFundPriceColumn::PortfolioId,
            PortfolioFundPriceColumn::Code,
            PortfolioFundPriceColumn::Date,
            PortfolioFundPriceColumn::Title,
            PortfolioFundPriceColumn::NormalizedWeight,
            PortfolioFundPriceColumn::MinAmount,
            PortfolioFundPriceColumn::OwnedAmount,
            PortfolioFundPriceColumn::TotalMoneySpent,
        ]
    }

    open spec fn column_index(&self) -> int {
        match self {
            PortfolioFundPriceColumn::PortfolioId => 0,
            PortfolioFundPriceColumn::Code => 1,
            PortfolioFundPriceColumn::Date => 2,
            PortfolioFundPriceColumn::Title => 3,
            PortfolioFundPriceColumn::NormalizedWeight => 4,
            PortfolioFundPriceColumn::MinAmount => 5,
            PortfolioFundPriceColumn::OwnedAmount => 6,
            PortfolioFundPriceColumn::TotalMoneySpent => 7,
        }
    }

    open spec fn spec_name(&self) -> Seq<char> {
        match self {
            PortfolioFundPriceColumn::PortfolioId => "portfolio-id"@,
            PortfolioFundPriceColumn::Code => "code"@,
            PortfolioFundPriceColumn::Date => "date"@,
            PortfolioFundPriceColumn::Title => "title"@,
            PortfolioFundPriceColumn::NormalizedWeight => "normalized-weight"@,
            PortfolioFundPriceColumn::MinAmount => "min-amount"@,
            PortfolioFundPriceColumn::OwnedAmount => "owned-amount"@,
            PortfolioFundPriceColumn::TotalMoneySpent => "total-money-spent"@,
        }
    }

    open spec fn spec_header(&self) -> Seq<char> {
        match self {
            PortfolioFundPriceColumn::PortfolioId => "Portfolio Id"@,
            PortfolioFundPriceColumn::Code => "Code"@,
            PortfolioFundPriceColumn::Date => "Date"@,
            PortfolioFundPriceColumn::Title => "Title"@,
            PortfolioFundPriceColumn::NormalizedWeight => "Normalized Weight"@,
            PortfolioFundPriceColumn::MinAmount => "Min Amount"@,
            PortfolioFundPriceColumn::OwnedAmount => "Owned"@,
            PortfolioFundPriceColumn::TotalMoneySpent => "Spent"@,
        }
    }

    open spec fn spec_max_width(&self) -> usize {
        match self {
            PortfolioFundPriceColumn::PortfolioId => 36,
            PortfolioFundPriceColumn::Code => 3,
            PortfolioFundPriceColumn::Date => 10,
            PortfolioFundPriceColumn::Title => 25,
            PortfolioFundPriceColumn::NormalizedWeight => 15,
            PortfolioFundPriceColumn::MinAmount => 10,
            PortfolioFundPriceColumn::OwnedAmount => 10,
            PortfolioFundPriceColumn::TotalMoneySpent => 30,
        }
    }

    open spec fn spec_is_default(&self) -> bool {
        match self {
            PortfolioFundPriceColumn::PortfolioId => false,
            PortfolioFundPriceColumn::Code => true,
            PortfolioFundPriceColumn::Date => true,
            PortfolioFundPriceColumn::Title => false,
            PortfolioFundPriceColumn::NormalizedWeight => false,
            PortfolioFundPriceColumn::MinAmount => false,
            PortfolioFundPriceColumn::OwnedAmount => true,
            PortfolioFundPriceColumn::TotalMoneySpent => true,
        }
    }

    open spec fn spec_left_align(&self) -> bool {
        match self {
            PortfolioFundPriceColumn::PortfolioId => true,
            PortfolioFundPriceColumn::Code => true,
            PortfolioFundPriceColumn::Date => true,
            PortfolioFundPriceColumn::Title => true,
            PortfolioFundPriceColumn::NormalizedWeight => true,
            PortfolioFundPriceColumn::MinAmount => true,
            PortfolioFundPriceColumn::OwnedAmount => true,
            PortfolioFundPriceColumn::TotalMoneySpent => true,
        }
    }

    fn all() -> (r: Vec<Self>) {
        let mut r: Vec<Self> = Vec::new();
        r.push(PortfolioFundPriceColumn::PortfolioId);
        r.push(PortfolioFundPriceColumn::Code);
        r.push(PortfolioFundPriceColumn::Date);
        r.push(PortfolioFundPriceColumn::Title);
        r.push(PortfolioFundPriceColumn::NormalizedWeight);
        r.push(PortfolioFundPriceColumn::MinAmount);
        r.push(PortfolioFundPriceColumn::OwnedAmount);
        r.push(PortfolioFundPriceColumn::TotalMoneySpent);
        assert(r@ =~= Self::all_columns());
        r
    }

    fn index(&self) -> (r: usize) {
        match self {
            PortfolioFundPriceColumn::PortfolioId => 0,
            PortfolioFundPriceColumn::Code => 1,
            PortfolioFundPriceColumn::Date => 2,
            PortfolioFundPriceColumn::Title => 3,
            PortfolioFundPriceColumn::NormalizedWeight => 4,
            PortfolioFundPriceColumn::MinAmount => 5,
            PortfolioFundPriceColumn::OwnedAmount => 6,
            PortfolioFundPriceColumn::TotalMoneySpent => 7,
        }
    }

    fn name(&self) -> (r: &'static str) {
        match self {
            PortfolioFundPriceColumn::PortfolioId => "portfolio-id",
            PortfolioFundPriceColumn::Code => "code",
            PortfolioFundPriceColumn::Date => "date",
            PortfolioFundPriceColumn::Title => "title",
            PortfolioFundPriceColumn::NormalizedWeight => "normalized-weight",
            PortfolioFundPriceColumn::MinAmount => "min-amount",
            PortfolioFundPriceColumn::OwnedAmount => "owned-amount",
            PortfolioFundPriceColumn::TotalMoneySpent => "total-money-spent",
        }
    }

    fn header(&self) -> (r: &'static str) {
        match self {
            PortfolioFundPriceColumn::PortfolioId => "Portfolio Id",
            PortfolioFundPriceColumn::Code => "Code",
            PortfolioFundPriceColumn::Date => "Date",
            PortfolioFundPriceColumn::Title => "Title",
            PortfolioFundPriceColumn::NormalizedWeight => "Normalized Weight",
            PortfolioFundPriceColumn::MinAmount => "Min Amount",
            PortfolioFundPriceColumn::OwnedAmount => "Owned",
            PortfolioFundPriceColumn::TotalMoneySpent => "Spent",
        }
    }

    fn max_width(&self) -> (r: usize) {
        match self {
            PortfolioFundPriceColumn::PortfolioId => 36,
            PortfolioFundPriceColumn::Code => 3,
            PortfolioFundPriceColumn::Date => 10,
            PortfolioFundPriceColumn::Title => 25,
            PortfolioFundPriceColumn::NormalizedWeight => 15,
            PortfolioFundPriceColumn::MinAmount => 10,
            PortfolioFundPriceColumn::OwnedAmount => 10,
            PortfolioFundPriceColumn::TotalMoneySpent => 30,
        }
    }

    fn is_default(&self) -> (r: bool) {
        match self {
            PortfolioFundPriceColumn::PortfolioId => false,
            PortfolioFundPriceColumn::Code => true,
            PortfolioFundPriceColumn::Date => true,
            PortfolioFundPriceColumn::Title => false,
            PortfolioFundPriceColumn::NormalizedWeight => false,
            PortfolioFundPriceColumn::MinAmount => false,
            PortfolioFundPriceColumn::OwnedAmount => true,
            PortfolioFundPriceColumn::TotalMoneySpent => true,
        }
    }

    fn left_align(&self) -> (r: bool) {
        match self {
            PortfolioFundPriceColumn::PortfolioId => true,
            PortfolioFundPriceColumn::Code => true,
            PortfolioFundPriceColumn::Date => true,
            PortfolioFundPriceColumn::Title => true,
            PortfolioFundPriceColumn::NormalizedWeight => true,
            PortfolioFundPriceColumn::MinAmount => true,
            PortfolioFundPriceColumn::OwnedAmount => true,
            PortfolioFundPriceColumn::TotalMoneySpent => true,
        }
    }
}

impl ColumnEnumSorted for PortfolioFundPriceColumn {
    open spec fn spec_server_name(&self) -> Seq<char> {
        match self {
            PortfolioFundPriceColumn::PortfolioId => "portfolioId"@,
            PortfolioFundPriceColumn::Code => "code"@,
            PortfolioFundPriceColumn::Date => "date"@,
            PortfolioFundPriceColumn::Title => "title"@,
            PortfolioFundPriceColumn::NormalizedWeight => "normalizedWeight"@,
            PortfolioFundPriceColumn::MinAmount => "minAmount"@,
            PortfolioFundPriceColumn::OwnedAmount => "ownedAmount"@,
            PortfolioFundPriceColumn::TotalMoneySpent => "totalMoneySpent"@,
        }
    }

    fn to_server_name(&self) -> (r: &'static str) {
        match self {
            PortfolioFundPriceColumn::PortfolioId => "portfolioId",
            PortfolioFundPriceColumn::Code => "code",
            PortfolioFundPriceColumn::Date => "date",
            PortfolioFundPriceColumn::Title => "title",
            PortfolioFundPriceColumn::NormalizedWeight => "normalizedWeight",
            PortfolioFundPriceColumn::MinAmount => "minAmount",
            PortfolioFundPriceColumn::OwnedAmount => "ownedAmount",
            PortfolioFundPriceColumn::TotalMoneySpent => "totalMoneySpent",
        }
    }
}

impl PortfolioFundPriceColumn {
    /// The column names are distinct, ASCII case ignored, and some column is
    /// shown by default.
    pub proof fn lemma_registry()
        ensures
            names_distinct::<Self>(),
            default_column_list::<Self>().len() > 0,
    {
        reveal_strlit("portfolio-id");
        reveal_strlit("code");
        reveal_strlit("date");
        reveal_strlit("title");
        reveal_strlit("normalized-weight");
        reveal_strlit("min-amount");
        reveal_strlit("owned-amount");
        reveal_strlit("total-money-spent");
        lemma_differ_at("portfolio-id"@, "owned-amount"@, 0);
        lemma_differ_at("code"@, "date"@, 0);
        lemma_differ_at("normalized-weight"@, "total-money-spent"@, 0);
        lemma_default_columns::<Self>();
        assert(Self::all_columns()[1].spec_is_default());
    }
}

/// The price of a fund of a portfolio on one day.
pub struct PortfolioFundPrice {
    pub portfolio_id: UuidValue,
    pub code: String,
    pub date: Date,
    pub title: String,
    pub normalized_weight: Fixed2,
    pub min_amount: u32,
    pub owned_amount: u32,
    pub total_money_spent: Fixed2,
}

impl Table for PortfolioFundPrice {
    type Column = PortfolioFundPriceColumn;

    open spec fn projection(&self, wide: bool) -> Seq<Seq<char>> {
        seq![
            self.portfolio_id.row_text(),
            trimmed(self.code@, PortfolioFundPriceColumn::Code.spec_max_width() as nat, wide),
            self.date.row_text(),
            trimmed(self.title@, PortfolioFundPriceColumn::Title.spec_max_width() as nat, wide),
            self.normalized_weight.row_text(),
            self.min_amount.row_text(),
            self.owned_amount.row_text(),
            self.total_money_spent.row_text(),
        ]
    }

    fn from_value(&self, wide: bool) -> (r: Row) {
        let mut cells: Vec<String> = Vec::new();
        cells.push(self.portfolio_id.to_row_value());
        cells.push(trim_string(self.code.as_str(), PortfolioFundPriceColumn::Code.max_width(), wide));
        cells.push(self.date.to_row_value());
        cells.push(trim_string(self.title.as_str(), PortfolioFundPriceColumn::Title.max_width(), wide));
        cells.push(self.normalized_weight.to_row_value());
        cells.push(self.min_amount.to_row_value());
        cells.push(self.owned_amount.to_row_value());
        cells.push(self.total_money_spent.to_row_value());
        assert(cells.deep_view() =~= self.projection(wide));
        Row { cells }
    }
}

} // verus!
