use vstd::prelude::*;

use crate::columns::{
    default_column_list, lemma_default_columns, names_distinct, ColumnEnum, ColumnEnumSorted,
};
use crate::table::{Row, Table};
use crate::text::{lemma_differ_at, trim_string, trimmed};
use crate::values::{Fixed2, UuidValue, ToRowValue};

verus! {

/// The columns of a [`PortfolioFund`] table.
#[derive(Clone, Copy, Debug, PartialEq, Eq, Hash, Structural)]
pub enum PortfolioFundColumn {
    FundCode,
    PortfolioId,
    Weight,
    NormalizedWeight,
    MinAmount,
    OwnedAmount,
    TotalMoneySpent,
}

impl ColumnEnum for PortfolioFundColumn {
    open spec fn all_columns() -> Seq<Self> {
        seq![
            PortfolioFundColumn::FundCode,
            PortfolioFundColumn::PortfolioId,
            PortfolioFundColumn::Weight,
            PortfolioFundColumn::NormalizedWeight,
            PortfolioFundColumn::MinAmount,
            PortfolioFundColumn::OwnedAmount,
            PortfolioFundColumn::TotalMoneySpent,
        ]
    }

    open spec fn column_index(&self) -> int {
        match self {
            PortfolioFundColumn::FundCode => 0,
            PortfolioFundColumn::PortfolioId => 1,
            PortfolioFundColumn::Weight => 2,
            PortfolioFundColumn::NormalizedWeight => 3,
            PortfolioFundColumn::MinAmount => 4,
            PortfolioFundColumn::OwnedAmount => 5,
            PortfolioFundColumn::TotalMoneySpent => 6,
        }
    }

    open spec fn spec_name(&self) -> Seq<char> {
        match self {
            PortfolioFundColumn::FundCode => "fund-code"@,
            PortfolioFundColumn::PortfolioId => "portfolio-id"@,
            PortfolioFundColumn::Weight => "weight"@,
            PortfolioFundColumn::NormalizedWeight => "normalized-weight"@,
            PortfolioFundColumn::MinAmount => "min-amount"@,
            PortfolioFundColumn::OwnedAmount => "owned-amount"@,
            PortfolioFundColumn::TotalMoneySpent => "total-money-spent"@,
        }
    }

    open spec fn spec_header(&self) -> Seq<char> {
        match self {
            PortfolioFundColumn::FundCode => "Code"@,
            PortfolioFundColumn::PortfolioId => "Portfolio Id"@,
            PortfolioFundColumn::Weight => "Weight"@,
            PortfolioFundColumn::NormalizedWeight => "Normalized Weight"@,
            PortfolioFundColumn::MinAmount => "Min Amount"@,
            PortfolioFundColumn::OwnedAmount => "Owned Amount"@,
            PortfolioFundColumn::TotalMoneySpent => "Spent"@,
        }
    }

    open spec fn spec_max_width(&self) -> usize {
        match self {
            PortfolioFundColumn::FundCode => 3,
            PortfolioFundColumn::PortfolioId => 36,
            PortfolioFundColumn::Weight => 15,
            PortfolioFundColumn::NormalizedWeight => 15,
            PortfolioFundColumn::MinAmount => 10,
            PortfolioFundColumn::OwnedAmount => 10,
            PortfolioFundColumn::TotalMoneySpent => 30,
        }
    }

    open spec fn spec_is_default(&self) -> bool {
        match self {
            PortfolioFundColumn::FundCode => true,
            PortfolioFundColumn::PortfolioId => false,
            PortfolioFundColumn::Weight => false,
            PortfolioFundColumn::NormalizedWeight => true,
            PortfolioFundColumn::MinAmount => false,
            PortfolioFundColumn::OwnedAmount => true,
            PortfolioFundColumn::TotalMoneySpent => true,
        }
    }

    open spec fn spec_left_align(&self) -> bool {
        match self {
            PortfolioFundColumn::FundCode => true,
            PortfolioFundColumn::PortfolioId => true,
            PortfolioFundColumn::Weight => true,
            PortfolioFundColumn::NormalizedWeight => true,
            PortfolioFundColumn::MinAmount => true,
            PortfolioFundColumn::OwnedAmount => true,
            PortfolioFundColumn::TotalMoneySpent => true,
        }
    }

    fn all() -> (r: Vec<Self>) {
        let mut r: Vec<Self> = Vec::new();
        r.push(PortfolioFundColumn::FundCode);
        r.push(PortfolioFundColumn::PortfolioId);
        r.push(PortfolioFundColumn::Weight);
        r.push(PortfolioFundColumn::NormalizedWeight);
        r.push(PortfolioFundColumn::MinAmount);
        r.push(PortfolioFundColumn::OwnedAmount);
        r.push(PortfolioFundColumn::TotalMoneySpent);
        assert(r@ =~= Self::all_columns());
        r
    }

    fn index(&self) -> (r: usize) {
        match self {
            PortfolioFundColumn::FundCode => 0,
            PortfolioFundColumn::PortfolioId => 1,
            PortfolioFundColumn::Weight => 2,
            PortfolioFundColumn::NormalizedWeight => 3,
            PortfolioFundColumn::MinAmount => 4,
            PortfolioFundColumn::OwnedAmount => 5,
            PortfolioFundColumn::TotalMoneySpent => 6,
        }
    }

    fn name(&self) -> (r: &'static str) {
        match self {
            PortfolioFundColumn::FundCode => "fund-code",
            PortfolioFundColumn::PortfolioId => "portfolio-id",
            PortfolioFundColumn::Weight => "weight",
            PortfolioFundColumn::NormalizedWeight => "normalized-weight",
            PortfolioFundColumn::MinAmount => "min-amount",
            PortfolioFundColumn::OwnedAmount => "owned-amount",
            PortfolioFundColumn::TotalMoneySpent => "total-money-spent",
        }
    }

    fn header(&self) -> (r: &'static str) {
        match self {
            PortfolioFundColumn::FundCode => "Code",
            PortfolioFundColumn::PortfolioId => "Portfolio Id",
            PortfolioFundColumn::Weight => "Weight",
            PortfolioFundColumn::NormalizedWeight => "Normalized Weight",
            PortfolioFundColumn::MinAmount => "Min Amount",
            PortfolioFundColumn::OwnedAmount => "Owned Amount",
            PortfolioFundColumn::TotalMoneySpent => "Spent",
        }
    }

    fn max_width(&self) -> (r: usize) {
        match self {
            PortfolioFundColumn::FundCode => 3,
            PortfolioFundColumn::PortfolioId => 36,
            PortfolioFundColumn::Weight => 15,
            PortfolioFundColumn::NormalizedWeight => 15,
            PortfolioFundColumn::MinAmount => 10,
            PortfolioFundColumn::OwnedAmount => 10,
            PortfolioFundColumn::TotalMoneySpent => 30,
        }
    }

    fn is_default(&self) -> (r: bool) {
        match self {
            PortfolioFundColumn::FundCode => true,
            PortfolioFundColumn::PortfolioId => false,
            PortfolioFundColumn::Weight => false,
            PortfolioFundColumn::NormalizedWeight => true,
            PortfolioFundColumn::MinAmount => false,
            PortfolioFundColumn::OwnedAmount => true,
            PortfolioFundColumn::TotalMoneySpent => true,
        }
    }

    fn left_align(&self) -> (r: bool) {
        match self {
            PortfolioFundColumn::FundCode => true,
            PortfolioFundColumn::PortfolioId => true,
            PortfolioFundColumn::Weight => true,
            PortfolioFundColumn::NormalizedWeight => true,
            PortfolioFundColumn::MinAmount => true,
            PortfolioFundColumn::OwnedAmount => true,
            PortfolioFundColumn::TotalMoneySpent => true,
        }
    }
}

impl ColumnEnumSorted for PortfolioFundColumn {
    open spec fn spec_server_name(&self) -> Seq<char> {
        match self {
            PortfolioFundColumn::FundCode => "fundCode"@,
            PortfolioFundColumn::PortfolioId => "portfolioId"@,
            PortfolioFundColumn::Weight => "weight"@,
            PortfolioFundColumn::NormalizedWeight => "normalizedWeight"@,
            PortfolioFundColumn::MinAmount => "minAmount"@,
            PortfolioFundColumn::OwnedAmount => "ownedAmount"@,
            PortfolioFundColumn::TotalMoneySpent => "totalMoneySpent"@,
        }
    }

    fn to_server_name(&self) -> (r: &'static str) {
        match self {
            PortfolioFundColumn::FundCode => "fundCode",
            PortfolioFundColumn::PortfolioId => "portfolioId",
            PortfolioFundColumn::Weight => "weight",
            PortfolioFundColumn::NormalizedWeight => "normalizedWeight",
            PortfolioFundColumn::MinAmount => "minAmount",
            PortfolioFundColumn::OwnedAmount => "ownedAmount",
            PortfolioFundColumn::TotalMoneySpent => "totalMoneySpent",
        }
    }
}

impl PortfolioFundColumn {
    /// The column names are distinct, ASCII case ignored, and some column is
    /// shown by default.
    pub proof fn lemma_registry()
        ensures
            names_distinct::<Self>(),
            default_column_list::<Self>().len() > 0,
    {
        reveal_strlit("fund-code");
        reveal_strlit("portfolio-id");
        reveal_strlit("weight");
        reveal_strlit("normalized-weight");
        reveal_strlit("min-amount");
        reveal_strlit("owned-amount");
        reveal_strlit("total-money-spent");
        lemma_differ_at("portfolio-id"@, "owned-amount"@, 0);
        lemma_differ_at("normalized-weight"@, "total-money-spent"@, 0);
        lemma_default_columns::<Self>();
        assert(Self::all_columns()[0].spec_is_default());
    }
}

/// A fund held in a portfolio.
pub struct PortfolioFund {
    pub fund_code: String,
    pub portfolio_id: UuidValue,
    pub weight: Fixed2,
    pub normalized_weight: Fixed2,
    pub min_amount: u32,
    pub owned_amount: u32,
    pub total_money_spent: Fixed2,
}

impl Table for PortfolioFund {
    type Column = PortfolioFundColumn;

    open spec fn projection(&self, wide: bool) -> Seq<Seq<char>> {
        seq![
            trimmed(self.fund_code@, PortfolioFundColumn::FundCode.spec_max_width() as nat, wide),
            self.portfolio_id.row_text(),
            self.weight.row_text(),
            self.normalized_weight.row_text(),
            self.min_amount.row_text(),
            self.owned_amount.row_text(),
            self.total_money_spent.row_text(),
        ]
    }

    fn from_value(&self, wide: bool) -> (r: Row) {
        let mut cells: Vec<String> = Vec::new();
        cells.push(trim_string(self.fund_code.as_str(), PortfolioFundColumn::FundCode.max_width(), wide));
        cells.push(self.portfolio_id.to_row_value());
        cells.push(self.weight.to_row_value());
        cells.push(self.normalized_weight.to_row_value());
        cells.push(self.min_amount.to_row_value());
        cells.push(self.owned_amount.to_row_value());
        cells.push(self.total_money_spent.to_row_value());
        assert(cells.deep_view() =~= self.projection(wide));
        Row { cells }
    }
}

} // verus!
