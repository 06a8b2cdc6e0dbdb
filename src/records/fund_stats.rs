use vstd::prelude::*;

use crate::columns::{
    default_column_list, lemma_default_columns, names_distinct, ColumnEnum, ColumnEnumSorted,
};
use crate::table::{Row, Table};
use crate::text::{lemma_differ_at, trim_string, trimmed};
use crate::values::{Date, Fixed2, Percent, ToRowValue};

verus! {

/// The columns of a [`FundStats`] table.
#[derive(Clone, Copy, Debug, PartialEq, Eq, Hash, Structural)]
pub enum FundStatsColumn {
    Code,
    Title,
    UpdatedAt,
    LastPrice,
    TotalValue,
    DailyReturn,
    MonthlyReturn,
    ThreeMonthlyReturn,
    SixMonthlyReturn,
    YearlyReturn,
    ThreeYearlyReturn,
    FiveYearlyReturn,
}

impl ColumnEnum for FundStatsColumn {
    open spec fn all_columns() -> Seq<Self> {
        seq![
            FundStatsColumn::Code,
            FundStatsColumn::Title,
            FundStatsColumn::UpdatedAt,
            FundStatsColumn::LastPrice,
            FundStatsColumn::TotalValue,
            FundStatsColumn::DailyReturn,
            FundStatsColumn::MonthlyReturn,
            FundStatsColumn::ThreeMonthlyReturn,
            FundStatsColumn::SixMonthlyReturn,
            FundStatsColumn::YearlyReturn,
            FundStatsColumn::ThreeYearlyReturn,
            FundStatsColumn::FiveYearlyReturn,
        ]
    }

    open spec fn column_index(&self) -> int {
        match self {
            FundStatsColumn::Code => 0,
            FundStatsColumn::Title => 1,
            FundStatsColumn::UpdatedAt => 2,
            FundStatsColumn::LastPrice => 3,
            FundStatsColumn::TotalValue => 4,
            FundStatsColumn::DailyReturn => 5,
            FundStatsColumn::MonthlyReturn => 6,
            FundStatsColumn::ThreeMonthlyReturn => 7,
            FundStatsColumn::SixMonthlyReturn => 8,
            FundStatsColumn::YearlyReturn => 9,
            FundStatsColumn::ThreeYearlyReturn => 10,
            FundStatsColumn::FiveYearlyReturn => 11,
        }
    }

    open spec fn spec_name(&self) -> Seq<char> {
        match self {
            FundStatsColumn::Code => "code"@,
            FundStatsColumn::Title => "title"@,
            FundStatsColumn::UpdatedAt => "updated-at"@,
            FundStatsColumn::LastPrice => "last-price"@,
            FundStatsColumn::TotalValue => "total-value"@,
            FundStatsColumn::DailyReturn => "daily-return"@,
            FundStatsColumn::MonthlyReturn => "monthly-return"@,
            FundStatsColumn::ThreeMonthlyReturn => "three-monthly-return"@,
            FundStatsColumn::SixMonthlyReturn => "six-monthly-return"@,
            FundStatsColumn::YearlyReturn => "yearly-return"@,
            FundStatsColumn::ThreeYearlyReturn => "three-yearly-return"@,
            FundStatsColumn::FiveYearlyReturn => "five-yearly-return"@,
        }
    }

    open spec fn spec_header(&self) -> Seq<char> {
        match self {
            FundStatsColumn::Code => "Code"@,
            FundStatsColumn::Title => "Title"@,
            FundStatsColumn::UpdatedAt => "Updated At"@,
            FundStatsColumn::LastPrice => "Last Price"@,
            FundStatsColumn::TotalValue => "Total Value"@,
            FundStatsColumn::DailyReturn => "Daily Return"@,
            FundStatsColumn::MonthlyReturn => "Monthly Return"@,
            FundStatsColumn::ThreeMonthlyReturn => "Three Monthly Return"@,
            FundStatsColumn::SixMonthlyReturn => "Six Monthly Return"@,
            FundStatsColumn::YearlyReturn => "Yearly Return"@,
            FundStatsColumn::ThreeYearlyReturn => "Three Yearly Return"@,
            FundStatsColumn::FiveYearlyReturn => "Five Yearly Return"@,
        }
    }

    open spec fn spec_max_width(&self) -> usize {
        match self {
            FundStatsColumn::Code => 3,
            FundStatsColumn::Title => 25,
            FundStatsColumn::UpdatedAt => 10,
            FundStatsColumn::LastPrice => 15,
            FundStatsColumn::TotalValue => 30,
            FundStatsColumn::DailyReturn => 30,
            FundStatsColumn::MonthlyReturn => 30,
            FundStatsColumn::ThreeMonthlyReturn => 30,
            FundStatsColumn::SixMonthlyReturn => 30,
            FundStatsColumn::YearlyReturn => 30,
            FundStatsColumn::ThreeYearlyReturn => 30,
            FundStatsColumn::FiveYearlyReturn => 30,
        }
    }

    open spec fn spec_is_default(&self) -> bool {
        match self {
            FundStatsColumn::Code => true,
            FundStatsColumn::Title => false,
            FundStatsColumn::UpdatedAt => false,
            FundStatsColumn::LastPrice => true,
            FundStatsColumn::TotalValue => true,
            FundStatsColumn::DailyReturn => false,
            FundStatsColumn::MonthlyReturn => true,
            FundStatsColumn::ThreeMonthlyReturn => false,
            FundStatsColumn::SixMonthlyReturn => true,
            FundStatsColumn::YearlyReturn => true,
            FundStatsColumn::ThreeYearlyReturn => true,
            FundStatsColumn::FiveYearlyReturn => true,
        }
    }

    open spec fn spec_left_align(&self) -> bool {
        match self {
            FundStatsColumn::Code => true,
            FundStatsColumn::Title => true,
            FundStatsColumn::UpdatedAt => true,
            FundStatsColumn::LastPrice => false,
            FundStatsColumn::TotalValue => false,
            FundStatsColumn::DailyReturn => false,
            FundStatsColumn::MonthlyReturn => false,
            FundStatsColumn::ThreeMonthlyReturn => false,
            FundStatsColumn::SixMonthlyReturn => false,
            FundStatsColumn::YearlyReturn => false,
            FundStatsColumn::ThreeYearlyReturn => false,
            FundStatsColumn::FiveYearlyReturn => false,
        }
    }

    fn all() -> (r: Vec<Self>) {
        let mut r: Vec<Self> = Vec::new();
        r.push(FundStatsColumn::Code);
        r.push(FundStatsColumn::Title);
        r.push(FundStatsColumn::UpdatedAt);
        r.push(FundStatsColumn::LastPrice);
        r.push(FundStatsColumn::TotalValue);
        r.push(FundStatsColumn::DailyReturn);
        r.push(FundStatsColumn::MonthlyReturn);
        r.push(FundStatsColumn::ThreeMonthlyReturn);
        r.push(FundStatsColumn::SixMonthlyReturn);
        r.push(FundStatsColumn::YearlyReturn);
        r.push(FundStatsColumn::ThreeYearlyReturn);
        r.push(FundStatsColumn::FiveYearlyReturn);
        assert(r@ =~= Self::all_columns());
        r
    }

    fn index(&self) -> (r: usize) {
        match self {
            FundStatsColumn::Code => 0,
            FundStatsColumn::Title => 1,
            FundStatsColumn::UpdatedAt => 2,
            FundStatsColumn::LastPrice => 3,
            FundStatsColumn::TotalValue => 4,
            FundStatsColumn::DailyReturn => 5,
            FundStatsColumn::MonthlyReturn => 6,
            FundStatsColumn::ThreeMonthlyReturn => 7,
            FundStatsColumn::SixMonthlyReturn => 8,
            FundStatsColumn::YearlyReturn => 9,
            FundStatsColumn::ThreeYearlyReturn => 10,
            FundStatsColumn::FiveYearlyReturn => 11,
        }
    }

    fn name(&self) -> (r: &'static str) {
        match self {
            FundStatsColumn::Code => "code",
            FundStatsColumn::Title => "title",
            FundStatsColumn::UpdatedAt => "updated-at",
            FundStatsColumn::LastPrice => "last-price",
            FundStatsColumn::TotalValue => "total-value",
            FundStatsColumn::DailyReturn => "daily-return",
            FundStatsColumn::MonthlyReturn => "monthly-return",
            FundStatsColumn::ThreeMonthlyReturn => "three-monthly-return",
            FundStatsColumn::SixMonthlyReturn => "six-monthly-return",
            FundStatsColumn::YearlyReturn => "yearly-return",
            FundStatsColumn::ThreeYearlyReturn => "three-yearly-return",
            FundStatsColumn::FiveYearlyReturn => "five-yearly-return",
        }
    }

    fn header(&self) -> (r: &'static str) {
        match self {
            FundStatsColumn::Code => "Code",
            FundStatsColumn::Title => "Title",
            FundStatsColumn::UpdatedAt => "Updated At",
            FundStatsColumn::LastPrice => "Last Price",
            FundStatsColumn::TotalValue => "Total Value",
            FundStatsColumn::DailyReturn => "Daily Return",
            FundStatsColumn::MonthlyReturn => "Monthly Return",
            FundStatsColumn::ThreeMonthlyReturn => "Three Monthly Return",
            FundStatsColumn::SixMonthlyReturn => "Six Monthly Return",
            FundStatsColumn::YearlyReturn => "Yearly Return",
            FundStatsColumn::ThreeYearlyReturn => "Three Yearly Return",
            FundStatsColumn::FiveYearlyReturn => "Five Yearly Return",
        }
    }

    fn max_width(&self) -> (r: usize) {
        match self {
            FundStatsColumn::Code => 3,
            FundStatsColumn::Title => 25,
            FundStatsColumn::UpdatedAt => 10,
            FundStatsColumn::LastPrice => 15,
            FundStatsColumn::TotalValue => 30,
            FundStatsColumn::DailyReturn => 30,
            FundStatsColumn::MonthlyReturn => 30,
            FundStatsColumn::ThreeMonthlyReturn => 30,
            FundStatsColumn::SixMonthlyReturn => 30,
            FundStatsColumn::YearlyReturn => 30,
            FundStatsColumn::ThreeYearlyReturn => 30,
            FundStatsColumn::FiveYearlyReturn => 30,
        }
    }

    fn is_default(&self) -> (r: bool) {
        match self {
            FundStatsColumn::Code => true,
            FundStatsColumn::Title => false,
            FundStatsColumn::UpdatedAt => false,
            FundStatsColumn::LastPrice => true,
            FundStatsColumn::TotalValue => true,
            FundStatsColumn::DailyReturn => false,
            FundStatsColumn::MonthlyReturn => true,
            FundStatsColumn::ThreeMonthlyReturn => false,
            FundStatsColumn::SixMonthlyReturn => true,
            FundStatsColumn::YearlyReturn => true,
            FundStatsColumn::ThreeYearlyReturn => true,
            FundStatsColumn::FiveYearlyReturn => true,
        }
    }

    fn left_align(&self) -> (r: bool) {
        match self {
            FundStatsColumn::Code => true,
            FundStatsColumn::Title => true,
            FundStatsColumn::UpdatedAt => true,
            FundStatsColumn::LastPrice => false,
            FundStatsColumn::TotalValue => false,
            FundStatsColumn::DailyReturn => false,
            FundStatsColumn::MonthlyReturn => false,
            FundStatsColumn::ThreeMonthlyReturn => false,
            FundStatsColumn::SixMonthlyReturn => false,
            FundStatsColumn::YearlyReturn => false,
            FundStatsColumn::ThreeYearlyReturn => false,
            FundStatsColumn::FiveYearlyReturn => false,
        }
    }
}

impl ColumnEnumSorted for FundStatsColumn {
    open spec fn spec_server_name(&self) -> Seq<char> {
        match self {
            FundStatsColumn::Code => "code"@,
            FundStatsColumn::Title => "title"@,
            FundStatsColumn::UpdatedAt => "updatedAt"@,
            FundStatsColumn::LastPrice => "lastPrice"@,
            FundStatsColumn::TotalValue => "totalValue"@,
            FundStatsColumn::DailyReturn => "dailyReturn"@,
            FundStatsColumn::MonthlyReturn => "monthlyReturn"@,
            FundStatsColumn::ThreeMonthlyReturn => "threeMonthlyReturn"@,
            FundStatsColumn::SixMonthlyReturn => "sixMonthlyReturn"@,
            FundStatsColumn::YearlyReturn => "yearlyReturn"@,
            FundStatsColumn::ThreeYearlyReturn => "threeYearlyReturn"@,
            FundStatsColumn::FiveYearlyReturn => "fiveYearlyReturn"@,
        }
    }

    fn to_server_name(&self) -> (r: &'static str) {
        match self {
            FundStatsColumn::Code => "code",
            FundStatsColumn::Title => "title",
            FundStatsColumn::UpdatedAt => "updatedAt",
            FundStatsColumn::LastPrice => "lastPrice",
            FundStatsColumn::TotalValue => "totalValue",
            FundStatsColumn::DailyReturn => "dailyReturn",
            FundStatsColumn::MonthlyReturn => "monthlyReturn",
            FundStatsColumn::ThreeMonthlyReturn => "threeMonthlyReturn",
            FundStatsColumn::SixMonthlyReturn => "sixMonthlyReturn",
            FundStatsColumn::YearlyReturn => "yearlyReturn",
            FundStatsColumn::ThreeYearlyReturn => "threeYearlyReturn",
            FundStatsColumn::FiveYearlyReturn => "fiveYearlyReturn",
        }
    }
}

impl FundStatsColumn {
    /// The column names are distinct, ASCII case ignored, and some column is
    /// shown by default.
    pub proof fn lemma_registry()
        ensures
            names_distinct::<Self>(),
            default_column_list::<Self>().len() > 0,
    {
        reveal_strlit("code");
        reveal_strlit("title");
        reveal_strlit("updated-at");
        reveal_strlit("last-price");
        reveal_strlit("total-value");
        reveal_strlit("daily-return");
        reveal_strlit("monthly-return");
        reveal_strlit("three-monthly-return");
        reveal_strlit("six-monthly-return");
        reveal_strlit("yearly-return");
        reveal_strlit("three-yearly-return");
        reveal_strlit("five-yearly-return");
        lemma_differ_at("updated-at"@, "last-price"@, 0);
        lemma_differ_at("six-monthly-return"@, "five-yearly-return"@, 0);
        lemma_default_columns::<Self>();
        assert(Self::all_columns()[0].spec_is_default());
    }
}

/// Statistics of a fund; absent returns show as `-`.
pub struct FundStats {
    pub code: String,
    pub title: String,
    pub updated_at: Date,
    pub last_price: Fixed2,
    pub total_value: Fixed2,
    pub daily_return: Option<Percent>,
    pub monthly_return: Option<Percent>,
    pub three_monthly_return: Option<Percent>,
    pub six_monthly_return: Option<Percent>,
    pub yearly_return: Option<Percent>,
    pub three_yearly_return: Option<Percent>,
    pub five_yearly_return: Option<Percent>,
}

impl Table for FundStats {
    type Column = FundStatsColumn;

    open spec fn projection(&self, wide: bool) -> Seq<Seq<char>> {
        seq![
            trimmed(self.code@, FundStatsColumn::Code.spec_max_width() as nat, wide),
            trimmed(self.title@, FundStatsColumn::Title.spec_max_width() as nat, wide),
            self.updated_at.row_text(),
            self.last_price.row_text(),
            self.total_value.row_text(),
            self.daily_return.row_text(),
            self.monthly_return.row_text(),
            self.three_monthly_return.row_text(),
            self.six_monthly_return.row_text(),
            self.yearly_return.row_text(),
            self.three_yearly_return.row_text(),
            self.five_yearly_return.row_text(),
        ]
    }

    fn from_value(&self, wide: bool) -> (r: Row) {
        let mut cells: Vec<String> = Vec::new();
        cells.push(trim_string(self.code.as_str(), FundStatsColumn::Code.max_width(), wide));
        cells.push(trim_string(self.title.as_str(), FundStatsColumn::Title.max_width(), wide));
        cells.push(self.updated_at.to_row_value());
        cells.push(self.last_price.to_row_value());
        cells.push(self.total_value.to_row_value());
        cells.push(self.daily_return.to_row_value());
        cells.push(self.monthly_return.to_row_value());
        cells.push(self.three_monthly_return.to_row_value());
        cells.push(self.six_monthly_return.to_row_value());
        cells.push(self.yearly_return.to_row_value());
        cells.push(self.three_yearly_return.to_row_value());
        cells.push(self.five_yearly_return.to_row_value());
        assert(cells.deep_view() =~= self.projection(wide));
        Row { cells }
    }
}

} // verus!
