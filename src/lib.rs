//! Declarative tabular reporting for portfolio and fund records: column
//! registries, row projection, width computation and aligned rendering, and
//! the `<field> <direction>` sort grammar with its query encoding.

pub mod columns;
pub mod config;
pub mod problem_detail;
pub mod query;
pub mod records;
pub mod render;
pub mod sort;
pub mod table;
pub mod text;
pub mod values;

pub use columns::{column_help, column_names, parse_column, ColumnEnum, ColumnEnumSorted, ColumnError};
pub use config::Config;
pub use problem_detail::ProblemDetail;
pub use query::{FundFilter, Query};
pub use records::fund_info::{FundInfo, FundInfoColumn};
pub use records::fund_stats::{FundStats, FundStatsColumn};
pub use records::fund_to_buy::{FundToBuy, FundToBuyColumn};
pub use records::portfolio::{Portfolio, PortfolioColumn};
pub use records::portfolio_fund::{PortfolioFund, PortfolioFundColumn};
pub use records::portfolio_fund_add::PortfolioFundAdd;
pub use records::portfolio_fund_price::{PortfolioFundPrice, PortfolioFundPriceColumn};
pub use render::{render_table, ColumnLayout};
pub use sort::{SortArguments, SortDirection, SortError};
pub use table::{table_lines, Row, Table, TableArgs, COLUMN_SPACING};
pub use text::trim_string;
pub use values::{parse_naive_date, Date, DateError, Fixed2, Percent, ToRowValue, UuidValue};
