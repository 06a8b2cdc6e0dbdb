//! The record types of the portfolio service and their column sets.

pub mod fund_info;
pub mod fund_stats;
pub mod fund_to_buy;
pub mod portfolio;
pub mod portfolio_fund;
pub mod portfolio_fund_add;
pub mod portfolio_fund_price;

use vstd::prelude::*;

use crate::columns::{default_column_list, names_distinct};
use fund_info::FundInfoColumn;
use fund_stats::FundStatsColumn;
use fund_to_buy::FundToBuyColumn;
use portfolio::PortfolioColumn;
use portfolio_fund::PortfolioFundColumn;
use portfolio_fund_price::PortfolioFundPriceColumn;

verus! {

/// For every record type, column names are distinct with ASCII case ignored
/// (so each parses back to its column) and the default columns are not empty.
pub proof fn lemma_all_registries()
    ensures
        names_distinct::<PortfolioColumn>() && default_column_list::<PortfolioColumn>().len() > 0,
        names_distinct::<PortfolioFundColumn>() && default_column_list::<PortfolioFundColumn>().len()
            > 0,
        names_distinct::<PortfolioFundPriceColumn>()
            && default_column_list::<PortfolioFundPriceColumn>().len() > 0,
        names_distinct::<FundToBuyColumn>() && default_column_list::<FundToBuyColumn>().len() > 0,
        names_distinct::<FundInfoColumn>() && default_column_list::<FundInfoColumn>().len() > 0,
        names_distinct::<FundStatsColumn>() && default_column_list::<FundStatsColumn>().len() > 0,
{
    PortfolioColumn::lemma_registry();
    PortfolioFundColumn::lemma_registry();
    PortfolioFundPriceColumn::lemma_registry();
    FundToBuyColumn::lemma_registry();
    FundInfoColumn::lemma_registry();
    FundStatsColumn::lemma_registry();
}

} // verus!
