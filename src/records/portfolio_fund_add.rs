use vstd::prelude::*;

verus! {

/// A fund to add to a portfolio, with its weight and the least amount to buy.
#[derive(Clone, Debug, PartialEq, Eq, Hash)]
pub struct PortfolioFundAdd {
    pub fund_code: String,
    pub weight: u32,
    pub min_amount: u32,
}

} // verus!
