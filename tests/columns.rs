use pfo::columns::{column_help, column_names, parse_column, ColumnEnum, ColumnEnumSorted, ColumnError};
use pfo::{
    FundInfoColumn, FundStatsColumn, FundToBuyColumn, PortfolioColumn, PortfolioFundColumn,
    PortfolioFundPriceColumn,
};

fn check_defaults<C: ColumnEnum + PartialEq + std::fmt::Debug>() {
    let all = C::all();
    let defaults = C::default_columns();
    assert!(!defaults.is_empty());
    for d in &defaults {
        assert!(d.is_default());
        assert!(all.contains(d));
    }
    let expected: Vec<C> = all.iter().copied().filter(|c| c.is_default()).collect();
    assert_eq!(defaults, expected);
}

fn check_round_trip<C: ColumnEnum + PartialEq + std::fmt::Debug>() {
    for c in C::all() {
        let name = c.name();
        assert_eq!(parse_column::<C>(name).unwrap(), c);
        assert_eq!(parse_column::<C>(&name.to_uppercase()).unwrap(), c);
        assert_eq!(parse_column::<C>(name).unwrap().name(), name);
    }
    for (i, c) in C::all().into_iter().enumerate() {
        assert_eq!(c.index(), i);
    }
}

#[test]
fn default_columns_are_default_subsets() {
    check_defaults::<PortfolioColumn>();
    check_defaults::<PortfolioFundColumn>();
    check_defaults::<PortfolioFundPriceColumn>();
    check_defaults::<FundToBuyColumn>();
    check_defaults::<FundInfoColumn>();
    check_defaults::<FundStatsColumn>();
}

#[test]
fn names_round_trip_through_parse() {
    check_round_trip::<PortfolioColumn>();
    check_round_trip::<PortfolioFundColumn>();
    check_round_trip::<PortfolioFundPriceColumn>();
    check_round_trip::<FundToBuyColumn>();
    check_round_trip::<FundInfoColumn>();
    check_round_trip::<FundStatsColumn>();
}

#[test]
fn default_columns_in_declaration_order() {
    assert_eq!(
        FundInfoColumn::default_columns(),
        vec![FundInfoColumn::Code, FundInfoColumn::Title, FundInfoColumn::Date, FundInfoColumn::Price]
    );
    assert_eq!(
        FundStatsColumn::default_columns(),
        vec![
            FundStatsColumn::Code,
            FundStatsColumn::LastPrice,
            FundStatsColumn::TotalValue,
            FundStatsColumn::MonthlyReturn,
            FundStatsColumn::SixMonthlyReturn,
            FundStatsColumn::YearlyReturn,
            FundStatsColumn::ThreeYearlyReturn,
            FundStatsColumn::FiveYearlyReturn,
        ]
    );
    assert_eq!(
        PortfolioFundPriceColumn::default_columns(),
        vec![
            PortfolioFundPriceColumn::Code,
            PortfolioFundPriceColumn::Date,
            PortfolioFundPriceColumn::OwnedAmount,
            PortfolioFundPriceColumn::TotalMoneySpent,
        ]
    );
}

#[test]
fn parse_ignores_ascii_case() {
    assert_eq!(parse_column::<FundInfoColumn>("TOTAL-VALUE").unwrap(), FundInfoColumn::TotalValue);
    assert_eq!(parse_column::<FundInfoColumn>("Code").unwrap(), FundInfoColumn::Code);
}

#[test]
fn parse_unknown_column_lists_valid_names() {
    match parse_column::<FundInfoColumn>("total_value") {
        Err(ColumnError::UnknownColumn { attempted, valid }) => {
            assert_eq!(attempted, "total_value");
            assert_eq!(valid, vec!["code", "title", "provider", "date", "price", "total-value"]);
        }
        Ok(_) => panic!("accepted an unknown column"),
    }
    assert_eq!(
        parse_column::<PortfolioColumn>("nam").err().unwrap().message(),
        "invalid column 'nam', expected one of: id | name"
    );
    assert!(parse_column::<PortfolioColumn>("").is_err());
    assert!(parse_column::<PortfolioColumn>("ids").is_err());
}

#[test]
fn help_joins_names() {
    assert_eq!(column_help::<PortfolioColumn>(), "id | name");
    assert_eq!(
        column_help::<FundToBuyColumn>(),
        "code | title | price | amount | weight"
    );
    assert_eq!(column_names::<PortfolioColumn>(), vec!["id", "name"]);
}

#[test]
fn column_metadata() {
    assert_eq!(PortfolioFundColumn::FundCode.header(), "Code");
    assert_eq!(PortfolioFundColumn::TotalMoneySpent.header(), "Spent");
    assert_eq!(PortfolioFundColumn::NormalizedWeight.header(), "Normalized Weight");
    assert_eq!(FundStatsColumn::ThreeMonthlyReturn.header(), "Three Monthly Return");
    assert_eq!(FundStatsColumn::ThreeMonthlyReturn.name(), "three-monthly-return");
    assert_eq!(FundStatsColumn::ThreeMonthlyReturn.to_server_name(), "threeMonthlyReturn");
    assert_eq!(FundInfoColumn::TotalValue.to_server_name(), "totalValue");
    assert_eq!(FundInfoColumn::TotalValue.max_width(), 30);
    assert!(!FundInfoColumn::Price.left_align());
    assert!(FundInfoColumn::Title.left_align());
    assert_eq!(PortfolioColumn::Name.max_width(), 50);
}
