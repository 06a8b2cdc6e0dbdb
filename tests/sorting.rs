use pfo::query::{FundFilter, Query};
use pfo::{
    Date, FundInfoColumn, FundToBuyColumn, PortfolioColumn, SortArguments, SortDirection, SortError,
};

#[test]
fn sort_field_with_direction() {
    let s = SortArguments::<FundToBuyColumn>::parse("code asc").unwrap();
    assert_eq!(s.by, FundToBuyColumn::Code);
    assert_eq!(s.dir, SortDirection::Asc);
}

#[test]
fn sort_direction_defaults_to_ascending() {
    let s = SortArguments::<FundToBuyColumn>::parse("CODE").unwrap();
    assert_eq!(s.by, FundToBuyColumn::Code);
    assert_eq!(s.dir, SortDirection::Asc);
}

#[test]
fn sort_unknown_field_lists_names() {
    match SortArguments::<FundToBuyColumn>::parse("bogus") {
        Err(SortError::UnknownSortField { attempted, valid }) => {
            assert_eq!(attempted, "bogus");
            assert_eq!(valid, vec!["code", "title", "price", "amount", "weight"]);
        }
        other => panic!("unexpected {:?}", other.map(|a| (a.by, a.dir))),
    }
}

#[test]
fn sort_unknown_direction() {
    match SortArguments::<FundToBuyColumn>::parse("code sideways") {
        Err(SortError::UnknownDirection { attempted }) => assert_eq!(attempted, "sideways"),
        other => panic!("unexpected {:?}", other.map(|a| (a.by, a.dir))),
    }
}

#[test]
fn sort_empty_is_missing_field() {
    assert!(matches!(
        SortArguments::<PortfolioColumn>::parse(""),
        Err(SortError::EmptyOrMissingField)
    ));
    assert!(matches!(
        SortArguments::<PortfolioColumn>::parse(" \t "),
        Err(SortError::EmptyOrMissingField)
    ));
}

#[test]
fn sort_whitespace_and_case() {
    let s = SortArguments::<FundInfoColumn>::parse("  Total-Value \t DESC  extra").unwrap();
    assert_eq!(s.by, FundInfoColumn::TotalValue);
    assert_eq!(s.dir, SortDirection::Desc);
}

#[test]
fn sort_parsing_is_repeatable() {
    let a = SortArguments::<FundToBuyColumn>::parse("title desc").unwrap();
    let b = SortArguments::<FundToBuyColumn>::parse("title desc").unwrap();
    assert_eq!((a.by, a.dir), (b.by, b.dir));
}

#[test]
fn sort_error_messages() {
    assert_eq!(
        SortArguments::<PortfolioColumn>::value_parser("bogus").err().unwrap(),
        "invalid sort field 'bogus', expected one of: id | name"
    );
    assert_eq!(
        SortArguments::<PortfolioColumn>::value_parser("id up").err().unwrap(),
        "invalid sort direction 'up', expected one of: asc | desc"
    );
    assert_eq!(
        SortArguments::<PortfolioColumn>::value_parser("").err().unwrap(),
        "missing sort field"
    );
    assert!(SortArguments::<PortfolioColumn>::value_parser("name desc").is_ok());
}

#[test]
fn sort_help_text() {
    assert_eq!(
        SortArguments::<PortfolioColumn>::get_help(),
        "<by> <direction>\nBY: id | name\nDIRECTION: asc | desc"
    );
    assert_eq!(SortDirection::get_help_string(), "asc | desc");
}

#[test]
fn direction_names() {
    assert_eq!(SortDirection::Asc.to_string(), "ASC");
    assert_eq!(SortDirection::Desc.to_string(), "DESC");
    assert_eq!(SortDirection::Desc.name(), "desc");
    assert_eq!(SortDirection::value_parser("DeSc").unwrap(), SortDirection::Desc);
    assert_eq!(
        SortDirection::value_parser("down").err().unwrap(),
        "invalid sort direction 'down', expected one of: asc | desc"
    );
}

fn pairs(q: &Query) -> Vec<(String, String)> {
    q.pairs().iter().map(|(k, v)| (k.to_string(), v.clone())).collect()
}

#[test]
fn query_sort_uses_server_keys_and_upper_case() {
    let mut q = Query::new();
    q.push_sort(Some(SortArguments::<FundInfoColumn>::parse("total-value desc").unwrap()));
    assert_eq!(
        pairs(&q),
        vec![
            ("sortBy".to_string(), "totalValue".to_string()),
            ("sortDirection".to_string(), "DESC".to_string())
        ]
    );
    let mut empty = Query::new();
    empty.push_sort::<FundInfoColumn>(None);
    assert!(pairs(&empty).is_empty());
}

#[test]
fn query_lists_and_flags() {
    let mut q = Query::new();
    q.push_vec("codes", vec![]);
    q.push_bool("force", false);
    assert!(pairs(&q).is_empty());
    q.push_vec("codes", vec!["AAA".to_string(), "BBB".to_string()]);
    q.push_bool("force", true);
    assert_eq!(
        pairs(&q),
        vec![
            ("codes".to_string(), "AAA,BBB".to_string()),
            ("force".to_string(), "true".to_string())
        ]
    );
}

#[test]
fn query_fund_filter() {
    let mut q = Query::new();
    q.push_fund_filter(FundFilter {
        date: Date::new(2024, 11, 2),
        from: None,
        codes: vec!["XYZ".to_string()],
    });
    assert_eq!(
        pairs(&q),
        vec![
            ("date".to_string(), "11.02.2024".to_string()),
            ("codes".to_string(), "XYZ".to_string())
        ]
    );
    let mut r = Query::new();
    r.push_date("fetchFrom", Date::new(2020, 1, 1));
    assert_eq!(pairs(&r), vec![("fetchFrom".to_string(), "01.01.2020".to_string())]);
}
