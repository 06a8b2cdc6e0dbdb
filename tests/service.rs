use pfo::{Config, PortfolioFundAdd, ProblemDetail};

#[test]
fn config_defaults() {
    let c = Config::from_args(None, None);
    assert_eq!(c.host, "localhost");
    assert_eq!(c.port, 8080);
    assert_eq!(c.url(), "http://localhost:8080");
    let d = Config::from_args(Some("example.org".to_string()), Some(9)) ;
    assert_eq!(d.url(), "http://example.org:9");
}

#[test]
fn problem_detail_message() {
    let p = ProblemDetail {
        problem_type: None,
        title: Some("Not Found".to_string()),
        status: 404,
        detail: None,
        instance: Some("/p/1".to_string()),
        response_body: Some("body".to_string()),
    };
    assert_eq!(p.describe(), "404 Not Found - /p/1\nbody");
    let bare = ProblemDetail {
        problem_type: None,
        title: None,
        status: 500,
        detail: Some("boom".to_string()),
        instance: None,
        response_body: None,
    };
    assert_eq!(bare.describe(), "500 - boom");
}

#[test]
fn fund_add_equality() {
    let a = PortfolioFundAdd { fund_code: "ABC".to_string(), weight: 1, min_amount: 2 };
    let b = a.clone();
    assert_eq!(a, b);
}
