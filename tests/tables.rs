use pfo::columns::ColumnEnum;
use pfo::{
    render_table, table_lines, ColumnLayout, Date, Fixed2, FundInfo, FundInfoColumn, FundStats,
    FundStatsColumn, FundToBuy, FundToBuyColumn, Percent, Portfolio, PortfolioColumn, Row, Table,
    TableArgs, UuidValue, COLUMN_SPACING,
};

fn cells(rows: &[&[&str]]) -> Vec<Vec<String>> {
    rows.iter().map(|r| r.iter().map(|c| c.to_string()).collect()).collect()
}

#[test]
fn scenario_id_and_name_table() {
    let layouts = vec![
        ColumnLayout { max_width: 2, left_align: true },
        ColumnLayout { max_width: 4, left_align: true },
    ];
    let rows = cells(&[&["Id", "Name"], &["A1", "Alpha Fund"], &["B2", "Beta"]]);
    let lines = render_table(&layouts, &rows, 2);
    assert_eq!(lines.len(), 3);
    assert_eq!(lines[0], "Id  Name        ");
    assert_eq!(lines[1], "A1  Alpha Fund  ");
    assert_eq!(lines[2], "B2  Beta        ");
    assert!(lines[0].starts_with("Id  Name      "));
    assert_eq!(lines[0].trim_end(), "Id  Name");
}

#[test]
fn scenario_title_cut_to_declared_width() {
    assert_eq!(trimmed_title("Eurobond Fund", 3, false), "Eur");
    let fund = FundToBuy {
        code: String::from("EUR"),
        title: String::from("Eurobond Fund"),
        price: Fixed2 { hundredths: 150 },
        amount: 2,
        weight: Fixed2 { hundredths: 50 },
    };
    let row = fund.from_value(false);
    assert_eq!(row.value_for(&FundToBuyColumn::Title), "Eurobond Fund");
    let long = FundToBuy {
        title: String::from("Emerging Markets Equity Index Fund"),
        ..fund
    };
    let narrow = long.from_value(false);
    assert_eq!(narrow.value_for(&FundToBuyColumn::Title), "Emerging Markets Equity I");
    assert_eq!(narrow.len_for(&FundToBuyColumn::Title), 25);
    let wide = long.from_value(true);
    assert_eq!(wide.value_for(&FundToBuyColumn::Title), "Emerging Markets Equity Index Fund");
    assert_eq!(narrow.value_for(&FundToBuyColumn::Price), "1.50");
    assert_eq!(narrow.value_for(&FundToBuyColumn::Amount), "2");
}

fn trimmed_title(s: &str, w: usize, wide: bool) -> String {
    pfo::trim_string(s, w, wide)
}

#[test]
fn right_alignment_pads_on_the_left() {
    let layouts = vec![
        ColumnLayout { max_width: 3, left_align: true },
        ColumnLayout { max_width: 6, left_align: false },
    ];
    let rows = cells(&[&["Code", "Price"], &["AB", "1.00"]]);
    let lines = render_table(&layouts, &rows, 1);
    assert_eq!(lines, vec!["Code  Price ", "AB     1.00 "]);
}

#[test]
fn width_never_below_declared_nor_cells() {
    let layouts = vec![
        ColumnLayout { max_width: 8, left_align: true },
        ColumnLayout { max_width: 1, left_align: false },
    ];
    let rows = cells(&[&["a", "bb"], &["ccc", "ddddd"], &["Ünïcödé!!", "é"]]);
    let lines = render_table(&layouts, &rows, 3);
    for line in &lines {
        assert_eq!(line.chars().count(), 9 + 3 + 5 + 3);
    }
    assert_eq!(lines[2], "Ünïcödé!!       é   ");
}

#[test]
fn rendering_twice_is_identical() {
    let layouts = vec![
        ColumnLayout { max_width: 4, left_align: true },
        ColumnLayout { max_width: 2, left_align: false },
    ];
    let rows = cells(&[&["x", "y"], &["long cell", "z"]]);
    assert_eq!(render_table(&layouts, &rows, 2), render_table(&layouts, &rows, 2));
    let list = vec![sample_portfolio()];
    let args = TableArgs { columns: None, no_headers: false, wide: false };
    assert_eq!(table_lines(&list, &args), table_lines(&list, &args));
}

#[test]
fn empty_table() {
    let layouts = vec![ColumnLayout { max_width: 4, left_align: true }];
    assert!(render_table(&layouts, &Vec::new(), 2).is_empty());
    let none: Vec<Portfolio> = Vec::new();
    let no_headers = TableArgs { columns: None, no_headers: true, wide: false };
    assert!(table_lines(&none, &no_headers).is_empty());
    let headers = TableArgs { columns: None, no_headers: false, wide: false };
    let lines = table_lines(&none, &headers);
    assert_eq!(lines.len(), 1);
    assert_eq!(lines[0], format!("{:<36}  {:<50}  ", "Id", "Name"));
}

fn sample_portfolio() -> Portfolio {
    Portfolio {
        id: UuidValue { value: 0x67e5504410b1426f9247bb680dccf0c8 },
        name: String::from("Main"),
    }
}

#[test]
fn portfolio_table_uses_default_columns() {
    let list = vec![sample_portfolio()];
    let args = TableArgs { columns: None, no_headers: false, wide: false };
    let lines = table_lines(&list, &args);
    assert_eq!(lines.len(), 2);
    assert_eq!(lines[0], format!("{:<36}  {:<50}  ", "Id", "Name"));
    assert_eq!(
        lines[1],
        format!("{:<36}  {:<50}  ", "67e55044-10b1-426f-9247-bb680dccf0c8", "Main")
    );
    assert_eq!(COLUMN_SPACING, 2);
}

#[test]
fn chosen_columns_in_chosen_order_without_headers() {
    let list = vec![sample_portfolio()];
    let args = TableArgs {
        columns: Some(vec![PortfolioColumn::Name, PortfolioColumn::Id]),
        no_headers: true,
        wide: false,
    };
    let lines = table_lines(&list, &args);
    assert_eq!(
        lines,
        vec![format!("{:<50}  {:<36}  ", "Main", "67e55044-10b1-426f-9247-bb680dccf0c8")]
    );
}

#[test]
fn fund_info_right_aligned_numbers_and_dates() {
    let info = FundInfo {
        code: String::from("ABCD"),
        title: String::from("Alpha"),
        provider: String::from("Provider"),
        date: Date::new(2024, 1, 5).unwrap(),
        price: Fixed2 { hundredths: 1234 },
        total_value: Fixed2 { hundredths: 123456789 },
    };
    let row = info.from_value(false);
    assert_eq!(row.value_for(&FundInfoColumn::Code), "ABC");
    assert_eq!(row.value_for(&FundInfoColumn::Date), "01.05.2024");
    assert_eq!(row.value_for(&FundInfoColumn::TotalValue), "1234567.89");
    let list = vec![info];
    let args = TableArgs {
        columns: Some(vec![FundInfoColumn::Code, FundInfoColumn::Price]),
        no_headers: false,
        wide: false,
    };
    let lines = table_lines(&list, &args);
    assert_eq!(lines, vec![format!("Code  {:>15}  ", "Price"), format!("ABC   {:>15}  ", "12.34")]);
    let wide = TableArgs { columns: Some(vec![FundInfoColumn::Code]), no_headers: true, wide: true };
    assert_eq!(table_lines(&list, &wide), vec!["ABCD  "]);
}

#[test]
fn fund_stats_returns_are_percentages_or_dash() {
    let stats = FundStats {
        code: String::from("XYZ"),
        title: String::from("Some Fund"),
        updated_at: Date::new(2023, 12, 31).unwrap(),
        last_price: Fixed2 { hundredths: 100 },
        total_value: Fixed2 { hundredths: 0 },
        daily_return: Some(Percent { hundredths: -15 }),
        monthly_return: None,
        three_monthly_return: Some(Percent { hundredths: 1000 }),
        six_monthly_return: None,
        yearly_return: None,
        three_yearly_return: None,
        five_yearly_return: None,
    };
    let row = stats.from_value(false);
    assert_eq!(row.value_for(&FundStatsColumn::DailyReturn), "-0.15%");
    assert_eq!(row.value_for(&FundStatsColumn::MonthlyReturn), "-");
    assert_eq!(row.value_for(&FundStatsColumn::ThreeMonthlyReturn), "10.00%");
    assert_eq!(row.value_for(&FundStatsColumn::UpdatedAt), "12.31.2023");
    assert_eq!(row.value_for(&FundStatsColumn::TotalValue), "0.00");
    assert_eq!(row.cells.len(), FundStatsColumn::all().len());
}

#[test]
fn header_row_holds_every_header() {
    let row = Row::from_headers::<FundToBuyColumn>();
    assert_eq!(row.cells, vec!["Code", "Title", "Price", "Amount", "Weight"]);
    assert_eq!(row.value_for(&FundToBuyColumn::Amount), "Amount");
    assert_eq!(row.len_for(&FundToBuyColumn::Amount), 6);
}

#[test]
fn cell_length_counts_characters() {
    let fund = FundToBuy {
        code: String::from("ÄÖÜ"),
        title: String::from("Fönd"),
        price: Fixed2 { hundredths: 1 },
        amount: 10,
        weight: Fixed2 { hundredths: 2 },
    };
    let row = fund.from_value(false);
    assert_eq!(row.len_for(&FundToBuyColumn::Code), 3);
    assert_eq!(row.len_for(&FundToBuyColumn::Title), 4);
}
