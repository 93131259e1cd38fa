use emsys_cli::application::income_statement::{payment_methods, JournalTransactionType};
use emsys_cli::cli::{
    company_line, empty_dash, parse_sort, payment_method_id, push_summary_total_lines,
    search_request, statement_row, transaction_type, transaction_values, CliPaymentMethod,
    CliTransactionType, IncomeAddTransactionArgs, IncomeSearchArgs, SortError,
};
use emsys_cli::infrastructure::income_statement::{
    Branch, FilterValue, IncomeStatement, IncomeStatementTotal, Pagination, SummaryTotalLine,
};
use emsys_cli::infrastructure::json::F64Bits;

#[test]
fn parses_income_statement_sort() {
    let sort = parse_sort("date:desc").expect("valid sort");

    assert_eq!(sort.field, "date");
    assert_eq!(sort.direction, "desc");
}

#[test]
fn rejects_invalid_income_statement_sort_direction() {
    assert!(parse_sort("date:newest").is_err());
}

#[test]
fn sort_expression_is_trimmed_and_folded() {
    let sort = parse_sort("  createdAt : ASC ").expect("valid sort");
    assert_eq!(sort.field, "createdAt");
    assert_eq!(sort.direction, "asc");
    let sort = parse_sort("date:desc:extra");
    assert_eq!(sort, Err(SortError::InvalidDirection));
}

#[test]
fn reports_each_sort_error() {
    assert_eq!(parse_sort("date"), Err(SortError::MissingSeparator));
    assert_eq!(parse_sort("  :desc"), Err(SortError::EmptyField));
    assert_eq!(parse_sort("date:newest"), Err(SortError::InvalidDirection));
    assert_eq!(
        SortError::MissingSeparator.message(),
        "sort must use field:direction, for example date:desc"
    );
    assert_eq!(SortError::EmptyField.message(), "sort field cannot be empty");
    assert_eq!(SortError::InvalidDirection.message(), "sort direction must be asc or desc");
}

#[test]
fn sort_round_trips_field_and_direction() {
    for field in ["date", "branch.id", "net income"] {
        for direction in ["asc", "desc"] {
            let sort = parse_sort(&format!("{field}:{direction}")).expect("valid sort");
            assert_eq!(sort.field, field);
            assert_eq!(sort.direction, direction);
        }
    }
}

fn search_args(value: Option<&str>, sort: &str) -> IncomeSearchArgs {
    IncomeSearchArgs {
        field: Some("status".into()),
        operator: "eq".into(),
        value: value.map(|v| v.to_string()),
        page: 2,
        limit: 40,
        sort: sort.into(),
    }
}

#[test]
fn builds_search_request_from_arguments() {
    let request = search_request(search_args(Some("open"), "date:desc")).expect("valid search");
    assert_eq!(request.field.as_deref(), Some("status"));
    assert_eq!(request.operator.as_deref(), Some("eq"));
    assert_eq!(request.value, Some(FilterValue::Text("open".into())));
    assert_eq!(
        request.pagination,
        Some(Pagination { page: Some(2), offset: Some(0), limit: Some(40) })
    );
    assert_eq!(request.sort.len(), 1);
    assert_eq!(request.sort[0].field, "date");

    let request = search_request(search_args(None, "date:asc")).expect("valid search");
    assert_eq!(request.operator, None);
    assert_eq!(request.value, None);

    assert_eq!(
        search_request(search_args(None, "date")).unwrap_err(),
        SortError::MissingSeparator
    );
}

#[test]
fn maps_command_line_kinds_and_methods() {
    assert_eq!(transaction_type(CliTransactionType::InitialPayment), JournalTransactionType::InitialPayment);
    assert_eq!(transaction_type(CliTransactionType::Transfer), JournalTransactionType::Transfer);
    let methods = [
        (CliPaymentMethod::Cash, "CASH"),
        (CliPaymentMethod::Deposit, "DEPOSIT"),
        (CliPaymentMethod::Check, "CHECK"),
        (CliPaymentMethod::Zelle, "ZELLE"),
        (CliPaymentMethod::CreditCard, "CREDIT-CARD"),
    ];
    for (method, name) in methods {
        let id = payment_method_id(method);
        let found = payment_methods().into_iter().find(|m| m.id == id).map(|m| m.name);
        assert_eq!(found, Some(name.to_string()));
    }
}

#[test]
fn builds_transaction_values_from_arguments() {
    let values = transaction_values(IncomeAddTransactionArgs {
        statement_id: 32661,
        transaction_type: CliTransactionType::Payment,
        amount: 2550,
        employee_id: 7,
        account_id: None,
        payment_account_id: None,
        source_account_id: None,
        invoice_id: Some("invoice-1".into()),
        invoice_number: String::new(),
        invoice_cost: 0,
        invoice_discount: 0,
        payment_method: Some(CliPaymentMethod::CreditCard),
        zelle_transaction_date: String::new(),
        zelle_transaction_name: String::new(),
        check_number: String::new(),
        ref_number: String::new(),
        description: "Card payment".into(),
    });
    assert_eq!(values.transaction_type, JournalTransactionType::Payment);
    assert_eq!(values.amount, 2550);
    assert_eq!(values.employee_id, Some(7));
    assert_eq!(values.invoice_id.as_deref(), Some("invoice-1"));
    assert_eq!(values.payment_method_id, Some(5));
    assert_eq!(values.description, "Card payment");
}

fn statement() -> IncomeStatement {
    IncomeStatement {
        id: 42,
        date: "2026-09-08T00:00:00Z".into(),
        branch: Some(Branch { id: 1, name: "Main".into(), code: "NYC".into() }),
        container: None,
        delivery: None,
        rate: F64Bits { bits: 1.0f64.to_bits() },
        currency: "USD".into(),
        status: "open".into(),
        summary_total: Some(IncomeStatementTotal { net_income: 1133500, ..Default::default() }),
        created_at: None,
        updated_at: None,
    }
}

#[test]
fn prints_statement_rows() {
    assert_eq!(
        statement_row(&statement()),
        "#42 | 2026-09-08T00:00:00Z | open | Main | USD | Net: 11335.00"
    );
    let bare = IncomeStatement { branch: None, summary_total: None, ..statement() };
    assert_eq!(statement_row(&bare), "#42 | 2026-09-08T00:00:00Z | open | - | USD | Net: 0.00");
}

#[test]
fn prints_summary_totals_indented() {
    let line = SummaryTotalLine {
        header: "Total Ingresos".into(),
        value: 1280000,
        order: 1,
        details: vec![SummaryTotalLine {
            header: "Efectivo".into(),
            value: 420000,
            order: 1,
            details: Vec::new(),
        }],
    };
    let mut out = Vec::new();
    push_summary_total_lines(&mut out, &line, 0);
    assert_eq!(out, vec!["Total Ingresos: 12800.00".to_string(), "  Efectivo: 4200.00".to_string()]);
}

#[test]
fn prints_company_and_dashes() {
    assert_eq!(company_line(&Some("abc".into())), "Company ID: abc");
    assert_eq!(company_line(&None), "Company ID: not available from Firebase profile");
    assert_eq!(empty_dash("  "), "-");
    assert_eq!(empty_dash("x"), "x");
}
