use emsys_cli::application::income_statement::{
    active_employees_request, build_post_request, chart_accounts_request, first_statement_id,
    journal_page_from_response, journal_page_request, latest_statement_request, lookups_from,
    open_invoices_request, payment_methods, select_statement, statement_page_request, status_text,
    validate_transaction, AmountField, JournalTransactionType, JournalTransactionValues,
    TransactionError, TransactionLookups, DEFAULT_JOURNAL_LIMIT, DEFAULT_STATEMENT_LIMIT,
    LOOKUP_LIMIT,
};
use emsys_cli::infrastructure::chart_account::ChartAccount;
use emsys_cli::infrastructure::employee::Employee;
use emsys_cli::infrastructure::income_statement::{FilterValue, IncomeStatement, Pagination};
use emsys_cli::infrastructure::invoice::Invoice;
use emsys_cli::infrastructure::journal::JournalSearchResponse;
use emsys_cli::infrastructure::json::{F64Bits, JsonValue};

fn open_statement() -> IncomeStatement {
    IncomeStatement {
        id: 32658,
        date: "2026-09-09T00:00:00Z".into(),
        branch: None,
        container: None,
        delivery: None,
        rate: F64Bits { bits: 1.0f64.to_bits() },
        currency: "USD".into(),
        status: "open".into(),
        summary_total: None,
        created_at: None,
        updated_at: None,
    }
}

fn account(id: u32, name: &str, account_type: &str, system_account: bool) -> ChartAccount {
    ChartAccount {
        id,
        name: name.into(),
        display_name: name.into(),
        account_type: account_type.into(),
        system_account,
    }
}

fn sample_lookups() -> TransactionLookups {
    TransactionLookups {
        employees: vec![Employee { id: 7, name: "Ada".into(), active: true }],
        accounts: vec![
            account(10, "Cash on Hand", "ASSET", true),
            account(20, "Checking", "BANK", false),
            account(30, "Fuel Expense", "EXPENSE", false),
        ],
        invoices: vec![Invoice {
            id: JsonValue::Text { value: "inv-1".into(), json: "\"inv-1\"".into() },
            number: "A-100".into(),
            cost: 10000,
            payment: 2000,
            balance: 8000,
            discount: 0,
        }],
        payment_methods: payment_methods(),
    }
}

fn expense(amount: i64) -> JournalTransactionValues {
    JournalTransactionValues {
        transaction_type: JournalTransactionType::Expense,
        amount,
        employee_id: Some(7),
        account_id: Some(30),
        source_account_id: Some(10),
        description: "Fuel".into(),
        ..Default::default()
    }
}

fn payment(amount: i64, method: u16) -> JournalTransactionValues {
    JournalTransactionValues {
        transaction_type: JournalTransactionType::Payment,
        amount,
        employee_id: Some(7),
        invoice_id: Some("inv-1".into()),
        payment_method_id: Some(method),
        ..Default::default()
    }
}

fn initial() -> JournalTransactionValues {
    JournalTransactionValues {
        transaction_type: JournalTransactionType::InitialPayment,
        employee_id: Some(7),
        invoice_number: "B-7".into(),
        invoice_cost: 5000,
        invoice_discount: 1000,
        ..Default::default()
    }
}

fn refusal(values: &JournalTransactionValues) -> TransactionError {
    build_post_request(&open_statement(), &sample_lookups(), values)
        .expect_err("the transaction should be refused")
}

#[test]
fn builds_portal_style_expense_request() {
    let lookups = sample_lookups();
    let values = expense(4250);

    let request =
        build_post_request(&open_statement(), &lookups, &values).expect("request should be valid");

    assert_eq!(request.transaction_type, "EXPENSE");
    assert_eq!(request.income_statement_id, 32658);
    assert_eq!(request.employee.unwrap().name, "Ada");
    assert_eq!(request.account.unwrap().account_type, "EXPENSE");
    assert_eq!(request.source_account.unwrap().account_type, "ASSET");
    assert!(request.payment_method.is_none());
}

#[test]
fn requires_bank_account_for_zelle_payment() {
    let lookups = sample_lookups();
    let values = JournalTransactionValues {
        zelle_transaction_date: "2026-09-09".into(),
        zelle_transaction_name: "Zelle Ref".into(),
        payment_account_id: None,
        ..payment(1000, 4)
    };

    let error = build_post_request(&open_statement(), &lookups, &values)
        .expect_err("zelle requires bank account");

    assert!(error.message().contains("select a bank account"));
}

#[test]
fn rejects_closed_statement_transaction() {
    let mut statement = open_statement();
    statement.status = "closed".into();
    let values = JournalTransactionValues { description: String::new(), ..expense(4250) };

    let error = build_post_request(&statement, &sample_lookups(), &values)
        .expect_err("closed statement should be rejected");

    assert!(error.message().contains("open it before adding"));
}

#[test]
fn closed_statement_message_names_statement_and_status() {
    let mut statement = open_statement();
    statement.status = "closed".into();
    let error = build_post_request(&statement, &sample_lookups(), &expense(4250)).unwrap_err();
    assert_eq!(
        error,
        TransactionError::StatementNotOpen { id: 32658, status: "closed".into() }
    );
    assert_eq!(
        error.message(),
        "income statement #32658 is closed; open it before adding journal transactions"
    );
    statement.status = "  ".into();
    let error = build_post_request(&statement, &sample_lookups(), &expense(4250)).unwrap_err();
    assert_eq!(
        error.message(),
        "income statement #32658 is not open; open it before adding journal transactions"
    );
}

#[test]
fn open_status_is_read_in_any_case() {
    let mut statement = open_statement();
    statement.status = "OPEN".into();
    assert!(validate_transaction(&statement, &sample_lookups(), &expense(4250)).is_ok());
}

#[test]
fn accepted_transaction_builds_trimmed_request() {
    let values = JournalTransactionValues {
        ref_number: "  R-1 ".into(),
        description: "  Fuel  ".into(),
        ..expense(4250)
    };
    let request = build_post_request(&open_statement(), &sample_lookups(), &values).unwrap();
    assert_eq!(request.amount, 4250);
    assert_eq!(request.ref_number, "R-1");
    assert_eq!(request.description, "Fuel");
    assert_eq!(request.currency, "USD");
    assert_eq!(request.date, "2026-09-09T00:00:00Z");
    assert_eq!(request.income_statement.id, 32658);
    assert!(request.invoice.is_none());
    assert!(request.invoice_id.is_none());
    assert!(request.check_number.is_none());
}

#[test]
fn check_payment_uses_check_number_as_reference() {
    let values = JournalTransactionValues {
        check_number: " 555 ".into(),
        payment_account_id: Some(20),
        ..payment(1000, 3)
    };
    let request = build_post_request(&open_statement(), &sample_lookups(), &values).unwrap();
    assert_eq!(request.ref_number, "555");
    assert_eq!(request.check_number.as_deref(), Some("555"));
    let method = request.payment_method.unwrap();
    assert_eq!(method.id, 3);
    assert_eq!(method.name, "CHECK");
    assert_eq!(request.invoice_id.as_deref(), Some("inv-1"));
}

#[test]
fn initial_payment_opens_invoice() {
    let values = JournalTransactionValues {
        transaction_type: JournalTransactionType::InitialPayment,
        amount: 0,
        employee_id: Some(7),
        invoice_number: " B-7 ".into(),
        invoice_cost: 5000,
        invoice_discount: 1000,
        ..Default::default()
    };
    let request = build_post_request(&open_statement(), &sample_lookups(), &values).unwrap();
    let invoice = request.invoice.unwrap();
    assert_eq!(invoice.number, "B-7");
    assert_eq!(invoice.cost, 5000);
    assert_eq!(invoice.discount, 1000);
    assert_eq!(request.transaction_type, "INITIAL-PAYMENT");
}

#[test]
fn reports_each_rule_broken() {
    assert_eq!(refusal(&expense(0)), TransactionError::NotPositive(AmountField::Amount));
    assert_eq!(
        refusal(&JournalTransactionValues { employee_id: None, ..expense(100) }),
        TransactionError::MissingEmployee
    );
    assert_eq!(
        refusal(&JournalTransactionValues { employee_id: Some(8), ..expense(100) }),
        TransactionError::MissingEmployee
    );
    assert_eq!(
        refusal(&JournalTransactionValues { account_id: None, ..expense(100) }),
        TransactionError::MissingAccount
    );
    assert_eq!(
        refusal(&JournalTransactionValues { account_id: Some(20), ..expense(100) }),
        TransactionError::ExpenseAccountRequired
    );
    assert_eq!(
        refusal(&JournalTransactionValues { source_account_id: None, ..expense(100) }),
        TransactionError::MissingSourceAccount
    );
    assert_eq!(
        refusal(&JournalTransactionValues { source_account_id: Some(20), ..expense(100) }),
        TransactionError::SourceNotAsset
    );
    assert_eq!(
        refusal(&JournalTransactionValues { invoice_id: None, ..payment(100, 1) }),
        TransactionError::MissingInvoice
    );
    assert_eq!(
        refusal(&JournalTransactionValues { invoice_id: Some("inv-9".into()), ..payment(100, 1) }),
        TransactionError::InvoiceUnavailable
    );
    assert_eq!(refusal(&payment(9000, 1)), TransactionError::PaymentExceedsBalance { balance: 8000 });
    assert_eq!(
        refusal(&JournalTransactionValues { payment_method_id: None, ..payment(100, 1) }),
        TransactionError::MissingPaymentMethod
    );
    assert_eq!(refusal(&payment(100, 9)), TransactionError::MissingPaymentMethod);
    assert_eq!(
        refusal(&JournalTransactionValues { payment_account_id: Some(10), ..payment(100, 4) }),
        TransactionError::PaymentAccountNotBank
    );
    assert_eq!(
        refusal(&JournalTransactionValues { payment_account_id: Some(20), ..payment(100, 4) }),
        TransactionError::MissingZelleDate
    );
    assert_eq!(
        refusal(&JournalTransactionValues {
            payment_account_id: Some(20),
            zelle_transaction_date: "2026-09-09".into(),
            ..payment(100, 4)
        }),
        TransactionError::MissingZelleName
    );
    assert_eq!(
        refusal(&JournalTransactionValues { payment_account_id: Some(20), ..payment(100, 3) }),
        TransactionError::MissingCheckNumber
    );
    assert_eq!(
        refusal(&JournalTransactionValues { amount: -1, ..initial() }),
        TransactionError::Negative(AmountField::Amount)
    );
    assert_eq!(
        refusal(&JournalTransactionValues { invoice_cost: 0, ..initial() }),
        TransactionError::NotPositive(AmountField::InvoiceCost)
    );
    assert_eq!(
        refusal(&JournalTransactionValues { invoice_discount: -5, ..initial() }),
        TransactionError::Negative(AmountField::InvoiceDiscount)
    );
    assert_eq!(
        refusal(&JournalTransactionValues { invoice_number: "  ".into(), ..initial() }),
        TransactionError::MissingInvoiceNumber
    );
    assert_eq!(
        refusal(&JournalTransactionValues { amount: 4001, ..initial() }),
        TransactionError::InitialPaymentExceedsInvoice { net: 4000 }
    );
    let sales = JournalTransactionValues {
        transaction_type: JournalTransactionType::Sales,
        amount: 100,
        employee_id: Some(7),
        account_id: Some(30),
        ..Default::default()
    };
    assert_eq!(refusal(&sales), TransactionError::RevenueAccountRequired);
    let transfer = JournalTransactionValues {
        transaction_type: JournalTransactionType::Transfer,
        amount: 100,
        employee_id: Some(7),
        account_id: Some(30),
        source_account_id: Some(10),
        ..Default::default()
    };
    assert_eq!(refusal(&transfer), TransactionError::AssetDestinationRequired);
}

#[test]
fn error_messages_read_as_documented() {
    assert_eq!(
        TransactionError::PaymentExceedsBalance { balance: 8000 }.message(),
        "payment amount cannot exceed invoice balance $80.00"
    );
    assert_eq!(
        TransactionError::InitialPaymentExceedsInvoice { net: 4000 }.message(),
        "initial payment cannot exceed invoice cost minus discount ($40.00)"
    );
    assert_eq!(
        TransactionError::NotPositive(AmountField::InvoiceCost).message(),
        "invoice cost must be greater than zero"
    );
    assert_eq!(
        TransactionError::Negative(AmountField::InvoiceDiscount).message(),
        "invoice discount cannot be negative"
    );
    assert_eq!(TransactionError::MissingCheckNumber.message(), "enter the check number");
    assert_eq!(status_text("   "), "not open");
    assert_eq!(status_text("closed"), "closed");
}

#[test]
fn transaction_kinds_have_api_names_and_labels() {
    let all = JournalTransactionType::all();
    assert_eq!(all.len(), 7);
    assert_eq!(all[0], JournalTransactionType::InitialPayment);
    assert_eq!(JournalTransactionType::InitialPayment.as_api(), "INITIAL-PAYMENT");
    assert_eq!(JournalTransactionType::Transfer.as_api(), "TRANSFER");
    assert_eq!(JournalTransactionType::Surcharge.label(), "Surcharge");
    assert!(JournalTransactionType::Payment.needs_existing_invoice());
    assert!(!JournalTransactionType::Expense.needs_existing_invoice());
    assert!(JournalTransactionType::Transfer.needs_source_account());
    assert!(JournalTransactionType::Sales.needs_account());
    assert!(JournalTransactionType::InitialPayment.needs_payment_method());
}

#[test]
fn payment_methods_are_numbered_from_one() {
    let methods = payment_methods();
    let names: Vec<(u16, &str)> = methods.iter().map(|m| (m.id, m.name.as_str())).collect();
    assert_eq!(
        names,
        vec![(1, "CASH"), (2, "DEPOSIT"), (3, "CHECK"), (4, "ZELLE"), (5, "CREDIT-CARD")]
    );
    let lookups = lookups_from(Vec::new(), Vec::new(), Vec::new());
    assert_eq!(lookups.payment_methods.len(), 5);
    assert_eq!(lookups.payment_methods[3].name, "ZELLE");
}

#[test]
fn builds_search_requests() {
    let latest = latest_statement_request();
    assert_eq!(latest.pagination, Some(Pagination { page: Some(1), offset: Some(0), limit: Some(1) }));
    assert_eq!(latest.sort[0].field, "date");
    assert_eq!(latest.sort[0].direction, "desc");

    let page = statement_page_request(3);
    assert_eq!(
        page.pagination,
        Some(Pagination { page: Some(3), offset: Some(2 * DEFAULT_STATEMENT_LIMIT), limit: Some(20) })
    );
    let first = statement_page_request(0);
    assert_eq!(first.pagination, Some(Pagination { page: Some(1), offset: Some(0), limit: Some(20) }));

    let journals = journal_page_request(42, 2);
    assert_eq!(journals.filters.len(), 1);
    assert_eq!(journals.filters[0].field.as_deref(), Some("incomeStatement.id"));
    assert_eq!(journals.filters[0].operator, "eq");
    assert_eq!(journals.filters[0].value, Some(FilterValue::Number(42)));
    assert_eq!(
        journals.pagination,
        Some(Pagination { page: Some(2), offset: Some(DEFAULT_JOURNAL_LIMIT), limit: Some(10) })
    );
    assert_eq!(journals.sort[1].field, "createdAt");

    let employees = active_employees_request();
    assert_eq!(employees.filters[0].value, Some(FilterValue::Bool(true)));
    assert_eq!(employees.sort[0].field, "name");
    assert_eq!(employees.pagination.unwrap().limit, Some(LOOKUP_LIMIT));
    assert_eq!(chart_accounts_request().sort[0].field, "displayName");
    let invoices = open_invoices_request();
    assert_eq!(invoices.filters[0].field.as_deref(), Some("isVoid"));
    assert_eq!(invoices.filters[1].field.as_deref(), Some("isArchive"));
    assert_eq!(invoices.filters[1].value, Some(FilterValue::Bool(false)));
}

#[test]
fn selects_statements_and_pages() {
    let statements = vec![open_statement(), IncomeStatement { id: 7, ..open_statement() }];
    assert_eq!(first_statement_id(&statements), Some(32658));
    assert_eq!(first_statement_id(&Vec::new()), None);
    assert_eq!(select_statement(&statements, 1), Some((1, 7)));
    assert_eq!(select_statement(&statements, 9), Some((1, 7)));
    assert_eq!(select_statement(&Vec::new(), 0), None);

    let page = journal_page_from_response(JournalSearchResponse {
        success: true,
        message: String::new(),
        data: Vec::new(),
        error: String::new(),
        duration: F64Bits::default(),
        page: 0,
        results_per_page: 10,
        total: 3,
        subtotal: 0,
    });
    assert_eq!(page.page, 1);
    assert_eq!(page.total, 3);
}
