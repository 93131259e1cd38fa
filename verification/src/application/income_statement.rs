//! Income statement use cases: the requests they send, how results are paged,
//! and the rules a new journal transaction must meet before it is posted.
//!
//! Money is held in cents throughout.
use vstd::prelude::*;

use crate::infrastructure::chart_account::ChartAccount;
use crate::infrastructure::employee::Employee;
use crate::infrastructure::income_statement::{
    FilterValue, IncomeStatement, IncomeStatementSearchResponse, IncomeStatementSummary,
    Pagination, QueryFilter, QueryRequest, Sort,
};
use crate::infrastructure::invoice::Invoice;
use crate::infrastructure::journal::{
    AccountPostReference, EmployeePostReference, IncomeStatementPostReference,
    InvoicePostReference, Journal, JournalSearchResponse, PaymentMethod, PostJournalRequest,
};
use crate::lookup::{first_where, lemma_first_where_at};
use crate::text::{
    ascii_lower_all, decimal, eq_ignore_ascii_case, format_money, is_blank, money_text,
    lemma_trimmed_idempotent, push_decimal, same_text, trim, trimmed,
};

verus! {

/// Statements shown per page of the terminal interface.
pub const DEFAULT_STATEMENT_LIMIT: u64 = 20;

/// Journal entries shown per page of the terminal interface.
pub const DEFAULT_JOURNAL_LIMIT: u64 = 10;

/// How many employees, accounts or invoices are offered for a new transaction.
pub const LOOKUP_LIMIT: u64 = 500;

/// An income statement with its summary totals.
#[derive(Debug, PartialEq)]
pub struct IncomeStatementDetail {
    pub statement: IncomeStatement,
    pub summary: IncomeStatementSummary,
}

/// Everything the terminal interface shows at once: a page of statements, the
/// selected one in detail, a page of its journal entries, and what a new
/// transaction may refer to.
#[derive(Debug, PartialEq)]
pub struct IncomeStatementScreen {
    pub statements: Vec<IncomeStatement>,
    pub statement_page: u64,
    pub statement_results_per_page: u64,
    pub statement_total: u64,
    pub selected_index: usize,
    pub detail: IncomeStatementDetail,
    pub journals: JournalPage,
    pub lookups: TransactionLookups,
}

/// One page of journal entries; `page` counts from 1.
#[derive(Debug, PartialEq)]
pub struct JournalPage {
    pub entries: Vec<Journal>,
    pub page: u64,
    pub results_per_page: u64,
    pub total: u64,
    pub subtotal: u64,
}

/// The employees, accounts, invoices and payment methods a new transaction may
/// refer to.
#[derive(Debug, PartialEq)]
pub struct TransactionLookups {
    pub employees: Vec<Employee>,
    pub accounts: Vec<ChartAccount>,
    pub invoices: Vec<Invoice>,
    pub payment_methods: Vec<PaymentMethod>,
}

impl Default for TransactionLookups {
    fn default() -> (r: Self)
        ensures
            r.employees@.len() == 0,
            r.accounts@.len() == 0,
            r.invoices@.len() == 0,
            r.payment_methods@.len() == 0,
    {
        TransactionLookups {
            employees: Vec::new(),
            accounts: Vec::new(),
            invoices: Vec::new(),
            payment_methods: Vec::new(),
        }
    }
}

/// The kinds of journal transaction that can be added to an income statement.
#[derive(Debug, Clone, Copy, PartialEq, Eq, Structural)]
pub enum JournalTransactionType {
    InitialPayment,
    Payment,
    Expense,
    Sales,
    Discount,
    Surcharge,
    Transfer,
}

impl JournalTransactionType {
    /// Every kind, in the order the add form lists them.
    pub open spec fn spec_all() -> Seq<JournalTransactionType> {
        seq![
            JournalTransactionType::InitialPayment,
            JournalTransactionType::Payment,
            JournalTransactionType::Expense,
            JournalTransactionType::Sales,
            JournalTransactionType::Discount,
            JournalTransactionType::Surcharge,
            JournalTransactionType::Transfer,
        ]
    }

    /// The name the API uses for the kind.
    pub open spec fn spec_as_api(self) -> Seq<char> {
        match self {
            JournalTransactionType::InitialPayment => "INITIAL-PAYMENT"@,
            JournalTransactionType::Payment => "PAYMENT"@,
            JournalTransactionType::Expense => "EXPENSE"@,
            JournalTransactionType::Sales => "SALES"@,
            JournalTransactionType::Discount => "DISCOUNT"@,
            JournalTransactionType::Surcharge => "SURCHARGE"@,
            JournalTransactionType::Transfer => "TRANSFER"@,
        }
    }

    /// The name shown to people for the kind.
    pub open spec fn spec_label(self) -> Seq<char> {
        match self {
            JournalTransactionType::InitialPayment => "Initial payment"@,
            JournalTransactionType::Payment => "Payment"@,
            JournalTransactionType::Expense => "Expense"@,
            JournalTransactionType::Sales => "Sales"@,
            JournalTransactionType::Discount => "Discount"@,
            JournalTransactionType::Surcharge => "Surcharge"@,
            JournalTransactionType::Transfer => "Transfer"@,
        }
    }

    /// Payments, discounts and surcharges apply to an invoice that exists.
    pub open spec fn spec_needs_existing_invoice(self) -> bool {
        self is Payment || self is Discount || self is Surcharge
    }

    /// Expenses, sales and transfers name an account.
    pub open spec fn spec_needs_account(self) -> bool {
        self is Expense || self is Sales || self is Transfer
    }

    /// Every kind but expenses and transfers is paid with a payment method.
    pub open spec fn spec_needs_payment_method(self) -> bool {
        self is InitialPayment || self is Payment || self is Discount || self is Surcharge
            || self is Sales
    }

    /// Expenses and transfers draw on a source account.
    pub open spec fn spec_needs_source_account(self) -> bool {
        self is Expense || self is Transfer
    }

    /// Every kind, in the order the add form lists them.
    pub fn all() -> (r: &'static [Self])
        ensures
            r@ == Self::spec_all(),
    {
        &[
            JournalTransactionType::InitialPayment,
            JournalTransactionType::Payment,
            JournalTransactionType::Expense,
            JournalTransactionType::Sales,
            JournalTransactionType::Discount,
            JournalTransactionType::Surcharge,
            JournalTransactionType::Transfer,
        ]
    }

    /// The name the API uses for the kind.
    pub fn as_api(self) -> (r: &'static str)
        ensures
            r@ == self.spec_as_api(),
    {
        match self {
            JournalTransactionType::InitialPayment => "INITIAL-PAYMENT",
            JournalTransactionType::Payment => "PAYMENT",
            JournalTransactionType::Expense => "EXPENSE",
            JournalTransactionType::Sales => "SALES",
            JournalTransactionType::Discount => "DISCOUNT",
            JournalTransactionType::Surcharge => "SURCHARGE",
            JournalTransactionType::Transfer => "TRANSFER",
        }
    }

    /// The name shown to people for the kind.
    pub fn label(self) -> (r: &'static str)
        ensures
            r@ == self.spec_label(),
    {
        match self {
            JournalTransactionType::InitialPayment => "Initial payment",
            JournalTransactionType::Payment => "Payment",
            JournalTransactionType::Expense => "Expense",
            JournalTransactionType::Sales => "Sales",
            JournalTransactionType::Discount => "Discount",
            JournalTransactionType::Surcharge => "Surcharge",
            JournalTransactionType::Transfer => "Transfer",
        }
    }

    pub fn needs_existing_invoice(self) -> (r: bool)
        ensures
            r == self.spec_needs_existing_invoice(),
    {
        match self {
            JournalTransactionType::Payment
            | JournalTransactionType::Discount
            | JournalTransactionType::Surcharge => true,
            _ => false,
        }
    }

    pub fn needs_account(self) -> (r: bool)
        ensures
            r == self.spec_needs_account(),
    {
        match self {
            JournalTransactionType::Expense
            | JournalTransactionType::Sales
            | JournalTransactionType::Transfer => true,
            _ => false,
        }
    }

    pub fn needs_payment_method(self) -> (r: bool)
        ensures
            r == self.spec_needs_payment_method(),
    {
        match self {
            JournalTransactionType::InitialPayment
            | JournalTransactionType::Payment
            | JournalTransactionType::Discount
            | JournalTransactionType::Surcharge
            | JournalTransactionType::Sales => true,
            _ => false,
        }
    }

    pub fn needs_source_account(self) -> (r: bool)
        ensures
            r == self.spec_needs_source_account(),
    {
        match self {
            JournalTransactionType::Expense | JournalTransactionType::Transfer => true,
            _ => false,
        }
    }
}

/// What a person entered for a new journal transaction. Amounts are in cents.
#[derive(Debug, PartialEq)]
pub struct JournalTransactionValues {
    pub transaction_type: JournalTransactionType,
    pub amount: i64,
    pub ref_number: String,
    pub description: String,
    pub employee_id: Option<u16>,
    pub account_id: Option<u32>,
    pub payment_account_id: Option<u32>,
    pub source_account_id: Option<u32>,
    pub invoice_id: Option<String>,
    pub invoice_number: String,
    pub invoice_cost: i64,
    pub invoice_discount: i64,
    pub payment_method_id: Option<u16>,
    pub zelle_transaction_date: String,
    pub zelle_transaction_name: String,
    pub check_number: String,
}

impl Default for JournalTransactionValues {
    /// An empty initial payment, paid in cash.
    fn default() -> (r: Self)
        ensures
            r.transaction_type == JournalTransactionType::InitialPayment,
            r.amount == 0,
            r.ref_number@.len() == 0,
            r.description@.len() == 0,
            r.employee_id is None,
            r.account_id is None,
            r.payment_account_id is None,
            r.source_account_id is None,
            r.invoice_id is None,
            r.invoice_number@.len() == 0,
            r.invoice_cost == 0,
            r.invoice_discount == 0,
            r.payment_method_id == Some(1u16),
            r.zelle_transaction_date@.len() == 0,
            r.zelle_transaction_name@.len() == 0,
            r.check_number@.len() == 0,
    {
        JournalTransactionValues {
            transaction_type: JournalTransactionType::InitialPayment,
            amount: 0,
            ref_number: String::new(),
            description: String::new(),
            employee_id: None,
            account_id: None,
            payment_account_id: None,
            source_account_id: None,
            invoice_id: None,
            invoice_number: String::new(),
            invoice_cost: 0,
            invoice_discount: 0,
            payment_method_id: Some(1),
            zelle_transaction_date: String::new(),
            zelle_transaction_name: String::new(),
            check_number: String::new(),
        }
    }
}

/// The amounts that are checked for sign.
#[derive(Debug, Clone, Copy, PartialEq, Eq, Structural)]
pub enum AmountField {
    Amount,
    InvoiceCost,
    InvoiceDiscount,
}

impl AmountField {
    pub open spec fn spec_name(self) -> Seq<char> {
        match self {
            AmountField::Amount => "amount"@,
            AmountField::InvoiceCost => "invoice cost"@,
            AmountField::InvoiceDiscount => "invoice discount"@,
        }
    }

    /// How the amount is named in messages.
    pub fn name(self) -> (r: &'static str)
        ensures
            r@ == self.spec_name(),
    {
        match self {
            AmountField::Amount => "amount",
            AmountField::InvoiceCost => "invoice cost",
            AmountField::InvoiceDiscount => "invoice discount",
        }
    }
}

/// Why a journal transaction cannot be posted.
#[derive(Debug, PartialEq, Eq)]
pub enum TransactionError {
    /// The statement's status is not `open` (in any letter case).
    StatementNotOpen { id: u32, status: String },
    NotPositive(AmountField),
    Negative(AmountField),
    MissingEmployee,
    MissingInvoice,
    InvoiceUnavailable,
    /// A payment larger than the open balance of its invoice; the balance in cents.
    PaymentExceedsBalance { balance: i64 },
    MissingInvoiceNumber,
    /// An initial payment larger than the invoice cost less its discount.
    InitialPaymentExceedsInvoice { net: i64 },
    MissingAccount,
    ExpenseAccountRequired,
    RevenueAccountRequired,
    AssetDestinationRequired,
    MissingSourceAccount,
    SourceNotAsset,
    MissingPaymentMethod,
    MissingBankAccount,
    PaymentAccountNotBank,
    MissingZelleDate,
    MissingZelleName,
    MissingCheckNumber,
}

/// The status as a message names it: `not open` when it is blank.
pub open spec fn spec_status_text(status: Seq<char>) -> Seq<char> {
    if is_blank(status) {
        "not open"@
    } else {
        status
    }
}

impl TransactionError {
    /// The message shown for the error.
    pub open spec fn spec_message(self) -> Seq<char> {
        match self {
            TransactionError::StatementNotOpen { id, status } => "income statement #"@ + decimal(
                id as nat,
            ) + " is "@ + spec_status_text(status@) + "; open it before adding journal transactions"@,
            TransactionError::NotPositive(field) => field.spec_name() + " must be greater than zero"@,
            TransactionError::Negative(field) => field.spec_name() + " cannot be negative"@,
            TransactionError::MissingEmployee => "select an employee"@,
            TransactionError::MissingInvoice => "select an invoice"@,
            TransactionError::InvoiceUnavailable => "selected invoice is no longer available"@,
            TransactionError::PaymentExceedsBalance { balance } =>
                "payment amount cannot exceed invoice balance "@ + money_text(balance as int),
            TransactionError::MissingInvoiceNumber => "enter an invoice number"@,
            TransactionError::InitialPaymentExceedsInvoice { net } =>
                "initial payment cannot exceed invoice cost minus discount ("@ + money_text(
                    net as int,
                ) + ")"@,
            TransactionError::MissingAccount => "select an account"@,
            TransactionError::ExpenseAccountRequired =>
                "expense transactions require an expense account"@,
            TransactionError::RevenueAccountRequired =>
                "sales transactions require a non-system revenue account"@,
            TransactionError::AssetDestinationRequired =>
                "transfer destination must be an asset account"@,
            TransactionError::MissingSourceAccount => "select a source account"@,
            TransactionError::SourceNotAsset => "source account must be an asset account"@,
            TransactionError::MissingPaymentMethod => "select a payment method"@,
            TransactionError::MissingBankAccount => "select a bank account"@,
            TransactionError::PaymentAccountNotBank => "payment account must be a bank account"@,
            TransactionError::MissingZelleDate => "enter the Zelle transaction date"@,
            TransactionError::MissingZelleName => "enter the Zelle transaction name"@,
            TransactionError::MissingCheckNumber => "enter the check number"@,
        }
    }

    /// The message shown for the error.
    pub fn message(&self) -> (r: String)
        ensures
            r@ == self.spec_message(),
    {
        match self {
            TransactionError::StatementNotOpen { id, status } => {
                let mut r = String::from_str("income statement #");
                push_decimal(&mut r, *id as u64);
                r.append(" is ");
                r.append(status_text(status.as_str()));
                r.append("; open it before adding journal transactions");
                r
            },
            TransactionError::NotPositive(field) => {
                let mut r = String::from_str(field.name());
                r.append(" must be greater than zero");
                r
            },
            TransactionError::Negative(field) => {
                let mut r = String::from_str(field.name());
                r.append(" cannot be negative");
                r
            },
            TransactionError::MissingEmployee => String::from_str("select an employee"),
            TransactionError::MissingInvoice => String::from_str("select an invoice"),
            TransactionError::InvoiceUnavailable => String::from_str(
                "selected invoice is no longer available",
            ),
            TransactionError::PaymentExceedsBalance { balance } => {
                let mut r = String::from_str("payment amount cannot exceed invoice balance ");
                let money = format_money(*balance);
                r.append(money.as_str());
                r
            },
            TransactionError::MissingInvoiceNumber => String::from_str("enter an invoice number"),
            TransactionError::InitialPaymentExceedsInvoice { net } => {
                let mut r = String::from_str(
                    "initial payment cannot exceed invoice cost minus discount (",
                );
                let money = format_money(*net);
                r.append(money.as_str());
                r.append(")");
                r
            },
            TransactionError::MissingAccount => String::from_str("select an account"),
            TransactionError::ExpenseAccountRequired => String::from_str(
                "expense transactions require an expense account",
            ),
            TransactionError::RevenueAccountRequired => String::from_str(
                "sales transactions require a non-system revenue account",
            ),
            TransactionError::AssetDestinationRequired => String::from_str(
                "transfer destination must be an asset account",
            ),
            TransactionError::MissingSourceAccount => String::from_str("select a source account"),
            TransactionError::SourceNotAsset => String::from_str(
                "source account must be an asset account",
            ),
            TransactionError::MissingPaymentMethod => String::from_str("select a payment method"),
            TransactionError::MissingBankAccount => String::from_str("select a bank account"),
            TransactionError::PaymentAccountNotBank => String::from_str(
                "payment account must be a bank account",
            ),
            TransactionError::MissingZelleDate => String::from_str(
                "enter the Zelle transaction date",
            ),
            TransactionError::MissingZelleName => String::from_str(
                "enter the Zelle transaction name",
            ),
            TransactionError::MissingCheckNumber => String::from_str("enter the check number"),
        }
    }
}

/// The status as a message names it: `not open` when it is blank.
pub fn status_text(status: &str) -> (r: &str)
    ensures
        r@ == spec_status_text(status@),
{
    if trim(status).is_empty() {
        "not open"
    } else {
        status
    }
}

/// The employee whose id is `id`.
pub open spec fn employee_with(id: Option<u16>) -> spec_fn(Employee) -> bool {
    |e: Employee| Some(e.id) == id
}

/// The account whose id is `id`.
pub open spec fn account_with(id: Option<u32>) -> spec_fn(ChartAccount) -> bool {
    |a: ChartAccount| Some(a.id) == id
}

/// The payment method whose id is `id`.
pub open spec fn method_with(id: Option<u16>) -> spec_fn(PaymentMethod) -> bool {
    |m: PaymentMethod| Some(m.id) == id
}

/// The invoice whose id, as text, is `key`.
pub open spec fn invoice_with(key: Seq<char>) -> spec_fn(Invoice) -> bool {
    |inv: Invoice| inv.spec_id_string() == key
}

/// The first employee of the lookups with the id, if any.
pub open spec fn find_employee(lk: TransactionLookups, id: Option<u16>) -> Option<Employee> {
    first_where(lk.employees@, employee_with(id))
}

/// The first account of the lookups with the id, if any.
pub open spec fn find_account(lk: TransactionLookups, id: Option<u32>) -> Option<ChartAccount> {
    first_where(lk.accounts@, account_with(id))
}

/// The first payment method of the lookups with the id, if any.
pub open spec fn find_method(lk: TransactionLookups, id: Option<u16>) -> Option<PaymentMethod> {
    first_where(lk.payment_methods@, method_with(id))
}

/// The first invoice of the lookups whose id reads `key`, if any.
pub open spec fn find_invoice(lk: TransactionLookups, key: Seq<char>) -> Option<Invoice> {
    first_where(lk.invoices@, invoice_with(key))
}

fn account_by_id(lookups: &TransactionLookups, id: Option<u32>) -> (r: Option<&ChartAccount>)
    ensures
        match r {
            Some(a) => find_account(*lookups, id) == Some(*a),
            None => find_account(*lookups, id) is None,
        },
{
    let mut i: usize = 0;
    while i < lookups.accounts.len()
        invariant
            i <= lookups.accounts@.len(),
            forall|j: int| 0 <= j < i ==> !account_with(id)(#[trigger] lookups.accounts@[j]),
        decreases lookups.accounts.len() - i,
    {
        let account = &lookups.accounts[i];
        if id == Some(account.id) {
            proof {
                lemma_first_where_at(lookups.accounts@, account_with(id), i as int);
            }
            return Some(account);
        }
        i = i + 1;
    }
    proof {
        lemma_first_where_at(lookups.accounts@, account_with(id), i as int);
    }
    None
}

fn employee_by_id(lookups: &TransactionLookups, id: Option<u16>) -> (r: Option<&Employee>)
    ensures
        match r {
            Some(e) => find_employee(*lookups, id) == Some(*e),
            None => find_employee(*lookups, id) is None,
        },
{
    let mut i: usize = 0;
    while i < lookups.employees.len()
        invariant
            i <= lookups.employees@.len(),
            forall|j: int| 0 <= j < i ==> !employee_with(id)(#[trigger] lookups.employees@[j]),
        decreases lookups.employees.len() - i,
    {
        let employee = &lookups.employees[i];
        if id == Some(employee.id) {
            proof {
                lemma_first_where_at(lookups.employees@, employee_with(id), i as int);
            }
            return Some(employee);
        }
        i = i + 1;
    }
    proof {
        lemma_first_where_at(lookups.employees@, employee_with(id), i as int);
    }
    None
}

/// A copy of a payment method.
fn copy_method(m: &PaymentMethod) -> (r: PaymentMethod)
    ensures
        r.id == m.id,
        r.name@ == m.name@,
{
    PaymentMethod { id: m.id, name: m.name.clone() }
}

fn payment_method_by_id(lookups: &TransactionLookups, id: Option<u16>) -> (r: Option<
    PaymentMethod,
>)
    ensures
        match r {
            Some(m) => find_method(*lookups, id) matches Some(f) && m.id == f.id && m.name@
                == f.name@,
            None => find_method(*lookups, id) is None,
        },
{
    let mut i: usize = 0;
    while i < lookups.payment_methods.len()
        invariant
            i <= lookups.payment_methods@.len(),
            forall|j: int|
                0 <= j < i ==> !method_with(id)(#[trigger] lookups.payment_methods@[j]),
        decreases lookups.payment_methods.len() - i,
    {
        let method = &lookups.payment_methods[i];
        if id == Some(method.id) {
            proof {
                lemma_first_where_at(lookups.payment_methods@, method_with(id), i as int);
            }
            return Some(copy_method(method));
        }
        i = i + 1;
    }
    proof {
        lemma_first_where_at(lookups.payment_methods@, method_with(id), i as int);
    }
    None
}

fn invoice_by_id<'a>(lookups: &'a TransactionLookups, key: &str) -> (r: Option<&'a Invoice>)
    ensures
        match r {
            Some(inv) => find_invoice(*lookups, key@) == Some(*inv),
            None => find_invoice(*lookups, key@) is None,
        },
{
    let mut i: usize = 0;
    while i < lookups.invoices.len()
        invariant
            i <= lookups.invoices@.len(),
            forall|j: int|
                0 <= j < i ==> !invoice_with(key@)(#[trigger] lookups.invoices@[j]),
        decreases lookups.invoices.len() - i,
    {
        let invoice = &lookups.invoices[i];
        let id = invoice.id_string();
        if same_text(id.as_str(), key) {
            proof {
                lemma_first_where_at(lookups.invoices@, invoice_with(key@), i as int);
            }
            return Some(invoice);
        }
        i = i + 1;
    }
    proof {
        lemma_first_where_at(lookups.invoices@, invoice_with(key@), i as int);
    }
    None
}

/// The payment methods every company offers, numbered from 1.
pub open spec fn spec_payment_methods() -> Seq<(u16, Seq<char>)> {
    seq![(1u16, "CASH"@), (2u16, "DEPOSIT"@), (3u16, "CHECK"@), (4u16, "ZELLE"@), (5u16, "CREDIT-CARD"@)]
}

/// `methods` are the payment methods every company offers, in their order.
pub open spec fn offers_standard_methods(methods: Seq<PaymentMethod>) -> bool {
    &&& methods.len() == spec_payment_methods().len()
    &&& forall|i: int|
        0 <= i < methods.len() ==> (#[trigger] methods[i]).id == spec_payment_methods()[i].0
            && methods[i].name@ == spec_payment_methods()[i].1
}

/// The payment methods every company offers: cash, deposit, check, Zelle and
/// credit card, numbered 1 to 5 in that order.
pub fn payment_methods() -> (r: Vec<PaymentMethod>)
    ensures
        offers_standard_methods(r@),
{
    let names: [&str; 5] = ["CASH", "DEPOSIT", "CHECK", "ZELLE", "CREDIT-CARD"];
    let mut r: Vec<PaymentMethod> = Vec::new();
    let mut i: usize = 0;
    while i < 5
        invariant
            i <= 5,
            names@ == seq!["CASH", "DEPOSIT", "CHECK", "ZELLE", "CREDIT-CARD"],
            r@.len() == i,
            forall|k: int|
                0 <= k < i ==> (#[trigger] r@[k]).id == spec_payment_methods()[k].0
                    && r@[k].name@ == spec_payment_methods()[k].1,
        decreases 5 - i,
    {
        let id: u16 = (i as u16) + 1;
        r.push(PaymentMethod { id, name: String::from_str(names[i]) });
        i = i + 1;
    }
    r
}

/// `Err` for a fault, `Ok` when there is none.
pub open spec fn as_result(fault: Option<TransactionError>) -> Result<(), TransactionError> {
    match fault {
        Some(e) => Err(e),
        None => Ok(()),
    }
}

/// Whether the transaction is paid with a payment method: its kind takes one,
/// and an initial payment only when its amount is above zero.
pub open spec fn spec_payment_required(v: JournalTransactionValues) -> bool {
    v.transaction_type.spec_needs_payment_method() && (!(v.transaction_type is InitialPayment)
        || v.amount > 0)
}

/// The invoice cost less its discount, or zero when the discount is larger.
pub open spec fn spec_net_invoice(cost: int, discount: int) -> int {
    if cost - discount > 0 {
        cost - discount
    } else {
        0
    }
}

/// The statement must be open, whatever the letter case of its status.
pub open spec fn status_fault(st: IncomeStatement) -> Option<TransactionError> {
    if ascii_lower_all(st.status@) == ascii_lower_all("open"@) {
        None
    } else {
        Some(TransactionError::StatementNotOpen { id: st.id, status: st.status })
    }
}

/// An initial payment may be zero; every other amount must be above zero.
pub open spec fn amount_fault(v: JournalTransactionValues) -> Option<TransactionError> {
    if v.transaction_type is InitialPayment {
        if v.amount < 0 {
            Some(TransactionError::Negative(AmountField::Amount))
        } else {
            None
        }
    } else if v.amount <= 0 {
        Some(TransactionError::NotPositive(AmountField::Amount))
    } else {
        None
    }
}

/// The employee must be one of the lookups.
pub open spec fn employee_fault(lk: TransactionLookups, v: JournalTransactionValues) -> Option<
    TransactionError,
> {
    if find_employee(lk, v.employee_id) is None {
        Some(TransactionError::MissingEmployee)
    } else {
        None
    }
}

/// The invoice a payment, discount or surcharge applies to: the first of the
/// lookups whose id reads as the entered id, which must not be blank.
pub open spec fn spec_selected_invoice(lk: TransactionLookups, v: JournalTransactionValues) -> Result<
    Invoice,
    TransactionError,
> {
    match v.invoice_id {
        None => Err(TransactionError::MissingInvoice),
        Some(id) => if is_blank(id@) {
            Err(TransactionError::MissingInvoice)
        } else {
            match find_invoice(lk, id@) {
                Some(inv) => Ok(inv),
                None => Err(TransactionError::InvoiceUnavailable),
            }
        },
    }
}

/// A transaction on an existing invoice needs that invoice, and a payment may
/// not exceed a positive open balance.
pub open spec fn invoice_fault(lk: TransactionLookups, v: JournalTransactionValues) -> Option<
    TransactionError,
> {
    if !v.transaction_type.spec_needs_existing_invoice() {
        None
    } else {
        match spec_selected_invoice(lk, v) {
            Err(e) => Some(e),
            Ok(inv) => if v.transaction_type is Payment && inv.balance > 0 && v.amount
                > inv.balance {
                Some(TransactionError::PaymentExceedsBalance { balance: inv.balance })
            } else {
                None
            },
        }
    }
}

/// An initial payment opens an invoice: it needs a number, a cost above zero,
/// a discount of zero or more, and may not exceed the cost less the discount.
pub open spec fn initial_payment_fault(v: JournalTransactionValues) -> Option<TransactionError> {
    if !(v.transaction_type is InitialPayment) {
        None
    } else if is_blank(v.invoice_number@) {
        Some(TransactionError::MissingInvoiceNumber)
    } else if v.invoice_cost <= 0 {
        Some(TransactionError::NotPositive(AmountField::InvoiceCost))
    } else if v.invoice_discount < 0 {
        Some(TransactionError::Negative(AmountField::InvoiceDiscount))
    } else if v.amount > spec_net_invoice(v.invoice_cost as int, v.invoice_discount as int) {
        Some(
            TransactionError::InitialPaymentExceedsInvoice {
                net: spec_net_invoice(v.invoice_cost as int, v.invoice_discount as int) as i64,
            },
        )
    } else {
        None
    }
}

/// Expenses go to an expense account, sales to a revenue account that is not a
/// system account, transfers to an asset account.
pub open spec fn account_type_fault(t: JournalTransactionType, a: ChartAccount) -> Option<
    TransactionError,
> {
    match t {
        JournalTransactionType::Expense => if a.account_type@ != "EXPENSE"@ {
            Some(TransactionError::ExpenseAccountRequired)
        } else {
            None
        },
        JournalTransactionType::Sales => if a.account_type@ != "REVENUE"@ || a.system_account {
            Some(TransactionError::RevenueAccountRequired)
        } else {
            None
        },
        JournalTransactionType::Transfer => if a.account_type@ != "ASSET"@ {
            Some(TransactionError::AssetDestinationRequired)
        } else {
            None
        },
        _ => None,
    }
}

/// A kind that names an account needs one of the lookups, of the right type.
pub open spec fn account_fault(lk: TransactionLookups, v: JournalTransactionValues) -> Option<
    TransactionError,
> {
    if !v.transaction_type.spec_needs_account() {
        None
    } else {
        match find_account(lk, v.account_id) {
            None => Some(TransactionError::MissingAccount),
            Some(a) => account_type_fault(v.transaction_type, a),
        }
    }
}

/// A kind that draws on a source account needs an asset account of the lookups.
pub open spec fn source_fault(lk: TransactionLookups, v: JournalTransactionValues) -> Option<
    TransactionError,
> {
    if !v.transaction_type.spec_needs_source_account() {
        None
    } else {
        match find_account(lk, v.source_account_id) {
            None => Some(TransactionError::MissingSourceAccount),
            Some(a) => if a.account_type@ != "ASSET"@ {
                Some(TransactionError::SourceNotAsset)
            } else {
                None
            },
        }
    }
}

/// Deposits and Zelle payments need a bank account; Zelle payments a
/// transaction date and name; checks a check number.
pub open spec fn payment_details_fault(
    lk: TransactionLookups,
    v: JournalTransactionValues,
    name: Seq<char>,
) -> Option<TransactionError> {
    let to_bank = name == "DEPOSIT"@ || name == "ZELLE"@;
    if to_bank && find_account(lk, v.payment_account_id) is None {
        Some(TransactionError::MissingBankAccount)
    } else if to_bank && find_account(lk, v.payment_account_id)->0.account_type@ != "BANK"@ {
        Some(TransactionError::PaymentAccountNotBank)
    } else if name == "ZELLE"@ && is_blank(v.zelle_transaction_date@) {
        Some(TransactionError::MissingZelleDate)
    } else if name == "ZELLE"@ && is_blank(v.zelle_transaction_name@) {
        Some(TransactionError::MissingZelleName)
    } else if name == "CHECK"@ && is_blank(v.check_number@) {
        Some(TransactionError::MissingCheckNumber)
    } else {
        None
    }
}

/// A paid transaction needs a payment method of the lookups, with its details.
pub open spec fn payment_fault(lk: TransactionLookups, v: JournalTransactionValues) -> Option<
    TransactionError,
> {
    if !spec_payment_required(v) {
        None
    } else {
        match find_method(lk, v.payment_method_id) {
            None => Some(TransactionError::MissingPaymentMethod),
            Some(m) => payment_details_fault(lk, v, m.name@),
        }
    }
}

/// The first rule the transaction breaks, checked in this order: the
/// statement's status, the amount, the employee, the invoice, the new
/// invoice of an initial payment, the account, the source account, and the
/// payment. `None` when it breaks none.
pub open spec fn validation_fault(
    st: IncomeStatement,
    lk: TransactionLookups,
    v: JournalTransactionValues,
) -> Option<TransactionError> {
    if status_fault(st) is Some {
        status_fault(st)
    } else if amount_fault(v) is Some {
        amount_fault(v)
    } else if employee_fault(lk, v) is Some {
        employee_fault(lk, v)
    } else if invoice_fault(lk, v) is Some {
        invoice_fault(lk, v)
    } else if initial_payment_fault(v) is Some {
        initial_payment_fault(v)
    } else if account_fault(lk, v) is Some {
        account_fault(lk, v)
    } else if source_fault(lk, v) is Some {
        source_fault(lk, v)
    } else {
        payment_fault(lk, v)
    }
}

fn ensure_positive(value: i64, field: AmountField) -> (r: Result<(), TransactionError>)
    ensures
        r == (if value <= 0 {
            Err(TransactionError::NotPositive(field))
        } else {
            Ok(())
        }),
{
    if value <= 0 {
        return Err(TransactionError::NotPositive(field));
    }
    Ok(())
}

fn ensure_non_negative(value: i64, field: AmountField) -> (r: Result<(), TransactionError>)
    ensures
        r == (if value < 0 {
            Err(TransactionError::Negative(field))
        } else {
            Ok(())
        }),
{
    if value < 0 {
        return Err(TransactionError::Negative(field));
    }
    Ok(())
}

fn payment_required(values: &JournalTransactionValues) -> (r: bool)
    ensures
        r == spec_payment_required(*values),
{
    values.transaction_type.needs_payment_method() && (values.transaction_type
        != JournalTransactionType::InitialPayment || values.amount > 0)
}

fn selected_invoice<'a>(lookups: &'a TransactionLookups, values: &JournalTransactionValues) -> (r:
    Result<&'a Invoice, TransactionError>)
    ensures
        match r {
            Ok(inv) => spec_selected_invoice(*lookups, *values) == Ok::<
                Invoice,
                TransactionError,
            >(*inv),
            Err(e) => spec_selected_invoice(*lookups, *values) == Err::<
                Invoice,
                TransactionError,
            >(e),
        },
{
    match &values.invoice_id {
        None => Err(TransactionError::MissingInvoice),
        Some(id) => {
            if trim(id.as_str()).is_empty() {
                Err(TransactionError::MissingInvoice)
            } else {
                match invoice_by_id(lookups, id.as_str()) {
                    Some(inv) => Ok(inv),
                    None => Err(TransactionError::InvoiceUnavailable),
                }
            }
        },
    }
}

fn validate_account_type(transaction_type: JournalTransactionType, account: &ChartAccount) -> (r:
    Result<(), TransactionError>)
    ensures
        r == as_result(account_type_fault(transaction_type, *account)),
{
    match transaction_type {
        JournalTransactionType::Expense => {
            if !same_text(account.account_type.as_str(), "EXPENSE") {
                return Err(TransactionError::ExpenseAccountRequired);
            }
            Ok(())
        },
        JournalTransactionType::Sales => {
            if !same_text(account.account_type.as_str(), "REVENUE") || account.system_account {
                return Err(TransactionError::RevenueAccountRequired);
            }
            Ok(())
        },
        JournalTransactionType::Transfer => {
            if !same_text(account.account_type.as_str(), "ASSET") {
                return Err(TransactionError::AssetDestinationRequired);
            }
            Ok(())
        },
        _ => Ok(()),
    }
}

fn validate_payment_details(
    lookups: &TransactionLookups,
    values: &JournalTransactionValues,
    payment_method: &PaymentMethod,
) -> (r: Result<(), TransactionError>)
    ensures
        r == as_result(payment_details_fault(*lookups, *values, payment_method.name@)),
{
    let name = payment_method.name.as_str();
    if same_text(name, "DEPOSIT") || same_text(name, "ZELLE") {
        match account_by_id(lookups, values.payment_account_id) {
            None => {
                return Err(TransactionError::MissingBankAccount);
            },
            Some(account) => {
                if !same_text(account.account_type.as_str(), "BANK") {
                    return Err(TransactionError::PaymentAccountNotBank);
                }
            },
        }
    }
    if same_text(name, "ZELLE") {
        if trim(values.zelle_transaction_date.as_str()).is_empty() {
            return Err(TransactionError::MissingZelleDate);
        }
        if trim(values.zelle_transaction_name.as_str()).is_empty() {
            return Err(TransactionError::MissingZelleName);
        }
    }
    if same_text(name, "CHECK") && trim(values.check_number.as_str()).is_empty() {
        return Err(TransactionError::MissingCheckNumber);
    }
    Ok(())
}

/// Checks a new journal transaction against the rules, and names the first
/// rule it breaks.
pub fn validate_transaction(
    statement: &IncomeStatement,
    lookups: &TransactionLookups,
    values: &JournalTransactionValues,
) -> (r: Result<(), TransactionError>)
    ensures
        r == as_result(validation_fault(*statement, *lookups, *values)),
{
    if !eq_ignore_ascii_case(statement.status.as_str(), "open") {
        return Err(
            TransactionError::StatementNotOpen { id: statement.id, status: statement.status.clone() },
        );
    }
    let transaction_type = values.transaction_type;
    if transaction_type == JournalTransactionType::InitialPayment {
        if let Err(e) = ensure_non_negative(values.amount, AmountField::Amount) {
            return Err(e);
        }
    } else {
        if let Err(e) = ensure_positive(values.amount, AmountField::Amount) {
            return Err(e);
        }
    }
    if employee_by_id(lookups, values.employee_id).is_none() {
        return Err(TransactionError::MissingEmployee);
    }
    if transaction_type.needs_existing_invoice() {
        match selected_invoice(lookups, values) {
            Err(e) => {
                return Err(e);
            },
            Ok(invoice) => {
                if transaction_type == JournalTransactionType::Payment && invoice.balance > 0
                    && values.amount > invoice.balance {
                    return Err(TransactionError::PaymentExceedsBalance { balance: invoice.balance });
                }
            },
        }
    }
    if transaction_type == JournalTransactionType::InitialPayment {
        if trim(values.invoice_number.as_str()).is_empty() {
            return Err(TransactionError::MissingInvoiceNumber);
        }
        if let Err(e) = ensure_positive(values.invoice_cost, AmountField::InvoiceCost) {
            return Err(e);
        }
        if let Err(e) = ensure_non_negative(values.invoice_discount, AmountField::InvoiceDiscount) {
            return Err(e);
        }
        let difference = values.invoice_cost - values.invoice_discount;
        let net_invoice: i64 = if difference > 0 {
            difference
        } else {
            0
        };
        if values.amount > net_invoice {
            return Err(TransactionError::InitialPaymentExceedsInvoice { net: net_invoice });
        }
    }
    if transaction_type.needs_account() {
        match account_by_id(lookups, values.account_id) {
            None => {
                return Err(TransactionError::MissingAccount);
            },
            Some(account) => {
                if let Err(e) = validate_account_type(transaction_type, account) {
                    return Err(e);
                }
            },
        }
    }
    if transaction_type.needs_source_account() {
        match account_by_id(lookups, values.source_account_id) {
            None => {
                return Err(TransactionError::MissingSourceAccount);
            },
            Some(source) => {
                if !same_text(source.account_type.as_str(), "ASSET") {
                    return Err(TransactionError::SourceNotAsset);
                }
            },
        }
    }
    if payment_required(values) {
        match payment_method_by_id(lookups, values.payment_method_id) {
            None => {
                return Err(TransactionError::MissingPaymentMethod);
            },
            Some(payment_method) => {
                return validate_payment_details(lookups, values, &payment_method);
            },
        }
    }
    Ok(())
}

/// The views of an optional text.
pub open spec fn opt_text(o: Option<String>) -> Option<Seq<char>> {
    match o {
        Some(s) => Some(s@),
        None => None,
    }
}

/// `None` for the empty text, the text itself otherwise.
pub open spec fn non_empty_text(s: Seq<char>) -> Option<Seq<char>> {
    if s.len() == 0 {
        None
    } else {
        Some(s)
    }
}

/// The payment method sent with the transaction: the selected one, when the
/// transaction is paid at all.
pub open spec fn posted_method(lk: TransactionLookups, v: JournalTransactionValues) -> Option<
    PaymentMethod,
> {
    if spec_payment_required(v) {
        find_method(lk, v.payment_method_id)
    } else {
        None
    }
}

/// The reference number sent: the trimmed reference, or for a check with no
/// reference, the trimmed check number.
pub open spec fn spec_ref_number(lk: TransactionLookups, v: JournalTransactionValues) -> Seq<char> {
    if posted_method(lk, v) matches Some(m) && m.name@ == "CHECK"@ && trimmed(v.ref_number@).len()
        == 0 {
        trimmed(v.check_number@)
    } else {
        trimmed(v.ref_number@)
    }
}

/// `r` refers to the employee `e`, or both are absent.
pub open spec fn employee_ref_of(r: Option<EmployeePostReference>, e: Option<Employee>) -> bool {
    match (r, e) {
        (Some(r), Some(e)) => r.id == e.id && r.name@ == e.name@,
        (None, None) => true,
        _ => false,
    }
}

/// `r` refers to the account `a` under its shown name, or both are absent.
pub open spec fn account_ref_of(r: Option<AccountPostReference>, a: Option<ChartAccount>) -> bool {
    match (r, a) {
        (Some(r), Some(a)) => r.id == a.id && r.name@ == a.spec_label() && r.account_type@
            == a.account_type@,
        (None, None) => true,
        _ => false,
    }
}

/// `r` is a copy of the payment method `m`, or both are absent.
pub open spec fn method_of(r: Option<PaymentMethod>, m: Option<PaymentMethod>) -> bool {
    match (r, m) {
        (Some(r), Some(m)) => r.id == m.id && r.name@ == m.name@,
        (None, None) => true,
        _ => false,
    }
}

/// The request that posts the transaction `v` to the statement `st`.
pub open spec fn is_post_request_for(
    r: PostJournalRequest,
    st: IncomeStatement,
    lk: TransactionLookups,
    v: JournalTransactionValues,
) -> bool {
    let t = v.transaction_type;
    &&& r.transaction_type@ == t.spec_as_api()
    &&& r.income_statement_id == st.id
    &&& r.income_statement.id == st.id
    &&& r.date@ == st.date@
    &&& r.amount == v.amount
    &&& r.ref_number@ == spec_ref_number(lk, v)
    &&& r.description@ == trimmed(v.description@)
    &&& r.currency@ == st.currency@
    &&& r.rate == st.rate
    &&& employee_ref_of(r.employee, find_employee(lk, v.employee_id))
    &&& account_ref_of(r.account, find_account(lk, v.account_id))
    &&& account_ref_of(r.payment_account, find_account(lk, v.payment_account_id))
    &&& account_ref_of(r.source_account, find_account(lk, v.source_account_id))
    &&& opt_text(r.invoice_id) == (if t.spec_needs_existing_invoice() {
        opt_text(v.invoice_id)
    } else {
        None
    })
    &&& match r.invoice {
        Some(inv) => t is InitialPayment && inv.number@ == trimmed(v.invoice_number@) && inv.cost
            == v.invoice_cost && inv.discount == v.invoice_discount,
        None => !(t is InitialPayment),
    }
    &&& method_of(r.payment_method, posted_method(lk, v))
    &&& opt_text(r.zelle_transaction_date) == non_empty_text(trimmed(v.zelle_transaction_date@))
    &&& opt_text(r.zelle_transaction_name) == non_empty_text(trimmed(v.zelle_transaction_name@))
    &&& opt_text(r.check_number) == non_empty_text(trimmed(v.check_number@))
}

fn account_reference(account: &ChartAccount) -> (r: AccountPostReference)
    ensures
        r.id == account.id,
        r.name@ == account.spec_label(),
        r.account_type@ == account.account_type@,
{
    AccountPostReference {
        id: account.id,
        name: account.label(),
        account_type: account.account_type.clone(),
    }
}

fn account_reference_by_id(lookups: &TransactionLookups, id: Option<u32>) -> (r: Option<
    AccountPostReference,
>)
    ensures
        account_ref_of(r, find_account(*lookups, id)),
{
    match account_by_id(lookups, id) {
        Some(account) => Some(account_reference(account)),
        None => None,
    }
}

fn non_empty(value: &str) -> (r: Option<String>)
    ensures
        opt_text(r) == non_empty_text(value@),
{
    if value.is_empty() {
        None
    } else {
        Some(String::from_str(value))
    }
}

fn copy_text(value: &Option<String>) -> (r: Option<String>)
    ensures
        opt_text(r) == opt_text(*value),
{
    match value {
        Some(s) => Some(s.clone()),
        None => None,
    }
}

/// Checks a new journal transaction against the rules and, when it meets them
/// all, builds the request that posts it. Text fields are sent trimmed, and
/// empty optional texts are left out.
pub fn build_post_request(
    statement: &IncomeStatement,
    lookups: &TransactionLookups,
    values: &JournalTransactionValues,
) -> (r: Result<PostJournalRequest, TransactionError>)
    ensures
        match r {
            Ok(req) => validation_fault(*statement, *lookups, *values) is None
                && is_post_request_for(req, *statement, *lookups, *values),
            Err(e) => validation_fault(*statement, *lookups, *values) == Some(e),
        },
{
    if let Err(e) = validate_transaction(statement, lookups, values) {
        return Err(e);
    }
    let transaction_type = values.transaction_type;
    let payment_method = if payment_required(values) {
        payment_method_by_id(lookups, values.payment_method_id)
    } else {
        None
    };
    let mut ref_number = String::from_str(trim(values.ref_number.as_str()));
    let check_number = String::from_str(trim(values.check_number.as_str()));
    let is_check = match &payment_method {
        Some(method) => same_text(method.name.as_str(), "CHECK"),
        None => false,
    };
    if is_check && ref_number.as_str().is_empty() {
        ref_number = check_number.clone();
    }
    let employee = match employee_by_id(lookups, values.employee_id) {
        Some(employee) => Some(EmployeePostReference { id: employee.id, name: employee.name.clone() }),
        None => None,
    };
    let invoice_id = if transaction_type.needs_existing_invoice() {
        copy_text(&values.invoice_id)
    } else {
        None
    };
    let invoice = if transaction_type == JournalTransactionType::InitialPayment {
        Some(
            InvoicePostReference {
                number: String::from_str(trim(values.invoice_number.as_str())),
                cost: values.invoice_cost,
                discount: values.invoice_discount,
            },
        )
    } else {
        None
    };
    proof {
        lemma_trimmed_idempotent(values.check_number@);
    }
    let r = PostJournalRequest {
        transaction_type: String::from_str(transaction_type.as_api()),
        income_statement_id: statement.id,
        income_statement: IncomeStatementPostReference { id: statement.id },
        date: statement.date.clone(),
        amount: values.amount,
        ref_number,
        description: String::from_str(trim(values.description.as_str())),
        currency: statement.currency.clone(),
        rate: statement.rate,
        employee,
        account: account_reference_by_id(lookups, values.account_id),
        payment_account: account_reference_by_id(lookups, values.payment_account_id),
        source_account: account_reference_by_id(lookups, values.source_account_id),
        invoice_id,
        invoice,
        payment_method,
        zelle_transaction_date: non_empty(trim(values.zelle_transaction_date.as_str())),
        zelle_transaction_name: non_empty(trim(values.zelle_transaction_name.as_str())),
        check_number: non_empty(trim(check_number.as_str())),
    };
    Ok(r)
}

/// `s` sorts by `field` in `direction`.
pub open spec fn is_sort(s: Sort, field: Seq<char>, direction: Seq<char>) -> bool {
    s.field@ == field && s.direction@ == direction
}

/// `f` keeps the results whose `field` equals `value`.
pub open spec fn is_eq_filter(f: QueryFilter, field: Seq<char>, value: FilterValue) -> bool {
    &&& f.field matches Some(name) && name@ == field
    &&& f.operator@ == "eq"@
    &&& f.value == Some(value)
    &&& f.filters@.len() == 0
}

/// `r` has no single condition of its own.
pub open spec fn no_condition(r: QueryRequest) -> bool {
    r.field is None && r.operator is None && r.value is None
}

/// The page `page` (from 1) of `limit` results.
pub open spec fn page_of(page: u64, limit: u64) -> Pagination {
    Pagination { page: Some(page), offset: Some(((page - 1) * limit) as u64), limit: Some(limit) }
}

fn sort_by(field: &str, direction: &str) -> (r: Sort)
    ensures
        is_sort(r, field@, direction@),
{
    Sort { field: String::from_str(field), direction: String::from_str(direction) }
}

fn eq_filter(field: &str, value: FilterValue) -> (r: QueryFilter)
    ensures
        is_eq_filter(r, field@, value),
{
    QueryFilter {
        field: Some(String::from_str(field)),
        operator: String::from_str("eq"),
        value: Some(value),
        filters: Vec::new(),
    }
}

/// The first page of up to 500 results, used for every lookup list.
pub fn lookup_pagination() -> (r: Pagination)
    ensures
        r == page_of(1, LOOKUP_LIMIT),
{
    Pagination { page: Some(1), offset: Some(0), limit: Some(LOOKUP_LIMIT) }
}

/// The search for the most recent income statement: one result, newest date
/// first.
pub fn latest_statement_request() -> (r: QueryRequest)
    ensures
        no_condition(r),
        r.filters@.len() == 0,
        r.pagination == Some(page_of(1, 1)),
        r.sort@.len() == 1,
        is_sort(r.sort@[0], "date"@, "desc"@),
{
    let mut sort = Vec::new();
    sort.push(sort_by("date", "desc"));
    QueryRequest {
        field: None,
        operator: None,
        value: None,
        filters: Vec::new(),
        pagination: Some(Pagination { page: Some(1), offset: Some(0), limit: Some(1) }),
        sort,
    }
}

/// The page to ask for: pages count from 1, and 0 asks for the first.
pub open spec fn effective_page(page: u64) -> u64 {
    if page < 1 {
        1
    } else {
        page
    }
}

/// The offset of the page `page` of `limit` results fits in 64 bits.
pub open spec fn page_offset_fits(page: u64, limit: u64) -> bool {
    (effective_page(page) - 1) * limit <= u64::MAX
}

/// Whether the offset of the page `page` of `limit` results fits in 64 bits.
pub fn effective_page_fits(page: u64, limit: u64) -> (r: bool)
    ensures
        r == page_offset_fits(page, limit),
{
    let page = if page < 1 {
        1
    } else {
        page
    };
    (page - 1).checked_mul(limit).is_some()
}

/// The search for one page of income statements, newest date first.
pub fn statement_page_request(statement_page: u64) -> (r: QueryRequest)
    requires
        page_offset_fits(statement_page, DEFAULT_STATEMENT_LIMIT),
    ensures
        no_condition(r),
        r.filters@.len() == 0,
        r.pagination == Some(page_of(effective_page(statement_page), DEFAULT_STATEMENT_LIMIT)),
        r.sort@.len() == 1,
        is_sort(r.sort@[0], "date"@, "desc"@),
{
    let page = if statement_page < 1 {
        1
    } else {
        statement_page
    };
    let offset = (page - 1) * DEFAULT_STATEMENT_LIMIT;
    let mut sort = Vec::new();
    sort.push(sort_by("date", "desc"));
    QueryRequest {
        field: None,
        operator: None,
        value: None,
        filters: Vec::new(),
        pagination: Some(
            Pagination { page: Some(page), offset: Some(offset), limit: Some(DEFAULT_STATEMENT_LIMIT) },
        ),
        sort,
    }
}

/// The search for one page of the journal entries of a statement, newest date
/// and then newest creation first.
pub fn journal_page_request(statement_id: u32, page: u64) -> (r: QueryRequest)
    requires
        page_offset_fits(page, DEFAULT_JOURNAL_LIMIT),
    ensures
        no_condition(r),
        r.filters@.len() == 1,
        is_eq_filter(r.filters@[0], "incomeStatement.id"@, FilterValue::Number(statement_id as u64)),
        r.pagination == Some(page_of(effective_page(page), DEFAULT_JOURNAL_LIMIT)),
        r.sort@.len() == 2,
        is_sort(r.sort@[0], "date"@, "desc"@),
        is_sort(r.sort@[1], "createdAt"@, "desc"@),
{
    let page = if page < 1 {
        1
    } else {
        page
    };
    let offset = (page - 1) * DEFAULT_JOURNAL_LIMIT;
    let mut filters = Vec::new();
    filters.push(eq_filter("incomeStatement.id", FilterValue::Number(statement_id as u64)));
    let mut sort = Vec::new();
    sort.push(sort_by("date", "desc"));
    sort.push(sort_by("createdAt", "desc"));
    QueryRequest {
        field: None,
        operator: None,
        value: None,
        filters,
        pagination: Some(
            Pagination { page: Some(page), offset: Some(offset), limit: Some(DEFAULT_JOURNAL_LIMIT) },
        ),
        sort,
    }
}

/// The search for active employees, by name.
pub fn active_employees_request() -> (r: QueryRequest)
    ensures
        no_condition(r),
        r.filters@.len() == 1,
        is_eq_filter(r.filters@[0], "active"@, FilterValue::Bool(true)),
        r.pagination == Some(page_of(1, LOOKUP_LIMIT)),
        r.sort@.len() == 1,
        is_sort(r.sort@[0], "name"@, "asc"@),
{
    let mut filters = Vec::new();
    filters.push(eq_filter("active", FilterValue::Bool(true)));
    let mut sort = Vec::new();
    sort.push(sort_by("name", "asc"));
    QueryRequest {
        field: None,
        operator: None,
        value: None,
        filters,
        pagination: Some(lookup_pagination()),
        sort,
    }
}

/// The search for chart accounts, by display name.
pub fn chart_accounts_request() -> (r: QueryRequest)
    ensures
        no_condition(r),
        r.filters@.len() == 0,
        r.pagination == Some(page_of(1, LOOKUP_LIMIT)),
        r.sort@.len() == 1,
        is_sort(r.sort@[0], "displayName"@, "asc"@),
{
    let mut sort = Vec::new();
    sort.push(sort_by("displayName", "asc"));
    QueryRequest {
        field: None,
        operator: None,
        value: None,
        filters: Vec::new(),
        pagination: Some(lookup_pagination()),
        sort,
    }
}

/// The search for invoices that are neither void nor archived, newest first.
pub fn open_invoices_request() -> (r: QueryRequest)
    ensures
        no_condition(r),
        r.filters@.len() == 2,
        is_eq_filter(r.filters@[0], "isVoid"@, FilterValue::Bool(false)),
        is_eq_filter(r.filters@[1], "isArchive"@, FilterValue::Bool(false)),
        r.pagination == Some(page_of(1, LOOKUP_LIMIT)),
        r.sort@.len() == 1,
        is_sort(r.sort@[0], "date"@, "desc"@),
{
    let mut filters = Vec::new();
    filters.push(eq_filter("isVoid", FilterValue::Bool(false)));
    filters.push(eq_filter("isArchive", FilterValue::Bool(false)));
    let mut sort = Vec::new();
    sort.push(sort_by("date", "desc"));
    QueryRequest {
        field: None,
        operator: None,
        value: None,
        filters,
        pagination: Some(lookup_pagination()),
        sort,
    }
}

/// The id of the first statement of a search result, if there is one.
pub fn first_statement_id(statements: &Vec<IncomeStatement>) -> (r: Option<u32>)
    ensures
        r == (if statements@.len() > 0 {
            Some(statements@[0].id)
        } else {
            None
        }),
{
    if statements.len() > 0 {
        Some(statements[0].id)
    } else {
        None
    }
}

/// The selected position, moved back onto the last statement when it lies
/// past the end.
pub open spec fn spec_clamp_selection(selected: usize, count: usize) -> usize {
    let last: usize = if count > 0 {
        (count - 1) as usize
    } else {
        0
    };
    if selected < last {
        selected
    } else {
        last
    }
}

/// The selected position and the id of the statement there; `None` when the
/// page holds no statement.
pub fn select_statement(statements: &Vec<IncomeStatement>, selected_index: usize) -> (r: Option<
    (usize, u32),
>)
    ensures
        r == (if statements@.len() > 0 {
            Some(
                (
                    spec_clamp_selection(selected_index, statements@.len() as usize),
                    statements@[spec_clamp_selection(
                        selected_index,
                        statements@.len() as usize,
                    ) as int].id,
                ),
            )
        } else {
            None
        }),
{
    let last = if statements.len() > 0 {
        statements.len() - 1
    } else {
        0
    };
    let index = if selected_index < last {
        selected_index
    } else {
        last
    };
    if index < statements.len() {
        Some((index, statements[index].id))
    } else {
        None
    }
}

/// A page of journal entries from a search response; page 0 reads as page 1.
pub fn journal_page_from_response(response: JournalSearchResponse) -> (r: JournalPage)
    ensures
        r.entries == response.data,
        r.page == effective_page(response.page),
        r.results_per_page == response.results_per_page,
        r.total == response.total,
        r.subtotal == response.subtotal,
{
    JournalPage {
        entries: response.data,
        page: if response.page < 1 {
            1
        } else {
            response.page
        },
        results_per_page: response.results_per_page,
        total: response.total,
        subtotal: response.subtotal,
    }
}

/// The lookups offered for a new transaction: the given lists, with the
/// payment methods every company offers.
pub fn lookups_from(employees: Vec<Employee>, accounts: Vec<ChartAccount>, invoices: Vec<Invoice>) -> (r:
    TransactionLookups)
    ensures
        r.employees == employees,
        r.accounts == accounts,
        r.invoices == invoices,
        offers_standard_methods(r.payment_methods@),
{
    TransactionLookups { employees, accounts, invoices, payment_methods: payment_methods() }
}

/// The screen built from a page of statements and the parts loaded for the
/// selected one; page 0 reads as page 1.
pub fn screen_from(
    response: IncomeStatementSearchResponse,
    selected_index: usize,
    detail: IncomeStatementDetail,
    journals: JournalPage,
    lookups: TransactionLookups,
) -> (r: IncomeStatementScreen)
    ensures
        r.statements == response.data,
        r.statement_page == effective_page(response.page),
        r.statement_results_per_page == response.results_per_page,
        r.statement_total == response.total,
        r.selected_index == selected_index,
        r.detail == detail,
        r.journals == journals,
        r.lookups == lookups,
{
    IncomeStatementScreen {
        statements: response.data,
        statement_page: if response.page < 1 {
            1
        } else {
            response.page
        },
        statement_results_per_page: response.results_per_page,
        statement_total: response.total,
        selected_index,
        detail,
        journals,
        lookups,
    }
}

/// Every transaction the rules accept is posted to an open statement, has an
/// employee, an amount above zero (an initial payment: zero or more, within
/// the cost of its new invoice less the discount), the invoice, accounts and
/// payment method its kind calls for, and a payment within a positive open
/// invoice balance.
pub proof fn law_accepted_transaction_meets_rules(
    st: IncomeStatement,
    lk: TransactionLookups,
    v: JournalTransactionValues,
)
    requires
        validation_fault(st, lk, v) is None,
    ensures
        ascii_lower_all(st.status@) == ascii_lower_all("open"@),
        find_employee(lk, v.employee_id) is Some,
        v.transaction_type is InitialPayment ==> {
            &&& 0 <= v.amount <= spec_net_invoice(v.invoice_cost as int, v.invoice_discount as int)
            &&& v.invoice_cost > 0
            &&& v.invoice_discount >= 0
            &&& !is_blank(v.invoice_number@)
        },
        !(v.transaction_type is InitialPayment) ==> v.amount > 0,
        v.transaction_type.spec_needs_existing_invoice() ==> (spec_selected_invoice(lk, v) matches Ok(
            inv,
        ) && (v.transaction_type is Payment && inv.balance > 0 ==> v.amount <= inv.balance)),
        v.transaction_type.spec_needs_account() ==> (find_account(lk, v.account_id) matches Some(a)
            && account_type_fault(v.transaction_type, a) is None),
        v.transaction_type.spec_needs_source_account() ==> (find_account(lk, v.source_account_id)
            matches Some(a) && a.account_type@ == "ASSET"@),
        spec_payment_required(v) ==> find_method(lk, v.payment_method_id) is Some,
{
}

/// A statement whose status is not `open` (in any letter case) refuses every
/// transaction, naming the statement and its status.
pub proof fn law_closed_statement_refuses(
    st: IncomeStatement,
    lk: TransactionLookups,
    v: JournalTransactionValues,
)
    requires
        ascii_lower_all(st.status@) != ascii_lower_all("open"@),
    ensures
        validation_fault(st, lk, v) == Some(
            TransactionError::StatementNotOpen { id: st.id, status: st.status },
        ),
{
}

/// Distinct transaction kinds have distinct API names.
pub proof fn law_api_names_distinct(a: JournalTransactionType, b: JournalTransactionType)
    requires
        a.spec_as_api() == b.spec_as_api(),
    ensures
        a == b,
{
    reveal_strlit("INITIAL-PAYMENT");
    reveal_strlit("PAYMENT");
    reveal_strlit("EXPENSE");
    reveal_strlit("SALES");
    reveal_strlit("DISCOUNT");
    reveal_strlit("SURCHARGE");
    reveal_strlit("TRANSFER");
    assert("INITIAL-PAYMENT"@.len() == 15 && "INITIAL-PAYMENT"@[0] == 'I');
    assert("PAYMENT"@.len() == 7 && "PAYMENT"@[0] == 'P');
    assert("EXPENSE"@.len() == 7 && "EXPENSE"@[0] == 'E');
    assert("SALES"@.len() == 5 && "SALES"@[0] == 'S');
    assert("DISCOUNT"@.len() == 8 && "DISCOUNT"@[0] == 'D');
    assert("SURCHARGE"@.len() == 9 && "SURCHARGE"@[0] == 'S');
    assert("TRANSFER"@.len() == 8 && "TRANSFER"@[0] == 'T');
}

/// The request posted for an accepted transaction names its employee, the
/// accounts its kind calls for, and the payment method whenever it is paid.
pub proof fn law_posted_request_is_complete(
    req: PostJournalRequest,
    st: IncomeStatement,
    lk: TransactionLookups,
    v: JournalTransactionValues,
)
    requires
        validation_fault(st, lk, v) is None,
        is_post_request_for(req, st, lk, v),
    ensures
        req.employee is Some,
        v.transaction_type.spec_needs_account() ==> req.account is Some,
        v.transaction_type.spec_needs_source_account() ==> req.source_account is Some,
        spec_payment_required(v) ==> req.payment_method is Some,
        (req.invoice is Some) == (v.transaction_type is InitialPayment),
{
    law_accepted_transaction_meets_rules(st, lk, v);
}

/// A paid transaction that the rules accept, paid by deposit or Zelle, names
/// as its payment account an account of the lookups of type `BANK`; paid by
/// Zelle it has a transaction date and name, and paid by check a check number.
pub proof fn law_bank_payments_need_bank_account(
    st: IncomeStatement,
    lk: TransactionLookups,
    v: JournalTransactionValues,
)
    requires
        validation_fault(st, lk, v) is None,
        spec_payment_required(v),
    ensures
        find_method(lk, v.payment_method_id) matches Some(m) && {
            &&& (m.name@ == "DEPOSIT"@ || m.name@ == "ZELLE"@) ==> (find_account(
                lk,
                v.payment_account_id,
            ) matches Some(a) && a.account_type@ == "BANK"@)
            &&& m.name@ == "ZELLE"@ ==> !is_blank(v.zelle_transaction_date@) && !is_blank(
                v.zelle_transaction_name@,
            )
            &&& m.name@ == "CHECK"@ ==> !is_blank(v.check_number@)
        },
{
}

/// A transaction paid by deposit or Zelle whose payment account is not one of
/// the lookups is refused for want of a bank account, once every earlier rule
/// is met; with an account of another type than `BANK`, for want of a bank
/// account type.
pub proof fn law_bank_payment_refusals(
    st: IncomeStatement,
    lk: TransactionLookups,
    v: JournalTransactionValues,
)
    requires
        status_fault(st) is None,
        amount_fault(v) is None,
        employee_fault(lk, v) is None,
        invoice_fault(lk, v) is None,
        initial_payment_fault(v) is None,
        account_fault(lk, v) is None,
        source_fault(lk, v) is None,
        spec_payment_required(v),
        find_method(lk, v.payment_method_id) matches Some(m) && (m.name@ == "DEPOSIT"@ || m.name@
            == "ZELLE"@),
    ensures
        find_account(lk, v.payment_account_id) is None ==> validation_fault(st, lk, v) == Some(
            TransactionError::MissingBankAccount,
        ),
        find_account(lk, v.payment_account_id) matches Some(a) && a.account_type@ != "BANK"@
            ==> validation_fault(st, lk, v) == Some(TransactionError::PaymentAccountNotBank),
{
}

} // verus!
