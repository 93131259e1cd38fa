//! Journal entries of an income statement and the request that posts a new one.
use vstd::prelude::*;

use crate::infrastructure::income_statement::QueryRequest;
use crate::infrastructure::json::{F64Bits, JsonValue};

verus! {

/// The request that searches journal entries.
pub type JournalSearchRequest = QueryRequest;

/// A page of journal entries; a `null` list arrives as an empty one.
#[derive(Debug, PartialEq)]
pub struct JournalSearchResponse {
    pub success: bool,
    pub message: String,
    pub data: Vec<Journal>,
    pub error: String,
    pub duration: F64Bits,
    pub page: u64,
    pub results_per_page: u64,
    pub total: u64,
    pub subtotal: u64,
}

/// A journal entry. Amounts are in cents.
#[derive(Debug, PartialEq)]
pub struct Journal {
    pub id: JsonValue,
    pub description: String,
    pub date: Option<String>,
    pub ref_number: String,
    pub payment_method: Option<JsonValue>,
    pub currency: String,
    pub rate: F64Bits,
    pub transaction_type: String,
    pub invoice: Option<JsonValue>,
    pub income_statement: Option<JsonValue>,
    pub customer: Option<JsonValue>,
    pub employee: Option<JsonValue>,
    pub accounts: Vec<JournalAccount>,
    pub transaction_amount: i64,
    pub transaction_balance: i64,
}

/// A payment method a transaction can be paid with.
#[derive(Debug, PartialEq, Eq)]
pub struct PaymentMethod {
    pub id: u16,
    pub name: String,
}

/// One account line of a journal entry; debit and credit are in cents.
#[derive(Debug, PartialEq)]
pub struct JournalAccount {
    pub id: JsonValue,
    pub name: String,
    pub account_type: String,
    pub debit: i64,
    pub credit: i64,
}

#[derive(Debug, PartialEq, Eq)]
pub struct IncomeStatementReference {
    pub id: u32,
}

#[derive(Debug, PartialEq, Eq)]
pub struct NamedReference {
    pub id: JsonValue,
    pub name: String,
}

/// An invoice as a journal entry refers to it; amounts are in cents.
#[derive(Debug, PartialEq)]
pub struct InvoiceReference {
    pub id: String,
    pub number: String,
    pub cost: i64,
    pub payment: i64,
    pub balance: i64,
}

/// The body that posts a journal transaction. Amounts are in cents.
#[derive(Debug, PartialEq)]
pub struct PostJournalRequest {
    pub transaction_type: String,
    pub income_statement_id: u32,
    pub income_statement: IncomeStatementPostReference,
    pub date: String,
    pub amount: i64,
    pub ref_number: String,
    pub description: String,
    pub currency: String,
    pub rate: F64Bits,
    pub employee: Option<EmployeePostReference>,
    pub account: Option<AccountPostReference>,
    pub payment_account: Option<AccountPostReference>,
    pub source_account: Option<AccountPostReference>,
    pub invoice_id: Option<String>,
    pub invoice: Option<InvoicePostReference>,
    pub payment_method: Option<PaymentMethod>,
    pub zelle_transaction_date: Option<String>,
    pub zelle_transaction_name: Option<String>,
    pub check_number: Option<String>,
}

#[derive(Debug, PartialEq, Eq)]
pub struct IncomeStatementPostReference {
    pub id: u32,
}

#[derive(Debug, PartialEq, Eq)]
pub struct EmployeePostReference {
    pub id: u16,
    pub name: String,
}

#[derive(Debug, PartialEq, Eq)]
pub struct AccountPostReference {
    pub id: u32,
    pub name: String,
    pub account_type: String,
}

/// The invoice an initial payment opens; amounts are in cents.
#[derive(Debug, PartialEq)]
pub struct InvoicePostReference {
    pub number: String,
    pub cost: i64,
    pub discount: i64,
}

} // verus!
