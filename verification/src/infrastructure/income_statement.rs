//! Income statements, their summary totals, and the search requests the EMSYS
//! API accepts.
use vstd::prelude::*;

use crate::infrastructure::json::F64Bits;

verus! {

/// The value a search filter compares against.
#[derive(Debug, PartialEq, Eq)]
pub enum FilterValue {
    Text(String),
    Bool(bool),
    Number(u64),
}

/// A search request of the EMSYS API: an optional single condition, a list of
/// filters, a page and a sort order. Fields that are absent are left out of the
/// JSON body.
#[derive(Debug, PartialEq)]
pub struct IncomeStatementSearchRequest {
    pub field: Option<String>,
    pub operator: Option<String>,
    pub value: Option<FilterValue>,
    pub filters: Vec<QueryFilter>,
    pub pagination: Option<Pagination>,
    pub sort: Vec<Sort>,
}

/// The search request shape shared by every search endpoint.
pub type QueryRequest = IncomeStatementSearchRequest;

impl Default for IncomeStatementSearchRequest {
    fn default() -> (r: Self)
        ensures
            r.field is None,
            r.operator is None,
            r.value is None,
            r.filters@.len() == 0,
            r.pagination is None,
            r.sort@.len() == 0,
    {
        IncomeStatementSearchRequest {
            field: None,
            operator: None,
            value: None,
            filters: Vec::new(),
            pagination: None,
            sort: Vec::new(),
        }
    }
}

/// One filter condition; nested `filters` combine further conditions.
#[derive(Debug, PartialEq)]
pub struct QueryFilter {
    pub field: Option<String>,
    pub operator: String,
    pub value: Option<FilterValue>,
    pub filters: Vec<QueryFilter>,
}

/// Which page of results to return.
#[derive(Debug, Clone, Copy, PartialEq, Eq)]
pub struct Pagination {
    pub page: Option<u64>,
    pub offset: Option<u64>,
    pub limit: Option<u64>,
}

impl Default for Pagination {
    fn default() -> (r: Self)
        ensures
            r.page is None,
            r.offset is None,
            r.limit is None,
    {
        Pagination { page: None, offset: None, limit: None }
    }
}

/// One sort key: a field and a direction (`asc` or `desc`).
#[derive(Debug, PartialEq, Eq)]
pub struct Sort {
    pub field: String,
    pub direction: String,
}

/// A page of income statements.
#[derive(Debug, PartialEq)]
pub struct IncomeStatementSearchResponse {
    pub success: bool,
    pub message: String,
    pub data: Vec<IncomeStatement>,
    pub error: String,
    pub duration: F64Bits,
    pub page: u64,
    pub results_per_page: u64,
    pub total: u64,
    pub subtotal: u64,
}

/// One income statement.
#[derive(Debug, PartialEq)]
pub struct IncomeStatementResponse {
    pub success: bool,
    pub message: String,
    pub data: IncomeStatement,
    pub error: String,
}

/// The summary totals of one income statement.
#[derive(Debug, PartialEq)]
pub struct IncomeStatementSummaryResponse {
    pub success: bool,
    pub message: String,
    pub data: IncomeStatementSummary,
    pub error: String,
}

/// Summary totals of an income statement, in the statement's currency.
#[derive(Debug, PartialEq)]
pub struct IncomeStatementSummary {
    pub currency: String,
    pub rate: F64Bits,
    pub totals: Vec<SummaryTotalLine>,
}

/// One line of the summary totals, with its value in cents and the lines that
/// make it up.
#[derive(Debug, PartialEq)]
pub struct SummaryTotalLine {
    pub header: String,
    pub value: i64,
    pub order: i64,
    pub details: Vec<SummaryTotalLine>,
}

/// A daily income statement of one branch.
#[derive(Debug, PartialEq)]
pub struct IncomeStatement {
    pub id: u32,
    pub date: String,
    pub branch: Option<Branch>,
    pub container: Option<Container>,
    pub delivery: Option<Delivery>,
    pub rate: F64Bits,
    pub currency: String,
    /// `open` while journal transactions may be added.
    pub status: String,
    pub summary_total: Option<IncomeStatementTotal>,
    pub created_at: Option<String>,
    pub updated_at: Option<String>,
}

#[derive(Debug, PartialEq, Eq)]
pub struct Branch {
    pub id: u16,
    pub name: String,
    pub code: String,
}

#[derive(Debug, PartialEq, Eq)]
pub struct Container {
    pub id: u32,
    pub name: String,
    pub container_number: String,
}

#[derive(Debug, PartialEq, Eq)]
pub struct Delivery {
    pub id: u32,
    pub name: String,
}

/// The totals stored with an income statement, in cents.
#[derive(Debug, PartialEq, Default)]
pub struct IncomeStatementTotal {
    pub invoices: i64,
    pub receipts: i64,
    pub invoice_payments: i64,
    pub receipt_payments: i64,
    pub other_incomes: i64,
    pub cash: i64,
    pub deposits: i64,
    pub check: i64,
    pub zelle: i64,
    pub credit_cards: i64,
    pub expenses: i64,
    pub account_receivables: i64,
    pub discounts: i64,
    pub accounts_transfer: i64,
    pub loans: i64,
    pub total_income: i64,
    pub total_general: i64,
    pub total_cash: i64,
    pub net_income: i64,
}

} // verus!
