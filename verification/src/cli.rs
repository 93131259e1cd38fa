//! The command line: what its arguments mean, and the text it prints.
//!
//! Parsing the process arguments, prompting and printing happen outside the
//! library; the arguments arrive here as plain values.
use vstd::prelude::*;

use crate::application::income_statement::{
    find_method, offers_standard_methods, JournalTransactionType, JournalTransactionValues,
    TransactionLookups,
};
use crate::infrastructure::income_statement::{
    FilterValue, IncomeStatement, IncomeStatementSearchRequest, Pagination, Sort,
    SummaryTotalLine,
};
use crate::tui::view::deeper;
use crate::text::{
    amount_text, ascii_lower_all, chars_of, decimal, find_char, first_index_of, is_blank,
    lemma_first_index_of, push_amount, push_decimal, string_of_range,
    to_ascii_lowercase, trim, trimmed,
};
use crate::lookup::lemma_first_where_at;

verus! {

/// Authentication commands.
#[derive(Debug, Clone, Copy, PartialEq, Eq, Structural)]
pub enum AuthCommand {
    /// Sign in with Firebase and save the session.
    Login,
    /// Verify the saved authentication session.
    Status,
    /// Remove the saved authentication session.
    Logout,
}

/// The arguments of `income search`.
#[derive(Debug)]
pub struct IncomeSearchArgs {
    /// Field to filter by, for example status, date, or branch.id.
    pub field: Option<String>,
    /// Filter operator such as eq, neq, gt, gte, lt, or lte.
    pub operator: String,
    /// Filter value; used only together with a field.
    pub value: Option<String>,
    /// 1-based result page.
    pub page: u64,
    /// Number of results to return.
    pub limit: u64,
    /// Sort expression in field:direction form, for example date:desc.
    pub sort: String,
}

/// The arguments of `income add-transaction`. Amounts are in cents.
#[derive(Debug)]
pub struct IncomeAddTransactionArgs {
    pub statement_id: u32,
    pub transaction_type: CliTransactionType,
    pub amount: i64,
    pub employee_id: u16,
    pub account_id: Option<u32>,
    pub source_account_id: Option<u32>,
    pub payment_account_id: Option<u32>,
    pub invoice_id: Option<String>,
    pub invoice_number: String,
    pub invoice_cost: i64,
    pub invoice_discount: i64,
    pub payment_method: Option<CliPaymentMethod>,
    pub zelle_transaction_date: String,
    pub zelle_transaction_name: String,
    pub check_number: String,
    pub ref_number: String,
    pub description: String,
}

/// Transaction kinds as the command line names them.
#[derive(Debug, Clone, Copy, PartialEq, Eq, Structural)]
pub enum CliTransactionType {
    InitialPayment,
    Payment,
    Expense,
    Sales,
    Discount,
    Surcharge,
    Transfer,
}

/// Payment methods as the command line names them.
#[derive(Debug, Clone, Copy, PartialEq, Eq, Structural)]
pub enum CliPaymentMethod {
    Cash,
    Deposit,
    Check,
    Zelle,
    CreditCard,
}

/// The transaction kind a command-line kind stands for.
pub open spec fn spec_transaction_type(value: CliTransactionType) -> JournalTransactionType {
    match value {
        CliTransactionType::InitialPayment => JournalTransactionType::InitialPayment,
        CliTransactionType::Payment => JournalTransactionType::Payment,
        CliTransactionType::Expense => JournalTransactionType::Expense,
        CliTransactionType::Sales => JournalTransactionType::Sales,
        CliTransactionType::Discount => JournalTransactionType::Discount,
        CliTransactionType::Surcharge => JournalTransactionType::Surcharge,
        CliTransactionType::Transfer => JournalTransactionType::Transfer,
    }
}

/// The id of the payment method a command-line method stands for.
pub open spec fn spec_payment_method_id(value: CliPaymentMethod) -> u16 {
    match value {
        CliPaymentMethod::Cash => 1,
        CliPaymentMethod::Deposit => 2,
        CliPaymentMethod::Check => 3,
        CliPaymentMethod::Zelle => 4,
        CliPaymentMethod::CreditCard => 5,
    }
}

/// The name, as the payment methods list has it, of a command-line method.
pub open spec fn spec_payment_method_name(value: CliPaymentMethod) -> Seq<char> {
    match value {
        CliPaymentMethod::Cash => "CASH"@,
        CliPaymentMethod::Deposit => "DEPOSIT"@,
        CliPaymentMethod::Check => "CHECK"@,
        CliPaymentMethod::Zelle => "ZELLE"@,
        CliPaymentMethod::CreditCard => "CREDIT-CARD"@,
    }
}

/// Every transaction kind can be asked for on the command line, and distinct
/// command-line kinds ask for distinct kinds.
pub proof fn law_cli_kinds_cover_all(t: JournalTransactionType, a: CliTransactionType, b: CliTransactionType)
    ensures
        exists|c: CliTransactionType| spec_transaction_type(c) == t,
        spec_transaction_type(a) == spec_transaction_type(b) ==> a == b,
{
    let c = match t {
        JournalTransactionType::InitialPayment => CliTransactionType::InitialPayment,
        JournalTransactionType::Payment => CliTransactionType::Payment,
        JournalTransactionType::Expense => CliTransactionType::Expense,
        JournalTransactionType::Sales => CliTransactionType::Sales,
        JournalTransactionType::Discount => CliTransactionType::Discount,
        JournalTransactionType::Surcharge => CliTransactionType::Surcharge,
        JournalTransactionType::Transfer => CliTransactionType::Transfer,
    };
    assert(spec_transaction_type(c) == t);
}

/// A payment method named on the command line finds, among the methods every
/// company offers, the method of the same name.
pub proof fn law_cli_method_is_offered(lookups: TransactionLookups, m: CliPaymentMethod)
    requires
        offers_standard_methods(lookups.payment_methods@),
    ensures
        find_method(lookups, Some(spec_payment_method_id(m))) matches Some(pm) && pm.name@
            == spec_payment_method_name(m),
{
    let s = lookups.payment_methods@;
    let id = spec_payment_method_id(m);
    let i: int = id - 1;
    assert(s[i].id == id);
    assert forall|j: int| 0 <= j < i implies !(#[trigger] crate::application::income_statement::method_with(Some(id))(s[j])) by {
        assert(s[j].id == j + 1);
    }
    lemma_first_where_at(s, crate::application::income_statement::method_with(Some(id)), i);
}

/// The transaction kind a command-line kind stands for.
pub fn transaction_type(value: CliTransactionType) -> (r: JournalTransactionType)
    ensures
        r == spec_transaction_type(value),
{
    match value {
        CliTransactionType::InitialPayment => JournalTransactionType::InitialPayment,
        CliTransactionType::Payment => JournalTransactionType::Payment,
        CliTransactionType::Expense => JournalTransactionType::Expense,
        CliTransactionType::Sales => JournalTransactionType::Sales,
        CliTransactionType::Discount => JournalTransactionType::Discount,
        CliTransactionType::Surcharge => JournalTransactionType::Surcharge,
        CliTransactionType::Transfer => JournalTransactionType::Transfer,
    }
}

/// The id of the payment method a command-line method stands for.
pub fn payment_method_id(value: CliPaymentMethod) -> (r: u16)
    ensures
        r == spec_payment_method_id(value),
{
    match value {
        CliPaymentMethod::Cash => 1,
        CliPaymentMethod::Deposit => 2,
        CliPaymentMethod::Check => 3,
        CliPaymentMethod::Zelle => 4,
        CliPaymentMethod::CreditCard => 5,
    }
}

/// The transaction that `income add-transaction` asks for.
pub fn transaction_values(args: IncomeAddTransactionArgs) -> (r: JournalTransactionValues)
    ensures
        r.transaction_type == spec_transaction_type(args.transaction_type),
        r.amount == args.amount,
        r.ref_number == args.ref_number,
        r.description == args.description,
        r.employee_id == Some(args.employee_id),
        r.account_id == args.account_id,
        r.payment_account_id == args.payment_account_id,
        r.source_account_id == args.source_account_id,
        r.invoice_id == args.invoice_id,
        r.invoice_number == args.invoice_number,
        r.invoice_cost == args.invoice_cost,
        r.invoice_discount == args.invoice_discount,
        r.payment_method_id == (match args.payment_method {
            Some(m) => Some(spec_payment_method_id(m)),
            None => None,
        }),
        r.zelle_transaction_date == args.zelle_transaction_date,
        r.zelle_transaction_name == args.zelle_transaction_name,
        r.check_number == args.check_number,
{
    JournalTransactionValues {
        transaction_type: transaction_type(args.transaction_type),
        amount: args.amount,
        ref_number: args.ref_number,
        description: args.description,
        employee_id: Some(args.employee_id),
        account_id: args.account_id,
        payment_account_id: args.payment_account_id,
        source_account_id: args.source_account_id,
        invoice_id: args.invoice_id,
        invoice_number: args.invoice_number,
        invoice_cost: args.invoice_cost,
        invoice_discount: args.invoice_discount,
        payment_method_id: match args.payment_method {
            Some(m) => Some(payment_method_id(m)),
            None => None,
        },
        zelle_transaction_date: args.zelle_transaction_date,
        zelle_transaction_name: args.zelle_transaction_name,
        check_number: args.check_number,
    }
}

/// Why a sort expression was refused.
#[derive(Debug, Clone, Copy, PartialEq, Eq, Structural)]
pub enum SortError {
    /// There is no `:` between field and direction.
    MissingSeparator,
    /// The field before the `:` is blank.
    EmptyField,
    /// The direction is neither `asc` nor `desc`.
    InvalidDirection,
}

impl SortError {
    pub open spec fn spec_message(self) -> Seq<char> {
        match self {
            SortError::MissingSeparator => "sort must use field:direction, for example date:desc"@,
            SortError::EmptyField => "sort field cannot be empty"@,
            SortError::InvalidDirection => "sort direction must be asc or desc"@,
        }
    }

    /// The message shown for the error.
    pub fn message(&self) -> (r: &'static str)
        ensures
            r@ == self.spec_message(),
    {
        match self {
            SortError::MissingSeparator => "sort must use field:direction, for example date:desc",
            SortError::EmptyField => "sort field cannot be empty",
            SortError::InvalidDirection => "sort direction must be asc or desc",
        }
    }
}

/// What a `field:direction` expression reads as: split at the first `:`, the
/// field trimmed and not blank, the direction trimmed and in lower case,
/// `asc` or `desc`.
pub open spec fn parsed_sort(value: Seq<char>) -> Result<(Seq<char>, Seq<char>), SortError> {
    let i = first_index_of(value, ':');
    if i < 0 {
        Err(SortError::MissingSeparator)
    } else if is_blank(value.take(i)) {
        Err(SortError::EmptyField)
    } else {
        let direction = ascii_lower_all(trimmed(value.skip(i + 1)));
        if direction != "asc"@ && direction != "desc"@ {
            Err(SortError::InvalidDirection)
        } else {
            Ok((trimmed(value.take(i)), direction))
        }
    }
}

/// A field (trimmed, not blank, without `:`) and a direction (`asc` or
/// `desc`) joined by `:` read back as that field and direction.
pub proof fn law_sort_round_trip(field: Seq<char>, direction: Seq<char>)
    requires
        !field.contains(':'),
        trimmed(field) == field,
        field.len() > 0,
        direction == "asc"@ || direction == "desc"@,
    ensures
        parsed_sort(field + ":"@ + direction) == Ok::<(Seq<char>, Seq<char>), SortError>(
            (field, direction),
        ),
{
    reveal_strlit(":");
    reveal_strlit("asc");
    reveal_strlit("desc");
    let n = field.len() as int;
    let s = field + ":"@ + direction;
    assert(s[n] == ':');
    assert forall|j: int| 0 <= j < n implies s[j] != ':' by {
        assert(s[j] == field[j]);
    }
    lemma_first_index_of(s, ':', n);
    assert(s.take(n) =~= field);
    assert(s.skip(n + 1) =~= direction);
    assert(!crate::text::is_space(direction[0]));
    assert(!crate::text::is_space(direction.last()));
    assert(crate::text::trim_start_of(direction) == direction);
    assert(crate::text::trim_end_of(direction) == direction);
    assert(ascii_lower_all(direction) =~= direction);
}

/// Reads a `field:direction` sort expression such as `date:desc`.
pub fn parse_sort(value: &str) -> (r: Result<Sort, SortError>)
    ensures
        match parsed_sort(value@) {
            Ok((field, direction)) => r matches Ok(s) && s.field@ == field && s.direction@
                == direction,
            Err(e) => r == Err::<Sort, SortError>(e),
        },
{
    let v = chars_of(value);
    let i = match find_char(&v, ':') {
        None => {
            return Err(SortError::MissingSeparator);
        },
        Some(i) => i,
    };
    let field = string_of_range(&v, 0, i);
    let rest = string_of_range(&v, i + 1, v.len());
    assert(field@ == value@.take(i as int));
    assert(rest@ == value@.skip(i + 1));
    if trim(field.as_str()).is_empty() {
        return Err(SortError::EmptyField);
    }
    let direction = to_ascii_lowercase(trim(rest.as_str()));
    let is_asc = crate::text::same_text(direction.as_str(), "asc");
    let is_desc = crate::text::same_text(direction.as_str(), "desc");
    if !is_asc && !is_desc {
        return Err(SortError::InvalidDirection);
    }
    Ok(Sort { field: String::from_str(trim(field.as_str())), direction })
}

/// The request `income search` sends: one condition when a value is given
/// (the operator goes with the value), the page asked for from offset 0, and
/// the sort expression.
pub fn search_request(args: IncomeSearchArgs) -> (r: Result<IncomeStatementSearchRequest, SortError>)
    ensures
        match parsed_sort(args.sort@) {
            Err(e) => r == Err::<IncomeStatementSearchRequest, SortError>(e),
            Ok((field, direction)) => r matches Ok(req) && {
                &&& req.field == args.field
                &&& req.operator == (if args.value is Some {
                    Some(args.operator)
                } else {
                    None
                })
                &&& req.value == (match args.value {
                    Some(v) => Some(FilterValue::Text(v)),
                    None => None,
                })
                &&& req.filters@.len() == 0
                &&& req.pagination == Some(
                    Pagination { page: Some(args.page), offset: Some(0), limit: Some(args.limit) },
                )
                &&& req.sort@.len() == 1
                &&& req.sort@[0].field@ == field
                &&& req.sort@[0].direction@ == direction
            },
        },
{
    let sort = match parse_sort(args.sort.as_str()) {
        Ok(s) => s,
        Err(e) => {
            return Err(e);
        },
    };
    let operator = match &args.value {
        Some(_) => Some(args.operator),
        None => None,
    };
    let value = match args.value {
        Some(v) => Some(FilterValue::Text(v)),
        None => None,
    };
    let mut sorts = Vec::new();
    sorts.push(sort);
    Ok(
        IncomeStatementSearchRequest {
            field: args.field,
            operator,
            value,
            filters: Vec::new(),
            pagination: Some(
                Pagination { page: Some(args.page), offset: Some(0), limit: Some(args.limit) },
            ),
            sort: sorts,
        },
    )
}

/// `-` for a blank value, the value itself otherwise.
pub fn empty_dash(value: &str) -> (r: &str)
    ensures
        r@ == (if is_blank(value@) {
            "-"@
        } else {
            value@
        }),
{
    if trim(value).is_empty() {
        "-"
    } else {
        value
    }
}

/// The line that reports the company of a session.
pub fn company_line(company_id: &Option<String>) -> (r: String)
    ensures
        r@ == (match company_id {
            Some(c) => "Company ID: "@ + c@,
            None => "Company ID: not available from Firebase profile"@,
        }),
{
    match company_id {
        Some(c) => {
            let mut r = String::from_str("Company ID: ");
            r.append(c.as_str());
            r
        },
        None => String::from_str("Company ID: not available from Firebase profile"),
    }
}

/// The line `income search` prints for a statement: id, date, status, branch
/// (`-` without one), currency and net income with two decimals.
pub open spec fn spec_statement_row(s: IncomeStatement) -> Seq<char> {
    "#"@ + decimal(s.id as nat) + " | "@ + s.date@ + " | "@ + s.status@ + " | "@ + (match s.branch {
        Some(b) => b.name@,
        None => "-"@,
    }) + " | "@ + s.currency@ + " | Net: "@ + amount_text(
        match s.summary_total {
            Some(t) => t.net_income as int,
            None => 0,
        },
    )
}

/// The line `income search` prints for a statement.
pub fn statement_row(s: &IncomeStatement) -> (r: String)
    ensures
        r@ == spec_statement_row(*s),
{
    let mut r = String::from_str("#");
    push_decimal(&mut r, s.id as u64);
    r.append(" | ");
    r.append(s.date.as_str());
    r.append(" | ");
    r.append(s.status.as_str());
    r.append(" | ");
    match &s.branch {
        Some(b) => r.append(b.name.as_str()),
        None => r.append("-"),
    }
    r.append(" | ");
    r.append(s.currency.as_str());
    r.append(" | Net: ");
    let net = match &s.summary_total {
        Some(t) => t.net_income,
        None => 0,
    };
    push_amount(&mut r, net);
    r
}

/// `n` levels of two-space indentation.
pub open spec fn indent(n: nat) -> Seq<char>
    decreases n,
{
    if n == 0 {
        Seq::<char>::empty()
    } else {
        indent((n - 1) as nat) + "  "@
    }
}

/// The lines printed for a summary total and, one level deeper each, the
/// lines it is made of: `header: value` with two decimals.
pub open spec fn summary_total_text(line: SummaryTotalLine, depth: int) -> Seq<Seq<char>>
    decreases line, 1int,
{
    seq![indent(depth as nat) + line.header@ + ": "@ + amount_text(line.value as int)]
        + summary_totals_text(line.details@, deeper(depth), line.details@.len() as int)
}

/// The lines of the first `n` summary totals of `lines`.
pub open spec fn summary_totals_text(lines: Seq<SummaryTotalLine>, depth: int, n: int) -> Seq<
    Seq<char>,
>
    decreases lines, 0int, n,
{
    if n <= 0 || n > lines.len() {
        Seq::empty()
    } else {
        summary_totals_text(lines, depth, n - 1) + summary_total_text(lines[n - 1], depth)
    }
}

/// The text views of a list of strings.
pub open spec fn views(v: Seq<String>) -> Seq<Seq<char>> {
    v.map_values(|s: String| s@)
}

/// Appends the lines printed for a summary total, indented `depth` levels,
/// and the lines it is made of, each one level deeper.
pub fn push_summary_total_lines(out: &mut Vec<String>, line: &SummaryTotalLine, depth: usize)
    ensures
        views(final(out)@) == views(old(out)@) + summary_total_text(*line, depth as int),
    decreases line,
{
    let ghost start = views(out@);
    let next = depth.saturating_add(1);
    assert(next == deeper(depth as int));
    let mut text = String::new();
    let mut level: usize = 0;
    while level < depth
        invariant
            level <= depth,
            text@ == indent(level as nat),
        decreases depth - level,
    {
        text.append("  ");
        level = level + 1;
    }
    text.append(line.header.as_str());
    text.append(": ");
    push_amount(&mut text, line.value);
    out.push(text);
    assert(views(out@) =~= start + seq![indent(depth as nat) + line.header@ + ": "@ + amount_text(
        line.value as int,
    )]);
    let mut i: usize = 0;
    while i < line.details.len()
        invariant
            i <= line.details@.len(),
            next == deeper(depth as int),
            views(out@) == start + seq![indent(depth as nat) + line.header@ + ": "@ + amount_text(
                line.value as int,
            )] + summary_totals_text(line.details@, next as int, i as int),
        decreases line.details@.len() - i,
    {
        push_summary_total_lines(out, &line.details[i], next);
        i = i + 1;
    }
}

/// How the command line spells a transaction kind.
pub open spec fn cli_value_name(value: CliTransactionType) -> Seq<char> {
    match value {
        CliTransactionType::InitialPayment => "initial-payment"@,
        CliTransactionType::Payment => "payment"@,
        CliTransactionType::Expense => "expense"@,
        CliTransactionType::Sales => "sales"@,
        CliTransactionType::Discount => "discount"@,
        CliTransactionType::Surcharge => "surcharge"@,
        CliTransactionType::Transfer => "transfer"@,
    }
}

/// A kind named on the command line is posted under the API name of the same
/// word: the API name, in lower case, is the command-line spelling.
pub proof fn law_cli_kind_keeps_its_name(c: CliTransactionType)
    ensures
        ascii_lower_all(spec_transaction_type(c).spec_as_api()) == cli_value_name(c),
{
    reveal_strlit("INITIAL-PAYMENT");
    reveal_strlit("PAYMENT");
    reveal_strlit("EXPENSE");
    reveal_strlit("SALES");
    reveal_strlit("DISCOUNT");
    reveal_strlit("SURCHARGE");
    reveal_strlit("TRANSFER");
    reveal_strlit("initial-payment");
    reveal_strlit("payment");
    reveal_strlit("expense");
    reveal_strlit("sales");
    reveal_strlit("discount");
    reveal_strlit("surcharge");
    reveal_strlit("transfer");
    assert(ascii_lower_all(spec_transaction_type(c).spec_as_api()) =~= cli_value_name(c));
}

} // verus!
