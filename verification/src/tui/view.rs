//! The text each part of the terminal screen shows.
//!
//! Lines are made of spans, each with a style; drawing them is left to the
//! terminal layer.
use vstd::prelude::*;
use vstd::utf8::encode_utf8;

use crate::application::income_statement::IncomeStatementScreen;
use crate::infrastructure::income_statement::{IncomeStatementSummary, SummaryTotalLine};
use crate::infrastructure::journal::{Journal, JournalAccount};
use crate::text::{
    chars_of, contains, decimal, find_char, first_index_of, format_money, has_substring,
    money_text, push_decimal, string_of_range,
};
use crate::tui::app::{
    spec_statement_position, statement_position, statement_position_fits,
    visible_count, ScreenState, ViewMode,
};

verus! {

/// How a span of text is drawn.
#[derive(Debug, Clone, Copy, PartialEq, Eq, Structural)]
pub enum SpanStyle {
    Plain,
    Bold,
    /// Gray, for the names of fields.
    Label,
    /// Red and bold, for failures.
    Alert,
}

/// A run of text drawn in one style.
#[derive(Debug, PartialEq, Eq)]
pub struct TextSpan {
    pub text: String,
    pub style: SpanStyle,
}

/// One line of the screen.
#[derive(Debug, PartialEq, Eq)]
pub struct TextLine {
    pub spans: Vec<TextSpan>,
}

/// The text and style of each span of a line.
pub open spec fn spans_of(line: TextLine) -> Seq<(Seq<char>, SpanStyle)> {
    line.spans@.map_values(|s: TextSpan| (s.text@, s.style))
}

/// The spans of each line.
pub open spec fn lines_of(lines: Seq<TextLine>) -> Seq<Seq<(Seq<char>, SpanStyle)>> {
    lines.map_values(|l: TextLine| spans_of(l))
}

/// The number of bytes of the UTF-8 encoding of `s`, as `str::len` gives it.
pub open spec fn byte_len(s: Seq<char>) -> usize {
    encode_utf8(s).len() as usize
}

/// A span of the given text and style.
pub fn span(text: String, style: SpanStyle) -> (r: TextSpan)
    ensures
        r.text@ == text@,
        r.style == style,
{
    TextSpan { text, style }
}

/// A span of plain text.
pub fn raw(text: &str) -> (r: TextSpan)
    ensures
        r.text@ == text@,
        r.style == SpanStyle::Plain,
{
    TextSpan { text: String::from_str(text), style: SpanStyle::Plain }
}

/// A line of one plain span.
pub fn plain_line(text: &str) -> (r: TextLine)
    ensures
        spans_of(r) == seq![(text@, SpanStyle::Plain)],
{
    let mut spans = Vec::new();
    spans.push(raw(text));
    let r = TextLine { spans };
    assert(spans_of(r) =~= seq![(text@, SpanStyle::Plain)]);
    r
}

/// `n` spaces.
pub open spec fn spaces(n: nat) -> Seq<char> {
    Seq::new(n, |i: int| ' ')
}

/// A string of `n` spaces.
pub fn space_string(n: usize) -> (r: String)
    ensures
        r@ == spaces(n as nat),
{
    let mut r = String::new();
    let mut i: usize = 0;
    while i < n
        invariant
            i <= n,
            r@ == spaces(i as nat),
        decreases n - i,
    {
        crate::text::push_char(&mut r, ' ');
        assert(spaces((i + 1) as nat) =~= spaces(i as nat).push(' '));
        i = i + 1;
    }
    r
}

/// `a - b`, or 0 when `b` is larger.
pub open spec fn sat_sub(a: int, b: int) -> int {
    if a > b {
        a - b
    } else {
        0
    }
}

/// `a + b`, or `usize::MAX` when that does not fit.
pub open spec fn sat_add(a: int, b: int) -> int {
    if a + b <= usize::MAX {
        a + b
    } else {
        usize::MAX as int
    }
}

/// The larger of `a` and `b`.
pub open spec fn max_of(a: int, b: int) -> int {
    if a < b {
        b
    } else {
        a
    }
}

/// The first `n` characters of `s`, or all of them when it is shorter.
pub open spec fn first_chars(s: Seq<char>, n: int) -> Seq<char> {
    if n < s.len() {
        s.take(n)
    } else {
        s
    }
}

/// `value` cut to fit `max_width` bytes: kept whole when it fits; otherwise
/// its first `max_width - 1` characters and `~`, or just its first
/// `max_width` characters when the width is 0 or 1.
pub open spec fn spec_truncate(value: Seq<char>, max_width: int) -> Seq<char> {
    if byte_len(value) <= max_width {
        value
    } else if max_width <= 1 {
        first_chars(value, max_width)
    } else {
        first_chars(value, max_width - 1).push('~')
    }
}

/// `value` cut to fit `max_width` bytes.
pub fn truncate(value: &str, max_width: usize) -> (r: String)
    ensures
        r@ == spec_truncate(value@, max_width as int),
{
    if value.len() <= max_width {
        return String::from_str(value);
    }
    let v = chars_of(value);
    if max_width <= 1 {
        let n = if max_width < v.len() {
            max_width
        } else {
            v.len()
        };
        return string_of_range(&v, 0, n);
    }
    let n = if max_width - 1 < v.len() {
        max_width - 1
    } else {
        v.len()
    };
    let mut r = string_of_range(&v, 0, n);
    assert(v@.subrange(0, n as int) == first_chars(value@, max_width - 1));
    crate::text::push_char(&mut r, '~');
    r
}

/// The date part of a timestamp: what comes before the first `T`.
pub open spec fn spec_short_date(value: Seq<char>) -> Seq<char> {
    if first_index_of(value, 'T') >= 0 {
        value.take(first_index_of(value, 'T'))
    } else {
        value
    }
}

/// The date part of a timestamp.
pub fn short_date(value: &str) -> (r: String)
    ensures
        r@ == spec_short_date(value@),
{
    let v = chars_of(value);
    match find_char(&v, 'T') {
        Some(i) => string_of_range(&v, 0, i),
        None => String::from_str(value),
    }
}

/// `Local` for an API on this machine, `Configured API` otherwise.
pub open spec fn spec_environment_label(api_url: Seq<char>) -> Seq<char> {
    if has_substring(api_url, "localhost"@) || has_substring(api_url, "127.0.0.1"@) {
        "Local"@
    } else {
        "Configured API"@
    }
}

/// Names the environment the API address points to.
pub fn environment_label(api_url: &str) -> (r: String)
    ensures
        r@ == spec_environment_label(api_url@),
{
    if contains(api_url, "localhost") || contains(api_url, "127.0.0.1") {
        String::from_str("Local")
    } else {
        String::from_str("Configured API")
    }
}

/// What `char::to_uppercase` maps a character to: one or more characters,
/// per the Unicode case tables.
pub uninterp spec fn upper_case_of(c: char) -> Seq<char>;

/// Calls `char::to_uppercase`. An ASCII character maps to its ASCII upper
/// case; for other characters the contract only names the mapping.
#[verifier::external_body]
fn to_uppercase(c: char) -> (r: String)
    ensures
        r@ == upper_case_of(c),
        (c as u32) < 128 ==> r@ == seq![
            if 97 <= (c as u32) <= 122 {
                ((c as u32) - 32) as char
            } else {
                c
            },
        ],
{
    c.to_uppercase().collect()
}

/// A status with its first character in upper case, or `-` when it is empty.
pub open spec fn spec_status_label(status: Seq<char>) -> Seq<char> {
    if status.len() == 0 {
        "-"@
    } else {
        upper_case_of(status[0]) + status.drop_first()
    }
}

/// A status as the screen shows it.
pub fn status_label(status: &str) -> (r: String)
    ensures
        r@ == spec_status_label(status@),
{
    let v = chars_of(status);
    if v.len() == 0 {
        return String::from_str("-");
    }
    let mut r = to_uppercase(v[0]);
    let rest = string_of_range(&v, 1, v.len());
    assert(rest@ == status@.drop_first());
    r.append(rest.as_str());
    r
}

fn sat_sub_usize(a: usize, b: usize) -> (r: usize)
    ensures
        r == sat_sub(a as int, b as int),
{
    if a > b {
        a - b
    } else {
        0
    }
}

fn sat_add_usize(a: usize, b: usize) -> (r: usize)
    ensures
        r == sat_add(a as int, b as int),
{
    a.saturating_add(b)
}

fn max_usize(a: usize, b: usize) -> (r: usize)
    ensures
        r == max_of(a as int, b as int),
{
    if a < b {
        b
    } else {
        a
    }
}

/// The indentation of a summary line `depth` levels down: two spaces a level.
pub open spec fn indent_width(depth: int) -> int {
    if 2 * depth <= usize::MAX {
        2 * depth
    } else {
        usize::MAX as int
    }
}

/// A summary line: the label indented, cut to leave room for the amount, and
/// the amount pushed to the right edge of `width`.
pub open spec fn spec_summary_line(
    label: Seq<char>,
    value: i64,
    depth: int,
    width: int,
    style: SpanStyle,
) -> Seq<(Seq<char>, SpanStyle)> {
    let money = money_text(value as int);
    let iw = indent_width(depth);
    let label_width = max_of(sat_sub(width, sat_add(sat_add(iw, byte_len(money) as int), 2)), 12);
    let shown = spec_truncate(label, label_width);
    let gap = sat_sub(width, sat_add(sat_add(iw, byte_len(shown) as int), byte_len(money) as int));
    seq![(spaces(iw as nat), SpanStyle::Plain), (shown, style), (spaces(gap as nat), SpanStyle::Plain), (money, style)]
}

/// Every character of `s` is ASCII.
pub open spec fn is_ascii_text(s: Seq<char>) -> bool {
    forall|i: int| 0 <= i < s.len() ==> (#[trigger] s[i] as u32) < 128
}

/// ASCII text takes one byte a character.
pub proof fn lemma_ascii_byte_len(s: Seq<char>)
    requires
        is_ascii_text(s),
    ensures
        encode_utf8(s).len() == s.len(),
    decreases s.len(),
{
    if s.len() > 0 {
        assert(is_ascii_text(s.drop_first())) by {
            assert forall|i: int| 0 <= i < s.drop_first().len() implies (
            #[trigger] s.drop_first()[i] as u32) < 128 by {
                assert(s.drop_first()[i] == s[i + 1]);
            }
        }
        lemma_ascii_byte_len(s.drop_first());
        assert((s[0] as u32) < 128);
    }
}

/// ASCII text cut to a width of at least 2 bytes stays ASCII and within that
/// width.
pub proof fn lemma_truncate_ascii(t: Seq<char>, w: int)
    requires
        is_ascii_text(t),
        t.len() <= usize::MAX,
        2 <= w <= usize::MAX,
    ensures
        is_ascii_text(spec_truncate(t, w)),
        byte_len(spec_truncate(t, w)) <= w,
        byte_len(spec_truncate(t, w)) == spec_truncate(t, w).len(),
{
    let shown = spec_truncate(t, w);
    lemma_ascii_byte_len(t);
    if byte_len(t) > w {
        assert(shown == t.take(w - 1).push('~'));
        assert forall|i: int| 0 <= i < shown.len() implies (#[trigger] shown[i] as u32) < 128 by {
            if i < w - 1 {
                assert(shown[i] == t[i]);
            }
        }
    }
    lemma_ascii_byte_len(shown);
}

/// A summary line with an ASCII label, in a width that leaves the label at
/// least 12 bytes beside the indentation and the amount, fills the width
/// exactly and ends with the amount.
pub proof fn law_summary_line_fills_width(
    label: Seq<char>,
    value: i64,
    depth: int,
    width: int,
    style: SpanStyle,
)
    requires
        is_ascii_text(label),
        label.len() <= usize::MAX,
        0 <= depth,
        width <= usize::MAX,
        2 * depth + byte_len(money_text(value as int)) + 14 <= width,
    ensures
        ({
            let spans = spec_summary_line(label, value, depth, width, style);
            &&& spans.len() == 4
            &&& spans[3].0 == money_text(value as int)
            &&& byte_len(spans[0].0) + byte_len(spans[1].0) + byte_len(spans[2].0) + byte_len(
                spans[3].0,
            ) == width
        }),
{
    let money = money_text(value as int);
    let iw = indent_width(depth);
    assert(iw == 2 * depth);
    let label_width = max_of(sat_sub(width, sat_add(sat_add(iw, byte_len(money) as int), 2)), 12);
    assert(label_width == width - iw - byte_len(money) - 2);
    let shown = spec_truncate(label, label_width);
    lemma_truncate_ascii(label, label_width);
    let gap = sat_sub(width, sat_add(sat_add(iw, byte_len(shown) as int), byte_len(money) as int));
    assert(gap == width - iw - byte_len(shown) - byte_len(money));
    assert(is_ascii_text(spaces(iw as nat)));
    assert(is_ascii_text(spaces(gap as nat)));
    lemma_ascii_byte_len(spaces(iw as nat));
    lemma_ascii_byte_len(spaces(gap as nat));
}

/// The first line of a journal entry whose text is ASCII, in a width that
/// leaves its label at least 12 bytes beside the amount, fills the width
/// exactly and ends with the amount.
pub proof fn law_entry_line_fills_width(j: Journal, width: int)
    requires
        is_ascii_text(spec_entry_label(j, width)),
        spec_entry_label(j, width).len() <= usize::MAX,
        width <= usize::MAX,
        byte_len(money_text(j.transaction_amount as int)) + 14 <= width,
    ensures
        ({
            let spans = spec_entry_line(j, width);
            &&& spans.len() == 3
            &&& spans[2].0 == money_text(j.transaction_amount as int)
            &&& byte_len(spans[0].0) + byte_len(spans[1].0) + byte_len(spans[2].0) == width
        }),
{
    let amount = money_text(j.transaction_amount as int);
    let lw = max_of(sat_sub(width, sat_add(byte_len(amount) as int, 2)), 12);
    assert(lw == width - byte_len(amount) - 2);
    let label = spec_truncate(spec_entry_label(j, width), lw);
    lemma_truncate_ascii(spec_entry_label(j, width), lw);
    let gap = sat_sub(width, sat_add(byte_len(label) as int, byte_len(amount) as int));
    assert(gap == width - byte_len(label) - byte_len(amount));
    assert(is_ascii_text(spaces(gap as nat)));
    lemma_ascii_byte_len(spaces(gap as nat));
}

/// A summary line with its amount at the right edge.
pub fn summary_line(label: &str, value: i64, depth: usize, width: usize, style: SpanStyle) -> (r:
    TextLine)
    ensures
        spans_of(r) == spec_summary_line(label@, value, depth as int, width as int, style),
{
    let money = format_money(value);
    let iw: usize = if depth <= usize::MAX / 2 {
        depth * 2
    } else {
        usize::MAX
    };
    assert(iw == indent_width(depth as int));
    let label_width = max_usize(
        sat_sub_usize(width, sat_add_usize(sat_add_usize(iw, money.as_str().len()), 2)),
        12,
    );
    let shown = truncate(label, label_width);
    let gap = sat_sub_usize(
        width,
        sat_add_usize(sat_add_usize(iw, shown.as_str().len()), money.as_str().len()),
    );
    let mut spans = Vec::new();
    spans.push(span(space_string(iw), SpanStyle::Plain));
    spans.push(span(shown, style));
    spans.push(span(space_string(gap), SpanStyle::Plain));
    spans.push(span(money, style));
    let r = TextLine { spans };
    assert(spans_of(r) =~= spec_summary_line(label@, value, depth as int, width as int, style));
    r
}

/// `depth + 1`, or `depth` when that does not fit.
pub open spec fn deeper(depth: int) -> int {
    if depth < usize::MAX {
        depth + 1
    } else {
        depth
    }
}

/// The lines of a summary total (bold at the top level) and, one level deeper
/// each, of the totals it is made of.
pub open spec fn summary_line_spans(line: SummaryTotalLine, depth: int, width: int) -> Seq<
    Seq<(Seq<char>, SpanStyle)>,
>
    decreases line, 1int,
{
    seq![
        spec_summary_line(
            line.header@,
            line.value,
            depth,
            width,
            if depth == 0 {
                SpanStyle::Bold
            } else {
                SpanStyle::Plain
            },
        ),
    ] + summary_lines_spans(line.details@, deeper(depth), width, line.details@.len() as int)
}

/// The lines of the first `n` summary totals of `lines`.
pub open spec fn summary_lines_spans(
    lines: Seq<SummaryTotalLine>,
    depth: int,
    width: int,
    n: int,
) -> Seq<Seq<(Seq<char>, SpanStyle)>>
    decreases lines, 0int, n,
{
    if n <= 0 || n > lines.len() {
        Seq::empty()
    } else {
        summary_lines_spans(lines, depth, width, n - 1) + summary_line_spans(lines[n - 1], depth, width)
    }
}

/// Appends the lines of a summary total and of the totals it is made of.
pub fn push_summary_line(lines: &mut Vec<TextLine>, line: &SummaryTotalLine, depth: usize, width: usize)
    ensures
        lines_of(final(lines)@) == lines_of(old(lines)@) + summary_line_spans(
            *line,
            depth as int,
            width as int,
        ),
    decreases line,
{
    let ghost start = lines_of(lines@);
    let style = if depth == 0 {
        SpanStyle::Bold
    } else {
        SpanStyle::Plain
    };
    lines.push(summary_line(line.header.as_str(), line.value, depth, width, style));
    let ghost first = seq![spec_summary_line(line.header@, line.value, depth as int, width as int, style)];
    assert(lines_of(lines@) =~= start + first);
    let next = depth.saturating_add(1);
    assert(next == deeper(depth as int));
    let mut i: usize = 0;
    while i < line.details.len()
        invariant
            i <= line.details@.len(),
            next == deeper(depth as int),
            lines_of(lines@) == start + first + summary_lines_spans(
                line.details@,
                next as int,
                width as int,
                i as int,
            ),
        decreases line.details@.len() - i,
    {
        push_summary_line(lines, &line.details[i], next, width);
        i = i + 1;
    }
}

/// The lines of the totals view.
pub open spec fn spec_summary_lines(summary: IncomeStatementSummary, width: int) -> Seq<
    Seq<(Seq<char>, SpanStyle)>,
> {
    if summary.totals@.len() == 0 {
        seq![seq![("No summary totals returned by the API."@, SpanStyle::Plain)]]
    } else {
        summary_lines_spans(summary.totals@, 0, width, summary.totals@.len() as int)
    }
}

/// The lines of the totals view: each total and what it is made of, or a
/// note that there are none.
pub fn summary_lines(summary: &IncomeStatementSummary, width: usize) -> (r: Vec<TextLine>)
    ensures
        lines_of(r@) == spec_summary_lines(*summary, width as int),
{
    let mut lines: Vec<TextLine> = Vec::new();
    if summary.totals.len() == 0 {
        lines.push(plain_line("No summary totals returned by the API."));
        assert(lines_of(lines@) =~= spec_summary_lines(*summary, width as int));
        return lines;
    }
    assert(lines_of(lines@) =~= Seq::empty());
    let mut i: usize = 0;
    while i < summary.totals.len()
        invariant
            i <= summary.totals@.len(),
            lines_of(lines@) == summary_lines_spans(summary.totals@, 0, width as int, i as int),
        decreases summary.totals@.len() - i,
    {
        push_summary_line(&mut lines, &summary.totals[i], 0, width);
        i = i + 1;
    }
    lines
}

/// `-` for an empty text, the text itself otherwise.
pub open spec fn dash_if_empty(s: Seq<char>) -> Seq<char> {
    if s.len() == 0 {
        "-"@
    } else {
        s
    }
}

/// The text of a journal entry's first line before its amount: date,
/// reference, kind and description (cut to the width), two spaces apart.
pub open spec fn spec_entry_label(j: Journal, width: int) -> Seq<char> {
    let date = match j.date {
        Some(d) => spec_short_date(d@),
        None => "-"@,
    };
    date + "  "@ + dash_if_empty(j.ref_number@) + "  "@ + dash_if_empty(j.transaction_type@) + "  "@
        + spec_truncate(j.description@, max_of(sat_sub(width, 30), 12))
}

/// The first line of a journal entry: its label, cut to leave room for the
/// amount, and the amount at the right edge, both bold.
pub open spec fn spec_entry_line(j: Journal, width: int) -> Seq<(Seq<char>, SpanStyle)> {
    let amount = money_text(j.transaction_amount as int);
    let label = spec_truncate(
        spec_entry_label(j, width),
        max_of(sat_sub(width, sat_add(byte_len(amount) as int, 2)), 12),
    );
    let gap = sat_sub(width, sat_add(byte_len(label) as int, byte_len(amount) as int));
    seq![(label, SpanStyle::Bold), (spaces(gap as nat), SpanStyle::Plain), (amount, SpanStyle::Bold)]
}

/// Money for a non-zero amount, `-` for zero.
pub open spec fn money_or_dash(cents: i64) -> Seq<char> {
    if cents != 0 {
        money_text(cents as int)
    } else {
        "-"@
    }
}

/// The line of one account of a journal entry: its name (or `Account #` and
/// its id), then its debit and credit.
pub open spec fn spec_account_line(a: JournalAccount, width: int) -> Seq<(Seq<char>, SpanStyle)> {
    let name = if a.name@.len() == 0 {
        "Account #"@ + a.id.json_text()
    } else {
        a.name@
    };
    let debit = money_or_dash(a.debit);
    let credit = money_or_dash(a.credit);
    let prefix = "  "@ + spec_truncate(name, max_of(sat_sub(width, 24), 12));
    let spacer = sat_sub(
        width,
        sat_add(
            sat_add(sat_add(byte_len(prefix) as int, byte_len(debit) as int), byte_len(credit) as int),
            8,
        ),
    );
    seq![
        (prefix, SpanStyle::Plain),
        (spaces(spacer as nat), SpanStyle::Plain),
        ("Dr "@, SpanStyle::Label),
        (debit, SpanStyle::Plain),
        ("  "@, SpanStyle::Plain),
        ("Cr "@, SpanStyle::Label),
        (credit, SpanStyle::Plain),
    ]
}

/// The lines of a journal entry: its first line, then one per account.
pub open spec fn spec_entry_lines(j: Journal, width: int) -> Seq<Seq<(Seq<char>, SpanStyle)>> {
    seq![spec_entry_line(j, width)] + j.accounts@.map_values(
        |a: JournalAccount| spec_account_line(a, width),
    )
}

fn money_or_dash_text(cents: i64) -> (r: String)
    ensures
        r@ == money_or_dash(cents),
{
    if cents != 0 {
        format_money(cents)
    } else {
        String::from_str("-")
    }
}

fn entry_line(journal: &Journal, width: usize) -> (r: TextLine)
    ensures
        spans_of(r) == spec_entry_line(*journal, width as int),
{
    let mut label = match &journal.date {
        Some(d) => short_date(d.as_str()),
        None => String::from_str("-"),
    };
    label.append("  ");
    if journal.ref_number.as_str().is_empty() {
        label.append("-");
    } else {
        label.append(journal.ref_number.as_str());
    }
    label.append("  ");
    if journal.transaction_type.as_str().is_empty() {
        label.append("-");
    } else {
        label.append(journal.transaction_type.as_str());
    }
    label.append("  ");
    let description = truncate(journal.description.as_str(), max_usize(sat_sub_usize(width, 30), 12));
    label.append(description.as_str());
    assert(label@ =~= spec_entry_label(*journal, width as int));
    let amount = format_money(journal.transaction_amount);
    let shown = truncate(
        label.as_str(),
        max_usize(sat_sub_usize(width, sat_add_usize(amount.as_str().len(), 2)), 12),
    );
    let gap = sat_sub_usize(width, sat_add_usize(shown.as_str().len(), amount.as_str().len()));
    let mut spans = Vec::new();
    spans.push(span(shown, SpanStyle::Bold));
    spans.push(span(space_string(gap), SpanStyle::Plain));
    spans.push(span(amount, SpanStyle::Bold));
    let r = TextLine { spans };
    assert(spans_of(r) =~= spec_entry_line(*journal, width as int));
    r
}

fn account_line(account: &JournalAccount, width: usize) -> (r: TextLine)
    ensures
        spans_of(r) == spec_account_line(*account, width as int),
{
    let name = if account.name.as_str().is_empty() {
        let mut n = String::from_str("Account #");
        let id = account.id.display_text();
        n.append(id.as_str());
        n
    } else {
        account.name.clone()
    };
    let debit = money_or_dash_text(account.debit);
    let credit = money_or_dash_text(account.credit);
    let mut prefix = String::from_str("  ");
    let shown = truncate(name.as_str(), max_usize(sat_sub_usize(width, 24), 12));
    prefix.append(shown.as_str());
    let spacer = sat_sub_usize(
        width,
        sat_add_usize(
            sat_add_usize(
                sat_add_usize(prefix.as_str().len(), debit.as_str().len()),
                credit.as_str().len(),
            ),
            8,
        ),
    );
    let mut spans = Vec::new();
    spans.push(span(prefix, SpanStyle::Plain));
    spans.push(span(space_string(spacer), SpanStyle::Plain));
    spans.push(raw_styled("Dr ", SpanStyle::Label));
    spans.push(span(debit, SpanStyle::Plain));
    spans.push(raw("  "));
    spans.push(raw_styled("Cr ", SpanStyle::Label));
    spans.push(span(credit, SpanStyle::Plain));
    let r = TextLine { spans };
    assert(spans_of(r) =~= spec_account_line(*account, width as int));
    r
}

/// A span of the given text and style.
pub fn raw_styled(text: &str, style: SpanStyle) -> (r: TextSpan)
    ensures
        r.text@ == text@,
        r.style == style,
{
    TextSpan { text: String::from_str(text), style }
}

/// Appends the lines of a journal entry: its first line with the amount at
/// the right edge, then a line per account with its debit and credit.
pub fn push_journal_lines(lines: &mut Vec<TextLine>, journal: &Journal, width: usize)
    ensures
        lines_of(final(lines)@) == lines_of(old(lines)@) + spec_entry_lines(*journal, width as int),
{
    let ghost start = lines_of(lines@);
    lines.push(entry_line(journal, width));
    let mut i: usize = 0;
    while i < journal.accounts.len()
        invariant
            i <= journal.accounts@.len(),
            lines_of(lines@) == start + spec_entry_lines(*journal, width as int).take(i + 1),
        decreases journal.accounts@.len() - i,
    {
        let ghost before = lines@;
        let line = account_line(&journal.accounts[i], width);
        let ghost added = spans_of(line);
        lines.push(line);
        assert(lines_of(lines@) =~= lines_of(before).push(added));
        assert(spec_entry_lines(*journal, width as int)[i + 1] == spec_account_line(
            journal.accounts@[i as int],
            width as int,
        ));
        assert(spec_entry_lines(*journal, width as int).take(i + 2) =~= spec_entry_lines(
            *journal,
            width as int,
        ).take(i + 1).push(spec_account_line(journal.accounts@[i as int], width as int)));
        i = i + 1;
    }
    assert(spec_entry_lines(*journal, width as int).take(i + 1) =~= spec_entry_lines(
        *journal,
        width as int,
    ));
}

/// The lines of the first `n` journal entries, a blank line between entries.
pub open spec fn entries_spans(entries: Seq<Journal>, width: int, n: int) -> Seq<
    Seq<(Seq<char>, SpanStyle)>,
>
    decreases n,
{
    if n <= 0 || n > entries.len() {
        Seq::empty()
    } else {
        entries_spans(entries, width, n - 1) + (if n > 1 {
            seq![seq![(""@, SpanStyle::Plain)]]
        } else {
            Seq::empty()
        }) + spec_entry_lines(entries[n - 1], width)
    }
}

/// The lines of the entries view.
pub open spec fn spec_journal_lines(screen: IncomeStatementScreen, width: int) -> Seq<
    Seq<(Seq<char>, SpanStyle)>,
> {
    let entries = screen.journals.entries@;
    if entries.len() == 0 {
        seq![seq![("No journal entries returned for this income statement."@, SpanStyle::Plain)]]
    } else {
        entries_spans(entries, width, entries.len() as int)
    }
}

/// The lines of the entries view: each journal entry of the page, a blank
/// line between entries, or a note that there are none.
pub fn journal_lines(screen: &IncomeStatementScreen, width: usize) -> (r: Vec<TextLine>)
    ensures
        lines_of(r@) == spec_journal_lines(*screen, width as int),
{
    let mut lines: Vec<TextLine> = Vec::new();
    let entries = &screen.journals.entries;
    if entries.len() == 0 {
        lines.push(plain_line("No journal entries returned for this income statement."));
        assert(lines_of(lines@) =~= spec_journal_lines(*screen, width as int));
        return lines;
    }
    assert(lines_of(lines@) =~= Seq::empty());
    let mut index: usize = 0;
    while index < entries.len()
        invariant
            index <= entries@.len(),
            entries == &screen.journals.entries,
            lines_of(lines@) == entries_spans(entries@, width as int, index as int),
        decreases entries@.len() - index,
    {
        if index > 0 {
            let ghost before = lines@;
            let blank = plain_line("");
            let ghost added = spans_of(blank);
            lines.push(blank);
            assert(lines_of(lines@) =~= lines_of(before).push(added));
        }
        push_journal_lines(&mut lines, &entries[index], width);
        assert(lines_of(lines@) =~= entries_spans(entries@, width as int, index + 1));
        index = index + 1;
    }
    lines
}

/// How the header names the state of the screen.
pub open spec fn connection_text(state: ScreenState) -> Seq<char> {
    match state {
        ScreenState::Loaded(_) => "Connected"@,
        ScreenState::Loading => "Loading"@,
        ScreenState::Error(_) => "Needs attention"@,
    }
}

/// The header: the environment of the API and the state of the screen.
pub fn header_lines(api_url: &str, state: &ScreenState) -> (r: Vec<TextLine>)
    ensures
        lines_of(r@) == seq![
            seq![
                ("Environment: "@, SpanStyle::Label),
                (spec_environment_label(api_url@), SpanStyle::Plain),
                ("   "@, SpanStyle::Plain),
                ("Status: "@, SpanStyle::Label),
                (connection_text(*state), SpanStyle::Plain),
            ],
        ],
{
    let connection = match state {
        ScreenState::Loaded(_) => "Connected",
        ScreenState::Loading => "Loading",
        ScreenState::Error(_) => "Needs attention",
    };
    let mut spans = Vec::new();
    spans.push(raw_styled("Environment: ", SpanStyle::Label));
    spans.push(span(environment_label(api_url), SpanStyle::Plain));
    spans.push(raw("   "));
    spans.push(raw_styled("Status: ", SpanStyle::Label));
    spans.push(raw(connection));
    let line = TextLine { spans };
    assert(spans_of(line) =~= seq![
        ("Environment: "@, SpanStyle::Label),
        (spec_environment_label(api_url@), SpanStyle::Plain),
        ("   "@, SpanStyle::Plain),
        ("Status: "@, SpanStyle::Label),
        (connection_text(*state), SpanStyle::Plain),
    ]);
    let mut r = Vec::new();
    r.push(line);
    assert(lines_of(r@) =~= seq![spans_of(r@[0])]);
    r
}

/// The body while nothing is loaded: how long the load has run, or why it
/// failed and what to do.
pub open spec fn spec_status_lines(state: ScreenState, elapsed_secs: u64) -> Seq<
    Seq<(Seq<char>, SpanStyle)>,
> {
    match state {
        ScreenState::Loading => seq![
            seq![(""@, SpanStyle::Plain)],
            seq![("Loading income statement journal entries..."@, SpanStyle::Plain)],
            seq![("Elapsed: "@ + decimal(elapsed_secs as nat) + "s"@, SpanStyle::Plain)],
        ],
        ScreenState::Loaded(_) => Seq::empty(),
        ScreenState::Error(message) => seq![
            seq![(""@, SpanStyle::Plain)],
            seq![("Unable to load income statement"@, SpanStyle::Alert)],
            seq![(message@, SpanStyle::Plain)],
            seq![(""@, SpanStyle::Plain)],
            seq![("Press r to retry or q to quit."@, SpanStyle::Plain)],
        ],
    }
}

/// The body while nothing is loaded.
pub fn status_lines(state: &ScreenState, elapsed_secs: u64) -> (r: Vec<TextLine>)
    ensures
        lines_of(r@) == spec_status_lines(*state, elapsed_secs),
{
    let mut r: Vec<TextLine> = Vec::new();
    match state {
        ScreenState::Loading => {
            r.push(plain_line(""));
            r.push(plain_line("Loading income statement journal entries..."));
            let mut elapsed = String::from_str("Elapsed: ");
            push_decimal(&mut elapsed, elapsed_secs);
            elapsed.append("s");
            r.push(plain_line(elapsed.as_str()));
        },
        ScreenState::Loaded(_) => {},
        ScreenState::Error(message) => {
            r.push(plain_line(""));
            let mut spans = Vec::new();
            spans.push(raw_styled("Unable to load income statement", SpanStyle::Alert));
            let alert = TextLine { spans };
            assert(spans_of(alert) =~= seq![("Unable to load income statement"@, SpanStyle::Alert)]);
            r.push(alert);
            r.push(plain_line(message.as_str()));
            r.push(plain_line(""));
            r.push(plain_line("Press r to retry or q to quit."));
        },
    }
    assert(lines_of(r@) =~= spec_status_lines(*state, elapsed_secs));
    r
}

/// The larger of the reported total and the statements at hand.
pub open spec fn shown_total(screen: IncomeStatementScreen) -> u64 {
    let count = screen.statements@.len();
    if (screen.statement_total as int) < count {
        count as u64
    } else {
        screen.statement_total
    }
}

fn shown_total_of(screen: &IncomeStatementScreen) -> (r: u64)
    ensures
        r == shown_total(*screen),
{
    let count = screen.statements.len() as u64;
    if screen.statement_total < count {
        count
    } else {
        screen.statement_total
    }
}

/// The branch name shown: the statement's branch, or `-` without one.
pub open spec fn branch_text(screen: IncomeStatementScreen) -> Seq<char> {
    match screen.detail.statement.branch {
        Some(b) => dash_if_empty(b.name@),
        None => "-"@,
    }
}

/// The currency shown: the summary's, else the statement's, else `-`.
pub open spec fn currency_text(screen: IncomeStatementScreen) -> Seq<char> {
    if screen.detail.summary.currency@.len() > 0 {
        screen.detail.summary.currency@
    } else if screen.detail.statement.currency@.len() > 0 {
        screen.detail.statement.currency@
    } else {
        "-"@
    }
}

/// How a view mode is named.
pub open spec fn mode_text(mode: ViewMode) -> Seq<char> {
    match mode {
        ViewMode::Entries => "Entries"@,
        ViewMode::Totals => "Totals"@,
    }
}

/// The statement panel: which statement of how many, its date and the view;
/// then its status, branch and currency.
pub open spec fn spec_metadata_lines(screen: IncomeStatementScreen, mode: ViewMode) -> Seq<
    Seq<(Seq<char>, SpanStyle)>,
> {
    let statement = screen.detail.statement;
    seq![
        seq![
            ("Statement: "@, SpanStyle::Label),
            ("#"@ + decimal(statement.id as nat) + " ("@ + decimal(
                spec_statement_position(screen) as nat,
            ) + "/"@ + decimal(shown_total(screen) as nat) + ")"@, SpanStyle::Plain),
            ("   "@, SpanStyle::Plain),
            ("Date: "@, SpanStyle::Label),
            (statement.date@, SpanStyle::Plain),
            ("   "@, SpanStyle::Plain),
            ("View: "@, SpanStyle::Label),
            (mode_text(mode), SpanStyle::Plain),
        ],
        seq![
            ("Status: "@, SpanStyle::Label),
            (spec_status_label(statement.status@), SpanStyle::Plain),
            ("   "@, SpanStyle::Plain),
            ("Branch: "@, SpanStyle::Label),
            (branch_text(screen), SpanStyle::Plain),
            ("   "@, SpanStyle::Plain),
            ("Currency: "@, SpanStyle::Label),
            (currency_text(screen), SpanStyle::Plain),
        ],
    ]
}

/// The statement panel.
pub fn metadata_lines(screen: &IncomeStatementScreen, view_mode: ViewMode) -> (r: Vec<TextLine>)
    requires
        statement_position_fits(*screen),
    ensures
        lines_of(r@) == spec_metadata_lines(*screen, view_mode),
{
    let statement = &screen.detail.statement;
    let summary = &screen.detail.summary;
    let branch = match &statement.branch {
        Some(b) => if b.name.as_str().is_empty() {
            String::from_str("-")
        } else {
            b.name.clone()
        },
        None => String::from_str("-"),
    };
    let currency = if !summary.currency.as_str().is_empty() {
        summary.currency.clone()
    } else if !statement.currency.as_str().is_empty() {
        statement.currency.clone()
    } else {
        String::from_str("-")
    };
    let mode = match view_mode {
        ViewMode::Entries => "Entries",
        ViewMode::Totals => "Totals",
    };
    let mut position = String::from_str("#");
    push_decimal(&mut position, statement.id as u64);
    position.append(" (");
    push_decimal(&mut position, statement_position(screen));
    position.append("/");
    push_decimal(&mut position, shown_total_of(screen));
    position.append(")");
    let mut first = Vec::new();
    first.push(raw_styled("Statement: ", SpanStyle::Label));
    first.push(span(position, SpanStyle::Plain));
    first.push(raw("   "));
    first.push(raw_styled("Date: ", SpanStyle::Label));
    first.push(span(statement.date.clone(), SpanStyle::Plain));
    first.push(raw("   "));
    first.push(raw_styled("View: ", SpanStyle::Label));
    first.push(raw(mode));
    let mut second = Vec::new();
    second.push(raw_styled("Status: ", SpanStyle::Label));
    second.push(span(status_label(statement.status.as_str()), SpanStyle::Plain));
    second.push(raw("   "));
    second.push(raw_styled("Branch: ", SpanStyle::Label));
    second.push(span(branch, SpanStyle::Plain));
    second.push(raw("   "));
    second.push(raw_styled("Currency: ", SpanStyle::Label));
    second.push(span(currency, SpanStyle::Plain));
    let line1 = TextLine { spans: first };
    let line2 = TextLine { spans: second };
    assert(spans_of(line1) =~= spec_metadata_lines(*screen, view_mode)[0]);
    assert(spans_of(line2) =~= spec_metadata_lines(*screen, view_mode)[1]);
    let mut r = Vec::new();
    r.push(line1);
    r.push(line2);
    assert(lines_of(r@) =~= spec_metadata_lines(*screen, view_mode));
    r
}

/// The pager text of the key menu: position, total and journal page of a
/// loaded screen, or `Loading`.
pub open spec fn page_label(state: ScreenState) -> Seq<char> {
    match state {
        ScreenState::Loaded(screen) => "S "@ + decimal(spec_statement_position(*screen) as nat)
            + "/"@ + decimal(shown_total(*screen) as nat) + " J "@ + decimal(
            screen.journals.page as nat,
        ),
        _ => "Loading"@,
    }
}

/// The key that switches the view, and the view it switches to.
pub open spec fn toggle_texts(mode: ViewMode) -> (Seq<char>, Seq<char>) {
    match mode {
        ViewMode::Entries => ("t"@, "Totals"@),
        ViewMode::Totals => ("e"@, "Entries"@),
    }
}

/// The key menu, with the pager and the line at the top of the body.
pub open spec fn spec_key_menu_lines(state: ScreenState, mode: ViewMode, scroll_offset: u16) -> Seq<
    Seq<(Seq<char>, SpanStyle)>,
> {
    let line: nat = if scroll_offset < u16::MAX {
        (scroll_offset + 1) as nat
    } else {
        scroll_offset as nat
    };
    seq![
        seq![
            ("Left/Right"@, SpanStyle::Bold),
            (" Statement   "@, SpanStyle::Plain),
            ("p/n"@, SpanStyle::Bold),
            (" Journal page   "@, SpanStyle::Plain),
            (toggle_texts(mode).0, SpanStyle::Bold),
            (" "@ + toggle_texts(mode).1 + "   "@, SpanStyle::Plain),
            ("r"@, SpanStyle::Bold),
            (" Refresh"@, SpanStyle::Plain),
        ],
        seq![
            ("Up/Down"@, SpanStyle::Bold),
            (" Scroll   "@, SpanStyle::Plain),
            ("PgUp/PgDn"@, SpanStyle::Bold),
            (" Move   "@, SpanStyle::Plain),
            ("q/Esc"@, SpanStyle::Bold),
            (" Quit   "@, SpanStyle::Plain),
            (page_label(state) + "  Line "@ + decimal(line), SpanStyle::Label),
        ],
    ]
}

/// The key menu.
pub fn key_menu_lines(state: &ScreenState, view_mode: ViewMode, scroll_offset: u16) -> (r: Vec<
    TextLine,
>)
    requires
        state matches ScreenState::Loaded(screen) ==> statement_position_fits(**screen),
    ensures
        lines_of(r@) == spec_key_menu_lines(*state, view_mode, scroll_offset),
{
    let mut page = match state {
        ScreenState::Loaded(screen) => {
            let mut p = String::from_str("S ");
            push_decimal(&mut p, statement_position(screen));
            p.append("/");
            push_decimal(&mut p, shown_total_of(screen));
            p.append(" J ");
            push_decimal(&mut p, screen.journals.page);
            p
        },
        _ => String::from_str("Loading"),
    };
    let (key, target) = match view_mode {
        ViewMode::Entries => ("t", "Totals"),
        ViewMode::Totals => ("e", "Entries"),
    };
    let mut toggle = String::from_str(" ");
    toggle.append(target);
    toggle.append("   ");
    page.append("  Line ");
    push_decimal(&mut page, scroll_offset.saturating_add(1) as u64);
    let mut first = Vec::new();
    first.push(raw_styled("Left/Right", SpanStyle::Bold));
    first.push(raw(" Statement   "));
    first.push(raw_styled("p/n", SpanStyle::Bold));
    first.push(raw(" Journal page   "));
    first.push(raw_styled(key, SpanStyle::Bold));
    first.push(span(toggle, SpanStyle::Plain));
    first.push(raw_styled("r", SpanStyle::Bold));
    first.push(raw(" Refresh"));
    let mut second = Vec::new();
    second.push(raw_styled("Up/Down", SpanStyle::Bold));
    second.push(raw(" Scroll   "));
    second.push(raw_styled("PgUp/PgDn", SpanStyle::Bold));
    second.push(raw(" Move   "));
    second.push(raw_styled("q/Esc", SpanStyle::Bold));
    second.push(raw(" Quit   "));
    second.push(span(page, SpanStyle::Label));
    let line1 = TextLine { spans: first };
    let line2 = TextLine { spans: second };
    assert(spans_of(line1) =~= spec_key_menu_lines(*state, view_mode, scroll_offset)[0]);
    assert(spans_of(line2) =~= spec_key_menu_lines(*state, view_mode, scroll_offset)[1]);
    let mut r = Vec::new();
    r.push(line1);
    r.push(line2);
    assert(lines_of(r@) =~= spec_key_menu_lines(*state, view_mode, scroll_offset));
    r
}

/// The lines of the body that show: from `offset` on, as many as fit, and
/// blank lines below when the content runs out.
pub fn visible_lines(lines: Vec<TextLine>, offset: u16, area_height: u16) -> (r: Vec<TextLine>)
    ensures
        r@.len() == visible_count(area_height),
        forall|i: int|
            0 <= i < r@.len() ==> if offset + i < lines@.len() {
                #[trigger] r@[i] == lines@[offset + i]
            } else {
                spans_of(r@[i]) == seq![(""@, SpanStyle::Plain)]
            },
{
    let count = area_height.saturating_sub(2) as usize;
    let mut all = lines;
    let start: usize = if (offset as usize) < all.len() {
        offset as usize
    } else {
        all.len()
    };
    let mut visible = all.split_off(start);
    visible.truncate(count);
    let ghost taken = visible@;
    assert(forall|i: int| 0 <= i < taken.len() ==> taken[i] == lines@[start + i]);
    while visible.len() < count
        invariant
            count == visible_count(area_height),
            start == (if (offset as int) < lines@.len() {
                offset as int
            } else {
                lines@.len() as int
            }),
            taken.len() <= visible@.len() <= count,
            taken.len() == (if lines@.len() - start < count {
                lines@.len() - start
            } else {
                count as int
            }),
            forall|i: int| 0 <= i < taken.len() ==> visible@[i] == taken[i],
            forall|i: int| 0 <= i < taken.len() ==> taken[i] == lines@[start + i],
            forall|i: int|
                taken.len() <= i < visible@.len() ==> spans_of(#[trigger] visible@[i]) == seq![
                    (""@, SpanStyle::Plain),
                ],
        decreases count - visible.len(),
    {
        visible.push(plain_line(""));
    }
    assert forall|i: int| 0 <= i < visible@.len() implies if offset + i < lines@.len() {
        #[trigger] visible@[i] == lines@[offset + i]
    } else {
        spans_of(visible@[i]) == seq![(""@, SpanStyle::Plain)]
    } by {
        assert(visible@.len() == count);
        if i < taken.len() {
            assert(start < lines@.len());
            assert(start == offset);
            assert(visible@[i] == taken[i]);
            assert(taken[i] == lines@[start + i]);
        } else {
            assert(taken.len() == lines@.len() - start);
        }
    }
    visible
}

/// The name an account line shows: the account's name, or `Account #` and its
/// id when it has none.
pub open spec fn account_name(a: JournalAccount) -> Seq<char> {
    if a.name@.len() == 0 {
        "Account #"@ + a.id.json_text()
    } else {
        a.name@
    }
}

/// The lines of a journal entry are its first line, then, in order, one line
/// per account: line `k + 1` is the line of account `k`, showing that
/// account's debit and credit (money, or `-` for zero) and, when it fits, its
/// name.
pub proof fn law_entry_lines_follow_accounts(j: Journal, width: int)
    ensures
        spec_entry_lines(j, width).len() == j.accounts@.len() + 1,
        spec_entry_lines(j, width)[0] == spec_entry_line(j, width),
        forall|k: int|
            0 <= k < j.accounts@.len() ==> {
                let line = #[trigger] spec_entry_lines(j, width)[k + 1];
                let a = j.accounts@[k];
                &&& line == spec_account_line(a, width)
                &&& line.len() == 7
                &&& line[2].0 == "Dr "@
                &&& line[3].0 == money_or_dash(a.debit)
                &&& line[5].0 == "Cr "@
                &&& line[6].0 == money_or_dash(a.credit)
                &&& byte_len(account_name(a)) <= max_of(sat_sub(width, 24), 12) ==> line[0].0
                    == "  "@ + account_name(a)
            },
{
    assert forall|k: int| 0 <= k < j.accounts@.len() implies {
        let line = #[trigger] spec_entry_lines(j, width)[k + 1];
        let a = j.accounts@[k];
        &&& line == spec_account_line(a, width)
        &&& line.len() == 7
        &&& line[2].0 == "Dr "@
        &&& line[3].0 == money_or_dash(a.debit)
        &&& line[5].0 == "Cr "@
        &&& line[6].0 == money_or_dash(a.credit)
        &&& byte_len(account_name(a)) <= max_of(sat_sub(width, 24), 12) ==> line[0].0 == "  "@
            + account_name(a)
    } by {
        assert(spec_entry_lines(j, width)[k + 1] == spec_account_line(j.accounts@[k], width));
    }
}

/// How many lines the first `k` totals take in the totals view: each total
/// with every total it is made of.
pub open spec fn lines_before(totals: Seq<SummaryTotalLine>, width: int, k: int) -> int
    decreases k,
{
    if k <= 0 || k > totals.len() {
        0
    } else {
        lines_before(totals, width, k - 1) + summary_line_spans(totals[k - 1], 0, width).len()
    }
}

proof fn lemma_summary_lines_layout(totals: Seq<SummaryTotalLine>, width: int, n: int)
    requires
        0 <= n <= totals.len(),
    ensures
        summary_lines_spans(totals, 0, width, n).len() == lines_before(totals, width, n),
        lines_before(totals, width, n) >= n,
        forall|k: int|
            0 <= k < n ==> k <= lines_before(totals, width, k) < lines_before(totals, width, n)
                && summary_lines_spans(totals, 0, width, n)[lines_before(totals, width, k)]
                == spec_summary_line(
                totals[k].header@,
                totals[k].value,
                0,
                width,
                SpanStyle::Bold,
            ),
    decreases n,
{
    if n > 0 {
        lemma_summary_lines_layout(totals, width, n - 1);
        let p = summary_lines_spans(totals, 0, width, n - 1);
        let q = summary_line_spans(totals[n - 1], 0, width);
        assert(summary_lines_spans(totals, 0, width, n) == p + q);
        assert(q[0] == spec_summary_line(
            totals[n - 1].header@,
            totals[n - 1].value,
            0,
            width,
            SpanStyle::Bold,
        ));
        assert(q.len() >= 1);
        assert(lines_before(totals, width, n) == lines_before(totals, width, n - 1) + q.len());
        assert forall|k: int| 0 <= k < n implies k <= lines_before(totals, width, k) < lines_before(
            totals,
            width,
            n,
        ) && summary_lines_spans(totals, 0, width, n)[lines_before(totals, width, k)]
            == spec_summary_line(totals[k].header@, totals[k].value, 0, width, SpanStyle::Bold) by {
            if k < n - 1 {
                assert(k <= lines_before(totals, width, k) < lines_before(totals, width, n - 1)
                    && p[lines_before(totals, width, k)] == spec_summary_line(
                    totals[k].header@,
                    totals[k].value,
                    0,
                    width,
                    SpanStyle::Bold,
                ));
                assert((p + q)[lines_before(totals, width, k)] == p[lines_before(totals, width, k)]);
            } else {
                assert((p + q)[lines_before(totals, width, k)] == q[0]);
            }
        }
    }
}

/// The totals view of a summary with totals holds the lines of every
/// top-level total, in order and nothing else: its line count is the sum of
/// theirs, and each total's own line, bold and not indented, starts its part.
pub proof fn law_totals_view_lists_every_total(summary: IncomeStatementSummary, width: int)
    requires
        summary.totals@.len() > 0,
    ensures
        spec_summary_lines(summary, width).len() == lines_before(
            summary.totals@,
            width,
            summary.totals@.len() as int,
        ),
        spec_summary_lines(summary, width).len() >= summary.totals@.len(),
        forall|k: int|
            0 <= k < summary.totals@.len() ==> lines_before(summary.totals@, width, k)
                < spec_summary_lines(summary, width).len() && #[trigger] spec_summary_lines(
                summary,
                width,
            )[lines_before(summary.totals@, width, k)] == spec_summary_line(
                summary.totals@[k].header@,
                summary.totals@[k].value,
                0,
                width,
                SpanStyle::Bold,
            ),
{
    lemma_summary_lines_layout(summary.totals@, width, summary.totals@.len() as int);
}

} // verus!
