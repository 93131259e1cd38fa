use emsys_cli::application::income_statement::{
    IncomeStatementDetail, IncomeStatementScreen, JournalPage, TransactionLookups,
};
use emsys_cli::infrastructure::income_statement::{
    IncomeStatement, IncomeStatementSummary, SummaryTotalLine,
};
use emsys_cli::infrastructure::journal::{Journal, JournalAccount};
use emsys_cli::infrastructure::json::{F64Bits, JsonValue};
use emsys_cli::text::format_money;
use emsys_cli::tui::action::Action;
use emsys_cli::tui::app::{
    has_next_journal_page, has_next_statement_page, position_fits, scroll_offset,
    statement_position, AppState, LoadTarget, ScreenState, ViewMode,
};
use emsys_cli::tui::event::{action_for, Key};
use emsys_cli::tui::view::{
    environment_label, header_lines, journal_lines, key_menu_lines, metadata_lines, plain_line,
    push_journal_lines, push_summary_line, short_date, status_label, status_lines, summary_line,
    summary_lines, truncate, visible_lines, SpanStyle, TextLine,
};

fn line_contains(line: &TextLine, expected: &str) -> bool {
    line.spans.iter().any(|span| span.text.contains(expected))
}

fn rendered(line: &TextLine) -> String {
    line.spans.iter().map(|span| span.text.as_str()).collect()
}

fn one() -> F64Bits {
    F64Bits { bits: 1.0f64.to_bits() }
}

fn statement(id: u32) -> IncomeStatement {
    IncomeStatement {
        id,
        date: "2026-09-08T00:00:00Z".into(),
        branch: None,
        container: None,
        delivery: None,
        rate: one(),
        currency: "USD".into(),
        status: "closed".into(),
        summary_total: None,
        created_at: None,
        updated_at: None,
    }
}

fn journal_page(page: u64, results_per_page: u64, total: u64) -> JournalPage {
    JournalPage { entries: Vec::new(), page, results_per_page, total, subtotal: 0 }
}

fn screen_with_statement_page(
    statement_page: u64,
    selected_index: usize,
    results_per_page: u64,
    total: u64,
) -> IncomeStatementScreen {
    IncomeStatementScreen {
        statements: vec![statement(1)],
        statement_page,
        statement_results_per_page: results_per_page,
        statement_total: total,
        selected_index,
        detail: IncomeStatementDetail {
            statement: statement(1),
            summary: IncomeStatementSummary {
                currency: "USD".into(),
                rate: one(),
                totals: Vec::new(),
            },
        },
        journals: journal_page(1, 10, 0),
        lookups: TransactionLookups::default(),
    }
}

fn sample_journal() -> Journal {
    Journal {
        id: JsonValue::Text {
            value: "66f000000000000000000001".into(),
            json: "\"66f000000000000000000001\"".into(),
        },
        description: "Invoice payment".into(),
        date: Some("2026-09-08T00:00:00Z".into()),
        ref_number: "A-100".into(),
        payment_method: None,
        currency: "USD".into(),
        rate: one(),
        transaction_type: "PAYMENT".into(),
        invoice: None,
        income_statement: None,
        customer: None,
        employee: None,
        accounts: vec![JournalAccount {
            id: JsonValue::Number("1".into()),
            name: "Cash on Hand".into(),
            account_type: "ASSET".into(),
            debit: 12000,
            credit: 0,
        }],
        transaction_amount: 12000,
        transaction_balance: 0,
    }
}

#[test]
fn formats_money_with_two_decimals() {
    assert_eq!(format_money(1133500), "$11335.00");
    assert_eq!(format_money(-1250), "$-12.50");
}

#[test]
fn formats_small_and_negative_amounts() {
    assert_eq!(format_money(0), "$0.00");
    assert_eq!(format_money(5), "$0.05");
    assert_eq!(format_money(-5), "$-0.05");
    assert_eq!(format_money(123456), "$1234.56");
}

#[test]
fn renders_summary_lines_recursively() {
    let mut lines = Vec::new();
    push_summary_line(
        &mut lines,
        &SummaryTotalLine {
            header: "Total Ingresos".into(),
            value: 1280000,
            order: 1,
            details: vec![SummaryTotalLine {
                header: "Efectivo".into(),
                value: 420000,
                order: 1,
                details: Vec::new(),
            }],
        },
        0,
        40,
    );

    assert_eq!(lines.len(), 2);
    assert!(line_contains(&lines[0], "Total Ingresos"));
    assert!(line_contains(&lines[1], "Efectivo"));
    assert_eq!(lines[0].spans[1].style, SpanStyle::Bold);
    assert_eq!(lines[1].spans[0].text, "  ");
    assert_eq!(lines[1].spans[1].style, SpanStyle::Plain);
}

#[test]
fn summary_line_right_aligns_money() {
    let line = summary_line("Total Ingresos", 1280000, 0, 32, SpanStyle::Plain);
    let rendered = rendered(&line);

    assert_eq!(rendered.len(), 32);
    assert!(rendered.ends_with("$12800.00"));
}

#[test]
fn summary_line_truncates_long_labels() {
    let line = summary_line("A very long summary header indeed", 100, 1, 30, SpanStyle::Plain);
    assert_eq!(rendered(&line), "  A very long summary ~  $1.00");
}

#[test]
fn journal_lines_include_entry_and_account_amounts() {
    let mut lines = Vec::new();
    push_journal_lines(&mut lines, &sample_journal(), 80);

    assert!(line_contains(&lines[0], "$120.00"));
    assert!(line_contains(&lines[1], "Cash on Hand"));
    assert_eq!(lines.len(), 2);
    assert!(line_contains(&lines[0], "2026-09-08  A-100  PAYMENT  Invoice payment"));
    assert_eq!(rendered(&lines[0]).len(), 80);
    assert!(rendered(&lines[1]).ends_with("Dr $120.00  Cr -"));
}

#[test]
fn journal_view_separates_entries() {
    let mut screen = screen_with_statement_page(1, 0, 20, 1);
    let empty = journal_lines(&screen, 80);
    assert_eq!(empty.len(), 1);
    assert!(line_contains(&empty[0], "No journal entries returned for this income statement."));
    screen.journals.entries = vec![sample_journal(), sample_journal()];
    let lines = journal_lines(&screen, 80);
    assert_eq!(lines.len(), 5);
    assert_eq!(rendered(&lines[2]), "");
}

#[test]
fn detects_next_journal_page() {
    assert!(has_next_journal_page(&journal_page(1, 10, 25)));
    assert!(!has_next_journal_page(&journal_page(3, 10, 25)));
}

#[test]
fn detects_next_statement_page() {
    let screen = screen_with_statement_page(1, 19, 20, 41);

    assert!(has_next_statement_page(&screen));
    assert!(position_fits(&screen));
    assert_eq!(statement_position(&screen), 20);
}

#[test]
fn detects_last_statement_page() {
    let screen = screen_with_statement_page(3, 0, 20, 41);

    assert!(!has_next_statement_page(&screen));
    assert_eq!(statement_position(&screen), 41);
}

#[test]
fn position_that_does_not_fit_is_reported() {
    let screen = screen_with_statement_page(u64::MAX, 0, 20, 41);
    assert!(!position_fits(&screen));
}

#[test]
fn clamps_scroll_offset_to_visible_content() {
    assert_eq!(scroll_offset(50, 20, 10), 12);
    assert_eq!(scroll_offset(5, 4, 10), 0);
}

#[test]
fn kept_scroll_offset_is_stable() {
    for (offset, count, height) in [(50u16, 20usize, 10u16), (3, 100, 12), (0, 0, 0), (9, 9, 1)] {
        let kept = scroll_offset(offset, count, height);
        assert!(kept <= offset);
        assert_eq!(scroll_offset(kept, count, height), kept);
    }
}

#[test]
fn selects_visible_summary_window() {
    let lines = vec![plain_line("one"), plain_line("two"), plain_line("three"), plain_line("four")];
    let visible = visible_lines(lines, 1, 4);

    assert_eq!(visible.len(), 2);
    assert!(line_contains(&visible[0], "two"));
    assert!(line_contains(&visible[1], "three"));
}

#[test]
fn pads_visible_window_with_blank_lines() {
    let lines = vec![plain_line("one")];
    let visible = visible_lines(lines, 0, 5);
    assert_eq!(visible.len(), 3);
    assert_eq!(rendered(&visible[2]), "");
}

#[test]
fn shortens_and_labels_text() {
    assert_eq!(truncate("abcdef", 10), "abcdef");
    assert_eq!(truncate("abcdef", 4), "abc~");
    assert_eq!(truncate("abcdef", 1), "a");
    assert_eq!(truncate("abcdef", 0), "");
    assert_eq!(short_date("2026-09-08T00:00:00Z"), "2026-09-08");
    assert_eq!(short_date("2026-09-08"), "2026-09-08");
    assert_eq!(environment_label("http://localhost:8080"), "Local");
    assert_eq!(environment_label("http://127.0.0.1"), "Local");
    assert_eq!(environment_label("https://api.embarqueros.com"), "Configured API");
    assert_eq!(status_label("open"), "Open");
    assert_eq!(status_label("ß"), "SS");
    assert_eq!(status_label(""), "-");
}

#[test]
fn header_and_status_lines_follow_the_screen_state() {
    let header = header_lines("http://localhost:8080", &ScreenState::Loading);
    assert_eq!(rendered(&header[0]), "Environment: Local   Status: Loading");
    let loading = status_lines(&ScreenState::Loading, 3);
    assert_eq!(loading.len(), 3);
    assert_eq!(rendered(&loading[2]), "Elapsed: 3s");
    let failed = status_lines(&ScreenState::Error("boom".into()), 0);
    assert_eq!(failed.len(), 5);
    assert_eq!(failed[1].spans[0].style, SpanStyle::Alert);
    assert_eq!(rendered(&failed[2]), "boom");
    assert_eq!(rendered(&failed[4]), "Press r to retry or q to quit.");
    let loaded = ScreenState::Loaded(Box::new(screen_with_statement_page(1, 0, 20, 1)));
    assert!(status_lines(&loaded, 0).is_empty());
    assert!(rendered(&header_lines("https://x", &loaded)[0]).ends_with("Status: Connected"));
}

#[test]
fn metadata_and_key_menu_describe_the_selection() {
    let screen = screen_with_statement_page(2, 3, 20, 41);
    let meta = metadata_lines(&screen, ViewMode::Entries);
    assert_eq!(rendered(&meta[0]), "Statement: #1 (24/41)   Date: 2026-09-08T00:00:00Z   View: Entries");
    assert_eq!(rendered(&meta[1]), "Status: Closed   Branch: -   Currency: USD");
    let menu = key_menu_lines(&ScreenState::Loaded(Box::new(screen)), ViewMode::Totals, 4);
    assert_eq!(
        rendered(&menu[0]),
        "Left/Right Statement   p/n Journal page   e Entries   r Refresh"
    );
    assert!(rendered(&menu[1]).ends_with("S 24/41 J 1  Line 5"));
    let menu = key_menu_lines(&ScreenState::Loading, ViewMode::Entries, 0);
    assert!(rendered(&menu[1]).ends_with("Loading  Line 1"));
}

#[test]
fn totals_view_lists_totals_or_a_note() {
    let summary = IncomeStatementSummary { currency: "USD".into(), rate: one(), totals: Vec::new() };
    let lines = summary_lines(&summary, 40);
    assert_eq!(rendered(&lines[0]), "No summary totals returned by the API.");
}

#[test]
fn keys_map_to_actions() {
    assert_eq!(action_for(Key::Char('q'), true), Some(Action::Quit));
    assert_eq!(action_for(Key::Esc, true), Some(Action::Quit));
    assert_eq!(action_for(Key::Char('r'), true), Some(Action::Refresh));
    assert_eq!(action_for(Key::Char('j'), true), Some(Action::ScrollDown));
    assert_eq!(action_for(Key::Up, true), Some(Action::ScrollUp));
    assert_eq!(action_for(Key::PageDown, true), Some(Action::ScrollPageDown));
    assert_eq!(action_for(Key::Home, true), Some(Action::ScrollStart));
    assert_eq!(action_for(Key::End, true), Some(Action::ScrollEnd));
    assert_eq!(action_for(Key::Char('x'), true), None);
    assert_eq!(action_for(Key::Char('q'), false), None);
}

#[test]
fn actions_move_the_state() {
    let mut app = AppState::new();
    assert_eq!(app.active_target, LoadTarget { statement_page: 1, selected_index: 0, journal_page: 1 });
    let request = app.handle_action(Action::Refresh).expect("refresh loads");
    assert_eq!(request.generation, 1);
    app.handle_action(Action::ScrollPageDown);
    assert_eq!(app.scroll_offset, 8);
    app.handle_action(Action::ScrollUp);
    assert_eq!(app.scroll_offset, 7);
    app.handle_action(Action::ShowTotals);
    assert_eq!(app.view_mode, ViewMode::Totals);
    assert_eq!(app.scroll_offset, 0);
    assert!(app.handle_action(Action::JournalNextPage).is_none());
    app.handle_action(Action::Quit);
    assert!(app.should_quit);
}

#[test]
fn only_the_latest_load_counts() {
    let mut app = AppState::new();
    let first = app.handle_action(Action::Refresh).unwrap();
    let second = app.handle_action(Action::Refresh).unwrap();
    assert!(!app.receive_load(first.generation, first.target, Err("old".into())));
    assert!(matches!(app.state, ScreenState::Loading));
    let screen = screen_with_statement_page(1, 0, 20, 30);
    assert!(app.receive_load(second.generation, second.target, Ok(screen)));
    assert!(matches!(app.state, ScreenState::Loaded(_)));
}

#[test]
fn pages_step_forward_and_back() {
    let mut app = AppState::new();
    let request = app.handle_action(Action::Refresh).unwrap();
    let mut screen = screen_with_statement_page(1, 0, 20, 30);
    screen.journals = journal_page(1, 10, 25);
    app.receive_load(request.generation, request.target, Ok(screen));
    let next = app.handle_action(Action::JournalNextPage).expect("a next page");
    assert_eq!(next.target.journal_page, 2);
    let mut screen = screen_with_statement_page(1, 0, 20, 30);
    screen.journals = journal_page(2, 10, 25);
    app.receive_load(next.generation, next.target, Ok(screen));
    let back = app.handle_action(Action::JournalPreviousPage).expect("a previous page");
    assert_eq!(back.target, LoadTarget { statement_page: 1, selected_index: 0, journal_page: 1 });

    let mut screen = screen_with_statement_page(1, 0, 1, 30);
    screen.statements = vec![statement(1), statement(2)];
    app.receive_load(back.generation, back.target, Ok(screen));
    let next = app.handle_action(Action::SelectNextStatement).expect("a next statement");
    assert_eq!(next.target, LoadTarget { statement_page: 1, selected_index: 1, journal_page: 1 });
    let mut screen = screen_with_statement_page(1, 1, 1, 30);
    screen.statements = vec![statement(1), statement(2)];
    app.receive_load(next.generation, next.target, Ok(screen));
    let back = app.handle_action(Action::SelectPreviousStatement).expect("a previous statement");
    assert_eq!(back.target, LoadTarget { statement_page: 1, selected_index: 0, journal_page: 1 });
}
