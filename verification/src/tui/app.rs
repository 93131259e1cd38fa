//! The state of the terminal interface and how actions and finished loads
//! move it.
//!
//! Each step takes the state and one event (an action, or the result of a
//! load) and gives the next state, with the load to start when one is due.
//! Running loads, timing them and drawing happen outside the library.
use vstd::prelude::*;

use crate::application::income_statement::{IncomeStatementScreen, JournalPage};
use crate::tui::action::Action;

verus! {

/// Lines moved by Page Up and Page Down.
pub const PAGE_SCROLL: u16 = 8;

/// What the screen shows.
#[derive(Debug)]
pub enum ScreenState {
    Loading,
    Loaded(Box<IncomeStatementScreen>),
    /// A load failed; the message says why.
    Error(String),
}

/// Whether the body lists journal entries or summary totals.
#[derive(Debug, Clone, Copy, PartialEq, Eq, Structural)]
pub enum ViewMode {
    Entries,
    Totals,
}

/// Which statement page, statement and journal page to load.
#[derive(Debug, Clone, Copy, PartialEq, Eq, Structural)]
pub struct LoadTarget {
    pub statement_page: u64,
    pub selected_index: usize,
    pub journal_page: u64,
}

/// A load to start: its target, and the generation that tells its result
/// apart from those of older loads.
#[derive(Debug, Clone, Copy, PartialEq, Eq, Structural)]
pub struct LoadRequest {
    pub generation: u64,
    pub target: LoadTarget,
}

/// The state of the terminal interface.
#[derive(Debug)]
pub struct AppState {
    pub should_quit: bool,
    pub state: ScreenState,
    pub view_mode: ViewMode,
    /// How many loads have been started; only the result of the latest counts.
    pub load_generation: u64,
    pub active_target: LoadTarget,
    pub scroll_offset: u16,
}

/// `a * b`, or `u64::MAX` when that does not fit.
pub open spec fn sat_mul(a: u64, b: u64) -> u64 {
    if a * b <= u64::MAX {
        (a * b) as u64
    } else {
        u64::MAX
    }
}

fn saturating_mul(a: u64, b: u64) -> (r: u64)
    ensures
        r == sat_mul(a, b),
{
    match a.checked_mul(b) {
        Some(p) => p,
        None => u64::MAX,
    }
}

/// Results per page as the pager counts them: what the API reported, but no
/// fewer than the results at hand, and at least one.
pub open spec fn per_page(results_per_page: u64, count: nat) -> u64 {
    let c: u64 = if count <= u64::MAX {
        count as u64
    } else {
        u64::MAX
    };
    let m = if results_per_page < c {
        c
    } else {
        results_per_page
    };
    if m < 1 {
        1
    } else {
        m
    }
}

fn per_page_of(results_per_page: u64, count: usize) -> (r: u64)
    ensures
        r == per_page(results_per_page, count as nat),
{
    let c = count as u64;
    let m = if results_per_page < c {
        c
    } else {
        results_per_page
    };
    if m < 1 {
        1
    } else {
        m
    }
}

/// There are journal entries past this page.
pub open spec fn spec_has_next_journal_page(j: JournalPage) -> bool {
    sat_mul(j.page, per_page(j.results_per_page, j.entries@.len())) < j.total
}

/// There are statements past this page.
pub open spec fn spec_has_next_statement_page(s: IncomeStatementScreen) -> bool {
    sat_mul(s.statement_page, per_page(s.statement_results_per_page, s.statements@.len()))
        < s.statement_total
}

/// Whether there are journal entries past this page.
pub fn has_next_journal_page(journals: &JournalPage) -> (r: bool)
    ensures
        r == spec_has_next_journal_page(*journals),
{
    let per_page = per_page_of(journals.results_per_page, journals.entries.len());
    saturating_mul(journals.page, per_page) < journals.total
}

/// Whether there are statements past this page.
pub fn has_next_statement_page(screen: &IncomeStatementScreen) -> (r: bool)
    ensures
        r == spec_has_next_statement_page(*screen),
{
    let per_page = per_page_of(screen.statement_results_per_page, screen.statements.len());
    saturating_mul(screen.statement_page, per_page) < screen.statement_total
}

/// The position, counted from 1 over all pages, of the selected statement.
pub open spec fn spec_statement_position(s: IncomeStatementScreen) -> int {
    let before = if s.statement_page < 1 {
        0
    } else {
        s.statement_page - 1
    };
    before * per_page(s.statement_results_per_page, s.statements@.len()) + s.selected_index + 1
}

/// The position of the selected statement fits in 64 bits.
pub open spec fn statement_position_fits(s: IncomeStatementScreen) -> bool {
    spec_statement_position(s) <= u64::MAX
}

/// Whether the position of the selected statement fits in 64 bits.
pub fn position_fits(screen: &IncomeStatementScreen) -> (r: bool)
    ensures
        r == statement_position_fits(*screen),
{
    let before = screen.statement_page.saturating_sub(1);
    let per_page = per_page_of(screen.statement_results_per_page, screen.statements.len());
    match before.checked_mul(per_page) {
        None => {
            assert(spec_statement_position(*screen) > u64::MAX) by (nonlinear_arith)
                requires
                    before * per_page > u64::MAX,
                    spec_statement_position(*screen) == before * per_page
                        + screen.selected_index + 1,
            ;
            false
        },
        Some(p) => match p.checked_add(screen.selected_index as u64) {
            None => false,
            Some(q) => q < u64::MAX,
        },
    }
}

/// The position, counted from 1 over all pages, of the selected statement.
pub fn statement_position(screen: &IncomeStatementScreen) -> (r: u64)
    requires
        statement_position_fits(*screen),
    ensures
        r == spec_statement_position(*screen),
{
    let before = screen.statement_page.saturating_sub(1);
    let per_page = per_page_of(screen.statement_results_per_page, screen.statements.len());
    assert(before * per_page <= u64::MAX) by (nonlinear_arith)
        requires
            before * per_page + screen.selected_index + 1 <= u64::MAX,
            screen.selected_index >= 0,
    ;
    before * per_page + screen.selected_index as u64 + 1
}

/// The lines of the body that fit between its borders.
pub open spec fn visible_count(area_height: u16) -> nat {
    if area_height < 2 {
        0
    } else {
        (area_height - 2) as nat
    }
}

/// The scroll offset kept within the content: no further than where the last
/// line reaches the bottom of the body.
pub open spec fn spec_scroll_offset(offset: u16, line_count: nat, area_height: u16) -> u16 {
    let max: nat = if line_count > visible_count(area_height) {
        (line_count - visible_count(area_height)) as nat
    } else {
        0
    };
    let max16: u16 = (max % 0x10000) as u16;
    if offset < max16 {
        offset
    } else {
        max16
    }
}

/// The scroll offset kept within the content.
pub fn scroll_offset(offset: u16, line_count: usize, area_height: u16) -> (r: u16)
    ensures
        r == spec_scroll_offset(offset, line_count as nat, area_height),
{
    let visible_lines = area_height.saturating_sub(2) as usize;
    let max: usize = line_count.saturating_sub(visible_lines);
    let max16: u16 = #[verifier::truncate] (max as u16);
    assert(max16 == max % 0x10000) by (bit_vector)
        requires
            max16 == #[verifier::truncate] (max as u16),
    ;
    if offset < max16 {
        offset
    } else {
        max16
    }
}

/// The body width: the area's width less its borders, and at least 20.
pub fn body_width(area_width: u16) -> (r: usize)
    ensures
        r == (if area_width < 22 {
            20
        } else {
            area_width - 2
        }),
{
    let inner = area_width.saturating_sub(2);
    if inner < 20 {
        20
    } else {
        inner as usize
    }
}

/// A rectangle of the terminal.
#[derive(Debug, Clone, Copy, PartialEq, Eq, Structural)]
pub struct Area {
    pub x: u16,
    pub y: u16,
    pub width: u16,
    pub height: u16,
}

/// The area covering `top` and the `bottom` area under it.
pub fn merged_area(top: Area, bottom: Area) -> (r: Area)
    ensures
        r.x == top.x,
        r.y == top.y,
        r.width == top.width,
        r.height == (if top.height + bottom.height <= u16::MAX {
            top.height + bottom.height
        } else {
            u16::MAX as int
        }),
{
    Area { x: top.x, y: top.y, width: top.width, height: top.height.saturating_add(bottom.height) }
}

/// `a + 1`, or `a` when that does not fit.
pub open spec fn sat_inc_u64(a: u64) -> u64 {
    if a < u64::MAX {
        (a + 1) as u64
    } else {
        a
    }
}

/// `a + 1`, or `a` when that does not fit.
pub open spec fn sat_inc_usize(a: usize) -> usize {
    if a < usize::MAX {
        (a + 1) as usize
    } else {
        a
    }
}

impl AppState {
    /// The state before the first load: loading the first journal page of the
    /// first statement of the first page, entries shown.
    pub fn new() -> (r: Self)
        ensures
            !r.should_quit,
            r.state is Loading,
            r.view_mode == ViewMode::Entries,
            r.load_generation == 0,
            r.active_target == (LoadTarget { statement_page: 1, selected_index: 0, journal_page: 1 }),
            r.scroll_offset == 0,
    {
        AppState {
            should_quit: false,
            state: ScreenState::Loading,
            view_mode: ViewMode::Entries,
            load_generation: 0,
            active_target: LoadTarget { statement_page: 1, selected_index: 0, journal_page: 1 },
            scroll_offset: 0,
        }
    }

    /// What is on screen now, as a load target: the loaded screen's pages and
    /// selection, or the target of the load under way.
    pub open spec fn spec_current_target(self) -> LoadTarget {
        match self.state {
            ScreenState::Loaded(screen) => LoadTarget {
                statement_page: screen.statement_page,
                selected_index: screen.selected_index,
                journal_page: screen.journals.page,
            },
            _ => self.active_target,
        }
    }

    /// The load an action starts, if any. Refresh reloads what is on screen.
    /// With a screen loaded: the next journal page when there is one; the
    /// previous journal page from page 2 on; the next statement, or the first
    /// statement of the next page after the last one; the previous statement,
    /// or from the first one the last statement of the previous page. A new
    /// statement starts at its first journal page.
    pub open spec fn spec_load_for(self, action: Action) -> Option<LoadTarget> {
        match action {
            Action::Refresh => Some(self.spec_current_target()),
            Action::JournalNextPage => match self.state {
                ScreenState::Loaded(screen) => if spec_has_next_journal_page(screen.journals) {
                    Some(
                        LoadTarget {
                            statement_page: screen.statement_page,
                            selected_index: screen.selected_index,
                            journal_page: sat_inc_u64(screen.journals.page),
                        },
                    )
                } else {
                    None
                },
                _ => None,
            },
            Action::JournalPreviousPage => match self.state {
                ScreenState::Loaded(screen) => if screen.journals.page > 1 {
                    Some(
                        LoadTarget {
                            statement_page: screen.statement_page,
                            selected_index: screen.selected_index,
                            journal_page: (screen.journals.page - 1) as u64,
                        },
                    )
                } else {
                    None
                },
                _ => None,
            },
            Action::SelectNextStatement => match self.state {
                ScreenState::Loaded(screen) => if sat_inc_usize(screen.selected_index)
                    < screen.statements@.len() {
                    Some(
                        LoadTarget {
                            statement_page: screen.statement_page,
                            selected_index: sat_inc_usize(screen.selected_index),
                            journal_page: 1,
                        },
                    )
                } else if spec_has_next_statement_page(*screen) {
                    Some(
                        LoadTarget {
                            statement_page: sat_inc_u64(screen.statement_page),
                            selected_index: 0,
                            journal_page: 1,
                        },
                    )
                } else {
                    None
                },
                _ => None,
            },
            Action::SelectPreviousStatement => match self.state {
                ScreenState::Loaded(screen) => if screen.selected_index > 0 {
                    Some(
                        LoadTarget {
                            statement_page: screen.statement_page,
                            selected_index: (screen.selected_index - 1) as usize,
                            journal_page: 1,
                        },
                    )
                } else if screen.statement_page > 1 {
                    Some(
                        LoadTarget {
                            statement_page: (screen.statement_page - 1) as u64,
                            selected_index: usize::MAX,
                            journal_page: 1,
                        },
                    )
                } else {
                    None
                },
                _ => None,
            },
            _ => None,
        }
    }

    /// The scroll offset after an action that starts no load: one line or one
    /// page down or up (stopping at the ends of the range), to the start or
    /// to the end; switching the view returns to the top.
    pub open spec fn spec_scroll_after(self, action: Action) -> u16 {
        let o = self.scroll_offset;
        match action {
            Action::ScrollDown => if o < u16::MAX {
                (o + 1) as u16
            } else {
                o
            },
            Action::ScrollUp => if o > 0 {
                (o - 1) as u16
            } else {
                0
            },
            Action::ScrollPageDown => if o + PAGE_SCROLL <= u16::MAX {
                (o + PAGE_SCROLL) as u16
            } else {
                u16::MAX
            },
            Action::ScrollPageUp => if o >= PAGE_SCROLL {
                (o - PAGE_SCROLL) as u16
            } else {
                0
            },
            Action::ScrollStart => 0,
            Action::ScrollEnd => u16::MAX,
            Action::ShowEntries => if self.view_mode != ViewMode::Entries {
                0
            } else {
                o
            },
            Action::ShowTotals => if self.view_mode != ViewMode::Totals {
                0
            } else {
                o
            },
            _ => o,
        }
    }

    /// The view after an action.
    pub open spec fn spec_view_after(self, action: Action) -> ViewMode {
        match action {
            Action::ShowEntries => ViewMode::Entries,
            Action::ShowTotals => ViewMode::Totals,
            _ => self.view_mode,
        }
    }

    /// What is on screen now, as a load target.
    pub fn current_target(&self) -> (r: LoadTarget)
        ensures
            r == self.spec_current_target(),
    {
        match &self.state {
            ScreenState::Loaded(screen) => LoadTarget {
                statement_page: screen.statement_page,
                selected_index: screen.selected_index,
                journal_page: screen.journals.page,
            },
            _ => self.active_target,
        }
    }

    /// Starts a load: a new generation, the target recorded, the screen
    /// loading, back at the top.
    fn load(&mut self, target: LoadTarget) -> (r: LoadRequest)
        requires
            old(self).load_generation < u64::MAX,
        ensures
            final(self).load_generation == old(self).load_generation + 1,
            final(self).active_target == target,
            final(self).state is Loading,
            final(self).scroll_offset == 0,
            final(self).should_quit == old(self).should_quit,
            final(self).view_mode == old(self).view_mode,
            r == (LoadRequest { generation: final(self).load_generation, target }),
    {
        self.load_generation = self.load_generation + 1;
        self.active_target = target;
        self.state = ScreenState::Loading;
        self.scroll_offset = 0;
        LoadRequest { generation: self.load_generation, target }
    }

    fn load_for(&self, action: Action) -> (r: Option<LoadTarget>)
        ensures
            r == self.spec_load_for(action),
    {
        match action {
            Action::Refresh => Some(self.current_target()),
            Action::JournalNextPage => match &self.state {
                ScreenState::Loaded(screen) => {
                    if has_next_journal_page(&screen.journals) {
                        Some(
                            LoadTarget {
                                statement_page: screen.statement_page,
                                selected_index: screen.selected_index,
                                journal_page: screen.journals.page.saturating_add(1),
                            },
                        )
                    } else {
                        None
                    }
                },
                _ => None,
            },
            Action::JournalPreviousPage => match &self.state {
                ScreenState::Loaded(screen) => {
                    if screen.journals.page > 1 {
                        Some(
                            LoadTarget {
                                statement_page: screen.statement_page,
                                selected_index: screen.selected_index,
                                journal_page: screen.journals.page - 1,
                            },
                        )
                    } else {
                        None
                    }
                },
                _ => None,
            },
            Action::SelectNextStatement => match &self.state {
                ScreenState::Loaded(screen) => {
                    let next_index = screen.selected_index.saturating_add(1);
                    if next_index < screen.statements.len() {
                        Some(
                            LoadTarget {
                                statement_page: screen.statement_page,
                                selected_index: next_index,
                                journal_page: 1,
                            },
                        )
                    } else if has_next_statement_page(screen) {
                        Some(
                            LoadTarget {
                                statement_page: screen.statement_page.saturating_add(1),
                                selected_index: 0,
                                journal_page: 1,
                            },
                        )
                    } else {
                        None
                    }
                },
                _ => None,
            },
            Action::SelectPreviousStatement => match &self.state {
                ScreenState::Loaded(screen) => {
                    if screen.selected_index > 0 {
                        Some(
                            LoadTarget {
                                statement_page: screen.statement_page,
                                selected_index: screen.selected_index - 1,
                                journal_page: 1,
                            },
                        )
                    } else if screen.statement_page > 1 {
                        Some(
                            LoadTarget {
                                statement_page: screen.statement_page - 1,
                                selected_index: usize::MAX,
                                journal_page: 1,
                            },
                        )
                    } else {
                        None
                    }
                },
                _ => None,
            },
            _ => None,
        }
    }

    /// Applies an action, and gives the load to start when it asks for one.
    pub fn handle_action(&mut self, action: Action) -> (r: Option<LoadRequest>)
        requires
            old(self).load_generation < u64::MAX,
        ensures
            final(self).should_quit == (old(self).should_quit || action == Action::Quit),
            final(self).view_mode == old(self).spec_view_after(action),
            match old(self).spec_load_for(action) {
                Some(target) => {
                    &&& r == Some(
                        LoadRequest { generation: (old(self).load_generation + 1) as u64, target },
                    )
                    &&& final(self).load_generation == old(self).load_generation + 1
                    &&& final(self).active_target == target
                    &&& final(self).state is Loading
                    &&& final(self).scroll_offset == 0
                },
                None => {
                    &&& r is None
                    &&& final(self).load_generation == old(self).load_generation
                    &&& final(self).active_target == old(self).active_target
                    &&& final(self).state == old(self).state
                    &&& final(self).scroll_offset == old(self).spec_scroll_after(action)
                },
            },
    {
        match action {
            Action::Quit => {
                self.should_quit = true;
                None
            },
            Action::ShowEntries => {
                if self.view_mode != ViewMode::Entries {
                    self.view_mode = ViewMode::Entries;
                    self.scroll_offset = 0;
                }
                None
            },
            Action::ShowTotals => {
                if self.view_mode != ViewMode::Totals {
                    self.view_mode = ViewMode::Totals;
                    self.scroll_offset = 0;
                }
                None
            },
            Action::ScrollDown => {
                self.scroll_offset = self.scroll_offset.saturating_add(1);
                None
            },
            Action::ScrollEnd => {
                self.scroll_offset = u16::MAX;
                None
            },
            Action::ScrollPageDown => {
                self.scroll_offset = self.scroll_offset.saturating_add(PAGE_SCROLL);
                None
            },
            Action::ScrollPageUp => {
                self.scroll_offset = self.scroll_offset.saturating_sub(PAGE_SCROLL);
                None
            },
            Action::ScrollStart => {
                self.scroll_offset = 0;
                None
            },
            Action::ScrollUp => {
                self.scroll_offset = self.scroll_offset.saturating_sub(1);
                None
            },
            _ => {
                match self.load_for(action) {
                    Some(target) => Some(self.load(target)),
                    None => None,
                }
            },
        }
    }

    /// Takes in the result of a load. Only the result of the latest load
    /// counts: it sets the screen (loaded, or the error's message), records
    /// its target and returns to the top, and `true` is returned. The result
    /// of an older load changes nothing, and `false` is returned.
    pub fn receive_load(
        &mut self,
        generation: u64,
        target: LoadTarget,
        result: Result<IncomeStatementScreen, String>,
    ) -> (r: bool)
        ensures
            r == (generation == old(self).load_generation),
            final(self).should_quit == old(self).should_quit,
            final(self).view_mode == old(self).view_mode,
            final(self).load_generation == old(self).load_generation,
            r ==> {
                &&& final(self).active_target == target
                &&& final(self).scroll_offset == 0
                &&& match result {
                    Ok(screen) => final(self).state matches ScreenState::Loaded(s) && *s == screen,
                    Err(message) => final(self).state matches ScreenState::Error(m) && m == message,
                }
            },
            !r ==> {
                &&& final(self).active_target == old(self).active_target
                &&& final(self).scroll_offset == old(self).scroll_offset
                &&& final(self).state == old(self).state
            },
    {
        if generation != self.load_generation {
            return false;
        }
        self.active_target = target;
        self.state = match result {
            Ok(screen) => ScreenState::Loaded(Box::new(screen)),
            Err(message) => ScreenState::Error(message),
        };
        self.scroll_offset = 0;
        true
    }
}

/// The kept scroll offset is never past the offset asked for, is zero when
/// the content fits in the body, and keeping it again changes nothing.
pub proof fn law_scroll_offset_clamped(offset: u16, line_count: nat, area_height: u16)
    ensures
        spec_scroll_offset(offset, line_count, area_height) <= offset,
        line_count <= visible_count(area_height) ==> spec_scroll_offset(
            offset,
            line_count,
            area_height,
        ) == 0,
        spec_scroll_offset(spec_scroll_offset(offset, line_count, area_height), line_count, area_height)
            == spec_scroll_offset(offset, line_count, area_height),
{
}

/// A screen loaded as the next journal page goes back, with the previous
/// page, to the screen it came from.
pub proof fn law_journal_pages_step_back(before: AppState, after: AppState)
    requires
        before.state matches ScreenState::Loaded(b) && after.state matches ScreenState::Loaded(
            a,
        ) && {
            &&& before.spec_load_for(Action::JournalNextPage) == Some(after.spec_current_target())
            &&& 1 <= b.journals.page < u64::MAX
        },
    ensures
        after.spec_load_for(Action::JournalPreviousPage) == Some(before.spec_current_target()),
{
    if let (ScreenState::Loaded(b), ScreenState::Loaded(a)) = (before.state, after.state) {
        assert(spec_has_next_journal_page(b.journals));
    }
}

/// A screen loaded as the next statement of the same page goes back, with the
/// previous statement, to the first journal page of the statement it came
/// from.
pub proof fn law_statements_step_back(before: AppState, after: AppState)
    requires
        before.state matches ScreenState::Loaded(b) && after.state matches ScreenState::Loaded(
            a,
        ) && {
            &&& before.spec_load_for(Action::SelectNextStatement) == Some(
                after.spec_current_target(),
            )
            &&& a.statement_page == b.statement_page
            &&& b.statement_page < u64::MAX
        },
    ensures
        after.spec_load_for(Action::SelectPreviousStatement) == Some(
            LoadTarget {
                journal_page: 1,
                ..before.spec_current_target()
            },
        ),
{
    if let (ScreenState::Loaded(b), ScreenState::Loaded(a)) = (before.state, after.state) {
        assert(b.statements@.len() == b.statements.len());
        assert(sat_inc_usize(b.selected_index) < b.statements@.len());
    }
}

/// Scrolling moves the offset the way it says: up never increases it, down
/// never decreases it, a line or a page down from below the end moves by
/// exactly that much, a page down and then a page up come back to where they
/// started, and no scrolling starts a load.
pub proof fn law_scroll_directions(s: AppState)
    ensures
        s.spec_scroll_after(Action::ScrollUp) <= s.scroll_offset,
        s.spec_scroll_after(Action::ScrollPageUp) <= s.scroll_offset,
        s.spec_scroll_after(Action::ScrollDown) >= s.scroll_offset,
        s.spec_scroll_after(Action::ScrollPageDown) >= s.scroll_offset,
        s.scroll_offset >= PAGE_SCROLL ==> s.spec_scroll_after(Action::ScrollPageUp)
            == s.scroll_offset - PAGE_SCROLL,
        s.scroll_offset > 0 ==> s.spec_scroll_after(Action::ScrollUp) == s.scroll_offset - 1,
        s.scroll_offset + PAGE_SCROLL <= u16::MAX ==> s.spec_scroll_after(Action::ScrollPageDown)
            == s.scroll_offset + PAGE_SCROLL,
        s.scroll_offset + PAGE_SCROLL <= u16::MAX ==> (AppState {
            scroll_offset: s.spec_scroll_after(Action::ScrollPageDown),
            ..s
        }).spec_scroll_after(Action::ScrollPageUp) == s.scroll_offset,
        s.scroll_offset < u16::MAX ==> (AppState {
            scroll_offset: s.spec_scroll_after(Action::ScrollDown),
            ..s
        }).spec_scroll_after(Action::ScrollUp) == s.scroll_offset,
        s.spec_scroll_after(Action::ScrollStart) == 0,
        s.spec_load_for(Action::ScrollUp) is None,
        s.spec_load_for(Action::ScrollDown) is None,
        s.spec_load_for(Action::ScrollPageUp) is None,
        s.spec_load_for(Action::ScrollPageDown) is None,
        s.spec_load_for(Action::ScrollStart) is None,
        s.spec_load_for(Action::ScrollEnd) is None,
{
}

} // verus!
