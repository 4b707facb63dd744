//! The paged ports menu: which row or button has the focus, paging, and
//! the text it shows.
use vstd::prelude::*;

use crate::keys::{cancels, is_cancel, Key};
use crate::num::{dec, decimal};
use crate::ports::{PortQuery, PortRow, PortRowView, PortsSort, PAGE_SIZE};
use crate::text::{
    all_ws, clamp, clamp_seq, is_blank, opt_view, owned, pad_left, pad_left_seq, pad_right,
    pad_right_seq, push_str,
};

verus! {

/// What has the keyboard focus in the ports menu.
#[derive(Clone, Copy, PartialEq, Eq, Debug, Structural)]
pub enum Focus {
    Row,
    Kill,
    Prev,
    Next,
}

/// What pressing Enter asks for.
#[derive(Clone, Copy, PartialEq, Eq, Debug, Structural)]
pub enum MenuAction {
    /// Open the detail view of the selected row.
    ShowDetail,
    /// Stop the process of the visible row at this index, then reload.
    Kill(usize),
    /// Nothing to do outside the menu; redraw everything when `true`.
    Redraw(bool),
}

/// The state of the ports menu.
pub struct PortsMenu {
    pub rows: Vec<PortRow>,
    pub page: usize,
    pub selected_row: usize,
    pub focus: Focus,
    pub status: Option<String>,
    pub query: PortQuery,
}

/// The number of pages for `n` rows (at least one).
pub open spec fn page_count_of(n: int) -> int {
    let m = if n < 1 {
        1
    } else {
        n
    };
    (m + PAGE_SIZE - 1) / (PAGE_SIZE as int)
}

/// The number of rows shown on `page`.
pub open spec fn visible_count_of(n: int, page: int) -> int {
    let start = page * PAGE_SIZE;
    if start >= n {
        0
    } else if n - start < PAGE_SIZE {
        n - start
    } else {
        PAGE_SIZE as int
    }
}

pub open spec fn is_row_focus(f: Focus) -> bool {
    f == Focus::Row || f == Focus::Kill
}

/// The navigation state of the menu: how many rows there are, the page,
/// the selected row on the page and the focus.
pub struct MenuState {
    pub len: int,
    pub page: int,
    pub selected: int,
    pub focus: Focus,
}

impl MenuState {
    pub open spec fn vis(self) -> int {
        visible_count_of(self.len, self.page)
    }

    pub open spec fn pages(self) -> int {
        page_count_of(self.len)
    }

    /// The page exists.
    pub open spec fn wf(self) -> bool {
        0 <= self.len && 0 <= self.page < self.pages() && 0 <= self.selected
    }

    /// The focus is on a visible row, or on a page button when the page is
    /// empty.
    pub open spec fn selection_ok(self) -> bool {
        &&& self.vis() > 0 ==> self.selected < self.vis()
        &&& self.vis() == 0 ==> self.selected == 0 && !is_row_focus(self.focus)
    }

    pub open spec fn with(self, selected: int, focus: Focus) -> MenuState {
        MenuState { len: self.len, page: self.page, selected, focus }
    }
}

/// Moves the selection back onto the page: to its last row when it is
/// past it, or to the Next button when the page is empty.
pub open spec fn normalize_state(s: MenuState) -> MenuState {
    if s.vis() == 0 {
        s.with(
            0,
            if is_row_focus(s.focus) {
                Focus::Next
            } else {
                s.focus
            },
        )
    } else if s.selected >= s.vis() {
        s.with(s.vis() - 1, s.focus)
    } else {
        s
    }
}

/// Up: the previous row, or from a page button the last row.
pub open spec fn move_up_state(s: MenuState) -> MenuState {
    if is_row_focus(s.focus) {
        if s.selected > 0 {
            s.with(s.selected - 1, s.focus)
        } else {
            s
        }
    } else if s.vis() > 0 {
        s.with(s.vis() - 1, Focus::Row)
    } else {
        s
    }
}

/// Down: the next row, or from the last row the Next button.
pub open spec fn move_down_state(s: MenuState) -> MenuState {
    if is_row_focus(s.focus) {
        if s.selected + 1 < s.vis() {
            s.with(s.selected + 1, s.focus)
        } else {
            s.with(s.selected, Focus::Next)
        }
    } else {
        s
    }
}

/// Left: from Kill to the row, from Next to Prev.
pub open spec fn move_left_state(s: MenuState) -> MenuState {
    s.with(
        s.selected,
        match s.focus {
            Focus::Kill => Focus::Row,
            Focus::Next => Focus::Prev,
            other => other,
        },
    )
}

/// Right: from a row to its Kill button (when rows are shown), from Prev
/// to Next.
pub open spec fn move_right_state(s: MenuState) -> MenuState {
    s.with(
        s.selected,
        match s.focus {
            Focus::Row => if s.vis() > 0 {
                Focus::Kill
            } else {
                Focus::Row
            },
            Focus::Prev => Focus::Next,
            other => other,
        },
    )
}

/// Home: the first row.
pub open spec fn home_state(s: MenuState) -> MenuState {
    s.with(0, Focus::Row)
}

/// End: the last row of the page.
pub open spec fn end_state(s: MenuState) -> MenuState {
    s.with(
        if s.vis() > 0 {
            s.vis() - 1
        } else {
            0
        },
        Focus::Row,
    )
}

/// The previous page with its first row selected, when there is one;
/// the flag tells whether the page changed.
pub open spec fn previous_page_state(s: MenuState) -> (MenuState, bool) {
    if s.page == 0 {
        (s, false)
    } else {
        (MenuState { len: s.len, page: s.page - 1, selected: 0, focus: Focus::Row }, true)
    }
}

/// The next page with its first row selected, when there is one; the flag
/// tells whether the page changed.
pub open spec fn next_page_state(s: MenuState) -> (MenuState, bool) {
    if s.page + 1 >= s.pages() {
        (s, false)
    } else {
        (MenuState { len: s.len, page: s.page + 1, selected: 0, focus: Focus::Row }, true)
    }
}

/// After loading `len` rows afresh: the page is kept if it still exists
/// (else the last page), the selection is kept on the page, and the
/// focus goes to the rows, or to Next when the page is empty.
pub open spec fn refresh_state(s: MenuState, len: int) -> MenuState {
    let page = if s.page < page_count_of(len) {
        s.page
    } else {
        page_count_of(len) - 1
    };
    let vis = visible_count_of(len, page);
    let last = if vis > 0 {
        vis - 1
    } else {
        0
    };
    MenuState {
        len,
        page,
        selected: if s.selected > last {
            last
        } else {
            s.selected
        },
        focus: if vis > 0 {
            Focus::Row
        } else {
            Focus::Next
        },
    }
}

/// What Enter does: on a row, ask for its detail; on Kill, ask to stop
/// the process of the selected row (when the page shows it); on a page
/// button, turn the page.
pub open spec fn accept_state(s: MenuState) -> (MenuState, MenuAction) {
    match s.focus {
        Focus::Row => (s, MenuAction::ShowDetail),
        Focus::Kill => (s, if s.selected < s.vis() {
            MenuAction::Kill(s.selected as usize)
        } else {
            MenuAction::Redraw(false)
        }),
        Focus::Prev => (previous_page_state(s).0, MenuAction::Redraw(previous_page_state(s).1)),
        Focus::Next => (next_page_state(s).0, MenuAction::Redraw(next_page_state(s).1)),
    }
}

/// A letter key, with or without Ctrl: `p` and `n` turn the page, `r`
/// reloads; any other letter only keeps the selection on the page.
pub open spec fn letter_step(s: MenuState, c: char) -> (MenuState, PortsKeyOutcome) {
    if c == 'p' {
        (normalize_state(previous_page_state(s).0), PortsKeyOutcome::Paged(previous_page_state(s).1))
    } else if c == 'n' {
        (normalize_state(next_page_state(s).0), PortsKeyOutcome::Paged(next_page_state(s).1))
    } else if c == 'r' {
        (s, PortsKeyOutcome::Refresh)
    } else {
        (normalize_state(s), PortsKeyOutcome::Moved)
    }
}

/// What a key press in the list does to the menu, and what it leaves to
/// the caller. Close and reload leave the menu as it is; every other key
/// ends with the selection kept on the page.
pub open spec fn key_step(s: MenuState, key: Key) -> (MenuState, PortsKeyOutcome) {
    match key {
        Key::Up => (normalize_state(move_up_state(s)), PortsKeyOutcome::Moved),
        Key::Down => (normalize_state(move_down_state(s)), PortsKeyOutcome::Moved),
        Key::Left => (normalize_state(move_left_state(s)), PortsKeyOutcome::Moved),
        Key::Right => (normalize_state(move_right_state(s)), PortsKeyOutcome::Moved),
        Key::Home => (normalize_state(home_state(s)), PortsKeyOutcome::Moved),
        Key::End => (normalize_state(end_state(s)), PortsKeyOutcome::Moved),
        Key::PageUp => (
            normalize_state(previous_page_state(s).0),
            PortsKeyOutcome::Paged(previous_page_state(s).1),
        ),
        Key::PageDown => (
            normalize_state(next_page_state(s).0),
            PortsKeyOutcome::Paged(next_page_state(s).1),
        ),
        Key::Enter => (
            normalize_state(accept_state(s).0),
            PortsKeyOutcome::Accept(accept_state(s).1),
        ),
        Key::Char(c) => letter_step(s, c),
        Key::Ctrl(c) => if c == 'c' {
            (s, PortsKeyOutcome::Close)
        } else {
            letter_step(s, c)
        },
        _ => if is_cancel(key) {
            (s, PortsKeyOutcome::Close)
        } else {
            (normalize_state(s), PortsKeyOutcome::Moved)
        },
    }
}

/// The first row of an existing page is a row (or the page is the only,
/// empty one).
pub proof fn lemma_page_start(len: int, page: int)
    requires
        0 <= len,
        0 <= page < page_count_of(len),
    ensures
        page * PAGE_SIZE < (if len < 1 {
            1
        } else {
            len
        }),
{
    let m = if len < 1 {
        1
    } else {
        len
    };
    assert(page * 20 < m) by (nonlinear_arith)
        requires
            0 <= page,
            page < (m + 19) / 20,
            m >= 1,
    ;
}

impl PortsMenu {
    pub open spec fn state(&self) -> MenuState {
        MenuState {
            len: self.rows@.len() as int,
            page: self.page as int,
            selected: self.selected_row as int,
            focus: self.focus,
        }
    }

    /// The page exists.
    pub open spec fn wf(&self) -> bool {
        self.state().wf()
    }

    pub open spec fn vis(&self) -> int {
        self.state().vis()
    }

    /// Only the navigation state changed.
    pub open spec fn same_data(&self, other: &PortsMenu) -> bool {
        &&& self.rows == other.rows
        &&& self.query == other.query
        &&& self.status == other.status
    }

    /// A menu on the first page with the first row selected.
    pub fn new(rows: Vec<PortRow>, query: PortQuery) -> (m: PortsMenu)
        ensures
            m.rows == rows,
            m.query == query,
            m.status is None,
            m.state() == (MenuState {
                len: rows@.len() as int,
                page: 0,
                selected: 0,
                focus: Focus::Row,
            }),
            m.wf(),
    {
        PortsMenu { rows, page: 0, selected_row: 0, focus: Focus::Row, status: None, query }
    }

    /// The number of pages.
    pub fn page_count(&self) -> (r: usize)
        ensures
            r as int == page_count_of(self.rows@.len() as int),
            r >= 1,
    {
        let n = self.rows.len();
        let m = if n < 1 {
            1
        } else {
            n
        };
        m / PAGE_SIZE + if m % PAGE_SIZE != 0 {
            1
        } else {
            0
        }
    }

    /// The rows on the current page.
    pub fn visible_rows(&self) -> (r: &[PortRow])
        requires
            self.wf(),
        ensures
            r@ == self.rows@.subrange(
                self.page * PAGE_SIZE,
                self.page * PAGE_SIZE + self.vis(),
            ),
    {
        let _n = self.rows.len();
        proof {
            lemma_page_start(self.rows@.len() as int, self.page as int);
        }
        let start = self.page * PAGE_SIZE;
        let end = if self.rows.len() - start < PAGE_SIZE {
            self.rows.len()
        } else {
            start + PAGE_SIZE
        };
        &self.rows.as_slice()[start..end]
    }

    /// The number of rows on the current page.
    pub fn visible_count(&self) -> (r: usize)
        requires
            self.wf(),
        ensures
            r as int == self.vis(),
            r <= PAGE_SIZE,
    {
        let _n = self.rows.len();
        proof {
            lemma_page_start(self.rows@.len() as int, self.page as int);
        }
        let start = self.page * PAGE_SIZE;
        if start >= self.rows.len() {
            0
        } else if self.rows.len() - start < PAGE_SIZE {
            self.rows.len() - start
        } else {
            PAGE_SIZE
        }
    }

    pub fn normalize_selection(&mut self)
        requires
            old(self).wf(),
        ensures
            final(self).same_data(old(self)),
            final(self).state() == normalize_state(old(self).state()),
    {
        let visible_count = self.visible_count();
        if visible_count == 0 {
            self.selected_row = 0;
            if self.focus == Focus::Row || self.focus == Focus::Kill {
                self.focus = Focus::Next;
            }
            return;
        }
        if self.selected_row >= visible_count {
            self.selected_row = visible_count - 1;
        }
    }

    pub fn move_up(&mut self)
        requires
            old(self).wf(),
        ensures
            final(self).same_data(old(self)),
            final(self).state() == move_up_state(old(self).state()),
    {
        match self.focus {
            Focus::Row | Focus::Kill => {
                if self.selected_row > 0 {
                    self.selected_row = self.selected_row - 1;
                }
            },
            Focus::Prev | Focus::Next => {
                let vc = self.visible_count();
                if vc > 0 {
                    self.focus = Focus::Row;
                    self.selected_row = vc - 1;
                }
            },
        }
    }

    pub fn move_down(&mut self)
        requires
            old(self).wf(),
        ensures
            final(self).same_data(old(self)),
            final(self).state() == move_down_state(old(self).state()),
    {
        match self.focus {
            Focus::Row | Focus::Kill => {
                let vc = self.visible_count();
                if self.selected_row < vc && self.selected_row + 1 < vc {
                    self.selected_row = self.selected_row + 1;
                } else {
                    self.focus = Focus::Next;
                }
            },
            Focus::Prev | Focus::Next => {},
        }
    }

    pub fn move_left(&mut self)
        ensures
            final(self).same_data(old(self)),
            final(self).state() == move_left_state(old(self).state()),
    {
        self.focus = match self.focus {
            Focus::Kill => Focus::Row,
            Focus::Next => Focus::Prev,
            other => other,
        };
    }

    pub fn move_right(&mut self)
        requires
            old(self).wf(),
        ensures
            final(self).same_data(old(self)),
            final(self).state() == move_right_state(old(self).state()),
    {
        let vc = self.visible_count();
        self.focus = match self.focus {
            Focus::Row => if vc > 0 {
                Focus::Kill
            } else {
                Focus::Row
            },
            Focus::Prev => Focus::Next,
            other => other,
        };
    }

    pub fn home(&mut self)
        ensures
            final(self).same_data(old(self)),
            final(self).state() == home_state(old(self).state()),
    {
        self.focus = Focus::Row;
        self.selected_row = 0;
    }

    pub fn end(&mut self)
        requires
            old(self).wf(),
        ensures
            final(self).same_data(old(self)),
            final(self).state() == end_state(old(self).state()),
    {
        let vc = self.visible_count();
        self.focus = Focus::Row;
        self.selected_row = if vc > 0 {
            vc - 1
        } else {
            0
        };
    }

    /// Turns to the previous page; `true` when the page changed.
    pub fn previous_page(&mut self) -> (changed: bool)
        requires
            old(self).wf(),
        ensures
            final(self).same_data(old(self)),
            (final(self).state(), changed) == previous_page_state(old(self).state()),
    {
        if self.page == 0 {
            return false;
        }
        self.page = self.page - 1;
        self.selected_row = 0;
        self.focus = Focus::Row;
        true
    }

    /// Turns to the next page; `true` when the page changed.
    pub fn next_page(&mut self) -> (changed: bool)
        requires
            old(self).wf(),
        ensures
            final(self).same_data(old(self)),
            (final(self).state(), changed) == next_page_state(old(self).state()),
    {
        let _n = self.rows.len();
        proof {
            lemma_page_start(self.rows@.len() as int, self.page as int);
        }
        if self.page + 1 >= self.page_count() {
            return false;
        }
        self.page = self.page + 1;
        self.selected_row = 0;
        self.focus = Focus::Row;
        true
    }

    /// Replaces the rows with a fresh load.
    pub fn refresh_rows(&mut self, rows: Vec<PortRow>)
        ensures
            final(self).rows == rows,
            final(self).query == old(self).query,
            final(self).status == old(self).status,
            final(self).state() == refresh_state(old(self).state(), rows@.len() as int),
    {
        self.rows = rows;
        let pc = self.page_count();
        if self.page >= pc {
            self.page = pc - 1;
        }
        let _n = self.rows.len();
        proof {
            lemma_page_start(self.rows@.len() as int, self.page as int);
        }
        let start = self.page * PAGE_SIZE;
        let vc = if start >= self.rows.len() {
            0
        } else if self.rows.len() - start < PAGE_SIZE {
            self.rows.len() - start
        } else {
            PAGE_SIZE
        };
        let last = if vc > 0 {
            vc - 1
        } else {
            0
        };
        if self.selected_row > last {
            self.selected_row = last;
        }
        self.focus = if vc > 0 {
            Focus::Row
        } else {
            Focus::Next
        };
    }

    /// What Enter asks for: the detail of the row, stopping its process,
    /// or turning the page (which happens here).
    pub fn accept(&mut self) -> (a: MenuAction)
        requires
            old(self).wf(),
        ensures
            final(self).same_data(old(self)),
            (final(self).state(), a) == accept_state(old(self).state()),
    {
        match self.focus {
            Focus::Row => MenuAction::ShowDetail,
            Focus::Kill => if self.selected_row < self.visible_count() {
                MenuAction::Kill(self.selected_row)
            } else {
                MenuAction::Redraw(false)
            },
            Focus::Prev => MenuAction::Redraw(self.previous_page()),
            Focus::Next => MenuAction::Redraw(self.next_page()),
        }
    }
}

/// Every navigation step keeps the menu on an existing page, and so does
/// loading new rows.
pub proof fn law_menu_steps_keep_page(s: MenuState, len: int)
    requires
        s.wf(),
        0 <= len,
    ensures
        normalize_state(s).wf(),
        move_up_state(s).wf(),
        move_down_state(s).wf(),
        move_left_state(s).wf(),
        move_right_state(s).wf(),
        home_state(s).wf(),
        end_state(s).wf(),
        previous_page_state(s).0.wf(),
        next_page_state(s).0.wf(),
        refresh_state(s, len).wf(),
{
    assert(page_count_of(len) >= 1);
}

/// After normalizing, the focus is on a visible row or on a page button
/// of an empty page, and normalizing again changes nothing.
pub proof fn law_normalize_selection(s: MenuState)
    requires
        s.wf(),
    ensures
        normalize_state(s).selection_ok(),
        normalize_state(normalize_state(s)) == normalize_state(s),
{
}

/// Loading new rows leaves the focus on a visible row, or on Next when
/// the page is empty.
pub proof fn law_refresh_selection_ok(s: MenuState, len: int)
    requires
        s.wf(),
        0 <= len,
    ensures
        refresh_state(s, len).selection_ok(),
{
    let page = refresh_state(s, len).page;
    assert(page * PAGE_SIZE < if len < 1 {
        1
    } else {
        len
    }) by (nonlinear_arith)
        requires
            0 <= page < page_count_of(len),
    ;
}

/// Turning to the next page and back returns to the page one started on.
pub proof fn law_next_then_previous_page(s: MenuState)
    requires
        s.wf(),
        next_page_state(s).1,
    ensures
        previous_page_state(next_page_state(s).0).1,
        previous_page_state(next_page_state(s).0).0.page == s.page,
{
}

// ---------------------------------------------------------------------
// Text of the menu.
// ---------------------------------------------------------------------

/// The column widths for the local address, remote address and process
/// in a terminal `terminal_width` columns wide.
pub open spec fn column_widths_of(terminal_width: int) -> (int, int, int) {
    let available = if terminal_width - 33 > 32 {
        terminal_width - 33
    } else {
        32
    };
    let local_target = clamp_int(available * 30 / 100, 10, 22);
    let local_width = min_int(local_target, sat_sub(available, 20));
    let remaining = sat_sub(available, local_width);
    let remote_target = clamp_int(remaining * 45 / 100, 10, 24);
    let remote_width = min_int(remote_target, sat_sub(remaining, 10));
    let process_width = if remaining - remote_width > 10 {
        remaining - remote_width
    } else {
        10
    };
    (local_width, remote_width, process_width)
}

pub open spec fn clamp_int(x: int, lo: int, hi: int) -> int {
    if x < lo {
        lo
    } else if x > hi {
        hi
    } else {
        x
    }
}

pub open spec fn min_int(a: int, b: int) -> int {
    if a < b {
        a
    } else {
        b
    }
}

pub open spec fn sat_sub(a: int, b: int) -> int {
    if a > b {
        a - b
    } else {
        0
    }
}

/// Widths of the local, remote and process columns.
pub fn column_widths(terminal_width: u16) -> (r: (usize, usize, usize))
    ensures
        (r.0 as int, r.1 as int, r.2 as int) == column_widths_of(terminal_width as int),
        r.0 + r.1 + r.2 >= 32,
{
    let w = terminal_width as usize;
    let available: usize = if w > 33 && w - 33 > 32 {
        w - 33
    } else {
        32
    };
    let lt = available * 30 / 100;
    let local_target = if lt < 10 {
        10
    } else if lt > 22 {
        22
    } else {
        lt
    };
    let cap = if available > 20 {
        available - 20
    } else {
        0
    };
    let local_width = if local_target < cap {
        local_target
    } else {
        cap
    };
    let remaining = available - local_width;
    let rt = remaining * 45 / 100;
    let remote_target = if rt < 10 {
        10
    } else if rt > 24 {
        24
    } else {
        rt
    };
    let cap2 = if remaining > 10 {
        remaining - 10
    } else {
        0
    };
    let remote_width = if remote_target < cap2 {
        remote_target
    } else {
        cap2
    };
    let process_width = if remaining - remote_width > 10 {
        remaining - remote_width
    } else {
        10
    };
    (local_width, remote_width, process_width)
}

/// The word for a sort order.
pub open spec fn sort_label_seq(sort: PortsSort) -> Seq<char> {
    match sort {
        PortsSort::Port => "port"@,
        PortsSort::State => "state"@,
        PortsSort::Process => "process"@,
    }
}

/// The word for a sort order.
pub fn sort_label(sort: PortsSort) -> (r: &'static str)
    ensures
        r@ == sort_label_seq(sort),
{
    match sort {
        PortsSort::Port => "port",
        PortsSort::State => "state",
        PortsSort::Process => "process",
    }
}

/// The title line: the port, the filters that are not blank, the sort
/// order and whether the view refreshes itself.
pub open spec fn ports_title_seq(port: Option<u16>, state: Option<Seq<char>>, name: Option<
    Seq<char>,
>, sort: PortsSort, refresh: bool) -> Seq<char> {
    let head = match port {
        Some(p) => "TCP Ports: "@ + dec(p as nat),
        None => "TCP Ports"@,
    };
    let with_state = match state {
        Some(s) => if all_ws(s) {
            head
        } else {
            head + " | state: "@ + s
        },
        None => head,
    };
    let with_name = match name {
        Some(n) => if all_ws(n) {
            with_state
        } else {
            with_state + " | process: "@ + n
        },
        None => with_state,
    };
    let with_sort = with_name + " | sort: "@ + sort_label_seq(sort);
    if refresh {
        with_sort + " | live refresh"@
    } else {
        with_sort
    }
}

/// The title line of the ports view.
pub fn ports_title(query: &PortQuery) -> (r: String)
    ensures
        r@ == ports_title_seq(
            query.port,
            opt_view(query.state),
            opt_view(query.name),
            query.sort,
            query.refresh,
        ),
{
    let mut title = match query.port {
        Some(port) => {
            let mut t = owned("TCP Ports: ");
            push_str(&mut t, decimal(port as u64).as_str());
            t
        },
        None => owned("TCP Ports"),
    };
    match &query.state {
        Some(state) => if !is_blank(state.as_str()) {
            push_str(&mut title, " | state: ");
            push_str(&mut title, state.as_str());
        },
        None => {},
    }
    match &query.name {
        Some(name) => if !is_blank(name.as_str()) {
            push_str(&mut title, " | process: ");
            push_str(&mut title, name.as_str());
        },
        None => {},
    }
    push_str(&mut title, " | sort: ");
    push_str(&mut title, sort_label(query.sort));
    if query.refresh {
        push_str(&mut title, " | live refresh");
    }
    title
}

/// A row of the menu: port right-aligned in 6 columns, state in 13, then
/// the clamped local address, remote address and process, each padded to
/// its column width.
pub open spec fn port_row_line_seq(
    port: int,
    state: Seq<char>,
    address: Seq<char>,
    remote: Seq<char>,
    process: Seq<char>,
    lw: nat,
    rw: nat,
    pw: nat,
) -> Seq<char> {
    pad_left_seq(dec(port as nat), 6) + " "@ + pad_right_seq(state, 13) + " "@ + pad_right_seq(
        clamp_seq(address, lw),
        lw,
    ) + " "@ + pad_right_seq(clamp_seq(remote, rw), rw) + " "@ + pad_right_seq(
        clamp_seq(process, pw),
        pw,
    )
}

/// The text of one row for the given column widths.
pub fn port_row_line(row: &PortRow, widths: (usize, usize, usize)) -> (r: String)
    ensures
        r@ == port_row_line_seq(
            row.port as int,
            row.state@,
            row.address@,
            row.remote_address@,
            row.process@,
            widths.0 as nat,
            widths.1 as nat,
            widths.2 as nat,
        ),
{
    let (lw, rw, pw) = widths;
    let mut line = pad_left(decimal(row.port as u64).as_str(), 6);
    push_str(&mut line, " ");
    push_str(&mut line, pad_right(row.state.as_str(), 13).as_str());
    push_str(&mut line, " ");
    push_str(&mut line, pad_right(clamp(row.address.as_str(), lw).as_str(), lw).as_str());
    push_str(&mut line, " ");
    push_str(&mut line, pad_right(clamp(row.remote_address.as_str(), rw).as_str(), rw).as_str());
    push_str(&mut line, " ");
    push_str(&mut line, pad_right(clamp(row.process.as_str(), pw).as_str(), pw).as_str());
    line
}

/// The column headings for the given widths.
pub open spec fn ports_header_seq(lw: nat, rw: nat) -> Seq<char> {
    pad_left_seq("Port"@, 6) + " "@ + pad_right_seq("State"@, 13) + " "@ + pad_right_seq(
        "Local"@,
        lw,
    ) + " "@ + pad_right_seq("Remote"@, rw) + " "@ + "Process"@
}

/// The column headings of the menu.
pub fn ports_header(widths: (usize, usize, usize)) -> (r: String)
    ensures
        r@ == ports_header_seq(widths.0 as nat, widths.1 as nat),
{
    let (lw, rw, _) = widths;
    let mut line = pad_left("Port", 6);
    push_str(&mut line, " ");
    push_str(&mut line, pad_right("State", 13).as_str());
    push_str(&mut line, " ");
    push_str(&mut line, pad_right("Local", lw).as_str());
    push_str(&mut line, " ");
    push_str(&mut line, pad_right("Remote", rw).as_str());
    push_str(&mut line, " ");
    push_str(&mut line, "Process");
    line
}

/// A row as printed when the output is not a terminal: fixed widths and
/// nothing cut.
pub open spec fn plain_port_line_seq(
    port: int,
    state: Seq<char>,
    address: Seq<char>,
    remote: Seq<char>,
    process: Seq<char>,
) -> Seq<char> {
    pad_left_seq(dec(port as nat), 6) + " "@ + pad_right_seq(state, 13) + " "@ + pad_right_seq(
        address,
        22,
    ) + " "@ + pad_right_seq(remote, 26) + " "@ + process
}

/// The printed text of a row.
pub fn plain_port_line(row: &PortRow) -> (r: String)
    ensures
        r@ == plain_port_line_seq(
            row.port as int,
            row.state@,
            row.address@,
            row.remote_address@,
            row.process@,
        ),
{
    let mut line = pad_left(decimal(row.port as u64).as_str(), 6);
    push_str(&mut line, " ");
    push_str(&mut line, pad_right(row.state.as_str(), 13).as_str());
    push_str(&mut line, " ");
    push_str(&mut line, pad_right(row.address.as_str(), 22).as_str());
    push_str(&mut line, " ");
    push_str(&mut line, pad_right(row.remote_address.as_str(), 26).as_str());
    push_str(&mut line, " ");
    push_str(&mut line, row.process.as_str());
    line
}

/// How stopping a process went.
#[derive(Clone, Debug)]
pub enum KillOutcome {
    /// `taskkill` succeeded.
    Stopped,
    /// `taskkill` ran and exited with this status.
    Exited(String),
    /// `taskkill` could not be run, with this error.
    Failed(String),
}

/// The status line after trying to stop the process of a row.
pub open spec fn kill_message_seq(process: Seq<char>, pid: int, port: int, outcome: KillOutcome) -> Seq<char> {
    match outcome {
        KillOutcome::Stopped => "Stopped "@ + process + " on port "@ + dec(port as nat) + "."@,
        KillOutcome::Exited(status) => "Failed to stop PID "@ + dec(pid as nat) + " on port "@
            + dec(port as nat) + ": taskkill exited with "@ + status@ + "."@,
        KillOutcome::Failed(error) => "Failed to stop PID "@ + dec(pid as nat) + " on port "@
            + dec(port as nat) + ": "@ + error@ + "."@,
    }
}

/// The status line after trying to stop the process of a row.
pub fn kill_message(row: &PortRow, outcome: &KillOutcome) -> (r: String)
    ensures
        r@ == kill_message_seq(row.process@, row.pid as int, row.port as int, *outcome),
{
    let port = decimal(row.port as u64);
    match outcome {
        KillOutcome::Stopped => {
            let mut m = owned("Stopped ");
            push_str(&mut m, row.process.as_str());
            push_str(&mut m, " on port ");
            push_str(&mut m, port.as_str());
            push_str(&mut m, ".");
            m
        },
        KillOutcome::Exited(status) => {
            let mut m = owned("Failed to stop PID ");
            push_str(&mut m, decimal(row.pid as u64).as_str());
            push_str(&mut m, " on port ");
            push_str(&mut m, port.as_str());
            push_str(&mut m, ": taskkill exited with ");
            push_str(&mut m, status.as_str());
            push_str(&mut m, ".");
            m
        },
        KillOutcome::Failed(error) => {
            let mut m = owned("Failed to stop PID ");
            push_str(&mut m, decimal(row.pid as u64).as_str());
            push_str(&mut m, " on port ");
            push_str(&mut m, port.as_str());
            push_str(&mut m, ": ");
            push_str(&mut m, error.as_str());
            push_str(&mut m, ".");
            m
        },
    }
}

// ---------------------------------------------------------------------
// Keys.
// ---------------------------------------------------------------------

/// What a key press in the ports menu leaves to the caller.
#[derive(Clone, Copy, PartialEq, Eq, Debug, Structural)]
pub enum PortsKeyOutcome {
    /// The selection moved; redraw the rows and buttons it touched.
    Moved,
    /// A page key was pressed; redraw everything when the page changed.
    Paged(bool),
    /// Enter was pressed; carry out the action.
    Accept(MenuAction),
    /// Load the rows again.
    Refresh,
    /// Close the menu.
    Close,
}

impl PortsMenu {
    /// Handles a key press in the list: moves the focus, turns pages,
    /// accepts, or asks for a reload or to close; the selection is then
    /// kept on the page.
    pub fn handle_key(&mut self, key: Key) -> (r: PortsKeyOutcome)
        requires
            old(self).wf(),
        ensures
            final(self).same_data(old(self)),
            final(self).wf(),
            (final(self).state(), r) == key_step(old(self).state(), key),
    {
        proof {
            lemma_steps_wf(self.state());
        }
        let r = match key {
            Key::Up => {
                self.move_up();
                PortsKeyOutcome::Moved
            },
            Key::Down => {
                self.move_down();
                PortsKeyOutcome::Moved
            },
            Key::Left => {
                self.move_left();
                PortsKeyOutcome::Moved
            },
            Key::Right => {
                self.move_right();
                PortsKeyOutcome::Moved
            },
            Key::Home => {
                self.home();
                PortsKeyOutcome::Moved
            },
            Key::End => {
                self.end();
                PortsKeyOutcome::Moved
            },
            Key::PageUp => PortsKeyOutcome::Paged(self.previous_page()),
            Key::PageDown => PortsKeyOutcome::Paged(self.next_page()),
            Key::Enter => PortsKeyOutcome::Accept(self.accept()),
            Key::Char(c) => if c == 'p' {
                PortsKeyOutcome::Paged(self.previous_page())
            } else if c == 'n' {
                PortsKeyOutcome::Paged(self.next_page())
            } else if c == 'r' {
                return PortsKeyOutcome::Refresh;
            } else {
                PortsKeyOutcome::Moved
            },
            Key::Ctrl(c) => if c == 'c' {
                return PortsKeyOutcome::Close;
            } else if c == 'p' {
                PortsKeyOutcome::Paged(self.previous_page())
            } else if c == 'n' {
                PortsKeyOutcome::Paged(self.next_page())
            } else if c == 'r' {
                return PortsKeyOutcome::Refresh;
            } else {
                PortsKeyOutcome::Moved
            },
            _ => if cancels(key) {
                return PortsKeyOutcome::Close;
            } else {
                PortsKeyOutcome::Moved
            },
        };
        self.normalize_selection();
        r
    }
}

/// Every step of the list keeps the page in range.
proof fn lemma_steps_wf(s: MenuState)
    requires
        s.wf(),
    ensures
        move_up_state(s).wf(),
        move_down_state(s).wf(),
        move_left_state(s).wf(),
        move_right_state(s).wf(),
        home_state(s).wf(),
        end_state(s).wf(),
        previous_page_state(s).0.wf(),
        next_page_state(s).0.wf(),
        normalize_state(s).wf(),
        normalize_state(move_up_state(s)).wf(),
        normalize_state(move_down_state(s)).wf(),
        normalize_state(move_left_state(s)).wf(),
        normalize_state(move_right_state(s)).wf(),
        normalize_state(home_state(s)).wf(),
        normalize_state(end_state(s)).wf(),
        normalize_state(previous_page_state(s).0).wf(),
        normalize_state(next_page_state(s).0).wf(),
{
}

/// What a key press does in the detail view of a row.
#[derive(Clone, Copy, PartialEq, Eq, Debug, Structural)]
pub enum DetailStep {
    /// Stop the row's process.
    Kill,
    /// Go back to the list.
    Back,
    /// Nothing.
    Stay,
}

/// Enter or K (with or without Ctrl) stops the process; Esc, Backspace
/// or Ctrl+C go back.
pub open spec fn detail_next(key: Key) -> DetailStep {
    if key == Key::Enter || key == Key::Char('k') || key == Key::Ctrl('k') {
        DetailStep::Kill
    } else if key == Key::Esc || key == Key::Backspace || key == Key::Ctrl('c') {
        DetailStep::Back
    } else {
        DetailStep::Stay
    }
}

/// Handles a key press in the detail view.
pub fn detail_step(key: Key) -> (r: DetailStep)
    ensures
        r == detail_next(key),
{
    match key {
        Key::Enter => DetailStep::Kill,
        Key::Char(c) => if c == 'k' {
            DetailStep::Kill
        } else {
            DetailStep::Stay
        },
        Key::Esc => DetailStep::Back,
        Key::Backspace => DetailStep::Back,
        Key::Ctrl(c) => if c == 'c' {
            DetailStep::Back
        } else if c == 'k' {
            DetailStep::Kill
        } else {
            DetailStep::Stay
        },
        _ => DetailStep::Stay,
    }
}

/// The lines of the detail view of a row.
pub open spec fn detail_lines_seq(r: PortRowView) -> Seq<Seq<char>> {
    seq![
        "Port: "@ + dec(r.port as nat),
        "State: "@ + r.state,
        "Local: "@ + r.address,
        "Remote: "@ + r.remote_address,
        "PID: "@ + dec(r.pid as nat),
        "Process: "@ + r.process,
        "Path: "@ + if all_ws(r.process_path) {
            "(unknown)"@
        } else {
            r.process_path
        },
    ]
}

fn labelled(label: &str, value: &str) -> (r: String)
    ensures
        r@ == label@ + value@,
{
    let mut r = owned(label);
    push_str(&mut r, value);
    r
}

/// The lines of the detail view of a row.
pub fn detail_lines(row: &PortRow) -> (r: Vec<String>)
    ensures
        crate::text::views(r@) == detail_lines_seq(row.view()),
{
    let mut lines: Vec<String> = Vec::new();
    lines.push(labelled("Port: ", decimal(row.port as u64).as_str()));
    lines.push(labelled("State: ", row.state.as_str()));
    lines.push(labelled("Local: ", row.address.as_str()));
    lines.push(labelled("Remote: ", row.remote_address.as_str()));
    lines.push(labelled("PID: ", decimal(row.pid as u64).as_str()));
    lines.push(labelled("Process: ", row.process.as_str()));
    if is_blank(row.process_path.as_str()) {
        lines.push(labelled("Path: ", "(unknown)"));
    } else {
        lines.push(labelled("Path: ", row.process_path.as_str()));
    }
    assert(crate::text::views(lines@) =~= detail_lines_seq(row.view()));
    lines
}

/// A status line reports a failure when it starts with `Failed`.
pub fn is_failure(status: &str) -> (r: bool)
    ensures
        r == crate::text::starts_with(status@, "Failed"@),
{
    crate::text::str_starts_with(status, "Failed")
}

/// The text between the page buttons: `  Page <n>/<pages>  `.
pub fn nav_page_text(page: usize, page_count: usize) -> (r: String)
    requires
        page < usize::MAX,
    ensures
        r@ == "  Page "@ + dec((page + 1) as nat) + seq!['/'] + dec(page_count as nat) + "  "@,
{
    let mut r = owned("  Page ");
    push_str(&mut r, decimal((page + 1) as u64).as_str());
    push_str(&mut r, "/");
    push_str(&mut r, decimal(page_count as u64).as_str());
    push_str(&mut r, "  ");
    proof {
        reveal_strlit("/");
    }
    assert("/"@ =~= seq!['/']);
    r
}

/// How a page button is drawn.
#[derive(Clone, Copy, PartialEq, Eq, Debug, Structural)]
pub enum ButtonStyle {
    /// Focused and usable.
    Highlighted,
    /// Focused but there is no such page.
    FocusedDisabled,
    /// Usable.
    Plain,
    /// There is no such page.
    Disabled,
}

/// The style of a page button.
pub fn button_style(focused: bool, enabled: bool) -> (r: ButtonStyle)
    ensures
        r == if focused && enabled {
            ButtonStyle::Highlighted
        } else if focused {
            ButtonStyle::FocusedDisabled
        } else if enabled {
            ButtonStyle::Plain
        } else {
            ButtonStyle::Disabled
        },
{
    if focused && enabled {
        ButtonStyle::Highlighted
    } else if focused {
        ButtonStyle::FocusedDisabled
    } else if enabled {
        ButtonStyle::Plain
    } else {
        ButtonStyle::Disabled
    }
}

} // verus!
