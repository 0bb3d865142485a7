use vstd::prelude::*;

use crate::clock::now_timestamp;
use crate::nav::next_idx;
use crate::nav::prev_idx;
use crate::nav::step_back;
use crate::nav::step_forward;
use crate::ticket::draft_ticket_view;
use crate::ticket::make_ticket;
use crate::ticket::Ticket;

verus! {

/// Relies on std's `String::push`: appends one character at the end of
/// the string.
pub assume_specification[ String::push ](s: &mut String, ch: char)
    ensures
        final(s)@ == old(s)@.push(ch),
;

/// Relies on std's `String::pop`: removes and returns the last character,
/// and returns `None` leaving the string unchanged when it is empty.
pub assume_specification[ String::pop ](s: &mut String) -> (r: Option<char>)
    ensures
        old(s)@.len() == 0 ==> r is None && final(s)@ == old(s)@,
        old(s)@.len() > 0 ==> r == Some(old(s)@.last()) && final(s)@ == old(s)@.drop_last(),
;

/// The views the dashboard can show. A single variant today, kept as an
/// enumeration so that further views can be added without reshaping the
/// session.
#[derive(Clone, Copy, Debug, PartialEq, Eq)]
pub enum MenuItem {
    Tickets,
}

impl MenuItem {
    /// Position of this view's tab in the help strip.
    pub fn index(&self) -> (r: usize)
        ensures
            r == 0,
    {
        match self {
            MenuItem::Tickets => 0,
        }
    }
}

/// A key press, reduced to what the dispatcher distinguishes.
#[derive(Clone, Copy, Debug, PartialEq, Eq)]
pub enum Key {
    /// A printable character.
    Char(char),
    Enter,
    Backspace,
    /// Any other key; always ignored.
    Other,
}

/// One event from the merged input/timer stream: a key press, or the
/// periodic tick that drives a redraw even absent input.
#[derive(Clone, Copy, Debug, PartialEq, Eq)]
pub enum Event {
    Input(Key),
    Tick,
}

/// What the session is doing with key presses: navigating the boards, or
/// capturing the task title of a ticket being created.
#[derive(Clone, Copy, Debug, PartialEq, Eq)]
pub enum Mode {
    Browsing,
    Entering,
}

/// What the caller must do after a step: leave the loop, persist a newly
/// created ticket, or simply redraw. Every step ends in a redraw except
/// the final one.
#[derive(Debug)]
pub enum Action {
    /// Terminate the session; the caller restores the terminal.
    Quit,
    /// Persist this freshly created ticket, then redraw.
    Insert(Ticket),
    /// Nothing to persist; redraw the panes.
    Redraw,
}

/// The mathematical value of a `Session`.
pub struct SessionView {
    pub boards: Seq<Seq<char>>,
    pub active: int,
    pub selected: int,
    pub menu: MenuItem,
    pub mode: Mode,
    pub entry: Seq<char>,
}

/// The ephemeral state of one dashboard session: the ordered board list
/// read at startup, the active board's index, the selected ticket's index
/// (re-validated against a freshly fetched list on every navigation
/// step), the visible view, and the text-entry sub-mode with its buffer.
pub struct Session {
    boards: Vec<String>,
    active: usize,
    selected: usize,
    menu: MenuItem,
    mode: Mode,
    entry: String,
}

impl View for Session {
    type V = SessionView;

    closed spec fn view(&self) -> SessionView {
        SessionView {
            boards: self.boards.deep_view(),
            active: self.active as int,
            selected: self.selected as int,
            menu: self.menu,
            mode: self.mode,
            entry: self.entry@,
        }
    }
}

/// What a step does to the session when a key arrives while browsing.
/// Board switches wrap cyclically and reset the selection to the top of
/// the new board's list; ticket moves wrap within the freshly fetched
/// list of length `n`; `q` ends the session; `a` opens the text-entry
/// sub-mode with an empty buffer; `t` selects the tickets view; any other
/// key changes nothing.
pub open spec fn browse_effect(
    pre: SessionView,
    k: Key,
    n: int,
    post: SessionView,
    act: Action,
) -> bool {
    match k {
        Key::Char(c) => if c == 'q' {
            post == pre && act == Action::Quit
        } else if c == 't' {
            post == (SessionView { menu: MenuItem::Tickets, ..pre }) && act == Action::Redraw
        } else if c == 'a' {
            post == (SessionView { mode: Mode::Entering, entry: Seq::<char>::empty(), ..pre })
                && act == Action::Redraw
        } else if c == 'l' {
            post == (SessionView {
                active: next_idx(pre.active, pre.boards.len() as int),
                selected: 0,
                ..pre
            }) && act == Action::Redraw
        } else if c == 'h' {
            post == (SessionView {
                active: prev_idx(pre.active, pre.boards.len() as int),
                selected: 0,
                ..pre
            }) && act == Action::Redraw
        } else if c == 'j' {
            post == (SessionView { selected: next_idx(pre.selected, n), ..pre })
                && act == Action::Redraw
        } else if c == 'k' {
            post == (SessionView { selected: prev_idx(pre.selected, n), ..pre })
                && act == Action::Redraw
        } else {
            post == pre && act == Action::Redraw
        },
        _ => post == pre && act == Action::Redraw,
    }
}

/// What the creation flow hands back on Enter: an instruction to persist
/// a ticket holding exactly the typed text as its task, the board that
/// was active when the entry began and still is, a non-empty creation
/// timestamp, and empty text in every other field.
pub open spec fn inserted_ok(act: Action, pre: SessionView) -> bool {
    match act {
        Action::Insert(t) => t@ == draft_ticket_view(t@.task, t@.board, t@.created_date)
            && t@.task == pre.entry && t@.board == pre.boards[pre.active]
            && t@.created_date.len() > 0,
        _ => false,
    }
}

/// What a step does to the session when a key arrives during text entry.
/// Characters append to the buffer, Backspace drops its last character
/// (and nothing else when it is empty), Enter submits the buffer as a new
/// ticket and returns to browsing, any other key changes nothing.
pub open spec fn enter_effect(pre: SessionView, k: Key, post: SessionView, act: Action) -> bool {
    match k {
        Key::Enter => post == (SessionView {
            mode: Mode::Browsing,
            entry: Seq::<char>::empty(),
            ..pre
        }) && inserted_ok(act, pre),
        Key::Char(c) => post == (SessionView { entry: pre.entry.push(c), ..pre })
            && act == Action::Redraw,
        Key::Backspace => post == (SessionView {
            entry: if pre.entry.len() == 0 {
                pre.entry
            } else {
                pre.entry.drop_last()
            },
            ..pre
        }) && act == Action::Redraw,
        Key::Other => post == pre && act == Action::Redraw,
    }
}

/// The whole transition relation of one step of the session loop: a tick
/// changes nothing and only asks for a redraw; a key press acts according
/// to the current mode. `n` is the length of the freshly fetched ticket
/// list of the active board.
pub open spec fn step_effect(
    pre: SessionView,
    ev: Event,
    n: int,
    post: SessionView,
    act: Action,
) -> bool {
    match ev {
        Event::Tick => post == pre && act == Action::Redraw,
        Event::Input(k) => match pre.mode {
            Mode::Browsing => browse_effect(pre, k, n, post, act),
            Mode::Entering => enter_effect(pre, k, post, act),
        },
    }
}

/// Switching boards forward then back returns to the board that was
/// active before the pair of key presses, from any starting position on
/// any non-empty board list: the wrap-around walk over the boards is a
/// true cycle. The pair leaves the rest of the session untouched, with
/// the selection resting at the top of the restored board's list.
pub proof fn lemma_board_switch_round_trip(
    pre: SessionView,
    mid: SessionView,
    post: SessionView,
    a1: Action,
    a2: Action,
    n1: int,
    n2: int,
)
    requires
        pre.boards.len() >= 1,
        0 <= pre.active < pre.boards.len(),
        browse_effect(pre, Key::Char('l'), n1, mid, a1),
        browse_effect(mid, Key::Char('h'), n2, post, a2),
    ensures
        post.active == pre.active,
        post.boards == pre.boards,
        post.selected == 0,
        post.mode == pre.mode,
        post.menu == pre.menu,
        post.entry == pre.entry,
{
    crate::nav::lemma_step_round_trip(pre.active, pre.boards.len() as int);
}

/// The same round trip the other way round: back then forward restores
/// the active board.
pub proof fn lemma_board_switch_round_trip_rev(
    pre: SessionView,
    mid: SessionView,
    post: SessionView,
    a1: Action,
    a2: Action,
    n1: int,
    n2: int,
)
    requires
        pre.boards.len() >= 1,
        0 <= pre.active < pre.boards.len(),
        browse_effect(pre, Key::Char('h'), n1, mid, a1),
        browse_effect(mid, Key::Char('l'), n2, post, a2),
    ensures
        post.active == pre.active,
        post.boards == pre.boards,
        post.selected == 0,
        post.mode == pre.mode,
        post.menu == pre.menu,
        post.entry == pre.entry,
{
    crate::nav::lemma_step_round_trip(pre.active, pre.boards.len() as int);
}

proof fn lemma_selection_chain_forward(views: Seq<SessionView>, acts: Seq<Action>, n: int, k: int)
    requires
        n >= 1,
        views.len() >= k + 1,
        acts.len() >= k,
        0 <= k,
        0 <= views[0].selected < n,
        forall|i: int|
            0 <= i < k ==> browse_effect(views[i], Key::Char('j'), n, views[i + 1], acts[i]),
    ensures
        views[k].selected == crate::nav::forward_steps(views[0].selected, n, k as nat),
    decreases k,
{
    if k > 0 {
        lemma_selection_chain_forward(views, acts, n, k - 1);
        assert(browse_effect(views[k - 1], Key::Char('j'), n, views[k], acts[k - 1]));
    }
}

proof fn lemma_selection_chain_back(views: Seq<SessionView>, acts: Seq<Action>, n: int, k: int)
    requires
        n >= 1,
        views.len() >= k + 1,
        acts.len() >= k,
        0 <= k,
        0 <= views[0].selected < n,
        forall|i: int|
            0 <= i < k ==> browse_effect(views[i], Key::Char('k'), n, views[i + 1], acts[i]),
    ensures
        views[k].selected == crate::nav::back_steps(views[0].selected, n, k as nat),
    decreases k,
{
    if k > 0 {
        lemma_selection_chain_back(views, acts, n, k - 1);
        assert(browse_effect(views[k - 1], Key::Char('k'), n, views[k], acts[k - 1]));
    }
}

/// Pressing the move-down key exactly `n` times, over a ticket list that
/// stays `n` long throughout, returns the selection to the index it
/// started from, for every valid starting index: the selection walk is a
/// true cycle of length `n`. `views` is the chain of session states the
/// presses go through and `acts` what each press returned.
pub proof fn lemma_selection_cycle(views: Seq<SessionView>, acts: Seq<Action>, n: int)
    requires
        n >= 1,
        views.len() == n + 1,
        acts.len() == n,
        0 <= views[0].selected < n,
        forall|i: int|
            0 <= i < n ==> browse_effect(views[i], Key::Char('j'), n, views[i + 1], acts[i]),
    ensures
        views[n].selected == views[0].selected,
{
    lemma_selection_chain_forward(views, acts, n, n);
    crate::nav::lemma_forward_cycle(views[0].selected, n);
}

/// The mirror image of `lemma_selection_cycle`: the move-up key pressed
/// exactly `n` times returns the selection to its starting index.
pub proof fn lemma_selection_cycle_rev(views: Seq<SessionView>, acts: Seq<Action>, n: int)
    requires
        n >= 1,
        views.len() == n + 1,
        acts.len() == n,
        0 <= views[0].selected < n,
        forall|i: int|
            0 <= i < n ==> browse_effect(views[i], Key::Char('k'), n, views[i + 1], acts[i]),
    ensures
        views[n].selected == views[0].selected,
{
    lemma_selection_chain_back(views, acts, n, n);
    crate::nav::lemma_back_cycle(views[0].selected, n);
}

impl Session {
    /// The session's invariant: the board list read at startup is
    /// non-empty, and the active index always points into it.
    pub open spec fn wf(&self) -> bool {
        self@.boards.len() >= 1 && 0 <= self@.active < self@.boards.len()
    }

    /// Start a session over a non-empty board list: the first board
    /// active, the selection at the top of its list, browsing the
    /// tickets view.
    pub fn new(boards: Vec<String>) -> (s: Session)
        requires
            boards@.len() >= 1,
        ensures
            s.wf(),
            s@.boards == boards.deep_view(),
            s@.active == 0,
            s@.selected == 0,
            s@.menu == MenuItem::Tickets,
            s@.mode == Mode::Browsing,
            s@.entry == Seq::<char>::empty(),
    {
        Session {
            boards,
            active: 0,
            selected: 0,
            menu: MenuItem::Tickets,
            mode: Mode::Browsing,
            entry: String::new(),
        }
    }

    /// Apply one event to the session. `tickets_len` is the length of the
    /// active board's ticket list, fetched fresh for this step; the
    /// placeholder guarantee makes it at least one. Returns what the
    /// caller must now do.
    pub fn step(&mut self, ev: Event, tickets_len: usize) -> (act: Action)
        requires
            old(self).wf(),
            tickets_len >= 1,
        ensures
            final(self).wf(),
            step_effect(old(self)@, ev, tickets_len as int, final(self)@, act),
    {
        match ev {
            Event::Tick => Action::Redraw,
            Event::Input(k) => match self.mode {
                Mode::Browsing => self.browse_key(k, tickets_len),
                Mode::Entering => self.enter_key(k),
            },
        }
    }

    fn browse_key(&mut self, k: Key, tickets_len: usize) -> (act: Action)
        requires
            old(self).wf(),
            old(self)@.mode == Mode::Browsing,
            tickets_len >= 1,
        ensures
            final(self).wf(),
            browse_effect(old(self)@, k, tickets_len as int, final(self)@, act),
    {
        match k {
            Key::Char(c) => {
                if c == 'q' {
                    Action::Quit
                } else if c == 't' {
                    self.menu = MenuItem::Tickets;
                    Action::Redraw
                } else if c == 'a' {
                    self.mode = Mode::Entering;
                    self.entry = String::new();
                    Action::Redraw
                } else if c == 'l' {
                    self.active = step_forward(self.active, self.boards.len());
                    self.selected = 0;
                    Action::Redraw
                } else if c == 'h' {
                    self.active = step_back(self.active, self.boards.len());
                    self.selected = 0;
                    Action::Redraw
                } else if c == 'j' {
                    self.selected = step_forward(self.selected, tickets_len);
                    Action::Redraw
                } else if c == 'k' {
                    self.selected = step_back(self.selected, tickets_len);
                    Action::Redraw
                } else {
                    Action::Redraw
                }
            },
            _ => Action::Redraw,
        }
    }

    fn enter_key(&mut self, k: Key) -> (act: Action)
        requires
            old(self).wf(),
            old(self)@.mode == Mode::Entering,
        ensures
            final(self).wf(),
            enter_effect(old(self)@, k, final(self)@, act),
    {
        match k {
            Key::Enter => {
                let task = self.entry.clone();
                self.entry = String::new();
                self.mode = Mode::Browsing;
                let board = self.boards[self.active].clone();
                let t = make_ticket(task, board, now_timestamp());
                Action::Insert(t)
            },
            Key::Char(c) => {
                self.entry.push(c);
                Action::Redraw
            },
            Key::Backspace => {
                // `pop` on an empty string is already the required no-op.
                self.entry.pop();
                Action::Redraw
            },
            Key::Other => Action::Redraw,
        }
    }

    /// The name of the board whose tickets are shown.
    pub fn active_board(&self) -> (r: &String)
        requires
            self.wf(),
        ensures
            r@ == self@.boards[self@.active],
    {
        &self.boards[self.active]
    }

    /// The selected ticket's index, as the last navigation step left it.
    pub fn selected_index(&self) -> (r: usize)
        ensures
            r == self@.selected,
    {
        self.selected
    }

    /// The visible view.
    pub fn menu_item(&self) -> (r: MenuItem)
        ensures
            r == self@.menu,
    {
        self.menu
    }

    /// Whether the session is capturing a ticket title right now.
    pub fn mode(&self) -> (r: Mode)
        ensures
            r == self@.mode,
    {
        self.mode
    }

    /// The text typed so far into the creation sub-mode's buffer.
    pub fn entry_text(&self) -> (r: &String)
        ensures
            r@ == self@.entry,
    {
        &self.entry
    }
}

} // verus!
