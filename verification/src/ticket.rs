use vstd::prelude::*;

verus! {

/// One work item. Every field is carried as text: the store keeps all of
/// them as text columns, and the temporal fields cross this layer opaquely
/// on their way between the store and the screen.
#[derive(Debug)]
pub struct Ticket {
    pub task: String,
    pub description: String,
    pub category: String,
    pub priority: String,
    pub board: String,
    pub created_date: String,
    pub due_date: String,
    pub finished_date: String,
    pub duration: String,
}

/// The mathematical value of a `Ticket`: each field as a sequence of
/// characters.
pub struct TicketView {
    pub task: Seq<char>,
    pub description: Seq<char>,
    pub category: Seq<char>,
    pub priority: Seq<char>,
    pub board: Seq<char>,
    pub created_date: Seq<char>,
    pub due_date: Seq<char>,
    pub finished_date: Seq<char>,
    pub duration: Seq<char>,
}

impl View for Ticket {
    type V = TicketView;

    open spec fn view(&self) -> TicketView {
        TicketView {
            task: self.task@,
            description: self.description@,
            category: self.category@,
            priority: self.priority@,
            board: self.board@,
            created_date: self.created_date@,
            due_date: self.due_date@,
            finished_date: self.finished_date@,
            duration: self.duration@,
        }
    }
}

impl PartialEq for Ticket {
    fn eq(&self, other: &Ticket) -> (r: bool) {
        self.task == other.task && self.description == other.description && self.category
            == other.category && self.priority == other.priority && self.board == other.board
            && self.created_date == other.created_date && self.due_date == other.due_date
            && self.finished_date == other.finished_date && self.duration == other.duration
    }
}

impl vstd::std_specs::cmp::PartialEqSpecImpl for Ticket {
    open spec fn obeys_eq_spec() -> bool {
        true
    }

    open spec fn eq_spec(&self, other: &Ticket) -> bool {
        self@ == other@
    }
}

/// The value of a ticket that carries a task title, an owning board and a
/// creation time, and nothing else.
pub open spec fn draft_ticket_view(task: Seq<char>, board: Seq<char>, created: Seq<char>) -> TicketView {
    TicketView {
        task: task,
        description: Seq::<char>::empty(),
        category: Seq::<char>::empty(),
        priority: Seq::<char>::empty(),
        board: board,
        created_date: created,
        due_date: Seq::<char>::empty(),
        finished_date: Seq::<char>::empty(),
        duration: Seq::<char>::empty(),
    }
}

/// The synthetic row shown for a board with no stored tickets: every field
/// empty except the owning board's name.
pub open spec fn placeholder_view(board: Seq<char>) -> TicketView {
    draft_ticket_view(Seq::<char>::empty(), board, Seq::<char>::empty())
}

/// Build the ticket that the creation flow inserts: the typed task title,
/// the active board, the creation timestamp, all other fields empty.
pub fn make_ticket(task: String, board: String, created: String) -> (t: Ticket)
    ensures
        t@ == draft_ticket_view(task@, board@, created@),
{
    Ticket {
        task,
        description: String::new(),
        category: String::new(),
        priority: String::new(),
        board,
        created_date: created,
        due_date: String::new(),
        finished_date: String::new(),
        duration: String::new(),
    }
}

/// The placeholder row for `board`, as `placeholder_view` describes it.
pub fn placeholder_ticket(board: &str) -> (t: Ticket)
    ensures
        t@ == placeholder_view(board@),
{
    make_ticket(String::new(), board.to_string(), String::new())
}

/// Guarantee the non-empty-list invariant of a fetched ticket list: a
/// board with no stored rows is shown as exactly one placeholder row, so a
/// selection index of `0` is always valid. A non-empty fetch passes
/// through unchanged.
pub fn with_placeholder(rows: Vec<Ticket>, board: &str) -> (r: Vec<Ticket>)
    ensures
        r@.len() >= 1,
        rows@.len() > 0 ==> r@ == rows@,
        rows@.len() == 0 ==> r@.len() == 1 && r@[0]@ == placeholder_view(board@),
{
    if rows.len() == 0 {
        let mut out = rows;
        out.push(placeholder_ticket(board));
        out
    } else {
        rows
    }
}

/// The index whose ticket the detail pane shows: the selection itself
/// while it is in range of the current list, and the top of the list once
/// it has gone stale.
pub open spec fn current_index(sel: int, len: int) -> int {
    if 0 <= sel < len {
        sel
    } else {
        0
    }
}

/// The index `current_index` resolves to, for highlighting the list row
/// that the detail pane describes.
pub fn current_index_of(selected: usize, len: usize) -> (r: usize)
    requires
        len >= 1,
    ensures
        r == current_index(selected as int, len as int),
        r < len,
{
    if selected < len {
        selected
    } else {
        0
    }
}

/// The ticket under the cursor in a freshly fetched list. The placeholder
/// guarantee makes the list non-empty, and a selection that no longer fits
/// the list resolves to the first row rather than out of bounds.
pub fn current_ticket(tickets: &Vec<Ticket>, selected: usize) -> (t: &Ticket)
    requires
        tickets@.len() >= 1,
    ensures
        *t == tickets@[current_index(selected as int, tickets@.len() as int)],
{
    if selected < tickets.len() {
        &tickets[selected]
    } else {
        &tickets[0]
    }
}

/// The list pane's rows: the task title of each ticket, in storage order.
pub fn ticket_titles(tickets: &Vec<Ticket>) -> (r: Vec<String>)
    ensures
        r@.len() == tickets@.len(),
        forall|i: int| 0 <= i < r@.len() ==> r@[i]@ == tickets@[i]@.task,
{
    let mut out: Vec<String> = Vec::new();
    let mut i: usize = 0;
    while i < tickets.len()
        invariant
            i <= tickets@.len(),
            out@.len() == i,
            forall|j: int| 0 <= j < i ==> out@[j]@ == tickets@[j]@.task,
        decreases tickets@.len() - i,
    {
        out.push(tickets[i].task.clone());
        i = i + 1;
    }
    out
}

} // verus!
