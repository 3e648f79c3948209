use vstd::prelude::*;

verus! {

/// A stored todo item.
#[derive(Clone, Debug, PartialEq, Eq)]
pub struct Todo {
    /// The identifier that the store assigned.
    pub id: i32,
    /// What is to be done.
    pub title: String,
    /// Whether it is done.
    pub completed: bool,
}

/// The mathematical value of a stored todo item.
pub struct TodoView {
    pub id: i32,
    pub title: Seq<char>,
    pub completed: bool,
}

impl View for Todo {
    type V = TodoView;

    open spec fn view(&self) -> TodoView {
        TodoView { id: self.id, title: self.title@, completed: self.completed }
    }
}

/// The value of each item of a list of todos.
pub open spec fn todos_view(v: Seq<Todo>) -> Seq<TodoView> {
    v.map_values(|t: Todo| t@)
}

/// The value of an optional todo.
pub open spec fn maybe_todo_view(o: Option<Todo>) -> Option<TodoView> {
    match o {
        Some(t) => Some(t@),
        None => None,
    }
}

impl Todo {
    /// A copy of this todo with the same values.
    pub fn copied(&self) -> (r: Todo)
        ensures
            r@ == self@,
    {
        Todo { id: self.id, title: self.title.clone(), completed: self.completed }
    }
}

/// The values of a todo to create, or to write over an existing one.
#[derive(Clone, Debug, PartialEq, Eq)]
pub struct NewTodo {
    /// What is to be done.
    pub title: String,
    /// Whether it is done; not done when absent.
    pub completed: Option<bool>,
}

impl NewTodo {
    /// The completed flag that a todo written from these values carries.
    pub open spec fn spec_completed(&self) -> bool {
        match self.completed {
            Some(c) => c,
            None => false,
        }
    }

    /// The completed flag that a todo written from these values carries:
    /// the one given, or not done.
    pub fn completed_or_default(&self) -> (r: bool)
        ensures
            r == self.spec_completed(),
    {
        match self.completed {
            Some(c) => c,
            None => false,
        }
    }

    /// The todo that these values make under the identifier `id`.
    pub open spec fn stored_as(&self, id: i32) -> TodoView {
        TodoView { id, title: self.title@, completed: self.spec_completed() }
    }
}

/// Which todos a listing by status selects.
#[derive(Clone, Copy, Debug, PartialEq, Eq, Structural)]
pub enum Status {
    Complete,
    Incomplete,
}

impl Status {
    /// The completed flag that todos of this status carry.
    pub open spec fn spec_completed(self) -> bool {
        self == Status::Complete
    }

    /// The status that a path segment names: `complete` or `incomplete`.
    pub open spec fn spec_from_segment(s: Seq<char>) -> Option<Status> {
        if s == "complete"@ {
            Some(Status::Complete)
        } else if s == "incomplete"@ {
            Some(Status::Incomplete)
        } else {
            None
        }
    }

    /// Reads a status from a path segment; `None` for any other text.
    pub fn from_segment(s: &str) -> (r: Option<Status>)
        ensures
            r == Status::spec_from_segment(s@),
    {
        proof {
            reveal_strlit("complete");
            reveal_strlit("incomplete");
        }
        if same_text(s, "complete") {
            Some(Status::Complete)
        } else if same_text(s, "incomplete") {
            Some(Status::Incomplete)
        } else {
            None
        }
    }
}

/// Whether two strings hold the same characters.
pub(crate) fn same_text(a: &str, b: &str) -> (r: bool)
    ensures
        r == (a@ == b@),
{
    let n = a.unicode_len();
    if n != b.unicode_len() {
        return false;
    }
    let mut i: usize = 0;
    while i < n
        invariant
            n == a@.len(),
            n == b@.len(),
            i <= n,
            a@.subrange(0, i as int) == b@.subrange(0, i as int),
        decreases n - i,
    {
        if a.get_char(i) != b.get_char(i) {
            return false;
        }
        assert(a@.subrange(0, i + 1) =~= a@.subrange(0, i as int).push(a@[i as int]));
        assert(b@.subrange(0, i + 1) =~= b@.subrange(0, i as int).push(b@[i as int]));
        i = i + 1;
    }
    assert(a@ =~= a@.subrange(0, n as int));
    assert(b@ =~= b@.subrange(0, n as int));
    true
}

impl From<Status> for bool {
    fn from(value: Status) -> (r: bool)
        ensures
            r == value.spec_completed(),
    {
        match value {
            Status::Complete => true,
            Status::Incomplete => false,
        }
    }
}

impl vstd::std_specs::convert::FromSpecImpl<Status> for bool {
    open spec fn obeys_from_spec() -> bool {
        true
    }

    open spec fn from_spec(v: Status) -> bool {
        v.spec_completed()
    }
}

} // verus!
