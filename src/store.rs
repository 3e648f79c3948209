use vstd::prelude::*;

use crate::todo::{maybe_todo_view, todos_view, NewTodo, Todo, TodoView};

verus! {

/// No two rows share an identifier.
pub open spec fn ids_unique(rows: Seq<TodoView>) -> bool {
    forall|i: int, j: int|
        0 <= i < rows.len() && 0 <= j < rows.len() && i != j ==> rows[i].id != rows[j].id
}

/// Some row has the identifier `id`.
pub open spec fn has_id(rows: Seq<TodoView>, id: i32) -> bool {
    exists|i: int| 0 <= i < rows.len() && rows[i].id == id
}

/// The place of the row with the identifier `id`.
pub open spec fn position(rows: Seq<TodoView>, id: i32) -> int
    recommends
        has_id(rows, id),
{
    choose|i: int| 0 <= i < rows.len() && rows[i].id == id
}

/// The row with the identifier `id`, if there is one.
pub open spec fn lookup(rows: Seq<TodoView>, id: i32) -> Option<TodoView> {
    if has_id(rows, id) {
        Some(rows[position(rows, id)])
    } else {
        None
    }
}

/// The rows whose completed flag is `completed`, in storage order.
pub open spec fn with_status(rows: Seq<TodoView>, completed: bool) -> Seq<TodoView> {
    rows.filter(|t: TodoView| t.completed == completed)
}

/// The rows after the row with the identifier `id` takes the values of `new`;
/// unchanged where there is no such row.
pub open spec fn after_update(rows: Seq<TodoView>, id: i32, new: NewTodo) -> Seq<TodoView> {
    if has_id(rows, id) {
        rows.update(position(rows, id), new.stored_as(id))
    } else {
        rows
    }
}

/// The rows after the row with the identifier `id` is removed;
/// unchanged where there is no such row.
pub open spec fn after_delete(rows: Seq<TodoView>, id: i32) -> Seq<TodoView> {
    if has_id(rows, id) {
        rows.remove(position(rows, id))
    } else {
        rows
    }
}

/// Why a store operation failed.
#[derive(Clone, Copy, Debug, PartialEq, Eq, Structural)]
pub enum StoreError {
    /// No row has the identifier asked for.
    NotFound,
    /// Every identifier has been handed out.
    IdsExhausted,
}

impl StoreError {
    /// The text of the error.
    pub open spec fn spec_message(self) -> Seq<char> {
        match self {
            StoreError::NotFound => "Record not found"@,
            StoreError::IdsExhausted => "No identifier is left for a new record"@,
        }
    }

    /// The text of the error.
    pub fn message(&self) -> (r: String)
        ensures
            r@ == self.spec_message(),
    {
        match self {
            StoreError::NotFound => String::from_str("Record not found"),
            StoreError::IdsExhausted => String::from_str("No identifier is left for a new record"),
        }
    }
}

/// The table of todos: rows in storage order, each with an identifier
/// that the table assigned and that no other row has.
pub struct TodoTable {
    rows: Vec<Todo>,
    next_id: i32,
}

impl View for TodoTable {
    type V = Seq<TodoView>;

    closed spec fn view(&self) -> Seq<TodoView> {
        todos_view(self.rows@)
    }
}

impl TodoTable {
    /// The identifier that the next created row gets.
    pub closed spec fn next_id(&self) -> i32 {
        self.next_id
    }

    /// Identifiers are unique, positive and below the next one.
    pub closed spec fn wf(&self) -> bool {
        &&& ids_unique(self@)
        &&& 1 <= self.next_id
        &&& forall|i: int| 0 <= i < self@.len() ==> 1 <= #[trigger] self@[i].id < self.next_id
    }

    /// An empty table; its first row gets the identifier 1.
    pub fn new() -> (r: TodoTable)
        ensures
            r.wf(),
            r@ == Seq::<TodoView>::empty(),
            r.next_id() == 1,
    {
        let r = TodoTable { rows: Vec::new(), next_id: 1 };
        assert(r@ =~= Seq::<TodoView>::empty());
        r
    }

    /// The place of the row with the identifier `id`, if there is one.
    fn find(&self, id: i32) -> (r: Option<usize>)
        requires
            self.wf(),
        ensures
            match r {
                Some(i) => has_id(self@, id) && i as int == position(self@, id) && i
                    < self@.len(),
                None => !has_id(self@, id),
            },
    {
        let mut i: usize = 0;
        while i < self.rows.len()
            invariant
                self.wf(),
                i <= self.rows@.len(),
                self@.len() == self.rows@.len(),
                forall|j: int| 0 <= j < i ==> self@[j].id != id,
            decreases self.rows@.len() - i,
        {
            if self.rows[i].id == id {
                assert(self@[i as int].id == id);
                return Some(i);
            }
            i = i + 1;
        }
        None
    }
}

impl Todo {
    /// Every todo of the table, in storage order.
    pub fn all(table: &TodoTable) -> (r: Vec<Todo>)
        requires
            table.wf(),
        ensures
            todos_view(r@) == table@,
    {
        let mut r: Vec<Todo> = Vec::new();
        let mut i: usize = 0;
        while i < table.rows.len()
            invariant
                i <= table.rows@.len(),
                table@.len() == table.rows@.len(),
                r@.len() == i,
                todos_view(r@) == table@.subrange(0, i as int),
            decreases table.rows@.len() - i,
        {
            let ghost before = r@;
            r.push(table.rows[i].copied());
            assert(todos_view(r@) =~= todos_view(before).push(table@[i as int]));
            assert(todos_view(r@) =~= table@.subrange(0, i + 1));
            i = i + 1;
        }
        assert(table@ =~= table@.subrange(0, i as int));
        r
    }

    /// The todo with the identifier `id`, or `None` where the table has none.
    pub fn by_id(table: &TodoTable, id: i32) -> (r: Option<Todo>)
        requires
            table.wf(),
        ensures
            maybe_todo_view(r) == lookup(table@, id),
    {
        match table.find(id) {
            Some(i) => Some(table.rows[i].copied()),
            None => None,
        }
    }

    /// The todos whose completed flag is `completed`, in storage order.
    pub fn by_status(table: &TodoTable, completed: bool) -> (r: Vec<Todo>)
        requires
            table.wf(),
        ensures
            todos_view(r@) == with_status(table@, completed),
    {
        let mut r: Vec<Todo> = Vec::new();
        let mut i: usize = 0;
        while i < table.rows.len()
            invariant
                i <= table.rows@.len(),
                table@.len() == table.rows@.len(),
                todos_view(r@) == with_status(table@.subrange(0, i as int), completed),
            decreases table.rows@.len() - i,
        {
            proof {
                reveal(Seq::filter);
                assert(table@.subrange(0, i + 1).drop_last() =~= table@.subrange(0, i as int));
            }
            if table.rows[i].completed == completed {
                r.push(table.rows[i].copied());
            }
            assert(todos_view(r@) =~= with_status(table@.subrange(0, i + 1), completed));
            i = i + 1;
        }
        assert(table@ =~= table@.subrange(0, i as int));
        r
    }

    /// Removes the todo with the identifier `id`; gives the number of todos
    /// removed, 1 or 0.
    pub fn delete(table: &mut TodoTable, id: i32) -> (r: usize)
        requires
            old(table).wf(),
        ensures
            final(table).wf(),
            final(table)@ == after_delete(old(table)@, id),
            final(table).next_id() == old(table).next_id(),
            r == (if has_id(old(table)@, id) { 1usize } else { 0usize }),
    {
        match table.find(id) {
            Some(i) => {
                table.rows.remove(i);
                assert(table@ =~= after_delete(old(table)@, id));
                1
            },
            None => 0,
        }
    }
}

impl NewTodo {
    /// Stores a todo with these values under the next identifier and gives it
    /// back; fails when every identifier has been handed out.
    pub fn insert(&self, table: &mut TodoTable) -> (r: Result<Todo, StoreError>)
        requires
            old(table).wf(),
        ensures
            final(table).wf(),
            old(table).next_id() < i32::MAX ==> {
                &&& r matches Ok(t)
                &&& t@ == self.stored_as(old(table).next_id())
                &&& final(table)@ == old(table)@.push(t@)
                &&& final(table).next_id() == old(table).next_id() + 1
            },
            old(table).next_id() == i32::MAX ==> {
                &&& r == Err::<Todo, StoreError>(StoreError::IdsExhausted)
                &&& final(table)@ == old(table)@
                &&& final(table).next_id() == old(table).next_id()
            },
    {
        if table.next_id == i32::MAX {
            return Err(StoreError::IdsExhausted);
        }
        let t = Todo {
            id: table.next_id,
            title: self.title.clone(),
            completed: self.completed_or_default(),
        };
        table.rows.push(t.copied());
        table.next_id = table.next_id + 1;
        assert(table@ =~= old(table)@.push(t@));
        Ok(t)
    }

    /// Writes these values over the todo with the identifier `id` and gives
    /// it back; fails with `NotFound` where the table has no such todo.
    pub fn update(&self, table: &mut TodoTable, id: i32) -> (r: Result<Todo, StoreError>)
        requires
            old(table).wf(),
        ensures
            final(table).wf(),
            final(table)@ == after_update(old(table)@, id, *self),
            final(table).next_id() == old(table).next_id(),
            has_id(old(table)@, id) ==> (r matches Ok(t) && t@ == self.stored_as(id)),
            !has_id(old(table)@, id) ==> r == Err::<Todo, StoreError>(StoreError::NotFound),
    {
        match table.find(id) {
            Some(i) => {
                let t = Todo { id, title: self.title.clone(), completed: self.completed_or_default() };
                table.rows.set(i, t.copied());
                assert(table@ =~= after_update(old(table)@, id, *self));
                Ok(t)
            },
            None => Err(StoreError::NotFound),
        }
    }
}

/// A todo that `insert` created is what `by_id` finds under the identifier
/// that `insert` gave it: the same title and completed flag.
pub proof fn lemma_created_is_found(table: TodoTable, new: NewTodo)
    requires
        table.wf(),
        table.next_id() < i32::MAX,
    ensures
        lookup(table@.push(new.stored_as(table.next_id())), table.next_id()) == Some(
            new.stored_as(table.next_id()),
        ),
{
    let id = table.next_id();
    let rows = table@.push(new.stored_as(id));
    let last = table@.len() as int;
    assert(rows[last].id == id);
    assert(has_id(rows, id));
    let p = position(rows, id);
    if p != last {
        assert(rows[p] == table@[p]);
        assert(table@[p].id < id);
    }
}

/// A listing by status holds only todos of that status, and the listings of
/// both statuses together hold exactly the todos of the table.
pub proof fn lemma_status_partition(table: TodoTable)
    ensures
        forall|t: TodoView| with_status(table@, true).contains(t) ==> t.completed,
        forall|t: TodoView| with_status(table@, false).contains(t) ==> !t.completed,
        with_status(table@, true).to_set() + with_status(table@, false).to_set()
            == table@.to_set(),
{
    let rows = table@;
    let done = |t: TodoView| t.completed == true;
    let open = |t: TodoView| t.completed == false;
    broadcast use vstd::seq_lib::group_filter_ensures;

    assert forall|t: TodoView| with_status(rows, true).contains(t) implies t.completed by {
        let k = choose|k: int| 0 <= k < rows.filter(done).len() && rows.filter(done)[k] == t;
        assert(done(rows.filter(done)[k]));
    }
    assert forall|t: TodoView| with_status(rows, false).contains(t) implies !t.completed by {
        let k = choose|k: int| 0 <= k < rows.filter(open).len() && rows.filter(open)[k] == t;
        assert(open(rows.filter(open)[k]));
    }
    assert forall|t: TodoView|
        (with_status(rows, true).to_set() + with_status(rows, false).to_set()).contains(t)
            <==> rows.to_set().contains(t) by {
        if rows.contains(t) {
            let k = choose|k: int| 0 <= k < rows.len() && rows[k] == t;
            if t.completed {
                assert(rows.filter(done).contains(rows[k]));
            } else {
                assert(rows.filter(open).contains(rows[k]));
            }
        }
        if with_status(rows, true).contains(t) {
            rows.lemma_filter_contains_rev(done, t);
        }
        if with_status(rows, false).contains(t) {
            rows.lemma_filter_contains_rev(open, t);
        }
    }
    assert(with_status(rows, true).to_set() + with_status(rows, false).to_set() =~= rows.to_set());
}

/// Deleting an identifier that no todo has leaves the table as it was;
/// deleting the identifier of a todo removes exactly that todo, and no todo
/// with that identifier is left.
pub proof fn lemma_delete_removes_one(table: TodoTable, id: i32)
    requires
        table.wf(),
    ensures
        !has_id(table@, id) ==> after_delete(table@, id) == table@,
        forall|i: int|
            0 <= i < table@.len() && #[trigger] table@[i].id == id ==> {
                &&& after_delete(table@, id) == table@.remove(i)
                &&& !has_id(after_delete(table@, id), id)
            },
{
    assert forall|i: int| 0 <= i < table@.len() && #[trigger] table@[i].id == id implies {
        &&& after_delete(table@, id) == table@.remove(i)
        &&& !has_id(after_delete(table@, id), id)
    } by {
        let rows = table@;
        assert(has_id(rows, id));
        assert(position(rows, id) == i);
        let after = rows.remove(i);
        if has_id(after, id) {
            let k = choose|k: int| 0 <= k < after.len() && after[k].id == id;
            if k < i {
                assert(after[k] == rows[k]);
            } else {
                assert(after[k] == rows[k + 1]);
            }
        }
    }
}

/// Updating the identifier of a todo writes the new title and completed flag
/// over exactly that todo, and `by_id` then finds the new values; updating an
/// identifier that no todo has leaves the table as it was.
pub proof fn lemma_update_replaces_one(table: TodoTable, id: i32, new: NewTodo)
    requires
        table.wf(),
    ensures
        !has_id(table@, id) ==> after_update(table@, id, new) == table@,
        forall|i: int|
            0 <= i < table@.len() && #[trigger] table@[i].id == id ==> {
                &&& after_update(table@, id, new) == table@.update(i, new.stored_as(id))
                &&& lookup(after_update(table@, id, new), id) == Some(new.stored_as(id))
            },
{
    assert forall|i: int| 0 <= i < table@.len() && #[trigger] table@[i].id == id implies {
        &&& after_update(table@, id, new) == table@.update(i, new.stored_as(id))
        &&& lookup(after_update(table@, id, new), id) == Some(new.stored_as(id))
    } by {
        let rows = table@;
        assert(has_id(rows, id));
        assert(position(rows, id) == i);
        let after = rows.update(i, new.stored_as(id));
        assert(after[i].id == id);
        assert(has_id(after, id));
        let p = position(after, id);
        if p != i {
            assert(after[p] == rows[p]);
        }
    }
}

} // verus!
