//! Task stores. The library's store keeps the task list in memory and
//! remembers whether it was saved since it was last written out; the program
//! writes the list it hands out to its file after each key.
use vstd::prelude::*;
use crate::model::{Todo, TodoView, todo_views};

verus! {

/// Somewhere the task list can be saved and read back. A store holds a task
/// list, `contents`: loading gives it back, a save that succeeds replaces it
/// with the saved tasks, and a save that fails leaves it as it was.
pub trait TodoStore {
    /// The tasks the store holds.
    spec fn contents(&self) -> Seq<TodoView>;

    fn load(&self) -> (r: Result<Vec<Todo>, String>)
        ensures
            r matches Ok(v) ==> todo_views(v@) == self.contents(),
    ;

    fn save(&mut self, todos: &[Todo]) -> (r: Result<(), String>)
        ensures
            r is Ok ==> final(self).contents() == todo_views(todos@),
            r is Err ==> final(self).contents() == old(self).contents(),
    ;
}

/// The contents of a memory store after saving `todos`.
pub open spec fn after_save(todos: Seq<TodoView>) -> Seq<TodoView> {
    todos
}

/// What loading from a memory store with contents `contents` gives.
pub open spec fn loaded_from(contents: Seq<TodoView>) -> Seq<TodoView> {
    contents
}

/// Reading a memory store gives back exactly the tasks last saved to it, in
/// their order.
pub proof fn law_store_round_trip(todos: Seq<TodoView>)
    ensures
        loaded_from(after_save(todos)) == todos,
{
}

/// A store held in memory, which also remembers whether tasks were saved to
/// it since they were last handed out to be written elsewhere.
pub struct Store {
    saved: Vec<Todo>,
    unwritten: bool,
}

impl View for Store {
    type V = Seq<TodoView>;

    closed spec fn view(&self) -> Seq<TodoView> {
        todo_views(self.saved@)
    }
}

/// Copies of the given tasks, in order.
pub fn copy_todos(todos: &[Todo]) -> (r: Vec<Todo>)
    ensures
        todo_views(r@) == todo_views(todos@),
{
    let mut out: Vec<Todo> = Vec::new();
    let mut i: usize = 0;
    while i < todos.len()
        invariant
            i <= todos@.len(),
            todo_views(out@) == todo_views(todos@).take(i as int),
        decreases todos@.len() - i,
    {
        let copy = todos[i].duplicate();
        let ghost before = todo_views(out@);
        let ghost copied = copy@;
        assert(copied == todo_views(todos@)[i as int]);
        out.push(copy);
        assert(todo_views(out@) =~= before.push(copied));
        assert(todo_views(todos@).take(i + 1) =~= todo_views(todos@).take(i as int).push(copied));
        i = i + 1;
    }
    assert(todo_views(todos@).take(todos@.len() as int) =~= todo_views(todos@));
    out
}

impl Store {
    /// Whether tasks were saved since they were last handed out.
    pub closed spec fn unwritten(&self) -> bool {
        self.unwritten
    }

    /// An empty store in memory, with nothing to write out.
    pub fn new_in_memory() -> (r: Store)
        ensures
            r@ == Seq::<TodoView>::empty(),
            !r.unwritten(),
    {
        let r = Store { saved: Vec::new(), unwritten: false };
        assert(r@ =~= Seq::<TodoView>::empty());
        r
    }

    /// A store holding copies of `todos` (what the program read from its
    /// file), with nothing to write out.
    pub fn holding(todos: &[Todo]) -> (r: Store)
        ensures
            r@ == todo_views(todos@),
            !r.unwritten(),
    {
        Store { saved: copy_todos(todos), unwritten: false }
    }

    /// The tasks to write out, when some were saved since the last call:
    /// copies of the tasks held. Afterwards nothing is left to write.
    pub fn take_unwritten(&mut self) -> (r: Option<Vec<Todo>>)
        ensures
            final(self)@ == old(self)@,
            !final(self).unwritten(),
            old(self).unwritten() ==> (r matches Some(v) && todo_views(v@) == old(self)@),
            !old(self).unwritten() ==> r is None,
    {
        if self.unwritten {
            self.unwritten = false;
            Some(copy_todos(self.saved.as_slice()))
        } else {
            None
        }
    }
}

impl TodoStore for Store {
    open spec fn contents(&self) -> Seq<TodoView> {
        self@
    }

    /// The tasks last saved (none at first).
    fn load(&self) -> (r: Result<Vec<Todo>, String>)
        ensures
            r matches Ok(v) && todo_views(v@) == loaded_from(self@),
    {
        Ok(copy_todos(self.saved.as_slice()))
    }

    /// Keeps copies of the given tasks in place of those saved before; they
    /// are then left to write out.
    fn save(&mut self, todos: &[Todo]) -> (r: Result<(), String>)
        ensures
            r is Ok,
            final(self)@ == after_save(todo_views(todos@)),
            final(self).unwritten(),
    {
        self.saved = copy_todos(todos);
        self.unwritten = true;
        Ok(())
    }
}


} // verus!
