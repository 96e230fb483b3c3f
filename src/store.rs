use crate::errors::AppError;
use crate::task::{is_blank, is_blank_title, outcome, Task, TaskView};
use vstd::prelude::*;

verus! {

/// The body of an insert request.
pub struct InsertTask {
    pub non_empty_title: String,
    pub details: String,
}

/// The body of an update request.
pub struct UpdateTask {
    pub id: u64,
    pub new_title: String,
    pub details: String,
}

/// The mathematical value of a store: its tasks in insertion order, and the
/// identifier that the next insert will hand out.
pub struct StoreView {
    pub tasks: Seq<TaskView>,
    pub next_id: u64,
}

impl StoreView {
    /// The empty store that a process starts with.
    pub open spec fn empty() -> StoreView {
        StoreView { tasks: Seq::empty(), next_id: 0 }
    }

    /// Identifiers are unique, each was handed out before (so lies below the
    /// counter), and no title is blank.
    pub open spec fn wf(self) -> bool {
        &&& forall|i: int, j: int|
            0 <= i < self.tasks.len() && 0 <= j < self.tasks.len() && i != j ==> #[trigger] self.tasks[i].id
                != #[trigger] self.tasks[j].id
        &&& forall|i: int| 0 <= i < self.tasks.len() ==> #[trigger] self.tasks[i].id < self.next_id
        &&& forall|i: int| 0 <= i < self.tasks.len() ==> !is_blank(#[trigger] self.tasks[i].title)
    }

    pub open spec fn holds_id(self, id: u64) -> bool {
        exists|i: int| 0 <= i < self.tasks.len() && #[trigger] self.tasks[i].id == id
    }

    /// Where the task with identifier `id` stands.
    pub open spec fn index_of(self, id: u64) -> int
        recommends
            self.holds_id(id),
    {
        choose|i: int| 0 <= i < self.tasks.len() && #[trigger] self.tasks[i].id == id
    }

    pub open spec fn insert_result(self, title: Seq<char>, details: Seq<char>) -> Result<TaskView, AppError> {
        if is_blank(title) {
            Err(AppError::EmptyTitle)
        } else if self.next_id == u64::MAX {
            Err(AppError::Internal)
        } else {
            Ok(TaskView { id: self.next_id, title, details })
        }
    }

    /// A successful insert appends the new task and advances the counter by
    /// one; a failed one changes nothing.
    pub open spec fn after_insert(self, title: Seq<char>, details: Seq<char>) -> StoreView {
        match self.insert_result(title, details) {
            Ok(t) => StoreView { tasks: self.tasks.push(t), next_id: (self.next_id + 1) as u64 },
            Err(_) => self,
        }
    }

    pub open spec fn find_result(self, id: u64) -> Result<TaskView, AppError> {
        if self.holds_id(id) {
            Ok(self.tasks[self.index_of(id)])
        } else {
            Err(AppError::IdNotFound(id))
        }
    }

    pub open spec fn update_result(self, id: u64, title: Seq<char>, details: Seq<char>) -> Result<
        TaskView,
        AppError,
    > {
        if is_blank(title) {
            Err(AppError::EmptyTitle)
        } else if !self.holds_id(id) {
            Err(AppError::IdNotFound(id))
        } else {
            Ok(TaskView { id, title, details })
        }
    }

    /// A successful update replaces the matched task in place; a failed one
    /// changes nothing.
    pub open spec fn after_update(self, id: u64, title: Seq<char>, details: Seq<char>) -> StoreView {
        match self.update_result(id, title, details) {
            Ok(t) => StoreView { tasks: self.tasks.update(self.index_of(id), t), next_id: self.next_id },
            Err(_) => self,
        }
    }

    pub open spec fn delete_result(self, id: u64) -> Result<TaskView, AppError> {
        self.find_result(id)
    }

    /// A successful delete removes exactly the matched task; a failed one
    /// changes nothing.
    pub open spec fn after_delete(self, id: u64) -> StoreView {
        if self.holds_id(id) {
            StoreView { tasks: self.tasks.remove(self.index_of(id)), next_id: self.next_id }
        } else {
            self
        }
    }
}

/// The task store: tasks in insertion order and an identifier counter that
/// only grows, so that no identifier is handed out twice.
pub struct TaskStore {
    tasks: Vec<Task>,
    next_id: u64,
}

impl View for TaskStore {
    type V = StoreView;

    closed spec fn view(&self) -> StoreView {
        StoreView { tasks: self.tasks@.map_values(|t: Task| t@), next_id: self.next_id }
    }
}

impl TaskStore {
    pub open spec fn wf(&self) -> bool {
        self@.wf()
    }

    /// An empty store whose first insert gets identifier 0.
    pub fn new() -> (r: TaskStore)
        ensures
            r.wf(),
            r@ == StoreView::empty(),
    {
        let r = TaskStore { tasks: Vec::new(), next_id: 0 };
        assert(r@.tasks =~= Seq::<TaskView>::empty());
        r
    }

    /// The position of the task with identifier `id`, if one is stored.
    fn position(&self, id: u64) -> (r: Option<usize>)
        requires
            self.wf(),
        ensures
            match r {
                Some(i) => self@.holds_id(id) && i as int == self@.index_of(id) && i < self@.tasks.len(),
                None => !self@.holds_id(id),
            },
    {
        let mut i: usize = 0;
        while i < self.tasks.len()
            invariant
                self.wf(),
                i <= self.tasks@.len(),
                forall|j: int| 0 <= j < i ==> #[trigger] self.tasks@[j].id != id,
            decreases self.tasks@.len() - i,
        {
            if self.tasks[i].id == id {
                assert(self@.tasks[i as int].id == id);
                let ghost k = self@.index_of(id);
                assert(self@.tasks[k].id == id);
                return Some(i);
            }
            i = i + 1;
        }
        assert forall|j: int| 0 <= j < self@.tasks.len() implies #[trigger] self@.tasks[j].id != id by {
            assert(self@.tasks[j] == self.tasks@[j]@);
        }
        None
    }

    /// Adds a task with the next identifier, unless the title is blank.
    pub fn insert(&mut self, insert_task: InsertTask) -> (r: Result<Task, AppError>)
        requires
            old(self).wf(),
        ensures
            final(self).wf(),
            final(self)@ == old(self)@.after_insert(
                insert_task.non_empty_title@,
                insert_task.details@,
            ),
            outcome(r) == old(self)@.insert_result(insert_task.non_empty_title@, insert_task.details@),
    {
        if is_blank_title(insert_task.non_empty_title.as_str()) {
            return Err(AppError::EmptyTitle);
        }
        if self.next_id == u64::MAX {
            return Err(AppError::Internal);
        }
        let ghost before = self@;
        let id = self.next_id;
        self.next_id = id + 1;
        let task = Task { id, title: insert_task.non_empty_title, details: insert_task.details };
        let copy = task.snapshot();
        self.tasks.push(task);
        assert(self@.tasks =~= before.tasks.push(copy@));
        Ok(copy)
    }

    /// A copy of every task, in insertion order.
    pub fn find_all(&self) -> (r: Vec<Task>)
        ensures
            r@.map_values(|t: Task| t@) == self@.tasks,
    {
        let mut r: Vec<Task> = Vec::new();
        let mut i: usize = 0;
        while i < self.tasks.len()
            invariant
                i <= self.tasks@.len(),
                r@.len() == i,
                forall|j: int| 0 <= j < i ==> #[trigger] r@[j]@ == self.tasks@[j]@,
            decreases self.tasks@.len() - i,
        {
            r.push(self.tasks[i].snapshot());
            i = i + 1;
        }
        assert(r@.map_values(|t: Task| t@) =~= self@.tasks);
        r
    }

    /// A copy of the task with identifier `id`.
    pub fn find_by_id(&self, id: u64) -> (r: Result<Task, AppError>)
        requires
            self.wf(),
        ensures
            outcome(r) == self@.find_result(id),
    {
        match self.position(id) {
            Some(i) => Ok(self.tasks[i].snapshot()),
            None => Err(AppError::IdNotFound(id)),
        }
    }

    /// Replaces the title and details of the task with the given identifier,
    /// keeping its identifier and its place.
    pub fn update(&mut self, update_task: UpdateTask) -> (r: Result<Task, AppError>)
        requires
            old(self).wf(),
        ensures
            final(self).wf(),
            final(self)@ == old(self)@.after_update(
                update_task.id,
                update_task.new_title@,
                update_task.details@,
            ),
            outcome(r) == old(self)@.update_result(
                update_task.id,
                update_task.new_title@,
                update_task.details@,
            ),
    {
        if is_blank_title(update_task.new_title.as_str()) {
            return Err(AppError::EmptyTitle);
        }
        match self.position(update_task.id) {
            None => Err(AppError::IdNotFound(update_task.id)),
            Some(i) => {
                let ghost before = self@;
                let task = Task {
                    id: update_task.id,
                    title: update_task.new_title,
                    details: update_task.details,
                };
                let copy = task.snapshot();
                self.tasks.set(i, task);
                assert(self@.tasks =~= before.tasks.update(i as int, copy@));
                Ok(copy)
            },
        }
    }

    /// Removes the task with identifier `id` and hands it back.
    pub fn delete(&mut self, id: u64) -> (r: Result<Task, AppError>)
        requires
            old(self).wf(),
        ensures
            final(self).wf(),
            final(self)@ == old(self)@.after_delete(id),
            outcome(r) == old(self)@.delete_result(id),
    {
        match self.position(id) {
            None => Err(AppError::IdNotFound(id)),
            Some(i) => {
                let ghost before = self@;
                let task = self.tasks.remove(i);
                assert(self@.tasks =~= before.tasks.remove(i as int));
                Ok(task)
            },
        }
    }
}

/// The state the service starts with, before any request: no tasks, and the
/// identifier counter at zero.
pub fn rocket() -> (r: TaskStore)
    ensures
        r.wf(),
        r@ == StoreView::empty(),
{
    TaskStore::new()
}

} // verus!
