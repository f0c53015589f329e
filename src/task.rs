use vstd::prelude::*;

use crate::error::Erro;

verus! {

/// Life cycle of a task: `Created`, then `Running`, then one of the two
/// terminal states.
#[derive(Clone, Copy, Debug, PartialEq, Eq, Structural)]
pub enum TaskStatus {
    Created,
    Running,
    Finished,
    Failed,
}

pub open spec fn status_rank(s: TaskStatus) -> int {
    match s {
        TaskStatus::Created => 0,
        TaskStatus::Running => 1,
        TaskStatus::Finished => 2,
        TaskStatus::Failed => 2,
    }
}

pub open spec fn is_terminal(s: TaskStatus) -> bool {
    s == TaskStatus::Finished || s == TaskStatus::Failed
}

/// One submitted handler invocation: its id, the handler's name, the raw
/// input, and what came of it.
pub struct Task {
    id: usize,
    app_name: String,
    status: TaskStatus,
    app_input: String,
    app_output: Option<String>,
    app_error: Option<String>,
}

pub open spec fn opt_view(o: Option<String>) -> Option<Seq<char>> {
    match o {
        Some(s) => Some(s@),
        None => None,
    }
}

impl Task {
    pub closed spec fn id_view(&self) -> usize {
        self.id
    }

    pub closed spec fn name_view(&self) -> Seq<char> {
        self.app_name@
    }

    pub closed spec fn status_view(&self) -> TaskStatus {
        self.status
    }

    pub closed spec fn input_view(&self) -> Seq<char> {
        self.app_input@
    }

    pub closed spec fn output_view(&self) -> Option<Seq<char>> {
        opt_view(self.app_output)
    }

    pub closed spec fn error_view(&self) -> Option<Seq<char>> {
        opt_view(self.app_error)
    }

    pub fn id(&self) -> (r: usize)
        ensures
            r == self.id_view(),
    {
        self.id
    }

    pub fn app_name(&self) -> (r: &str)
        ensures
            r@ == self.name_view(),
    {
        self.app_name.as_str()
    }

    pub fn status(&self) -> (r: TaskStatus)
        ensures
            r == self.status_view(),
    {
        self.status
    }

    pub fn app_input(&self) -> (r: &str)
        ensures
            r@ == self.input_view(),
    {
        self.app_input.as_str()
    }

    pub fn app_output(&self) -> (r: Option<&str>)
        ensures
            r matches Some(s) ==> self.output_view() == Some(s@),
            r is None ==> self.output_view() is None,
    {
        match &self.app_output {
            Some(s) => Some(s.as_str()),
            None => None,
        }
    }

    pub fn app_error(&self) -> (r: Option<&str>)
        ensures
            r matches Some(s) ==> self.error_view() == Some(s@),
            r is None ==> self.error_view() is None,
    {
        match &self.app_error {
            Some(s) => Some(s.as_str()),
            None => None,
        }
    }

    /// A copy of the record as it stands.
    pub fn snapshot(&self) -> (r: Task)
        ensures
            r.id_view() == self.id_view(),
            r.name_view() == self.name_view(),
            r.status_view() == self.status_view(),
            r.input_view() == self.input_view(),
            r.output_view() == self.output_view(),
            r.error_view() == self.error_view(),
    {
        let app_output = match &self.app_output {
            Some(s) => Some(s.clone()),
            None => None,
        };
        let app_error = match &self.app_error {
            Some(s) => Some(s.clone()),
            None => None,
        };
        Task {
            id: self.id,
            app_name: self.app_name.clone(),
            status: self.status,
            app_input: self.app_input.clone(),
            app_output,
            app_error,
        }
    }
}

/// `t` is a freshly created record.
pub open spec fn fresh_task(t: Task, id: usize, name: Seq<char>, input: Seq<char>) -> bool {
    &&& t.id_view() == id
    &&& t.name_view() == name
    &&& t.input_view() == input
    &&& t.status_view() == TaskStatus::Created
    &&& t.output_view() is None
    &&& t.error_view() is None
}

/// Apart from index `i`, nothing changed, and at `i` only the status and
/// the outcome may have.
pub open spec fn only_outcome_changed(before: Seq<Task>, after: Seq<Task>, i: int) -> bool {
    &&& after.len() == before.len()
    &&& forall|j: int| 0 <= j < before.len() && j != i ==> after[j] == before[j]
    &&& after[i].id_view() == before[i].id_view()
    &&& after[i].name_view() == before[i].name_view()
    &&& after[i].input_view() == before[i].input_view()
}

/// Every task of `before` is still there, its status has not moved back,
/// and a task that had reached a terminal state is untouched.
pub open spec fn advanced(before: Seq<Task>, after: Seq<Task>) -> bool {
    &&& before.len() <= after.len()
    &&& forall|i: int|
        #![trigger after[i]]
        0 <= i < before.len() ==> after[i].id_view() == before[i].id_view() && status_rank(
            before[i].status_view(),
        ) <= status_rank(after[i].status_view()) && (is_terminal(before[i].status_view())
            ==> after[i] == before[i])
}

/// `after` is `before` with one more task, the fresh record `t` of handler
/// `name` with input `input`, numbered right after the last one.
pub open spec fn created(
    before: Seq<Task>,
    after: Seq<Task>,
    t: Task,
    name: Seq<char>,
    input: Seq<char>,
) -> bool {
    &&& after == before.push(after.last())
    &&& fresh_task(after.last(), (before.len() + 1) as usize, name, input)
    &&& fresh_task(t, (before.len() + 1) as usize, name, input)
}

/// A finished task has an output and no error, a failed one a non-empty
/// error and no output, and one still in flight neither.
pub open spec fn outcome_fits(t: Task) -> bool {
    match t.status_view() {
        TaskStatus::Finished => t.output_view() is Some && t.error_view() is None,
        TaskStatus::Failed => t.output_view() is None && (t.error_view() matches Some(e) && e.len()
            > 0),
        _ => t.output_view() is None && t.error_view() is None,
    }
}

/// The append-only ledger of tasks, numbered from 1 in submission order.
pub struct TaskController {
    tasks: Vec<Task>,
    last_id: usize,
}

impl TaskController {
    /// The task at index `i` has id `i + 1`, and the last id handed out is
    /// the number of tasks; outputs belong to finished tasks and errors to
    /// failed ones.
    pub closed spec fn wf(&self) -> bool {
        &&& self.last_id == self.tasks@.len()
        &&& forall|i: int| 0 <= i < self.tasks@.len() ==> #[trigger] self.tasks@[i].id == i + 1
        &&& forall|i: int|
            0 <= i < self.tasks@.len() ==> outcome_fits(#[trigger] self.tasks@[i])
    }

    pub closed spec fn ledger(&self) -> Seq<Task> {
        self.tasks@
    }

    pub fn default() -> (r: TaskController)
        ensures
            r.wf(),
            r.ledger().len() == 0,
    {
        TaskController { tasks: Vec::new(), last_id: 0 }
    }

    /// Records a new task for handler `app_name` with raw `input`, in state
    /// `Created`, and returns a snapshot of it. Fails only when the ids are
    /// exhausted.
    pub fn new_task(&mut self, app_name: String, input: String) -> (r: Result<Task, Erro>)
        requires
            old(self).wf(),
        ensures
            final(self).wf(),
            old(self).ledger().len() == usize::MAX ==> r == Err::<Task, Erro>(Erro::TaskInvalidIndex)
                && final(self).ledger() == old(self).ledger(),
            old(self).ledger().len() < usize::MAX ==> r is Ok,
            r matches Ok(t) ==> created(old(self).ledger(), final(self).ledger(), t, app_name@, input@),
            advanced(old(self).ledger(), final(self).ledger()),
    {
        if self.last_id == usize::MAX {
            return Err(Erro::TaskInvalidIndex);
        }
        let id = self.last_id + 1;
        let task = Task {
            id,
            app_name,
            status: TaskStatus::Created,
            app_input: input,
            app_output: None,
            app_error: None,
        };
        let snap = task.snapshot();
        self.tasks.push(task);
        self.last_id = id;
        Ok(snap)
    }

    /// Marks the task `id` as running; only a `Created` task can start.
    pub fn start(&mut self, id: usize) -> (r: Result<(), Erro>)
        requires
            old(self).wf(),
        ensures
            final(self).wf(),
            advanced(old(self).ledger(), final(self).ledger()),
            !(1 <= id <= old(self).ledger().len()) ==> r == Err::<(), Erro>(Erro::TaskNotFound)
                && final(self).ledger() == old(self).ledger(),
            1 <= id <= old(self).ledger().len() && old(self).ledger()[id - 1].status_view()
                != TaskStatus::Created ==> r == Err::<(), Erro>(Erro::TaskInvalidIndex)
                && final(self).ledger() == old(self).ledger(),
            1 <= id <= old(self).ledger().len() && old(self).ledger()[id - 1].status_view()
                == TaskStatus::Created ==> r is Ok && only_outcome_changed(
                old(self).ledger(),
                final(self).ledger(),
                id - 1,
            ) && final(self).ledger()[id - 1].status_view() == TaskStatus::Running
                && final(self).ledger()[id - 1].output_view() is None
                && final(self).ledger()[id - 1].error_view() is None,
    {
        if id == 0 || id > self.tasks.len() {
            return Err(Erro::TaskNotFound);
        }
        let i = id - 1;
        if self.tasks[i].status != TaskStatus::Created {
            return Err(Erro::TaskInvalidIndex);
        }
        let t = self.tasks[i].snapshot();
        let running = Task { status: TaskStatus::Running, ..t };
        self.tasks.set(i, running);
        proof {
            assert(self.tasks@[i as int].id == i + 1);
        }
        Ok(())
    }

    /// Records the outcome of the running task `id`: `Finished` with the
    /// output, or `Failed` with the (non-empty) error text.
    pub fn finish(&mut self, id: usize, outcome: Result<String, String>) -> (r: Result<(), Erro>)
        requires
            old(self).wf(),
            outcome matches Err(e) ==> e@.len() > 0,
        ensures
            final(self).wf(),
            advanced(old(self).ledger(), final(self).ledger()),
            !(1 <= id <= old(self).ledger().len()) ==> r == Err::<(), Erro>(Erro::TaskNotFound)
                && final(self).ledger() == old(self).ledger(),
            1 <= id <= old(self).ledger().len() && old(self).ledger()[id - 1].status_view()
                != TaskStatus::Running ==> r == Err::<(), Erro>(Erro::TaskInvalidIndex)
                && final(self).ledger() == old(self).ledger(),
            1 <= id <= old(self).ledger().len() && old(self).ledger()[id - 1].status_view()
                == TaskStatus::Running ==> r is Ok && only_outcome_changed(
                old(self).ledger(),
                final(self).ledger(),
                id - 1,
            ) && match outcome {
                Ok(out) => final(self).ledger()[id - 1].status_view() == TaskStatus::Finished
                    && final(self).ledger()[id - 1].output_view() == Some(out@)
                    && final(self).ledger()[id - 1].error_view() is None,
                Err(e) => final(self).ledger()[id - 1].status_view() == TaskStatus::Failed
                    && final(self).ledger()[id - 1].output_view() is None
                    && final(self).ledger()[id - 1].error_view() == Some(e@),
            },
    {
        if id == 0 || id > self.tasks.len() {
            return Err(Erro::TaskNotFound);
        }
        let i = id - 1;
        if self.tasks[i].status != TaskStatus::Running {
            return Err(Erro::TaskInvalidIndex);
        }
        let t = self.tasks[i].snapshot();
        let done = match outcome {
            Ok(out) => Task {
                status: TaskStatus::Finished,
                app_output: Some(out),
                app_error: None,
                ..t
            },
            Err(e) => Task { status: TaskStatus::Failed, app_output: None, app_error: Some(e), ..t },
        };
        self.tasks.set(i, done);
        proof {
            assert(self.tasks@[i as int].id == i + 1);
        }
        Ok(())
    }

    /// The task with the given id.
    pub fn get(&self, id: usize) -> (r: Result<&Task, Erro>)
        ensures
            1 <= id <= self.ledger().len() ==> r == Ok::<&Task, Erro>(&self.ledger()[id - 1]),
            !(1 <= id <= self.ledger().len()) ==> r == Err::<&Task, Erro>(Erro::TaskNotFound),
    {
        if id == 0 || id > self.tasks.len() {
            return Err(Erro::TaskNotFound);
        }
        Ok(&self.tasks[id - 1])
    }

    /// Ids are the positions in the ledger counted from 1: strictly
    /// increasing in submission order and never repeated.
    pub proof fn lemma_ids_increase(&self)
        requires
            self.wf(),
        ensures
            forall|i: int|
                0 <= i < self.ledger().len() ==> #[trigger] self.ledger()[i].id_view() == i + 1,
            forall|i: int, j: int|
                #![trigger self.ledger()[i], self.ledger()[j]]
                0 <= i < j < self.ledger().len() ==> self.ledger()[i].id_view()
                    < self.ledger()[j].id_view(),
    {
        assert forall|i: int, j: int|
            #![trigger self.ledger()[i], self.ledger()[j]]
            0 <= i < j < self.ledger().len() implies self.ledger()[i].id_view()
            < self.ledger()[j].id_view() by {
            assert(self.tasks@[i].id == i + 1);
            assert(self.tasks@[j].id == j + 1);
        }
    }

    /// Every task's outcome matches its status: output exactly when
    /// finished, a non-empty error exactly when failed.
    pub proof fn lemma_outcomes_match_status(&self)
        requires
            self.wf(),
        ensures
            forall|i: int| 0 <= i < self.ledger().len() ==> outcome_fits(#[trigger] self.ledger()[i]),
    {
    }

    /// All tasks, in submission order.
    pub fn tasks(&self) -> (r: &[Task])
        ensures
            r@ == self.ledger(),
    {
        self.tasks.as_slice()
    }
}

/// Two tasks submitted one after the other get consecutive ids, the second
/// larger; later status changes, in whatever order the runs complete,
/// keep every id where it was.
pub proof fn lemma_back_to_back_ids(
    l0: Seq<Task>,
    l1: Seq<Task>,
    l2: Seq<Task>,
    l3: Seq<Task>,
    t1: Task,
    t2: Task,
    n1: Seq<char>,
    i1: Seq<char>,
    n2: Seq<char>,
    i2: Seq<char>,
)
    requires
        l0.len() + 2 <= usize::MAX,
        created(l0, l1, t1, n1, i1),
        created(l1, l2, t2, n2, i2),
        advanced(l2, l3),
    ensures
        t1.id_view() == l0.len() + 1,
        t2.id_view() == t1.id_view() + 1,
        l3[l0.len() as int].id_view() == t1.id_view(),
        l3[l0.len() + 1int].id_view() == t2.id_view(),
{
    assert(l2[l0.len() as int] == l1[l0.len() as int]);
    assert(l3[l0.len() as int].id_view() == l2[l0.len() as int].id_view());
    assert(l3[l0.len() + 1int].id_view() == l2[l0.len() + 1int].id_view());
}

} // verus!
