//! The status vocabularies stored in the `engines`, `events` and `tasks` tables.
use vstd::prelude::*;

verus! {

/// Compares two string slices by their characters.
pub fn same_text(a: &str, b: &str) -> (r: bool)
    ensures
        r == (a@ == b@),
{
    let x = a.to_owned();
    let y = b.to_owned();
    x == y
}

/// Lifecycle of an engine instance.
#[derive(Clone, Copy, Debug, PartialEq, Eq, Structural)]
pub enum EngineStatus {
    Starting,
    Running,
    Stopped,
}

impl EngineStatus {
    pub open spec fn spec_name(self) -> Seq<char> {
        match self {
            EngineStatus::Starting => "Starting"@,
            EngineStatus::Running => "Running"@,
            EngineStatus::Stopped => "Stopped"@,
        }
    }

    /// The text stored in the `status` column.
    pub fn as_str(&self) -> (r: &'static str)
        ensures
            r@ == self.spec_name(),
    {
        match self {
            EngineStatus::Starting => "Starting",
            EngineStatus::Running => "Running",
            EngineStatus::Stopped => "Stopped",
        }
    }

    /// Reads a stored status; `None` for text that names no status.
    pub fn parse(s: &str) -> (r: Option<EngineStatus>)
        ensures
            r matches Some(st) ==> st.spec_name() == s@,
            r is None ==> (forall|st: EngineStatus| st.spec_name() != s@),
    {
        if same_text(s, "Starting") {
            Some(EngineStatus::Starting)
        } else if same_text(s, "Running") {
            Some(EngineStatus::Running)
        } else if same_text(s, "Stopped") {
            Some(EngineStatus::Stopped)
        } else {
            None
        }
    }
}

/// Run state of one of an engine's two worker processes.
#[derive(Clone, Copy, Debug, PartialEq, Eq, Structural)]
pub enum ProcessStatus {
    Running,
    Stopped,
}

impl ProcessStatus {
    pub open spec fn spec_name(self) -> Seq<char> {
        match self {
            ProcessStatus::Running => "Running"@,
            ProcessStatus::Stopped => "Stopped"@,
        }
    }

    /// The text stored in the process status columns.
    pub fn as_str(&self) -> (r: &'static str)
        ensures
            r@ == self.spec_name(),
    {
        match self {
            ProcessStatus::Running => "Running",
            ProcessStatus::Stopped => "Stopped",
        }
    }

    /// Reads a stored status; `None` for text that names no status.
    pub fn parse(s: &str) -> (r: Option<ProcessStatus>)
        ensures
            r matches Some(st) ==> st.spec_name() == s@,
            r is None ==> (forall|st: ProcessStatus| st.spec_name() != s@),
    {
        if same_text(s, "Running") {
            Some(ProcessStatus::Running)
        } else if same_text(s, "Stopped") {
            Some(ProcessStatus::Stopped)
        } else {
            None
        }
    }
}

/// Lifecycle of an event: created by submission, retried until its trigger
/// succeeds, then terminal.
#[derive(Clone, Copy, Debug, PartialEq, Eq, Structural)]
pub enum EventStatus {
    Created,
    Succeeded,
    Retrying,
}

impl EventStatus {
    pub open spec fn spec_name(self) -> Seq<char> {
        match self {
            EventStatus::Created => "Created"@,
            EventStatus::Succeeded => "Succeeded"@,
            EventStatus::Retrying => "Retrying"@,
        }
    }

    /// The text stored in the `status` column.
    pub fn as_str(&self) -> (r: &'static str)
        ensures
            r@ == self.spec_name(),
    {
        match self {
            EventStatus::Created => "Created",
            EventStatus::Succeeded => "Succeeded",
            EventStatus::Retrying => "Retrying",
        }
    }

    /// Reads a stored status; `None` for text that names no status.
    pub fn parse(s: &str) -> (r: Option<EventStatus>)
        ensures
            r matches Some(st) ==> st.spec_name() == s@,
            r is None ==> (forall|st: EventStatus| st.spec_name() != s@),
    {
        if same_text(s, "Created") {
            Some(EventStatus::Created)
        } else if same_text(s, "Succeeded") {
            Some(EventStatus::Succeeded)
        } else if same_text(s, "Retrying") {
            Some(EventStatus::Retrying)
        } else {
            None
        }
    }
}

/// Lifecycle of a task. Submission writes the initial state as `Created`,
/// which is read as `Pending`.
#[derive(Clone, Copy, Debug, PartialEq, Eq, Structural)]
pub enum TaskStatus {
    Pending,
    Running,
    Completed,
    Failed,
}

impl TaskStatus {
    pub open spec fn spec_name(self) -> Seq<char> {
        match self {
            TaskStatus::Pending => "Pending"@,
            TaskStatus::Running => "Running"@,
            TaskStatus::Completed => "Completed"@,
            TaskStatus::Failed => "Failed"@,
        }
    }

    /// Completed and Failed are final: the core never moves a task out of them.
    pub open spec fn spec_is_terminal(self) -> bool {
        self is Completed || self is Failed
    }

    pub fn is_terminal(&self) -> (r: bool)
        ensures
            r == self.spec_is_terminal(),
    {
        matches!(self, TaskStatus::Completed | TaskStatus::Failed)
    }

    /// The text stored in the `status` column.
    pub fn as_str(&self) -> (r: &'static str)
        ensures
            r@ == self.spec_name(),
    {
        match self {
            TaskStatus::Pending => "Pending",
            TaskStatus::Running => "Running",
            TaskStatus::Completed => "Completed",
            TaskStatus::Failed => "Failed",
        }
    }

    /// Reads a stored status, taking the submission-time `Created` as
    /// `Pending`; `None` for text that names no status.
    pub fn parse(s: &str) -> (r: Option<TaskStatus>)
        ensures
            r matches Some(st) ==> (st.spec_name() == s@ || (st is Pending && s@
                == EventStatus::Created.spec_name())),
            r is None ==> s@ != EventStatus::Created.spec_name() && (forall|st: TaskStatus|
                st.spec_name() != s@),
    {
        if same_text(s, "Pending") || same_text(s, "Created") {
            Some(TaskStatus::Pending)
        } else if same_text(s, "Running") {
            Some(TaskStatus::Running)
        } else if same_text(s, "Completed") {
            Some(TaskStatus::Completed)
        } else if same_text(s, "Failed") {
            Some(TaskStatus::Failed)
        } else {
            None
        }
    }
}

} // verus!
