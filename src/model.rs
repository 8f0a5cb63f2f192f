//! Plain data types shared by the persistence layer and the handlers.
use vstd::prelude::*;

verus! {

/// Primary key of a stored row.
pub type PrimaryKey = u64;

/// Number of a pull request inside its repository.
pub type PullRequestNumber = u64;

/// A unique identifier for a workflow run.
///
/// The platform hands out unsigned 64-bit identifiers, while the storage
/// column is a signed 64-bit integer: `to_i64` and `from_i64` convert at that
/// boundary by reinterpreting the two's complement bits.
#[derive(Clone, Copy, Debug, PartialEq, Eq, Structural)]
pub struct RunId(pub u64);

/// The storage value of a run id: its bits read as a signed integer.
pub open spec fn stored_run_id(id: u64) -> i64 {
    if id <= i64::MAX as u64 {
        id as i64
    } else {
        (id as int - 0x1_0000_0000_0000_0000int) as i64
    }
}

/// The run id that a storage value stands for.
pub open spec fn loaded_run_id(value: i64) -> u64 {
    if value >= 0 {
        value as u64
    } else {
        (value as int + 0x1_0000_0000_0000_0000int) as u64
    }
}

impl RunId {
    /// Converts a stored (signed) value back into a run id.
    pub fn from_i64(value: i64) -> (r: RunId)
        ensures
            r.0 == loaded_run_id(value),
    {
        if value >= 0 {
            RunId(value as u64)
        } else {
            let shifted: i128 = value as i128 + 0x1_0000_0000_0000_0000i128;
            RunId(shifted as u64)
        }
    }

    /// The signed value under which this run id is stored.
    pub fn to_i64(&self) -> (r: i64)
        ensures
            r == stored_run_id(self.0),
    {
        if self.0 <= i64::MAX as u64 {
            self.0 as i64
        } else {
            let shifted: i128 = self.0 as i128 - 0x1_0000_0000_0000_0000i128;
            shifted as i64
        }
    }
}

/// Status of a build.
#[derive(Clone, Copy, Debug, PartialEq, Eq, Structural)]
pub enum BuildStatus {
    /// The build is still waiting for results.
    Pending,
    /// The build has succeeded.
    Success,
    /// The build has failed.
    Failure,
    /// The build has been manually cancelled by a user.
    Cancelled,
    /// The build ran for too long and was timed out by the bot.
    Timeouted,
}

/// Whether a build status is final.
pub open spec fn build_status_is_terminal(s: BuildStatus) -> bool {
    s != BuildStatus::Pending
}

/// A build may move from `Pending` to any status; a terminal status only
/// admits being set to itself again.
pub open spec fn build_transition_allowed(from: BuildStatus, to: BuildStatus) -> bool {
    from == BuildStatus::Pending || from == to
}

/// The storage spelling of a build status.
pub open spec fn build_status_text(s: BuildStatus) -> Seq<char> {
    match s {
        BuildStatus::Pending => "pending"@,
        BuildStatus::Success => "success"@,
        BuildStatus::Failure => "failure"@,
        BuildStatus::Cancelled => "cancelled"@,
        BuildStatus::Timeouted => "timeouted"@,
    }
}

/// The build status that a storage spelling stands for.
pub open spec fn decoded_build_status(t: Seq<char>) -> Option<BuildStatus> {
    if t == "pending"@ {
        Some(BuildStatus::Pending)
    } else if t == "success"@ {
        Some(BuildStatus::Success)
    } else if t == "failure"@ {
        Some(BuildStatus::Failure)
    } else if t == "cancelled"@ {
        Some(BuildStatus::Cancelled)
    } else if t == "timeouted"@ {
        Some(BuildStatus::Timeouted)
    } else {
        None
    }
}

/// Describes whether a workflow is a native CI workflow or a job of an external CI.
#[derive(Clone, Copy, Debug, PartialEq, Eq, Structural)]
pub enum WorkflowType {
    Github,
    External,
}

/// The storage spelling of a workflow type.
pub open spec fn workflow_type_text(t: WorkflowType) -> Seq<char> {
    match t {
        WorkflowType::Github => "github"@,
        WorkflowType::External => "external"@,
    }
}

/// The workflow type that a storage spelling stands for.
pub open spec fn decoded_workflow_type(t: Seq<char>) -> Option<WorkflowType> {
    if t == "github"@ {
        Some(WorkflowType::Github)
    } else if t == "external"@ {
        Some(WorkflowType::External)
    } else {
        None
    }
}

/// Status of a workflow.
#[derive(Clone, Copy, Debug, PartialEq, Eq, Structural)]
pub enum WorkflowStatus {
    /// Workflow is running.
    Pending,
    /// Workflow has succeeded.
    Success,
    /// Workflow has failed.
    Failure,
}

/// The storage spelling of a workflow status.
pub open spec fn workflow_status_text(s: WorkflowStatus) -> Seq<char> {
    match s {
        WorkflowStatus::Pending => "pending"@,
        WorkflowStatus::Success => "success"@,
        WorkflowStatus::Failure => "failure"@,
    }
}

/// The workflow status that a storage spelling stands for.
pub open spec fn decoded_workflow_status(t: Seq<char>) -> Option<WorkflowStatus> {
    if t == "pending"@ {
        Some(WorkflowStatus::Pending)
    } else if t == "success"@ {
        Some(WorkflowStatus::Success)
    } else if t == "failure"@ {
        Some(WorkflowStatus::Failure)
    } else {
        None
    }
}

/// Decoding the storage spelling of a status or type gives it back.
pub proof fn spelling_round_trip(b: BuildStatus, t: WorkflowType, w: WorkflowStatus)
    ensures
        decoded_build_status(build_status_text(b)) == Some(b),
        decoded_workflow_type(workflow_type_text(t)) == Some(t),
        decoded_workflow_status(workflow_status_text(w)) == Some(w),
{
    reveal_strlit("pending");
    reveal_strlit("success");
    reveal_strlit("failure");
    reveal_strlit("cancelled");
    reveal_strlit("timeouted");
    reveal_strlit("github");
    reveal_strlit("external");
    assert("pending"@[0] != "success"@[0]);
    assert("pending"@[0] != "failure"@[0]);
    assert("success"@[0] != "failure"@[0]);
    assert("pending"@.len() != "cancelled"@.len());
    assert("success"@.len() != "cancelled"@.len());
    assert("failure"@.len() != "cancelled"@.len());
    assert("pending"@.len() != "timeouted"@.len());
    assert("success"@.len() != "timeouted"@.len());
    assert("failure"@.len() != "timeouted"@.len());
    assert("cancelled"@[0] != "timeouted"@[0]);
    assert("github"@.len() != "external"@.len());
}

/// Whether a pull request can be merged cleanly into its base branch.
#[derive(Clone, Copy, Debug, PartialEq, Eq, Structural)]
pub enum MergeableState {
    Unknown,
    Mergeable,
    HasConflicts,
}

/// A label transition that the platform applies to a pull request.
#[derive(Clone, Copy, Debug, PartialEq, Eq, Structural)]
pub enum LabelTrigger {
    Approved,
    Unapproved,
}

impl BuildStatus {
    /// Whether a build with this status may be set to `to`.
    pub fn can_transition_to(&self, to: BuildStatus) -> (r: bool)
        ensures
            r == build_transition_allowed(*self, to),
    {
        *self == BuildStatus::Pending || *self == to
    }

    /// The storage spelling of this status.
    pub fn as_str(&self) -> (r: &'static str)
        ensures
            r@ == build_status_text(*self),
    {
        match self {
            BuildStatus::Pending => "pending",
            BuildStatus::Success => "success",
            BuildStatus::Failure => "failure",
            BuildStatus::Cancelled => "cancelled",
            BuildStatus::Timeouted => "timeouted",
        }
    }

    /// Reads a status from its storage spelling; `None` for any other text.
    pub fn decode(text: &str) -> (r: Option<BuildStatus>)
        ensures
            r == decoded_build_status(text@),
    {
        let t = String::from_str(text);
        if t == String::from_str("pending") {
            Some(BuildStatus::Pending)
        } else if t == String::from_str("success") {
            Some(BuildStatus::Success)
        } else if t == String::from_str("failure") {
            Some(BuildStatus::Failure)
        } else if t == String::from_str("cancelled") {
            Some(BuildStatus::Cancelled)
        } else if t == String::from_str("timeouted") {
            Some(BuildStatus::Timeouted)
        } else {
            None
        }
    }
}

impl WorkflowType {
    /// The storage spelling of this workflow type.
    pub fn as_str(&self) -> (r: &'static str)
        ensures
            r@ == workflow_type_text(*self),
    {
        match self {
            WorkflowType::Github => "github",
            WorkflowType::External => "external",
        }
    }

    /// Reads a workflow type from its storage spelling; `None` for any other text.
    pub fn decode(text: &str) -> (r: Option<WorkflowType>)
        ensures
            r == decoded_workflow_type(text@),
    {
        let t = String::from_str(text);
        if t == String::from_str("github") {
            Some(WorkflowType::Github)
        } else if t == String::from_str("external") {
            Some(WorkflowType::External)
        } else {
            None
        }
    }
}

impl WorkflowStatus {
    /// The storage spelling of this status.
    pub fn as_str(&self) -> (r: &'static str)
        ensures
            r@ == workflow_status_text(*self),
    {
        match self {
            WorkflowStatus::Pending => "pending",
            WorkflowStatus::Success => "success",
            WorkflowStatus::Failure => "failure",
        }
    }

    /// Reads a status from its storage spelling; `None` for any other text.
    pub fn decode(text: &str) -> (r: Option<WorkflowStatus>)
        ensures
            r == decoded_workflow_status(text@),
    {
        let t = String::from_str(text);
        if t == String::from_str("pending") {
            Some(WorkflowStatus::Pending)
        } else if t == String::from_str("success") {
            Some(WorkflowStatus::Success)
        } else if t == String::from_str("failure") {
            Some(WorkflowStatus::Failure)
        } else {
            None
        }
    }
}

} // verus!
