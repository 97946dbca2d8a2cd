//! Isolating a task with the means of the operating system.
//!
//! What is to be done, in which order, and what an outcome means is decided here.
//! The system calls themselves are made outside: each action goes out, and its
//! outcome comes back as an event.

use crate::text::{decimal, decimal_text, signed_decimal, signed_decimal_text};
use crate::tier_manager::context::TaskId;
use std::collections::{HashMap, HashSet};
use vstd::prelude::*;
use vstd::string::*;

verus! {

/// Result type for isolation operations.
pub type IsolationResult<T> = Result<T, IsolationError>;

/// Errors that can occur during task isolation.
#[derive(Debug, Clone)]
pub enum IsolationError {
    /// System call failed.
    SystemCall(String),
    /// Permission denied for isolation operation.
    PermissionDenied(String),
    /// Isolation feature not available on this platform.
    NotSupported(String),
    /// Cgroup operation failed.
    CgroupError(String),
    /// Windows job object operation failed.
    JobObjectError(String),
    /// macOS task policy operation failed.
    TaskPolicyError(String),
}

/// What an [`IsolationError`] holds.
#[verifier::ext_equal]
pub enum IsolationFault {
    SystemCall(Seq<char>),
    PermissionDenied(Seq<char>),
    NotSupported(Seq<char>),
    CgroupError(Seq<char>),
    JobObjectError(Seq<char>),
    TaskPolicyError(Seq<char>),
}

impl View for IsolationError {
    type V = IsolationFault;

    open spec fn view(&self) -> IsolationFault {
        match *self {
            IsolationError::SystemCall(reason) => IsolationFault::SystemCall(reason@),
            IsolationError::PermissionDenied(reason) => IsolationFault::PermissionDenied(reason@),
            IsolationError::NotSupported(reason) => IsolationFault::NotSupported(reason@),
            IsolationError::CgroupError(reason) => IsolationFault::CgroupError(reason@),
            IsolationError::JobObjectError(reason) => IsolationFault::JobObjectError(reason@),
            IsolationError::TaskPolicyError(reason) => IsolationFault::TaskPolicyError(reason@),
        }
    }
}

impl IsolationFault {
    /// The message for users.
    pub open spec fn message(self) -> Seq<char> {
        match self {
            IsolationFault::SystemCall(reason) => "System call failed: "@ + reason,
            IsolationFault::PermissionDenied(reason) => "Permission denied: "@ + reason,
            IsolationFault::NotSupported(reason) =>
                "Isolation not supported on this platform: "@ + reason,
            IsolationFault::CgroupError(reason) => "Cgroup operation failed: "@ + reason,
            IsolationFault::JobObjectError(reason) => "Job Object operation failed: "@ + reason,
            IsolationFault::TaskPolicyError(reason) => "Task policy operation failed: "@ + reason,
        }
    }
}

impl IsolationError {
    /// The message for users.
    pub fn message(&self) -> (text: String)
        ensures
            text@ == self@.message(),
    {
        match self {
            IsolationError::SystemCall(reason) => {
                "System call failed: ".to_owned().concat(reason.as_str())
            },
            IsolationError::PermissionDenied(reason) => {
                "Permission denied: ".to_owned().concat(reason.as_str())
            },
            IsolationError::NotSupported(reason) => {
                "Isolation not supported on this platform: ".to_owned().concat(reason.as_str())
            },
            IsolationError::CgroupError(reason) => {
                "Cgroup operation failed: ".to_owned().concat(reason.as_str())
            },
            IsolationError::JobObjectError(reason) => {
                "Job Object operation failed: ".to_owned().concat(reason.as_str())
            },
            IsolationError::TaskPolicyError(reason) => {
                "Task policy operation failed: ".to_owned().concat(reason.as_str())
            },
        }
    }
}

/// `first` followed by `second`.
fn joined(first: &str, second: &str) -> (text: String)
    ensures
        text@ == first@ + second@,
{
    first.to_owned().concat(second)
}

/// Version of the cgroup hierarchy.
#[derive(Debug, Clone, Copy, PartialEq, Eq, Structural)]
pub enum CgroupVersion {
    /// One hierarchy per controller.
    V1,
    /// Unified hierarchy.
    V2,
}

/// Which cgroup files and directories exist.
#[derive(Debug, Clone, Copy)]
pub struct CgroupProbe {
    /// `/sys/fs/cgroup/cgroup.controllers`, the mark of the unified hierarchy.
    pub v2_controllers: bool,
    /// `/sys/fs/cgroup/tokio-pulse`, the group of this library there.
    pub v2_group: bool,
    /// `/sys/fs/cgroup/cpu`, the hierarchy of the CPU controller.
    pub v1_cpu: bool,
    /// `/sys/fs/cgroup/cpu/tokio-pulse`, the group of this library there.
    pub v1_group: bool,
}

/// One step on the cgroup file system. Steps are taken in order until one fails.
#[derive(Debug, Clone)]
pub enum CgroupStep {
    /// Create a directory and those above it.
    CreateDir {
        /// Where.
        path: String,
    },
    /// Write a file.
    Write {
        /// Where.
        path: String,
        /// What.
        contents: String,
        /// How the message begins if it fails.
        failure: &'static str,
    },
    /// Remove a directory and all in it.
    RemoveDir {
        /// Where.
        path: String,
        /// How the message begins if it fails.
        failure: &'static str,
    },
}

/// What a [`CgroupStep`] holds.
#[verifier::ext_equal]
pub enum StepModel {
    CreateDir(Seq<char>),
    Write(Seq<char>, Seq<char>, Seq<char>),
    RemoveDir(Seq<char>, Seq<char>),
}

impl View for CgroupStep {
    type V = StepModel;

    open spec fn view(&self) -> StepModel {
        match *self {
            CgroupStep::CreateDir { path } => StepModel::CreateDir(path@),
            CgroupStep::Write { path, contents, failure } => StepModel::Write(
                path@,
                contents@,
                failure@,
            ),
            CgroupStep::RemoveDir { path, failure } => StepModel::RemoveDir(path@, failure@),
        }
    }
}

/// What the steps hold.
pub open spec fn steps_of(steps: Seq<CgroupStep>) -> Seq<StepModel> {
    steps.map_values(|step: CgroupStep| step@)
}

impl StepModel {
    /// The error for a step that failed for `reason`.
    pub open spec fn fault(self, reason: Seq<char>) -> IsolationFault {
        match self {
            StepModel::CreateDir(_) => IsolationFault::SystemCall(reason),
            StepModel::Write(_, _, failure) => IsolationFault::CgroupError(failure + reason),
            StepModel::RemoveDir(_, failure) => IsolationFault::CgroupError(failure + reason),
        }
    }
}

impl CgroupStep {
    /// The error for a step that failed for `reason`.
    pub fn error(&self, reason: &str) -> (error: IsolationError)
        ensures
            error@ == self@.fault(reason@),
    {
        match self {
            CgroupStep::CreateDir { path: _ } => IsolationError::SystemCall(reason.to_owned()),
            CgroupStep::Write { path: _, contents: _, failure } => {
                IsolationError::CgroupError(joined(failure, reason))
            },
            CgroupStep::RemoveDir { path: _, failure } => {
                IsolationError::CgroupError(joined(failure, reason))
            },
        }
    }
}

/// Isolation with Linux cgroups.
#[derive(Debug, Clone, Copy)]
pub struct LinuxCgroupManager {
    cgroup_version: CgroupVersion,
}

/// Root of the hierarchy that the library's group stands in.
pub open spec fn cgroup_root(version: CgroupVersion) -> Seq<char> {
    match version {
        CgroupVersion::V2 => "/sys/fs/cgroup"@,
        CgroupVersion::V1 => "/sys/fs/cgroup/cpu"@,
    }
}

/// The library's group.
pub open spec fn cgroup_path(version: CgroupVersion) -> Seq<char> {
    cgroup_root(version) + "/tokio-pulse"@
}

/// The group of an isolated task.
pub open spec fn isolated_path(version: CgroupVersion, task_id: TaskId) -> Seq<char> {
    cgroup_path(version) + "/isolated-"@ + decimal(task_id.0 as nat)
}

/// The hierarchy to use: the unified one if it is there, else that of the CPU
/// controller.
pub open spec fn cgroup_choice(probe: CgroupProbe) -> Option<CgroupVersion> {
    if probe.v2_controllers {
        Some(CgroupVersion::V2)
    } else if probe.v1_cpu {
        Some(CgroupVersion::V1)
    } else {
        None
    }
}

/// The steps that set up the library's group where it is missing.
pub open spec fn setup_steps(probe: CgroupProbe, version: CgroupVersion) -> Seq<StepModel> {
    match version {
        CgroupVersion::V2 => if probe.v2_group {
            seq![]
        } else {
            seq![
                StepModel::CreateDir(cgroup_path(version)),
                StepModel::Write(
                    cgroup_path(version) + "/cgroup.subtree_control"@,
                    "+cpu"@,
                    "Failed to enable CPU controller: "@,
                ),
            ]
        },
        CgroupVersion::V1 => if probe.v1_group {
            seq![]
        } else {
            seq![StepModel::CreateDir(cgroup_path(version))]
        },
    }
}

/// The steps that isolate thread `tid` on behalf of a task: a group of its own
/// with half of one processor.
pub open spec fn isolate_steps(
    version: CgroupVersion,
    task_id: TaskId,
    tid: u32,
) -> Seq<StepModel> {
    let group = isolated_path(version, task_id);
    match version {
        CgroupVersion::V2 => seq![
            StepModel::CreateDir(group),
            StepModel::Write(
                group + "/cpu.max"@,
                "50000 100000"@,
                "Failed to set CPU limit: "@,
            ),
            StepModel::Write(
                group + "/cgroup.procs"@,
                decimal(tid as nat),
                "Failed to move task to cgroup: "@,
            ),
        ],
        CgroupVersion::V1 => seq![
            StepModel::CreateDir(group),
            StepModel::Write(
                group + "/cpu.cfs_quota_us"@,
                "50000"@,
                "Failed to set CPU quota: "@,
            ),
            StepModel::Write(
                group + "/cpu.cfs_period_us"@,
                "100000"@,
                "Failed to set CPU period: "@,
            ),
            StepModel::Write(
                group + "/tasks"@,
                decimal(tid as nat),
                "Failed to move task to cgroup: "@,
            ),
        ],
    }
}

/// The steps that release thread `tid`, if the task has a group: back to the root,
/// and the group is removed.
pub open spec fn release_steps(
    version: CgroupVersion,
    task_id: TaskId,
    tid: u32,
    isolated: bool,
) -> Seq<StepModel> {
    if !isolated {
        seq![]
    } else {
        seq![
            StepModel::Write(
                cgroup_root(version) + (match version {
                    CgroupVersion::V2 => "/cgroup.procs"@,
                    CgroupVersion::V1 => "/tasks"@,
                }),
                decimal(tid as nat),
                "Failed to move task back to root: "@,
            ),
            StepModel::RemoveDir(
                isolated_path(version, task_id),
                "Failed to cleanup cgroup: "@,
            ),
        ]
    }
}

impl LinuxCgroupManager {
    /// Version of the hierarchy in use.
    pub closed spec fn version(self) -> CgroupVersion {
        self.cgroup_version
    }

    /// Chooses a hierarchy and says what is missing there.
    pub fn new(probe: &CgroupProbe) -> (result: IsolationResult<
        (LinuxCgroupManager, Vec<CgroupStep>),
    >)
        ensures
            match (cgroup_choice(*probe), result) {
                (Some(version), Ok((manager, steps))) => {
                    &&& manager.version() == version
                    &&& steps_of(steps@) == setup_steps(*probe, version)
                },
                (None, Err(error)) => error@ == IsolationFault::NotSupported(
                    "No cgroup filesystem found"@,
                ),
                _ => false,
            },
    {
        if probe.v2_controllers {
            let manager = LinuxCgroupManager { cgroup_version: CgroupVersion::V2 };
            let mut steps: Vec<CgroupStep> = Vec::new();
            if !probe.v2_group {
                let group = manager.group();
                let control = joined(group.as_str(), "/cgroup.subtree_control");
                steps.push(CgroupStep::CreateDir { path: group });
                steps.push(
                    CgroupStep::Write {
                        path: control,
                        contents: "+cpu".to_owned(),
                        failure: "Failed to enable CPU controller: ",
                    },
                );
            }
            assert(steps_of(steps@) =~= setup_steps(*probe, CgroupVersion::V2));
            return Ok((manager, steps));
        }
        if probe.v1_cpu {
            let manager = LinuxCgroupManager { cgroup_version: CgroupVersion::V1 };
            let mut steps: Vec<CgroupStep> = Vec::new();
            if !probe.v1_group {
                steps.push(CgroupStep::CreateDir { path: manager.group() });
            }
            assert(steps_of(steps@) =~= setup_steps(*probe, CgroupVersion::V1));
            return Ok((manager, steps));
        }
        Err(IsolationError::NotSupported("No cgroup filesystem found".to_owned()))
    }

    fn root(&self) -> (path: &'static str)
        ensures
            path@ == cgroup_root(self.version()),
    {
        match self.cgroup_version {
            CgroupVersion::V2 => "/sys/fs/cgroup",
            CgroupVersion::V1 => "/sys/fs/cgroup/cpu",
        }
    }

    fn group(&self) -> (path: String)
        ensures
            path@ == cgroup_path(self.version()),
    {
        joined(self.root(), "/tokio-pulse")
    }

    /// Path of the group of an isolated task.
    pub fn isolated_group(&self, task_id: &TaskId) -> (path: String)
        ensures
            path@ == isolated_path(self.version(), *task_id),
    {
        let mut path = self.group();
        path.append("/isolated-");
        path.append(decimal_text(task_id.0).as_str());
        path
    }

    /// The steps that isolate thread `tid` on behalf of a task.
    pub fn isolate_task(&self, task_id: &TaskId, tid: u32) -> (steps: Vec<CgroupStep>)
        ensures
            steps_of(steps@) == isolate_steps(self.version(), *task_id, tid),
    {
        let group = self.isolated_group(task_id);
        let mut steps: Vec<CgroupStep> = Vec::new();
        match self.cgroup_version {
            CgroupVersion::V2 => {
                let limit = joined(group.as_str(), "/cpu.max");
                let members = joined(group.as_str(), "/cgroup.procs");
                steps.push(CgroupStep::CreateDir { path: group });
                steps.push(
                    CgroupStep::Write {
                        path: limit,
                        contents: "50000 100000".to_owned(),
                        failure: "Failed to set CPU limit: ",
                    },
                );
                steps.push(
                    CgroupStep::Write {
                        path: members,
                        contents: decimal_text(tid as u64),
                        failure: "Failed to move task to cgroup: ",
                    },
                );
            },
            CgroupVersion::V1 => {
                let quota = joined(group.as_str(), "/cpu.cfs_quota_us");
                let period = joined(group.as_str(), "/cpu.cfs_period_us");
                let members = joined(group.as_str(), "/tasks");
                steps.push(CgroupStep::CreateDir { path: group });
                steps.push(
                    CgroupStep::Write {
                        path: quota,
                        contents: "50000".to_owned(),
                        failure: "Failed to set CPU quota: ",
                    },
                );
                steps.push(
                    CgroupStep::Write {
                        path: period,
                        contents: "100000".to_owned(),
                        failure: "Failed to set CPU period: ",
                    },
                );
                steps.push(
                    CgroupStep::Write {
                        path: members,
                        contents: decimal_text(tid as u64),
                        failure: "Failed to move task to cgroup: ",
                    },
                );
            },
        }
        assert(steps_of(steps@) =~= isolate_steps(self.version(), *task_id, tid));
        steps
    }

    /// The steps that release thread `tid`. `isolated` says whether the group of
    /// the task exists.
    pub fn release_task(&self, task_id: &TaskId, tid: u32, isolated: bool) -> (steps: Vec<
        CgroupStep,
    >)
        ensures
            steps_of(steps@) == release_steps(self.version(), *task_id, tid, isolated),
    {
        let mut steps: Vec<CgroupStep> = Vec::new();
        if isolated {
            let members = match self.cgroup_version {
                CgroupVersion::V2 => joined(self.root(), "/cgroup.procs"),
                CgroupVersion::V1 => joined(self.root(), "/tasks"),
            };
            steps.push(
                CgroupStep::Write {
                    path: members,
                    contents: decimal_text(tid as u64),
                    failure: "Failed to move task back to root: ",
                },
            );
            steps.push(
                CgroupStep::RemoveDir {
                    path: self.isolated_group(task_id),
                    failure: "Failed to cleanup cgroup: ",
                },
            );
        }
        assert(steps_of(steps@) =~= release_steps(self.version(), *task_id, tid, isolated));
        steps
    }
}

/// Handle value that stands for a failed call.
pub const INVALID_JOB_HANDLE: isize = -1;

/// User time limit of a job, in units of 100 ns.
pub const JOB_TIME_LIMIT: i64 = 500_000_000;

/// How many processes a job may hold.
pub const JOB_PROCESS_LIMIT: u32 = 1;

/// The limits of a job.
#[derive(Debug, Clone, Copy, PartialEq, Eq, Structural)]
pub struct JobLimits {
    /// User time limit of a process, in units of 100 ns.
    pub process_time: i64,
    /// User time limit of the job, in units of 100 ns.
    pub job_time: i64,
    /// How many processes the job may hold.
    pub active_processes: u32,
}

/// The limits that isolate a task: 50 seconds of user time for each process and for
/// the job, and one process.
pub open spec fn job_limits_spec() -> JobLimits {
    JobLimits { process_time: 500_000_000, job_time: 500_000_000, active_processes: 1 }
}

/// The limits that isolate a task.
pub fn job_limits() -> (limits: JobLimits)
    ensures
        limits == job_limits_spec(),
{
    JobLimits {
        process_time: JOB_TIME_LIMIT,
        job_time: JOB_TIME_LIMIT,
        active_processes: JOB_PROCESS_LIMIT,
    }
}

/// Outcome of a call for a job object.
#[derive(Debug, Clone, Copy)]
pub enum JobEvent {
    /// Nothing was done yet.
    Start,
    /// A job object was created, or not: the handle is zero or invalid then.
    Created {
        /// The handle.
        handle: isize,
    },
    /// The limits were set, or not: the result is zero then.
    LimitsSet {
        /// The handle.
        handle: isize,
        /// What the call returned.
        result: i32,
    },
    /// The process was assigned, or not: the result is zero then.
    Assigned {
        /// The handle.
        handle: isize,
        /// What the call returned.
        result: i32,
    },
}

/// What is to be done for a job object.
#[derive(Debug, Clone)]
pub enum JobAction {
    /// Create a job object of this name, which ends in a zero character.
    CreateJob {
        /// The name.
        name: String,
    },
    /// Limit user time and number of processes.
    SetLimits {
        /// The handle.
        handle: isize,
        /// The limits.
        limits: JobLimits,
    },
    /// Assign the current process.
    AssignProcess {
        /// The handle.
        handle: isize,
    },
    /// The task is isolated.
    Isolated,
    /// Isolation failed; close the handle if there is one.
    Fail {
        /// Handle to close.
        close: Option<isize>,
        /// The error.
        error: IsolationError,
    },
}

/// What a [`JobAction`] holds.
#[verifier::ext_equal]
pub enum JobActionModel {
    CreateJob(Seq<char>),
    SetLimits(isize, JobLimits),
    AssignProcess(isize),
    Isolated,
    Fail(Option<isize>, IsolationFault),
}

impl View for JobAction {
    type V = JobActionModel;

    open spec fn view(&self) -> JobActionModel {
        match *self {
            JobAction::CreateJob { name } => JobActionModel::CreateJob(name@),
            JobAction::SetLimits { handle, limits } => JobActionModel::SetLimits(handle, limits),
            JobAction::AssignProcess { handle } => JobActionModel::AssignProcess(handle),
            JobAction::Isolated => JobActionModel::Isolated,
            JobAction::Fail { close, error } => JobActionModel::Fail(close, error@),
        }
    }
}

/// What follows an event on the way to an isolated task.
pub open spec fn job_step(task_id: TaskId, event: JobEvent) -> JobActionModel {
    match event {
        JobEvent::Start => JobActionModel::CreateJob(
            "tokio-pulse-"@ + decimal(task_id.0 as nat) + "\0"@,
        ),
        JobEvent::Created { handle } => if handle == INVALID_JOB_HANDLE || handle == 0 {
            JobActionModel::Fail(
                None,
                IsolationFault::JobObjectError("Failed to create job object"@),
            )
        } else {
            JobActionModel::SetLimits(handle, job_limits_spec())
        },
        JobEvent::LimitsSet { handle, result } => if result == 0 {
            JobActionModel::Fail(
                Some(handle),
                IsolationFault::JobObjectError("Failed to set job object limits"@),
            )
        } else {
            JobActionModel::AssignProcess(handle)
        },
        JobEvent::Assigned { handle, result } => if result == 0 {
            JobActionModel::Fail(
                Some(handle),
                IsolationFault::JobObjectError("Failed to assign process to job object"@),
            )
        } else {
            JobActionModel::Isolated
        },
    }
}

/// The known handles after an event: a task that is isolated from now on gets the
/// handle of its job.
pub open spec fn job_handles_after(
    handles: Map<u64, isize>,
    task_id: TaskId,
    event: JobEvent,
) -> Map<u64, isize> {
    match event {
        JobEvent::Assigned { handle, result } => if result == 0 {
            handles
        } else {
            handles.insert(task_id.0, handle)
        },
        _ => handles,
    }
}

/// Isolation with Windows job objects.
#[derive(Debug)]
pub struct WindowsJobManager {
    job_handles: HashMap<u64, isize>,
}

impl View for WindowsJobManager {
    type V = Map<u64, isize>;

    closed spec fn view(&self) -> Map<u64, isize> {
        self.job_handles@
    }
}

impl WindowsJobManager {
    /// Creates a manager that knows no job.
    pub fn new() -> (result: IsolationResult<Self>)
        ensures
            result matches Ok(manager) && manager@ == Map::<u64, isize>::empty(),
    {
        Ok(WindowsJobManager { job_handles: HashMap::new() })
    }

    /// Decides what follows an event on the way to an isolated task, and keeps the
    /// handle of its job at the end.
    pub fn isolate_task(&mut self, task_id: &TaskId, event: JobEvent) -> (action: JobAction)
        ensures
            action@ == job_step(*task_id, event),
            final(self)@ == job_handles_after(old(self)@, *task_id, event),
    {
        broadcast use vstd::std_specs::hash::group_hash_axioms;

        match event {
            JobEvent::Start => {
                let mut name = "tokio-pulse-".to_owned();
                name.append(decimal_text(task_id.0).as_str());
                name.append("\0");
                JobAction::CreateJob { name }
            },
            JobEvent::Created { handle } => {
                if handle == INVALID_JOB_HANDLE || handle == 0 {
                    JobAction::Fail {
                        close: None,
                        error: IsolationError::JobObjectError(
                            "Failed to create job object".to_owned(),
                        ),
                    }
                } else {
                    JobAction::SetLimits { handle, limits: job_limits() }
                }
            },
            JobEvent::LimitsSet { handle, result } => {
                if result == 0 {
                    JobAction::Fail {
                        close: Some(handle),
                        error: IsolationError::JobObjectError(
                            "Failed to set job object limits".to_owned(),
                        ),
                    }
                } else {
                    JobAction::AssignProcess { handle }
                }
            },
            JobEvent::Assigned { handle, result } => {
                if result == 0 {
                    JobAction::Fail {
                        close: Some(handle),
                        error: IsolationError::JobObjectError(
                            "Failed to assign process to job object".to_owned(),
                        ),
                    }
                } else {
                    self.job_handles.insert(task_id.0, handle);
                    JobAction::Isolated
                }
            },
        }
    }

    /// Forgets the job of a task. Returns the handle to close, if there is one.
    pub fn release_task(&mut self, task_id: &TaskId) -> (handle: Option<isize>)
        ensures
            final(self)@ == old(self)@.remove(task_id.0),
            handle == (if old(self)@.contains_key(task_id.0) {
                Some(old(self)@[task_id.0])
            } else {
                None
            }),
    {
        broadcast use vstd::std_specs::hash::group_hash_axioms;

        let handle = self.job_handles.remove(&task_id.0);
        assert(self.job_handles@ =~= old(self)@.remove(task_id.0));
        handle
    }

    /// How many jobs are known.
    pub fn active_job_count(&self) -> (count: usize)
        ensures
            count == self@.len(),
    {
        broadcast use vstd::std_specs::hash::group_hash_axioms;

        self.job_handles.len()
    }

    /// Whether a task is isolated.
    pub fn is_task_isolated(&self, task_id: &TaskId) -> (isolated: bool)
        ensures
            isolated == self@.contains_key(task_id.0),
    {
        broadcast use vstd::std_specs::hash::group_hash_axioms;

        self.job_handles.contains_key(&task_id.0)
    }
}

/// Precedence of an isolated thread.
pub const ISOLATED_IMPORTANCE: i32 = -15;

/// Throughput tier of an isolated thread.
pub const ISOLATED_QOS_TIER: u32 = 2;

/// Precedence of a thread that is not isolated.
pub const NORMAL_IMPORTANCE: i32 = 0;

/// Throughput tier of a thread that is not isolated.
pub const NORMAL_QOS_TIER: u32 = 0;

/// Outcome of a call for a thread policy. A result of zero stands for success.
#[derive(Debug, Clone, Copy)]
pub enum QosEvent {
    /// Nothing was done yet.
    Start,
    /// The precedence was set, or not.
    PrecedenceSet {
        /// What the call returned.
        result: i32,
    },
    /// The throughput tier was set, or not.
    QosSet {
        /// The thread.
        thread: u64,
        /// What the call returned.
        result: i32,
    },
}

/// What is to be done for a thread policy.
#[derive(Debug, Clone)]
pub enum QosAction {
    /// Set the precedence of the thread.
    SetPrecedence {
        /// The precedence.
        importance: i32,
    },
    /// Set the throughput tier of the thread.
    SetQos {
        /// The tier.
        tier: u32,
    },
    /// The task is isolated, or released.
    Done,
    /// Isolation or release failed.
    Fail {
        /// The error.
        error: IsolationError,
    },
}

/// What a [`QosAction`] holds.
#[verifier::ext_equal]
pub enum QosActionModel {
    SetPrecedence(i32),
    SetQos(u32),
    Done,
    Fail(IsolationFault),
}

impl View for QosAction {
    type V = QosActionModel;

    open spec fn view(&self) -> QosActionModel {
        match *self {
            QosAction::SetPrecedence { importance } => QosActionModel::SetPrecedence(importance),
            QosAction::SetQos { tier } => QosActionModel::SetQos(tier),
            QosAction::Done => QosActionModel::Done,
            QosAction::Fail { error } => QosActionModel::Fail(error@),
        }
    }
}

/// What follows an event on the way to an isolated thread: each call has to
/// succeed.
pub open spec fn qos_isolate_step(event: QosEvent) -> QosActionModel {
    match event {
        QosEvent::Start => QosActionModel::SetPrecedence(ISOLATED_IMPORTANCE),
        QosEvent::PrecedenceSet { result } => if result != 0 {
            QosActionModel::Fail(
                IsolationFault::TaskPolicyError(
                    "Failed to set thread precedence policy: "@ + signed_decimal(result as int),
                ),
            )
        } else {
            QosActionModel::SetQos(ISOLATED_QOS_TIER)
        },
        QosEvent::QosSet { thread, result } => if result != 0 {
            QosActionModel::Fail(
                IsolationFault::TaskPolicyError(
                    "Failed to set thread QoS policy: "@ + signed_decimal(result as int),
                ),
            )
        } else {
            QosActionModel::Done
        },
    }
}

/// What follows an event on the way to a released thread: both calls are made. The
/// thread is released if its throughput tier could be restored.
pub open spec fn qos_release_step(event: QosEvent) -> QosActionModel {
    match event {
        QosEvent::Start => QosActionModel::SetPrecedence(NORMAL_IMPORTANCE),
        QosEvent::PrecedenceSet { result } => QosActionModel::SetQos(NORMAL_QOS_TIER),
        QosEvent::QosSet { thread, result } => if result != 0 {
            QosActionModel::Fail(
                IsolationFault::TaskPolicyError(
                    "Failed to reset thread QoS: "@ + signed_decimal(result as int),
                ),
            )
        } else {
            QosActionModel::Done
        },
    }
}

/// The isolated threads after an event on the way to isolation.
pub open spec fn threads_after_isolate(threads: Set<u64>, event: QosEvent) -> Set<u64> {
    match event {
        QosEvent::QosSet { thread, result } => if result == 0 {
            threads.insert(thread)
        } else {
            threads
        },
        _ => threads,
    }
}

/// The isolated threads after an event on the way to release.
pub open spec fn threads_after_release(threads: Set<u64>, event: QosEvent) -> Set<u64> {
    match event {
        QosEvent::QosSet { thread, result } => if result == 0 {
            threads.remove(thread)
        } else {
            threads
        },
        _ => threads,
    }
}

/// Isolation with macOS thread policies.
#[derive(Debug)]
pub struct MacosQosManager {
    isolated_threads: HashSet<u64>,
}

impl View for MacosQosManager {
    type V = Set<u64>;

    closed spec fn view(&self) -> Set<u64> {
        self.isolated_threads@
    }
}

impl MacosQosManager {
    /// Creates a manager that knows no isolated thread.
    pub fn new() -> (result: IsolationResult<Self>)
        ensures
            result matches Ok(manager) && manager@ == Set::<u64>::empty(),
    {
        Ok(MacosQosManager { isolated_threads: HashSet::new() })
    }

    /// Decides what follows an event on the way to an isolated thread, and keeps
    /// the thread at the end.
    pub fn isolate_task(&mut self, _task_id: &TaskId, event: QosEvent) -> (action: QosAction)
        ensures
            action@ == qos_isolate_step(event),
            final(self)@ == threads_after_isolate(old(self)@, event),
    {
        broadcast use vstd::std_specs::hash::group_hash_axioms;

        match event {
            QosEvent::Start => QosAction::SetPrecedence { importance: ISOLATED_IMPORTANCE },
            QosEvent::PrecedenceSet { result } => {
                if result != 0 {
                    QosAction::Fail {
                        error: IsolationError::TaskPolicyError(
                            joined(
                                "Failed to set thread precedence policy: ",
                                signed_decimal_text(result).as_str(),
                            ),
                        ),
                    }
                } else {
                    QosAction::SetQos { tier: ISOLATED_QOS_TIER }
                }
            },
            QosEvent::QosSet { thread, result } => {
                if result != 0 {
                    QosAction::Fail {
                        error: IsolationError::TaskPolicyError(
                            joined(
                                "Failed to set thread QoS policy: ",
                                signed_decimal_text(result).as_str(),
                            ),
                        ),
                    }
                } else {
                    self.isolated_threads.insert(thread);
                    QosAction::Done
                }
            },
        }
    }

    /// Decides what follows an event on the way to a released thread, and forgets
    /// the thread at the end if its tier could be restored.
    pub fn release_task(&mut self, _task_id: &TaskId, event: QosEvent) -> (action: QosAction)
        ensures
            action@ == qos_release_step(event),
            final(self)@ == threads_after_release(old(self)@, event),
    {
        broadcast use vstd::std_specs::hash::group_hash_axioms;

        match event {
            QosEvent::Start => QosAction::SetPrecedence { importance: NORMAL_IMPORTANCE },
            QosEvent::PrecedenceSet { result: _ } => QosAction::SetQos { tier: NORMAL_QOS_TIER },
            QosEvent::QosSet { thread, result } => {
                if result != 0 {
                    QosAction::Fail {
                        error: IsolationError::TaskPolicyError(
                            joined(
                                "Failed to reset thread QoS: ",
                                signed_decimal_text(result).as_str(),
                            ),
                        ),
                    }
                } else {
                    self.isolated_threads.remove(&thread);
                    QosAction::Done
                }
            },
        }
    }

    /// Whether a thread is isolated.
    pub fn is_thread_isolated(&self, thread_id: u64) -> (isolated: bool)
        ensures
            isolated == self@.contains(thread_id),
    {
        broadcast use vstd::std_specs::hash::group_hash_axioms;

        self.isolated_threads.contains(&thread_id)
    }

    /// How many threads are isolated.
    pub fn isolated_thread_count(&self) -> (count: usize)
        ensures
            count == self@.len(),
    {
        broadcast use vstd::std_specs::hash::group_hash_axioms;

        self.isolated_threads.len()
    }
}

/// The means of isolation on one platform.
#[derive(Debug)]
pub enum PlatformManager {
    /// Linux cgroups.
    Linux(LinuxCgroupManager),
    /// Windows job objects.
    Windows(WindowsJobManager),
    /// macOS thread policies.
    Macos(MacosQosManager),
}

/// How isolation or release begins.
#[derive(Debug)]
pub enum IsolationStart {
    /// Take these steps.
    Cgroup(Vec<CgroupStep>),
    /// Make this call; its outcome is an event for the job manager.
    Job(JobAction),
    /// Close this handle, if there is one.
    CloseJob(Option<isize>),
    /// Make this call; its outcome is an event for the policy manager.
    Qos(QosAction),
}

/// Task isolation manager.
#[derive(Debug)]
pub struct TaskIsolation {
    /// The means of this platform, if it has any.
    pub manager: Option<PlatformManager>,
}

impl TaskIsolation {
    /// Creates an isolation manager with the means of the platform.
    pub fn new(manager: Option<PlatformManager>) -> (result: IsolationResult<Self>)
        ensures
            result matches Ok(isolation) && isolation.manager == manager,
    {
        Ok(TaskIsolation { manager })
    }

    /// Whether the platform has means of isolation.
    pub fn is_available(&self) -> (available: bool)
        ensures
            available == (self.manager is Some),
    {
        self.manager.is_some()
    }

    /// Begins to isolate a task that runs on thread `tid`.
    pub fn isolate_task(&mut self, task_id: &TaskId, tid: u32) -> (result: IsolationResult<
        IsolationStart,
    >)
        ensures
            match old(self).manager {
                Some(PlatformManager::Linux(manager)) => {
                    &&& result matches Ok(IsolationStart::Cgroup(steps)) && steps_of(steps@)
                        == isolate_steps(manager.version(), *task_id, tid)
                    &&& final(self).manager == old(self).manager
                },
                Some(PlatformManager::Windows(manager)) => {
                    &&& result matches Ok(IsolationStart::Job(action)) && action@ == job_step(
                        *task_id,
                        JobEvent::Start,
                    )
                    &&& final(self).manager matches Some(PlatformManager::Windows(after))
                        && after@ == manager@
                },
                Some(PlatformManager::Macos(manager)) => {
                    &&& result matches Ok(IsolationStart::Qos(action)) && action@
                        == qos_isolate_step(QosEvent::Start)
                    &&& final(self).manager matches Some(PlatformManager::Macos(after)) && after@
                        == manager@
                },
                None => {
                    &&& result matches Err(error) && error@ == unsupported_fault()
                    &&& final(self).manager is None
                },
            },
    {
        match &mut self.manager {
            Some(PlatformManager::Linux(manager)) => {
                Ok(IsolationStart::Cgroup(manager.isolate_task(task_id, tid)))
            },
            Some(PlatformManager::Windows(manager)) => {
                Ok(IsolationStart::Job(manager.isolate_task(task_id, JobEvent::Start)))
            },
            Some(PlatformManager::Macos(manager)) => {
                Ok(IsolationStart::Qos(manager.isolate_task(task_id, QosEvent::Start)))
            },
            None => Err(unsupported()),
        }
    }

    /// Begins to release a task that runs on thread `tid`. `isolated` says whether
    /// the cgroup of the task exists.
    pub fn release_task(&mut self, task_id: &TaskId, tid: u32, isolated: bool) -> (result:
        IsolationResult<IsolationStart>)
        ensures
            match old(self).manager {
                Some(PlatformManager::Linux(manager)) => {
                    &&& result matches Ok(IsolationStart::Cgroup(steps)) && steps_of(steps@)
                        == release_steps(manager.version(), *task_id, tid, isolated)
                    &&& final(self).manager == old(self).manager
                },
                Some(PlatformManager::Windows(manager)) => {
                    &&& result matches Ok(IsolationStart::CloseJob(handle)) && handle == (
                    if manager@.contains_key(task_id.0) {
                        Some(manager@[task_id.0])
                    } else {
                        None
                    })
                    &&& final(self).manager matches Some(PlatformManager::Windows(after))
                        && after@ == manager@.remove(task_id.0)
                },
                Some(PlatformManager::Macos(manager)) => {
                    &&& result matches Ok(IsolationStart::Qos(action)) && action@
                        == qos_release_step(QosEvent::Start)
                    &&& final(self).manager matches Some(PlatformManager::Macos(after)) && after@
                        == manager@
                },
                None => {
                    &&& result matches Err(error) && error@ == unsupported_fault()
                    &&& final(self).manager is None
                },
            },
    {
        match &mut self.manager {
            Some(PlatformManager::Linux(manager)) => {
                Ok(IsolationStart::Cgroup(manager.release_task(task_id, tid, isolated)))
            },
            Some(PlatformManager::Windows(manager)) => {
                Ok(IsolationStart::CloseJob(manager.release_task(task_id)))
            },
            Some(PlatformManager::Macos(manager)) => {
                Ok(IsolationStart::Qos(manager.release_task(task_id, QosEvent::Start)))
            },
            None => Err(unsupported()),
        }
    }
}

/// The error on a platform without means of isolation.
pub open spec fn unsupported_fault() -> IsolationFault {
    IsolationFault::NotSupported("No isolation manager available for this platform"@)
}

fn unsupported() -> (error: IsolationError)
    ensures
        error@ == unsupported_fault(),
{
    IsolationError::NotSupported("No isolation manager available for this platform".to_owned())
}

/// Releasing a task undoes what isolating it left behind: the group that was
/// created for it is removed, its job is closed and forgotten, and so is its
/// thread.
pub proof fn release_undoes_isolation(
    version: CgroupVersion,
    tid: u32,
    handles: Map<u64, isize>,
    threads: Set<u64>,
    task_id: TaskId,
    handle: isize,
    result: i32,
    thread: u64,
)
    requires
        !handles.contains_key(task_id.0),
        !threads.contains(thread),
        result != 0,
    ensures
        isolate_steps(version, task_id, tid).first() == StepModel::CreateDir(
            isolated_path(version, task_id),
        ),
        release_steps(version, task_id, tid, true).last() matches StepModel::RemoveDir(path, _)
            && path == isolated_path(version, task_id),
        release_steps(version, task_id, tid, false).len() == 0,
        job_handles_after(
            handles,
            task_id,
            JobEvent::Assigned { handle, result },
        )[task_id.0] == handle,
        job_handles_after(
            handles,
            task_id,
            JobEvent::Assigned { handle, result },
        ).remove(task_id.0) == handles,
        threads_after_release(
            threads_after_isolate(threads, QosEvent::QosSet { thread, result: 0 }),
            QosEvent::QosSet { thread, result: 0 },
        ) == threads,
{
    assert(handles.insert(task_id.0, handle).remove(task_id.0) =~= handles);
    assert(threads.insert(thread).remove(thread) =~= threads);
}

/// A release that fails leaves the thread among the isolated ones; one that does not
/// takes it out. Other threads are left alone.
pub proof fn failed_release_keeps_the_thread(threads: Set<u64>, thread: u64, result: i32)
    requires
        threads.contains(thread),
    ensures
        ({
            let event = QosEvent::QosSet { thread, result };
            let after = threads_after_release(threads, event);
            &&& qos_release_step(event) is Fail <==> after.contains(thread)
            &&& qos_release_step(event) is Fail ==> after == threads
            &&& forall|other: u64|
                other != thread ==> #[trigger] after.contains(other) == threads.contains(other)
        }),
{
}

/// Nothing is kept of an isolation that failed, and every handle that was opened
/// for it is closed.
pub proof fn failed_isolation_leaves_nothing(
    handles: Map<u64, isize>,
    threads: Set<u64>,
    task_id: TaskId,
    event: JobEvent,
    policy_event: QosEvent,
)
    ensures
        job_step(task_id, event) is Fail ==> job_handles_after(handles, task_id, event) == handles,
        (job_step(task_id, event) is Fail && event is LimitsSet) ==> job_step(task_id, event)->Fail_0
            == Some(event->LimitsSet_handle),
        (job_step(task_id, event) is Fail && event is Assigned) ==> job_step(task_id, event)->Fail_0
            == Some(event->Assigned_handle),
        qos_isolate_step(policy_event) is Fail ==> threads_after_isolate(threads, policy_event)
            == threads,
{
}

/// Each task has a group of its own.
pub proof fn groups_are_distinct(version: CgroupVersion, a: TaskId, b: TaskId)
    requires
        isolated_path(version, a) == isolated_path(version, b),
    ensures
        a == b,
{
    let front = cgroup_path(version) + "/isolated-"@;
    let (x, y) = (decimal(a.0 as nat), decimal(b.0 as nat));
    assert((front + x).skip(front.len() as int) =~= x);
    assert((front + y).skip(front.len() as int) =~= y);
    crate::text::decimals_are_distinct(a.0 as nat, b.0 as nat);
}

/// Whether a step writes this to a file.
pub open spec fn writes(step: StepModel, file: Seq<char>, text: Seq<char>) -> bool {
    step matches StepModel::Write(path, contents, _) && path == file && contents == text
}

/// The number of a thread, written to the file that lists the members of a group.
pub open spec fn moves_thread(step: StepModel, group: Seq<char>, v2: bool, tid: u32) -> bool {
    writes(
        step,
        group + (if v2 {
            "/cgroup.procs"@
        } else {
            "/tasks"@
        }),
        decimal(tid as nat),
    )
}

/// Isolation creates a group for the task, then limits it to fifty of every hundred
/// milliseconds, and moves the thread there last. Release moves the same thread back to
/// the root and removes that very group, and does nothing for a task without a group.
pub proof fn threads_move_there_and_back(version: CgroupVersion, task_id: TaskId, tid: u32)
    ensures
        ({
            let v2 = version == CgroupVersion::V2;
            let group = cgroup_root(version) + "/tokio-pulse"@ + "/isolated-"@ + decimal(
                task_id.0 as nat,
            );
            let steps = isolate_steps(version, task_id, tid);
            let back = release_steps(version, task_id, tid, true);
            &&& cgroup_root(version) == (if v2 {
                "/sys/fs/cgroup"@
            } else {
                "/sys/fs/cgroup/cpu"@
            })
            &&& steps.len() == (if v2 {
                3int
            } else {
                4
            })
            &&& steps[0] == StepModel::CreateDir(group)
            &&& v2 ==> writes(steps[1], group + "/cpu.max"@, "50000 100000"@)
            &&& !v2 ==> writes(steps[1], group + "/cpu.cfs_quota_us"@, "50000"@)
            &&& !v2 ==> writes(steps[2], group + "/cpu.cfs_period_us"@, "100000"@)
            &&& moves_thread(steps.last(), group, v2, tid)
            &&& back.len() == 2
            &&& moves_thread(back[0], cgroup_root(version), v2, tid)
            &&& back[1] matches StepModel::RemoveDir(path, _) && path == group
            &&& release_steps(version, task_id, tid, false).len() == 0
        }),
{
}

/// The unified hierarchy is used where it is there, else that of the CPU controller, else
/// none. Its group is created exactly where it is missing.
pub proof fn missing_groups_are_set_up(probe: CgroupProbe)
    ensures
        cgroup_choice(probe) == Some(CgroupVersion::V2) <==> probe.v2_controllers,
        cgroup_choice(probe) == Some(CgroupVersion::V1) <==> !probe.v2_controllers
            && probe.v1_cpu,
        cgroup_choice(probe) is None <==> !probe.v2_controllers && !probe.v1_cpu,
        setup_steps(probe, CgroupVersion::V2).len() == 0 <==> probe.v2_group,
        setup_steps(probe, CgroupVersion::V1).len() == 0 <==> probe.v1_group,
        !probe.v2_group ==> {
            let steps = setup_steps(probe, CgroupVersion::V2);
            &&& steps.len() == 2
            &&& steps[0] == StepModel::CreateDir("/sys/fs/cgroup"@ + "/tokio-pulse"@)
            &&& writes(
                steps[1],
                "/sys/fs/cgroup"@ + "/tokio-pulse"@ + "/cgroup.subtree_control"@,
                "+cpu"@,
            )
        },
        !probe.v1_group ==> setup_steps(probe, CgroupVersion::V1) == seq![
            StepModel::CreateDir("/sys/fs/cgroup/cpu"@ + "/tokio-pulse"@),
        ],
{
}

/// A job is created, limited and given the process, in this order, each only after the
/// call before succeeded; what was opened is closed after a failure. Each task has a job
/// of its own name, and only a task whose process was assigned is known by its handle.
pub proof fn jobs_are_made_in_order(
    handles: Map<u64, isize>,
    task_id: TaskId,
    handle: isize,
    result: i32,
)
    ensures
        job_step(task_id, JobEvent::Start) is CreateJob,
        job_step(task_id, JobEvent::Created { handle }) is Fail <==> handle == -1 || handle == 0,
        job_step(task_id, JobEvent::Created { handle }) is SetLimits <==> handle != -1 && handle
            != 0,
        handle != -1 && handle != 0 ==> job_step(task_id, JobEvent::Created { handle })
            == JobActionModel::SetLimits(
            handle,
            JobLimits { process_time: 500_000_000, job_time: 500_000_000, active_processes: 1 },
        ),
        handle == -1 || handle == 0 ==> job_step(task_id, JobEvent::Created { handle })->Fail_0
            is None,
        result != 0 ==> job_step(task_id, JobEvent::LimitsSet { handle, result })
            == JobActionModel::AssignProcess(handle),
        result == 0 ==> job_step(task_id, JobEvent::LimitsSet { handle, result }) is Fail
            && job_step(task_id, JobEvent::LimitsSet { handle, result })->Fail_0 == Some(handle),
        result != 0 ==> job_step(task_id, JobEvent::Assigned { handle, result }) is Isolated,
        result == 0 ==> job_step(task_id, JobEvent::Assigned { handle, result }) is Fail
            && job_step(task_id, JobEvent::Assigned { handle, result })->Fail_0 == Some(handle),
        job_handles_after(handles, task_id, JobEvent::Start) == handles,
        job_handles_after(handles, task_id, JobEvent::Created { handle }) == handles,
        job_handles_after(handles, task_id, JobEvent::LimitsSet { handle, result }) == handles,
        job_handles_after(handles, task_id, JobEvent::Assigned { handle, result }) == (if result
            == 0 {
            handles
        } else {
            handles.insert(task_id.0, handle)
        }),
{
}

/// Jobs of different tasks have different names, each with a zero character at its end
/// and nowhere else.
pub proof fn job_names_are_distinct(a: TaskId, b: TaskId)
    ensures
        job_step(a, JobEvent::Start) == job_step(b, JobEvent::Start) ==> a == b,
        job_step(a, JobEvent::Start) matches JobActionModel::CreateJob(name) && name.len() > 0
            && name.last() == '\0' && forall|i: int|
            0 <= i < name.len() - 1 ==> #[trigger] name[i] != '\0',
{
    reveal_strlit("tokio-pulse-");
    reveal_strlit("\0");
    let front = "tokio-pulse-"@;
    let (x, y) = (decimal(a.0 as nat), decimal(b.0 as nat));
    let (p, q) = (front + x + "\0"@, front + y + "\0"@);
    crate::text::decimal_stands_for_the_number(a.0 as nat);
    if p == q {
        assert(p.len() == front.len() + x.len() + 1);
        assert(q.len() == front.len() + y.len() + 1);
        assert(p.subrange(front.len() as int, p.len() - 1) =~= x);
        assert(q.subrange(front.len() as int, q.len() - 1) =~= y);
        crate::text::decimals_are_distinct(a.0 as nat, b.0 as nat);
    }
    assert forall|i: int| 0 <= i < p.len() - 1 implies #[trigger] p[i] != '\0' by {
        if i >= front.len() {
            assert(p[i] == x[i - front.len()]);
            assert('0' as int <= x[i - front.len()] as int);
        }
    }
}

/// On the way to isolation the precedence is lowered first and the throughput tier
/// then; each call has to succeed. On the way back both are restored in this order, and
/// only the second has to succeed. A thread is known as isolated from the one success to
/// the other.
pub proof fn policies_are_set_in_order(threads: Set<u64>, thread: u64, result: i32)
    ensures
        qos_isolate_step(QosEvent::Start) == QosActionModel::SetPrecedence(-15i32),
        result == 0 ==> qos_isolate_step(QosEvent::PrecedenceSet { result })
            == QosActionModel::SetQos(2),
        result != 0 ==> qos_isolate_step(QosEvent::PrecedenceSet { result }) is Fail,
        qos_isolate_step(QosEvent::QosSet { thread, result }) is Done <==> result == 0,
        qos_isolate_step(QosEvent::QosSet { thread, result }) is Fail <==> result != 0,
        qos_release_step(QosEvent::Start) == QosActionModel::SetPrecedence(0),
        qos_release_step(QosEvent::PrecedenceSet { result }) == QosActionModel::SetQos(0),
        qos_release_step(QosEvent::QosSet { thread, result }) is Done <==> result == 0,
        qos_release_step(QosEvent::QosSet { thread, result }) is Fail <==> result != 0,
        threads_after_isolate(threads, QosEvent::Start) == threads,
        threads_after_isolate(threads, QosEvent::PrecedenceSet { result }) == threads,
        threads_after_isolate(threads, QosEvent::QosSet { thread, result }) == (if result == 0 {
            threads.insert(thread)
        } else {
            threads
        }),
        threads_after_release(threads, QosEvent::Start) == threads,
        threads_after_release(threads, QosEvent::PrecedenceSet { result }) == threads,
        threads_after_release(threads, QosEvent::QosSet { thread, result }) == (if result == 0 {
            threads.remove(thread)
        } else {
            threads
        }),
{
}

/// A step that fails is reported with the reason, behind the words of the step if it has
/// any; a directory that cannot be created is a failure of the system.
pub proof fn failures_keep_their_reason(step: StepModel, reason: Seq<char>)
    ensures
        match step {
            StepModel::CreateDir(_) => step.fault(reason) == IsolationFault::SystemCall(reason),
            StepModel::Write(_, _, words) => step.fault(reason) == IsolationFault::CgroupError(
                words + reason,
            ),
            StepModel::RemoveDir(_, words) => step.fault(reason) == IsolationFault::CgroupError(
                words + reason,
            ),
        },
{
}

} // verus!
