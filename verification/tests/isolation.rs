use tokio_pulse::isolation::{
    job_limits, CgroupProbe, CgroupStep, IsolationStart, JobAction, JobEvent, LinuxCgroupManager,
    MacosQosManager, PlatformManager, QosAction, QosEvent, WindowsJobManager,
    INVALID_JOB_HANDLE, ISOLATED_IMPORTANCE, ISOLATED_QOS_TIER, NORMAL_IMPORTANCE,
    NORMAL_QOS_TIER,
};
use tokio_pulse::{IsolationError, TaskId, TaskIsolation};

const UNIFIED: CgroupProbe =
    CgroupProbe { v2_controllers: true, v2_group: true, v1_cpu: false, v1_group: false };

const PER_CONTROLLER: CgroupProbe =
    CgroupProbe { v2_controllers: false, v2_group: false, v1_cpu: true, v1_group: false };

const NOTHING: CgroupProbe =
    CgroupProbe { v2_controllers: false, v2_group: false, v1_cpu: false, v1_group: false };

fn written(step: &CgroupStep) -> (&str, &str) {
    match step {
        CgroupStep::Write { path, contents, .. } => (path.as_str(), contents.as_str()),
        other => panic!("{:?}", other),
    }
}

fn created(step: &CgroupStep) -> &str {
    match step {
        CgroupStep::CreateDir { path } => path.as_str(),
        other => panic!("{:?}", other),
    }
}

#[test]
fn test_isolation_creation() {
    let isolation = TaskIsolation::new(None);
    assert!(isolation.is_ok());
}

#[test]
fn test_linux_cgroup_detection() {
    for probe in [UNIFIED, PER_CONTROLLER, NOTHING] {
        match LinuxCgroupManager::new(&probe) {
            Ok(_) => println!("Cgroup isolation available"),
            Err(e) => println!("Cgroup isolation unavailable: {}", e.message()),
        }
    }
}

#[test]
fn test_task_isolation_interface() {
    let mut isolation = TaskIsolation::new(None).unwrap();
    let task_id = TaskId(12345);

    let _ = isolation.isolate_task(&task_id, 1);
    let _ = isolation.release_task(&task_id, 1, false);
}

#[test]
fn no_cgroup_file_system_is_an_error() {
    let error = LinuxCgroupManager::new(&NOTHING).unwrap_err();
    assert!(matches!(error, IsolationError::NotSupported(_)));
    assert_eq!(
        error.message(),
        "Isolation not supported on this platform: No cgroup filesystem found"
    );
}

#[test]
fn unified_hierarchy_is_preferred() {
    let probe = CgroupProbe { v2_group: false, v1_cpu: true, ..UNIFIED };
    let (manager, steps) = LinuxCgroupManager::new(&probe).unwrap();
    assert_eq!(steps.len(), 2);
    assert_eq!(created(&steps[0]), "/sys/fs/cgroup/tokio-pulse");
    assert_eq!(written(&steps[1]), ("/sys/fs/cgroup/tokio-pulse/cgroup.subtree_control", "+cpu"));
    assert_eq!(
        manager.isolated_group(&TaskId(42)),
        "/sys/fs/cgroup/tokio-pulse/isolated-42"
    );

    let (_, steps) = LinuxCgroupManager::new(&UNIFIED).unwrap();
    assert!(steps.is_empty());
}

#[test]
fn unified_hierarchy_isolates_and_releases() {
    let (manager, _) = LinuxCgroupManager::new(&UNIFIED).unwrap();
    let task_id = TaskId(7);

    let steps = manager.isolate_task(&task_id, 4321);
    assert_eq!(steps.len(), 3);
    assert_eq!(created(&steps[0]), "/sys/fs/cgroup/tokio-pulse/isolated-7");
    assert_eq!(
        written(&steps[1]),
        ("/sys/fs/cgroup/tokio-pulse/isolated-7/cpu.max", "50000 100000")
    );
    assert_eq!(
        written(&steps[2]),
        ("/sys/fs/cgroup/tokio-pulse/isolated-7/cgroup.procs", "4321")
    );

    assert!(manager.release_task(&task_id, 4321, false).is_empty());
    let steps = manager.release_task(&task_id, 4321, true);
    assert_eq!(steps.len(), 2);
    assert_eq!(written(&steps[0]), ("/sys/fs/cgroup/cgroup.procs", "4321"));
    match &steps[1] {
        CgroupStep::RemoveDir { path, .. } => {
            assert_eq!(path, "/sys/fs/cgroup/tokio-pulse/isolated-7")
        }
        other => panic!("{:?}", other),
    }
}

#[test]
fn controller_hierarchy_isolates_and_releases() {
    let (manager, steps) = LinuxCgroupManager::new(&PER_CONTROLLER).unwrap();
    assert_eq!(steps.len(), 1);
    assert_eq!(created(&steps[0]), "/sys/fs/cgroup/cpu/tokio-pulse");

    let steps = manager.isolate_task(&TaskId(7), 99);
    assert_eq!(steps.len(), 4);
    assert_eq!(created(&steps[0]), "/sys/fs/cgroup/cpu/tokio-pulse/isolated-7");
    assert_eq!(
        written(&steps[1]),
        ("/sys/fs/cgroup/cpu/tokio-pulse/isolated-7/cpu.cfs_quota_us", "50000")
    );
    assert_eq!(
        written(&steps[2]),
        ("/sys/fs/cgroup/cpu/tokio-pulse/isolated-7/cpu.cfs_period_us", "100000")
    );
    assert_eq!(written(&steps[3]), ("/sys/fs/cgroup/cpu/tokio-pulse/isolated-7/tasks", "99"));

    let steps = manager.release_task(&TaskId(7), 99, true);
    assert_eq!(written(&steps[0]), ("/sys/fs/cgroup/cpu/tasks", "99"));
}

#[test]
fn failed_steps_become_errors() {
    let (manager, _) = LinuxCgroupManager::new(&UNIFIED).unwrap();
    let isolate = manager.isolate_task(&TaskId(1), 2);
    let release = manager.release_task(&TaskId(1), 2, true);

    assert_eq!(isolate[0].error("denied").message(), "System call failed: denied");
    assert_eq!(
        isolate[1].error("denied").message(),
        "Cgroup operation failed: Failed to set CPU limit: denied"
    );
    assert_eq!(
        isolate[2].error("denied").message(),
        "Cgroup operation failed: Failed to move task to cgroup: denied"
    );
    assert_eq!(
        release[0].error("denied").message(),
        "Cgroup operation failed: Failed to move task back to root: denied"
    );
    assert_eq!(
        release[1].error("denied").message(),
        "Cgroup operation failed: Failed to cleanup cgroup: denied"
    );
}

#[test]
fn job_is_created_limited_and_assigned() {
    let mut manager = WindowsJobManager::new().unwrap();
    let task_id = TaskId(5);

    match manager.isolate_task(&task_id, JobEvent::Start) {
        JobAction::CreateJob { name } => assert_eq!(name, "tokio-pulse-5\0"),
        other => panic!("{:?}", other),
    }
    assert!(matches!(
        manager.isolate_task(&task_id, JobEvent::Created { handle: 88 }),
        JobAction::SetLimits { handle: 88, limits } if limits == job_limits()
    ));
    assert!(matches!(
        manager.isolate_task(&task_id, JobEvent::LimitsSet { handle: 88, result: 1 }),
        JobAction::AssignProcess { handle: 88 }
    ));
    assert!(!manager.is_task_isolated(&task_id));
    assert!(matches!(
        manager.isolate_task(&task_id, JobEvent::Assigned { handle: 88, result: 1 }),
        JobAction::Isolated
    ));
    assert!(manager.is_task_isolated(&task_id));
    assert_eq!(manager.active_job_count(), 1);

    assert_eq!(manager.release_task(&task_id), Some(88));
    assert_eq!(manager.release_task(&task_id), None);
    assert_eq!(manager.active_job_count(), 0);
}

#[test]
fn failed_job_calls_close_the_handle() {
    let mut manager = WindowsJobManager::new().unwrap();
    let task_id = TaskId(5);
    for handle in [0, INVALID_JOB_HANDLE] {
        match manager.isolate_task(&task_id, JobEvent::Created { handle }) {
            JobAction::Fail { close, error } => {
                assert_eq!(close, None);
                assert_eq!(
                    error.message(),
                    "Job Object operation failed: Failed to create job object"
                );
            }
            other => panic!("{:?}", other),
        }
    }
    match manager.isolate_task(&task_id, JobEvent::LimitsSet { handle: 3, result: 0 }) {
        JobAction::Fail { close, error } => {
            assert_eq!(close, Some(3));
            assert!(matches!(error, IsolationError::JobObjectError(_)));
        }
        other => panic!("{:?}", other),
    }
    match manager.isolate_task(&task_id, JobEvent::Assigned { handle: 3, result: 0 }) {
        JobAction::Fail { close, .. } => assert_eq!(close, Some(3)),
        other => panic!("{:?}", other),
    }
    assert!(!manager.is_task_isolated(&task_id));
}

#[test]
fn thread_policies_are_set_and_restored() {
    let mut manager = MacosQosManager::new().unwrap();
    let task_id = TaskId(5);

    assert!(matches!(
        manager.isolate_task(&task_id, QosEvent::Start),
        QosAction::SetPrecedence { importance: ISOLATED_IMPORTANCE }
    ));
    assert!(matches!(
        manager.isolate_task(&task_id, QosEvent::PrecedenceSet { result: 0 }),
        QosAction::SetQos { tier: ISOLATED_QOS_TIER }
    ));
    assert!(matches!(
        manager.isolate_task(&task_id, QosEvent::QosSet { thread: 31, result: 0 }),
        QosAction::Done
    ));
    assert!(manager.is_thread_isolated(31));
    assert_eq!(manager.isolated_thread_count(), 1);

    assert!(matches!(
        manager.release_task(&task_id, QosEvent::Start),
        QosAction::SetPrecedence { importance: NORMAL_IMPORTANCE }
    ));
    assert!(matches!(
        manager.release_task(&task_id, QosEvent::PrecedenceSet { result: 4 }),
        QosAction::SetQos { tier: NORMAL_QOS_TIER }
    ));
    match manager.release_task(&task_id, QosEvent::QosSet { thread: 31, result: 4 }) {
        QosAction::Fail { error } => {
            assert!(error.message().ends_with("Failed to reset thread QoS: 4"));
        }
        other => panic!("{:?}", other),
    }
    assert!(manager.is_thread_isolated(31));
    assert!(matches!(
        manager.release_task(&task_id, QosEvent::QosSet { thread: 31, result: 0 }),
        QosAction::Done
    ));
    assert!(!manager.is_thread_isolated(31));
}

#[test]
fn jobs_are_limited_in_time_and_processes() {
    let limits = job_limits();
    assert_eq!(limits.process_time, 500_000_000);
    assert_eq!(limits.job_time, 500_000_000);
    assert_eq!(limits.active_processes, 1);
}

#[test]
fn failed_thread_policies_are_errors() {
    let mut manager = MacosQosManager::new().unwrap();
    let task_id = TaskId(5);
    match manager.isolate_task(&task_id, QosEvent::PrecedenceSet { result: -3 }) {
        QosAction::Fail { error } => assert_eq!(
            error.message(),
            "Task policy operation failed: Failed to set thread precedence policy: -3"
        ),
        other => panic!("{:?}", other),
    }
    match manager.isolate_task(&task_id, QosEvent::QosSet { thread: 31, result: 46 }) {
        QosAction::Fail { error } => assert_eq!(
            error.message(),
            "Task policy operation failed: Failed to set thread QoS policy: 46"
        ),
        other => panic!("{:?}", other),
    }
    assert_eq!(manager.isolated_thread_count(), 0);
}

#[test]
fn isolation_dispatches_on_the_platform() {
    let task_id = TaskId(11);

    let mut isolation = TaskIsolation::new(None).unwrap();
    assert!(!isolation.is_available());
    assert_eq!(
        isolation.isolate_task(&task_id, 1).unwrap_err().message(),
        "Isolation not supported on this platform: No isolation manager available for this platform"
    );
    assert!(isolation.release_task(&task_id, 1, true).is_err());

    let (linux, _) = LinuxCgroupManager::new(&UNIFIED).unwrap();
    let mut isolation = TaskIsolation::new(Some(PlatformManager::Linux(linux))).unwrap();
    assert!(isolation.is_available());
    match isolation.isolate_task(&task_id, 1).unwrap() {
        IsolationStart::Cgroup(steps) => assert_eq!(steps.len(), 3),
        other => panic!("{:?}", other),
    }
    match isolation.release_task(&task_id, 1, true).unwrap() {
        IsolationStart::Cgroup(steps) => assert_eq!(steps.len(), 2),
        other => panic!("{:?}", other),
    }

    let windows = WindowsJobManager::new().unwrap();
    let mut isolation = TaskIsolation::new(Some(PlatformManager::Windows(windows))).unwrap();
    assert!(matches!(
        isolation.isolate_task(&task_id, 1),
        Ok(IsolationStart::Job(JobAction::CreateJob { .. }))
    ));
    assert!(matches!(
        isolation.release_task(&task_id, 1, true),
        Ok(IsolationStart::CloseJob(None))
    ));

    let macos = MacosQosManager::new().unwrap();
    let mut isolation = TaskIsolation::new(Some(PlatformManager::Macos(macos))).unwrap();
    assert!(matches!(
        isolation.isolate_task(&task_id, 1),
        Ok(IsolationStart::Qos(QosAction::SetPrecedence { importance: ISOLATED_IMPORTANCE }))
    ));
    assert!(matches!(
        isolation.release_task(&task_id, 1, true),
        Ok(IsolationStart::Qos(QosAction::SetPrecedence { importance: NORMAL_IMPORTANCE }))
    ));
}

#[test]
fn isolation_errors_have_messages() {
    let reason = || "x".to_string();
    assert_eq!(IsolationError::SystemCall(reason()).message(), "System call failed: x");
    assert_eq!(IsolationError::PermissionDenied(reason()).message(), "Permission denied: x");
    assert_eq!(
        IsolationError::NotSupported(reason()).message(),
        "Isolation not supported on this platform: x"
    );
    assert_eq!(IsolationError::CgroupError(reason()).message(), "Cgroup operation failed: x");
    assert_eq!(
        IsolationError::JobObjectError(reason()).message(),
        "Job Object operation failed: x"
    );
    assert_eq!(
        IsolationError::TaskPolicyError(reason()).message(),
        "Task policy operation failed: x"
    );
}
