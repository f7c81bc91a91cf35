use ecall_gateway::errno::Errno;
use ecall_gateway::gateway::{
    exec_thread_complete, new_process_complete, ExecThreadTask, Gateway, GatewayState, InitStep,
    LibosConfig, PlatformInfo, SpawnOutcome, ThreadExecOutcome,
};
use ecall_gateway::log_level::LevelFilter;

fn config() -> LibosConfig {
    LibosConfig {
        entry_points: vec![b"/bin".to_vec()],
        env: vec![b"PATH=/bin".to_vec(), b"HOME=/root".to_vec()],
    }
}

fn debug_platform() -> PlatformInfo {
    PlatformInfo { debug_allowed: true, mpx_available: false }
}

fn ready_gateway() -> Gateway {
    let mut g = Gateway::new(config());
    let (status, _) = g.init(
        Some(b"info".to_vec()),
        b"/tmp/occlum_instance".to_vec(),
        debug_platform(),
    );
    assert_eq!(status, 0);
    g
}

#[test]
fn requests_before_init_fail_with_eagain() {
    let g = Gateway::new(config());
    assert_eq!(
        g.new_process_request(Some(b"/bin/sh".to_vec()), Vec::new(), Some((0, 1, 2)))
            .err(),
        Some(-11)
    );
    assert_eq!(g.exec_thread_request(1, 2).err(), Some(-11));
}

#[test]
fn init_succeeds_once_then_eexist() {
    let mut g = Gateway::new(config());
    let (first, steps) = g.init(
        Some(b"trace".to_vec()),
        b"/tmp/occlum_instance".to_vec(),
        debug_platform(),
    );
    assert_eq!(first, 0);
    assert!(steps.is_some());
    let (second, steps2) = g.init(
        Some(b"trace".to_vec()),
        b"/tmp/other".to_vec(),
        debug_platform(),
    );
    assert_eq!(second, -17);
    assert!(steps2.is_none());
    match &g.state {
        GatewayState::Ready(rs) => {
            assert_eq!(rs.instance_dir, b"/tmp/occlum_instance".to_vec());
        }
        GatewayState::Uninitialized => panic!("gateway lost its state"),
    }
}

#[test]
fn init_derives_the_enclave_image_path() {
    let g = ready_gateway();
    match &g.state {
        GatewayState::Ready(rs) => {
            assert_eq!(
                rs.enclave_path,
                b"/tmp/occlum_instance/build/lib/libocclum-libos.signed.so".to_vec()
            );
            assert_eq!(rs.log_level, LevelFilter::Info);
        }
        GatewayState::Uninitialized => panic!("init did not take effect"),
    }
}

#[test]
fn init_steps_are_ordered_and_mpx_gated() {
    let mut g = Gateway::new(config());
    let (status, steps) = g.init(
        Some(b"debug".to_vec()),
        b"/x".to_vec(),
        PlatformInfo { debug_allowed: true, mpx_available: true },
    );
    assert_eq!(status, 0);
    assert_eq!(
        steps.unwrap(),
        vec![
            InitStep::InitLogger { level: LevelFilter::Debug },
            InitStep::EnableMpx,
            InitStep::RegisterExceptionHandlers,
        ]
    );

    let mut g2 = Gateway::new(config());
    let (status2, steps2) = g2.init(Some(b"debug".to_vec()), b"/x".to_vec(), debug_platform());
    assert_eq!(status2, 0);
    assert_eq!(
        steps2.unwrap(),
        vec![
            InitStep::InitLogger { level: LevelFilter::Debug },
            InitStep::RegisterExceptionHandlers,
        ]
    );
}

#[test]
fn production_enclave_logs_nothing_whatever_was_requested() {
    for requested in [&b"trace"[..], b"debug", b"error", b"info"] {
        let mut g = Gateway::new(config());
        let (status, steps) = g.init(
            Some(requested.to_vec()),
            b"/x".to_vec(),
            PlatformInfo { debug_allowed: false, mpx_available: false },
        );
        assert_eq!(status, 0);
        assert_eq!(
            steps.unwrap()[0],
            InitStep::InitLogger { level: LevelFilter::Off }
        );
    }
}

#[test]
fn init_with_non_text_level_fails_and_can_be_retried() {
    let mut g = Gateway::new(config());
    let (status, steps) = g.init(Some(vec![0xff]), b"/x".to_vec(), debug_platform());
    assert_eq!(status, -22);
    assert!(steps.is_none());
    assert!(matches!(g.state, GatewayState::Uninitialized));
    let (retry, _) = g.init(Some(b"off".to_vec()), b"/x".to_vec(), debug_platform());
    assert_eq!(retry, 0);
}

#[test]
fn init_with_non_text_instance_dir_is_einval() {
    let mut g = Gateway::new(config());
    let (status, steps) = g.init(Some(b"info".to_vec()), vec![b'/', 0xff], debug_platform());
    assert_eq!(status, -22);
    assert!(steps.is_none());
    assert!(matches!(g.state, GatewayState::Uninitialized));
}

#[test]
fn new_process_request_builds_the_spawn_request() {
    let g = ready_gateway();
    let req = g
        .new_process_request(
            Some(b"/bin/busybox".to_vec()),
            vec![b"-c".to_vec(), b"true".to_vec()],
            Some((0, 1, 2)),
        )
        .unwrap();
    assert_eq!(req.program_path, b"/bin/busybox".to_vec());
    assert_eq!(
        req.argv,
        vec![b"busybox".to_vec(), b"-c".to_vec(), b"true".to_vec()]
    );
    assert_eq!(req.env, config().env);
    assert_eq!(req.host_stdio_fds.stdin_fd, 0);
    assert_eq!(req.host_stdio_fds.stdout_fd, 1);
    assert_eq!(req.host_stdio_fds.stderr_fd, 2);
}

#[test]
fn new_process_request_rejects_bad_input_with_its_errno() {
    let g = ready_gateway();
    assert_eq!(
        g.new_process_request(None, Vec::new(), Some((0, 1, 2))).err(),
        Some(-22)
    );
    assert_eq!(
        g.new_process_request(Some(b"bin/sh".to_vec()), Vec::new(), Some((0, 1, 2)))
            .err(),
        Some(-22)
    );
    assert_eq!(
        g.new_process_request(Some(b"/bin/../etc/passwd".to_vec()), Vec::new(), Some((0, 1, 2)))
            .err(),
        Some(-22)
    );
    assert_eq!(
        g.new_process_request(Some(b"/sbin/sh".to_vec()), Vec::new(), Some((0, 1, 2)))
            .err(),
        Some(-13)
    );
    assert_eq!(
        g.new_process_request(Some(b"/bin/sh".to_vec()), Vec::new(), None).err(),
        Some(-22)
    );
}

#[test]
fn spawn_outcomes_map_to_statuses() {
    assert_eq!(new_process_complete(SpawnOutcome::Spawned { pid: 42 }), 42);
    assert_eq!(
        new_process_complete(SpawnOutcome::Failed { errno: Errno::ENOMEM }),
        -12
    );
    assert_eq!(new_process_complete(SpawnOutcome::Fault), -14);
}

#[test]
fn exec_thread_request_passes_identifiers_through() {
    let g = ready_gateway();
    assert_eq!(
        g.exec_thread_request(7, 1234),
        Ok(ExecThreadTask { libos_tid: 7, host_tid: 1234 })
    );
}

#[test]
fn exec_thread_outcomes_map_to_statuses() {
    assert_eq!(
        exec_thread_complete(ThreadExecOutcome::Exited { exit_status: 7, sync: Ok(()) }),
        7
    );
    assert_eq!(
        exec_thread_complete(ThreadExecOutcome::Exited { exit_status: 0, sync: Ok(()) }),
        0
    );
    assert_eq!(
        exec_thread_complete(ThreadExecOutcome::Exited {
            exit_status: 9,
            sync: Err(Errno::EIO),
        }),
        -5
    );
    assert_eq!(
        exec_thread_complete(ThreadExecOutcome::Failed { errno: Errno::ENOSYS }),
        -38
    );
    assert_eq!(exec_thread_complete(ThreadExecOutcome::Fault), -14);
}

#[test]
fn errno_codes_are_posix() {
    assert_eq!(Errno::EPERM.code(), 1);
    assert_eq!(Errno::ENOENT.code(), 2);
    assert_eq!(Errno::EIO.code(), 5);
    assert_eq!(Errno::EBADF.code(), 9);
    assert_eq!(Errno::EAGAIN.code(), 11);
    assert_eq!(Errno::ENOMEM.code(), 12);
    assert_eq!(Errno::EACCES.code(), 13);
    assert_eq!(Errno::EFAULT.code(), 14);
    assert_eq!(Errno::EEXIST.code(), 17);
    assert_eq!(Errno::EINVAL.code(), 22);
    assert_eq!(Errno::ENOSYS.code(), 38);
    assert_eq!(Errno::EACCES.ecall_status(), -13);
}
