use xhypervisor::VcpuState;

const ALL: [VcpuState; 4] =
    [VcpuState::Runnable, VcpuState::Running, VcpuState::Exited, VcpuState::Destroyed];

#[test]
fn a_run_starts_from_runnable_or_exited() {
    assert!(VcpuState::Runnable.may_run());
    assert!(VcpuState::Exited.may_run());
    assert!(!VcpuState::Running.may_run());
    assert!(!VcpuState::Destroyed.may_run());
}

#[test]
fn destruction_is_refused_only_while_running() {
    assert!(VcpuState::Runnable.may_destroy());
    assert!(VcpuState::Exited.may_destroy());
    assert!(VcpuState::Destroyed.may_destroy());
    assert!(!VcpuState::Running.may_destroy());
}

#[test]
fn only_destroyed_is_not_live() {
    for state in ALL {
        assert_eq!(state.is_live(), state != VcpuState::Destroyed);
    }
}

#[test]
fn stopped_is_live_and_not_running() {
    for state in ALL {
        assert_eq!(
            state.is_stopped(),
            state.is_live() && state != VcpuState::Running,
            "{:?}",
            state
        );
    }
}
