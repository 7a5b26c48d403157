use k210_os::ir::IRrev;
use k210_os::process::{sys_exec, sys_fork, sys_get_time, sys_getpid, sys_waitpid, sys_yield};

#[test]
fn trivial_calls_return_zero() {
    assert_eq!(sys_yield(), 0);
    assert_eq!(sys_get_time(), 0);
    assert_eq!(sys_getpid(), 0);
    assert_eq!(sys_fork(), 0);
}

#[test]
fn exec_fails() {
    assert_eq!(sys_exec(0x1000), -1);
}

#[test]
fn waitpid_without_children_returns_minus_one() {
    assert_eq!(sys_waitpid(-1, 0x2000), -1);
    assert_eq!(sys_waitpid(3, 0x2000), -1);
}

#[test]
fn ir_receiver_keeps_its_pin() {
    assert_eq!(IRrev::new(32).pin, 32);
}
