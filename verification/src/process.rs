//! System calls on processes.
//!
//! This kernel runs one application at a time: it keeps no process table,
//! no clock and no loadable applications, and never creates child
//! processes.

use vstd::prelude::*;

verus! {

/// Give up the processor. There is no other task to run, so the caller
/// resumes at once; returns 0.
pub fn sys_yield() -> (r: isize)
    ensures
        r == 0,
{
    0
}

/// Time in milliseconds. No timer is kept; returns 0.
pub fn sys_get_time() -> (r: isize)
    ensures
        r == 0,
{
    0
}

/// Process id of the caller: the only process has id 0.
pub fn sys_getpid() -> (r: isize)
    ensures
        r == 0,
{
    0
}

/// Fork the caller. No child is created; returns 0.
pub fn sys_fork() -> (r: isize)
    ensures
        r == 0,
{
    0
}

/// Replace the caller by the application whose name is the string at user
/// address `path`. No application can be loaded by name, so the call fails
/// with -1.
pub fn sys_exec(path: usize) -> (r: isize)
    ensures
        r == -1,
{
    -1
}

/// Wait for the child process `pid` (any child when `pid` is -1) and store
/// its exit code at user address `exit_code_ptr`.
///
/// Returns -1 when there is no child process whose pid is the given one,
/// -2 when there is one but it is still running. The caller has no child
/// processes, so the result is -1.
pub fn sys_waitpid(pid: isize, exit_code_ptr: usize) -> (r: isize)
    ensures
        r == -1,
{
    -1
}

} // verus!
