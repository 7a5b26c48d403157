//! Kernel-side logic of a small RISC-V (Kendryte K210) operating system:
//! the FAT boot-sector layout, the character-cell LCD console with its
//! ANSI escape interpreter, the byte encoders of the serial network driver
//! and the system-call table.

pub mod boot;
pub mod fat_layout;
pub mod lcd;
pub mod ir;
pub mod network;
pub mod process;

use vstd::prelude::*;

verus! {

/// Copies a slice into a fixed-size array of the same length.
///
/// The slice must have exactly `N` elements (copying from a slice of another
/// length is refused by the standard library with a panic).
pub fn clone_into_array<T: Copy + Default, const N: usize>(slice: &[T]) -> (a: [T; N])
    requires
        slice@.len() == N,
    ensures
        a@ == slice@,
{
    let mut a: [T; N] = [T::default(); N];
    let mut i: usize = 0;
    while i < N
        invariant
            i <= N,
            slice@.len() == N,
            forall|j: int| 0 <= j < i ==> a@[j] == slice@[j],
        decreases N - i,
    {
        a[i] = slice[i];
        i = i + 1;
    }
    assert(a@ =~= slice@);
    a
}

} // verus!
