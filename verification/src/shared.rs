//! One terminal for many callers: access under a spin lock.

use vstd::prelude::*;
use spin::{Mutex, MutexGuard};
use core::fmt::Write;
use crate::terminal::Terminal;

verus! {

/// `spin::Mutex`, a lock that spins until it is free.
#[verifier::external_type_specification]
#[verifier::external_body]
#[verifier::reject_recursive_types(T)]
pub struct ExMutex<T: ?Sized>(Mutex<T>);

/// `spin::MutexGuard`, which holds the lock until it is dropped.
#[verifier::external_type_specification]
#[verifier::external_body]
#[verifier::reject_recursive_types(T)]
pub struct ExMutexGuard<'a, T: ?Sized + 'a>(MutexGuard<'a, T>);

/// `Mutex::lock`: spins until no other guard of the lock is alive, then
/// returns the guard. Nothing is claimed of the terminal behind it: other
/// holders of the lock have left it as they pleased. The call does not
/// return while the caller itself holds a guard of the same lock.
#[verifier::external_body]
fn lock<'a>(terminal: &'a Mutex<Terminal>) -> MutexGuard<'a, Terminal> {
    terminal.lock()
}

/// `DerefMut::deref_mut` of the guard: the terminal behind the lock, for as
/// long as the guard is borrowed.
#[verifier::external_body]
fn locked<'a, 'b>(guard: &'b mut MutexGuard<'a, Terminal>) -> &'b mut Terminal {
    core::ops::DerefMut::deref_mut(guard)
}

/// Runs `f` on the shared terminal while holding its lock, and releases the
/// lock when `f` has returned. No two calls on one lock run their `f` at
/// the same time, so what one `f` writes is not mixed with the writing of
/// another. `f` has to accept the terminal in whatever state the holders
/// before it have left it, and must not take the same lock again: the call
/// would wait for itself.
pub fn with_terminal<R, F: FnOnce(&mut Terminal) -> R>(terminal: &Mutex<Terminal>, f: F) -> (result:
    R)
    requires
        forall|t: &mut Terminal| f.requires((t,)),
    ensures
        exists|t: &mut Terminal| f.ensures((t,), result),
{
    let mut guard = lock(terminal);
    f(locked(&mut guard))
}

/// Writes a rendered message to the shared terminal in the colour of
/// plain text, under the lock.
pub fn _vga_print(terminal: &Mutex<Terminal>, text: &str) {
    with_terminal(
        terminal,
        |shared: &mut Terminal|
            {
                let _ = shared.write_str(text);
            },
    );
}

/// Empties the display of the shared terminal, under the lock.
pub fn _vga_clear(terminal: &Mutex<Terminal>) {
    with_terminal(
        terminal,
        |shared: &mut Terminal|
            {
                shared.clear();
            },
    );
}

} // verus!
