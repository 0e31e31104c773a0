//! The flag that asks the daemon to stop.

use std::sync::atomic::AtomicBool;
use std::sync::Arc;
use vstd::prelude::*;

verus! {

/// A flag that signal handlers set and the main loop reads. Clones share the flag.
#[derive(Debug)]
pub struct ShutdownSignal {
    flag: Arc<AtomicBool>,
}

/// Whether a cell is one that `AtomicBool::new` can give for a value.
pub open spec fn made_with(cell: AtomicBool, value: bool) -> bool {
    call_ensures(AtomicBool::new, (value,), cell)
}

/// Whether a value is one that `AtomicBool::load` can give for a cell.
pub open spec fn read_from(cell: AtomicBool, value: bool) -> bool {
    call_ensures(AtomicBool::load, (&cell, std::sync::atomic::Ordering::SeqCst), value)
}

/// Whether a call of `AtomicBool::store` with a cell and a value can come to its end.
pub open spec fn written_to(cell: AtomicBool, value: bool) -> bool {
    call_ensures(AtomicBool::store, (&cell, value, std::sync::atomic::Ordering::SeqCst), ())
}

impl Clone for ShutdownSignal {
    fn clone(&self) -> (r: ShutdownSignal)
        ensures
            r == *self,
    {
        ShutdownSignal { flag: self.flag.clone() }
    }
}

impl Default for ShutdownSignal {
    fn default() -> (r: ShutdownSignal)
        ensures
            made_with(*r.cell(), false),
    {
        ShutdownSignal::new()
    }
}

impl ShutdownSignal {
    /// The cell that holds the flag.
    pub closed spec fn cell(self) -> Arc<AtomicBool> {
        self.flag
    }

    /// A signal that is not set: its cell is made with `false` in it.
    #[must_use]
    pub fn new() -> (r: ShutdownSignal)
        ensures
            made_with(*r.cell(), false),
    {
        ShutdownSignal { flag: Arc::new(AtomicBool::new(false)) }
    }

    /// The cell that holds the flag, for signal handlers that set it.
    #[must_use]
    pub fn flag_arc(&self) -> (r: &Arc<AtomicBool>)
        ensures
            *r == self.cell(),
    {
        &self.flag
    }

    /// Whether the signal is set: what a read of its cell gives. Other threads and signal
    /// handlers set it, so no call's result follows from what was called before.
    #[must_use]
    pub fn is_shutdown(&self) -> (r: bool)
        ensures
            read_from(*self.cell(), r),
    {
        self.flag.load(std::sync::atomic::Ordering::SeqCst)
    }

    /// Sets the signal: writes `true` to its cell.
    pub fn trigger(&self)
        ensures
            written_to(*self.cell(), true),
    {
        self.flag.store(true, std::sync::atomic::Ordering::SeqCst);
    }
}

} // verus!
