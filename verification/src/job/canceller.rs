use std::sync::atomic::AtomicBool;
use std::sync::atomic::Ordering;
use std::sync::Arc;
use vstd::prelude::*;

verus! {

/// A cancellation flag shared by every clone of it.
///
/// The flag lives in an atomic that all clones point to, so a value of this
/// type says nothing about the flag's current state: the flag is read with
/// `is_canceled`, whose result the contracts leave open.
#[derive(Clone)]
pub struct Canceller {
    signal: Arc<AtomicBool>,
}

impl Canceller {
    /// A fresh flag that no one has raised yet.
    pub fn new() -> (res: Self) {
        Canceller { signal: Arc::new(AtomicBool::new(false)) }
    }

    /// Raises the flag, for this value and every clone of it.
    pub fn cancel(&self) {
        self.signal.store(true, Ordering::Relaxed);
    }

    /// Reads the flag.
    pub fn is_canceled(&self) -> (res: bool) {
        self.signal.load(Ordering::Relaxed)
    }
}

} // verus!
