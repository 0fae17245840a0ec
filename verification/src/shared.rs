//! A viewport that is read and replaced through a shared reference, without
//! a lock.

use crate::viewport::Viewport;
use std::sync::atomic::{AtomicU64, Ordering};
use vstd::prelude::*;

verus! {

/// A viewport behind one atomic word.
///
/// Every load takes the four values from a single word and every store
/// replaces that word, so a reader sees the values of one store and never a
/// mixture of two. Which store a load sees is decided by the threads that
/// share the cell: the functions here promise nothing about the values, and
/// `Viewport` states what is done with a snapshot once it is taken.
///
/// The cell has no view. A store goes through a shared reference, which
/// leaves the cell the same value in every contract, so no function of the
/// cell can stand for what it holds.
#[derive(Debug)]
pub struct SharedViewport(AtomicU64);

impl SharedViewport {
    /// A cell that holds `viewport`, until the first store replaces it.
    pub fn new(viewport: Viewport) -> SharedViewport {
        SharedViewport(AtomicU64::new(viewport.bits()))
    }

    /// A snapshot of the viewport as the latest store, or the making of the
    /// cell, left it. `Viewport::from_bits` says what the snapshot holds for
    /// each word that the load can give.
    pub fn load(&self) -> Viewport {
        Viewport::from_bits(self.0.load(Ordering::Relaxed))
    }

    /// Replaces the viewport as a whole.
    pub fn store(&self, viewport: Viewport) {
        self.0.store(viewport.bits(), Ordering::Relaxed);
    }
}

impl Default for SharedViewport {
    /// A cell that holds the default viewport.
    fn default() -> SharedViewport {
        SharedViewport::new(Viewport::default())
    }
}

impl Clone for SharedViewport {
    /// A cell of its own that starts from a snapshot of this one.
    fn clone(&self) -> SharedViewport {
        SharedViewport::new(self.load())
    }
}

} // verus!
