//! An atomic cell for an `f32` parameter value, held as its bit pattern.
use std::sync::atomic::AtomicU32;
use std::sync::atomic::Ordering;
use vstd::prelude::*;

verus! {

/// A small helper to atomically load and store an `f32` value, given and
/// taken as its bit pattern (`f32::to_bits` / `f32::from_bits`).
///
/// The cell is shared between the audio thread, the main thread and the GUI,
/// so what a load returns depends on what other threads stored: no contract
/// below speaks of the value read. What is recorded is the value the cell
/// was created with.
pub struct AtomicF32(AtomicU32, Ghost<u32>);

impl AtomicF32 {
    /// The bit pattern the cell was created holding.
    pub closed spec fn initial(&self) -> u32 {
        self.1@
    }

    /// Creates a new atomic cell holding the value with bit pattern `bits`.
    pub fn new(bits: u32) -> (res: Self)
        ensures
            res.initial() == bits,
    {
        AtomicF32(AtomicU32::new(bits), Ghost(bits))
    }

    /// Stores the given value using the given `order`ing.
    pub fn store(&self, value: u32, order: Ordering)
        requires
            order != Ordering::Acquire,
            order != Ordering::AcqRel,
    {
        self.0.store(value, order)
    }

    /// Loads the contained value using the given `order`ing. Other threads
    /// may have stored since the cell was made, so nothing is promised of it.
    pub fn load(&self, order: Ordering) -> (res: u32)
        requires
            order != Ordering::Release,
            order != Ordering::AcqRel,
    {
        self.0.load(order)
    }

    /// Stores the given value, and returns the previously stored one, which
    /// depends on what other threads stored: nothing is promised of it.
    pub fn swap(&self, value: u32) -> (res: u32) {
        self.0.swap(value, Ordering::Relaxed)
    }
}

} // verus!
