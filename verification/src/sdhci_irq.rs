//! Interrupt status cache shared between the IRQ top half and the
//! task-side command/data poll steps.
//!
//! Every request opens a new generation; the top half only caches status
//! for the generation that is currently active, so completions that belong
//! to an earlier request can never be observed by a later one.
use vstd::prelude::*;

verus! {

/// Generation that follows `g`; never zero, so zero can mean "no request yet".
pub open spec fn spec_next_generation(g: u32) -> u32 {
    if g == u32::MAX { 1 } else { (g + 1) as u32 }
}

/// Cached interrupt status of the active request.
#[derive(Clone, Copy, Debug)]
pub struct IrqState {
    pub generation: u32,
    pub active: bool,
    pub normal: u16,
    pub error: u16,
}

impl IrqState {
    /// No request open, nothing cached.
    pub fn new() -> (s: IrqState)
        ensures
            s.generation == 0,
            !s.active,
            s.normal == 0,
            s.error == 0,
    {
        IrqState { generation: 0, active: false, normal: 0, error: 0 }
    }

    /// Generation of the most recently opened request.
    pub fn generation(&self) -> (g: u32)
        ensures
            g == self.generation,
    {
        self.generation
    }

    /// Normal-status bits cached and not yet taken.
    pub fn pending_normal(&self) -> (n: u16)
        ensures
            n == self.normal,
    {
        self.normal
    }

    /// Error-status bits cached and not yet taken.
    pub fn pending_error(&self) -> (e: u16)
        ensures
            e == self.error,
    {
        self.error
    }

    /// Opens a new request generation and forgets anything cached before.
    pub fn begin_request(&mut self)
        ensures
            final(self).generation == spec_next_generation(old(self).generation),
            final(self).active,
            final(self).normal == 0,
            final(self).error == 0,
    {
        self.generation = if self.generation == u32::MAX {
            1
        } else {
            self.generation + 1
        };
        self.active = true;
        self.normal = 0;
        self.error = 0;
    }

    /// Closes the active request and forgets anything cached.
    pub fn end_request(&mut self)
        ensures
            final(self).generation == old(self).generation,
            !final(self).active,
            final(self).normal == 0,
            final(self).error == 0,
    {
        self.active = false;
        self.normal = 0;
        self.error = 0;
    }

    /// Forgets cached status while keeping the request generation alive.
    pub fn clear_all(&mut self)
        ensures
            final(self).generation == old(self).generation,
            final(self).active == old(self).active,
            final(self).normal == 0,
            final(self).error == 0,
    {
        self.normal = 0;
        self.error = 0;
    }

    /// The cache after the IRQ top half reports `normal`/`error` for
    /// request `generation`: kept only when that request is the active one.
    pub open spec fn spec_cache_if_current(self, generation: u32, normal: u16, error: u16) -> IrqState {
        if self.active && generation == self.generation {
            IrqState { normal: self.normal | normal, error: self.error | error, ..self }
        } else {
            self
        }
    }

    /// Caches status observed by the IRQ top half if it belongs to the
    /// active request; status of any other generation is dropped.
    pub fn cache_if_current(&mut self, generation: u32, normal: u16, error: u16)
        ensures
            *final(self) == old(self).spec_cache_if_current(generation, normal, error),
    {
        if self.active && generation == self.generation {
            self.normal = self.normal | normal;
            self.error = self.error | error;
        }
    }

    /// Takes the cached normal-status bits selected by `mask`.
    pub fn take_normal(&mut self, mask: u16) -> (taken: u16)
        ensures
            taken == old(self).normal & mask,
            final(self).normal == old(self).normal & !mask,
            final(self).error == old(self).error,
            final(self).generation == old(self).generation,
            final(self).active == old(self).active,
    {
        let taken = self.normal & mask;
        self.normal = self.normal & !mask;
        taken
    }

    /// Takes every cached error-status bit.
    pub fn take_error_all(&mut self) -> (taken: u16)
        ensures
            taken == old(self).error,
            final(self).error == 0,
            final(self).normal == old(self).normal,
            final(self).generation == old(self).generation,
            final(self).active == old(self).active,
    {
        let taken = self.error;
        self.error = 0;
        taken
    }

    /// Drops the cached normal-status bits selected by `mask`.
    pub fn clear_normal(&mut self, mask: u16)
        ensures
            final(self).normal == old(self).normal & !mask,
            final(self).error == old(self).error,
            final(self).generation == old(self).generation,
            final(self).active == old(self).active,
    {
        self.normal = self.normal & !mask;
    }
}

/// The interrupt endpoint state of a host controller.
#[derive(Clone, Copy, Debug)]
pub struct SdhciIrq {
    pub state: IrqState,
}

/// A status report cached for a request generation that is no longer the
/// active one leaves the cache exactly as it was.
pub proof fn lemma_stale_generation_is_dropped(s: IrqState, generation: u32, normal: u16, error: u16)
    requires
        generation != s.generation,
    ensures
        s.spec_cache_if_current(generation, normal, error) == s,
{
}

/// Opening a request always moves to a fresh, non-zero generation.
pub proof fn lemma_next_generation_is_fresh(g: u32)
    ensures
        spec_next_generation(g) != g,
        spec_next_generation(g) != 0,
{
}

/// Taking bits with a mask leaves none of those bits cached, and every
/// other bit stays cached.
pub proof fn lemma_take_normal_partitions(pending: u16, mask: u16)
    ensures
        (pending & !mask) & mask == 0,
        (pending & mask) | (pending & !mask) == pending,
{
    assert((pending & !mask) & mask == 0) by (bit_vector);
    assert((pending & mask) | (pending & !mask) == pending) by (bit_vector);
}

} // verus!
