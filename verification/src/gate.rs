//! The concurrency gate: a counting gate that bounds how many operations
//! may be in flight at once. A slot is taken before an operation is
//! dispatched and given back on every exit, after success and failure
//! alike.

use vstd::prelude::*;

verus! {

/// A counting gate with a fixed capacity and a pool of free slots.
#[derive(Debug, Clone, Copy, PartialEq, Eq, Structural)]
pub struct Gate {
    pub capacity: usize,
    pub available: usize,
}

impl Gate {
    /// Well-formedness: the capacity is positive and fixed, and the free
    /// slots never exceed it.
    pub open spec fn wf(&self) -> bool {
        self.available <= self.capacity && self.capacity >= 1
    }

    /// How many operations hold a slot right now.
    pub open spec fn in_flight(&self) -> int {
        self.capacity - self.available
    }

    /// A gate with every slot free.
    pub fn new(capacity: usize) -> (g: Gate)
        requires
            capacity >= 1,
        ensures
            g.wf(),
            g.capacity == capacity,
            g.in_flight() == 0,
    {
        Gate { capacity, available: capacity }
    }

    /// Takes a slot. Admission succeeds exactly when a slot is free; a
    /// refused caller holds nothing and must wait for a completion.
    pub fn try_acquire(&mut self) -> (admitted: bool)
        requires
            old(self).wf(),
        ensures
            final(self).wf(),
            final(self).capacity == old(self).capacity,
            admitted <==> old(self).available > 0,
            admitted ==> final(self).available == old(self).available - 1,
            !admitted ==> *final(self) == *old(self),
    {
        if self.available > 0 {
            self.available = self.available - 1;
            true
        } else {
            false
        }
    }

    /// Gives a held slot back to the pool.
    pub fn release(&mut self)
        requires
            old(self).wf(),
            old(self).in_flight() > 0,
        ensures
            final(self).wf(),
            final(self).capacity == old(self).capacity,
            final(self).available == old(self).available + 1,
    {
        self.available = self.available + 1;
    }
}

/// One event in a gate's life: an admission or a completion.
#[derive(Debug, Clone, Copy, PartialEq, Eq, Structural)]
pub enum GateEvent {
    Admit,
    Complete,
}

/// How one event moves a gate: an admission takes a slot when one is
/// free and is refused otherwise; a completion returns a held slot.
pub open spec fn gate_step(g: Gate, e: GateEvent) -> Gate {
    match e {
        GateEvent::Admit => {
            if g.available > 0 {
                Gate { capacity: g.capacity, available: (g.available - 1) as usize }
            } else {
                g
            }
        },
        GateEvent::Complete => {
            if g.available < g.capacity {
                Gate { capacity: g.capacity, available: (g.available + 1) as usize }
            } else {
                g
            }
        },
    }
}

/// A gate's state after a whole sequence of events.
pub open spec fn gate_run(g: Gate, events: Seq<GateEvent>) -> Gate
    decreases events.len(),
{
    if events.len() == 0 {
        g
    } else {
        gate_step(gate_run(g, events.drop_last()), events.last())
    }
}

/// Law: however admissions and completions interleave, the number of
/// operations in flight never exceeds the configured capacity, and the
/// capacity itself never changes.
pub proof fn lemma_concurrency_bounded(g: Gate, events: Seq<GateEvent>)
    requires
        g.wf(),
    ensures
        gate_run(g, events).wf(),
        gate_run(g, events).capacity == g.capacity,
        0 <= gate_run(g, events).in_flight() <= g.capacity,
    decreases events.len(),
{
    if events.len() > 0 {
        lemma_concurrency_bounded(g, events.drop_last());
    }
}

/// Law: a full gate refuses the next admission and stands unchanged, so
/// the refused operation waits; as soon as one completion frees a slot,
/// that admission goes through.
pub proof fn lemma_full_gate_waits(g: Gate)
    requires
        g.wf(),
        g.in_flight() == g.capacity,
    ensures
        gate_step(g, GateEvent::Admit) == g,
        ({
            let freed = gate_step(g, GateEvent::Complete);
            &&& freed.available == 1
            &&& gate_step(freed, GateEvent::Admit).in_flight() == g.capacity
        }),
{
}

/// Law: a slot is given back on every exit, after success and failure
/// alike, so an admission followed by its completion leaves a gate
/// exactly as it was: slots are reused, never leaked.
pub proof fn lemma_slot_reuse(g: Gate)
    requires
        g.wf(),
        g.available > 0,
    ensures
        gate_run(g, seq![GateEvent::Admit, GateEvent::Complete]) == g,
{
    let one = seq![GateEvent::Admit];
    let events = seq![GateEvent::Admit, GateEvent::Complete];
    assert(events.drop_last() =~= one);
    assert(one.drop_last() =~= Seq::<GateEvent>::empty());
    assert(gate_run(g, one.drop_last()) == g);
    assert(gate_run(g, one) == gate_step(g, GateEvent::Admit));
    assert(gate_run(g, events) == gate_step(gate_step(g, GateEvent::Admit), GateEvent::Complete));
}

} // verus!
