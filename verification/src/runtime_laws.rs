//! What holds of every run of the boot sequence and the render loop.

use vstd::prelude::*;
use crate::runtime::{acquires, owns_peripherals, Action, Event, Fault, Phase, RuntimeState};
use crate::scratch::{low_word, SLOT_ALLOC_FAILURE};

verus! {

/// The phase that follows `phase` when all goes well: the boot sequence in
/// its order, then the three phases of a frame, round and round.
pub open spec fn successor(phase: Phase) -> Phase {
    match phase {
        Phase::Reset => Phase::Peripherals,
        Phase::Peripherals => Phase::ConfigCheck,
        Phase::ConfigCheck => Phase::I2c,
        Phase::I2c => Phase::Timer,
        Phase::Timer => Phase::ConfigStatus,
        Phase::ConfigStatus => Phase::Heap,
        Phase::Heap => Phase::Display,
        Phase::Display => Phase::DisplaySize,
        Phase::DisplaySize => Phase::Time,
        Phase::Time => Phase::Label,
        Phase::Label => Phase::Frame,
        Phase::Frame => Phase::Time,
        Phase::Halted(fault) => Phase::Halted(fault),
    }
}

/// The phase from which alone an action other than `Halt` is handed out.
pub open spec fn issued_from(action: Action) -> Phase {
    match action {
        Action::TakePeripherals => Phase::Reset,
        Action::TriggerConfigCheck => Phase::Peripherals,
        Action::InitI2c { .. } => Phase::ConfigCheck,
        Action::InitTimer => Phase::I2c,
        Action::ReadConfigStatus => Phase::Timer,
        Action::InitHeap => Phase::ConfigStatus,
        Action::InitDisplay { .. } => Phase::Heap,
        Action::ReadDisplaySize => Phase::Display,
        Action::ReadTime => Phase::DisplaySize,
        Action::DrawLabel { .. } => Phase::Time,
        Action::DrawBall { .. } => Phase::Label,
        Action::Halt => Phase::Reset,
    }
}

/// A step keeps a well-formed state well formed.
pub proof fn lemma_next_well_formed(s: RuntimeState, event: Event)
    requires
        s.well_formed(),
    ensures
        s.next(event).0.well_formed(),
{
    if let Some(ball) = s.ball {
        crate::motion_laws::lemma_step_contained(ball);
    }
}

/// A stopped machine makes no further progress: whatever arrives, it hands
/// out `Halt` and its state, the scratch words included, stays as it is.
pub proof fn lemma_halted_is_final(s: RuntimeState, event: Event)
    requires
        s.phase is Halted,
    ensures
        s.next(event) == (s, Action::Halt),
{
}

/// No sequence of events moves a stopped machine.
pub proof fn lemma_halted_forever(s: RuntimeState, events: Seq<Event>)
    requires
        s.phase is Halted,
    ensures
        s.run(events) == s,
    decreases events.len(),
{
    if events.len() > 0 {
        lemma_halted_forever(s, events.drop_last());
    }
}

/// A failed allocation of `size` bytes, in a machine that still runs, leaves
/// the low 32 bits of `size` (all of it, where it fits) in the slot kept for
/// it, stops the machine, and nothing that arrives later changes the state.
pub proof fn lemma_alloc_failure_is_final(s: RuntimeState, size: usize, later: Seq<Event>)
    requires
        s.well_formed(),
        !(s.phase is Halted),
    ensures
        ({
            let (stopped, action) = s.next(Event::AllocFailure { size });
            &&& action == Action::Halt
            &&& stopped.phase == Phase::Halted(Fault::OutOfMemory)
            &&& stopped.scratch[SLOT_ALLOC_FAILURE as int] == low_word(size as int)
            &&& size <= u32::MAX ==> stopped.scratch[SLOT_ALLOC_FAILURE as int] == size
            &&& stopped.run(later) == stopped
        }),
{
    lemma_halted_forever(s.next(Event::AllocFailure { size }).0, later);
}

/// Phases come in their order: a step leads to the phase that follows, or
/// stops the machine.
pub proof fn lemma_phases_in_order(s: RuntimeState, event: Event)
    ensures
        s.next(event).0.phase == successor(s.phase) || s.next(event).0.phase is Halted,
        s.next(event).0.phase is Halted <==> s.next(event).1 == Action::Halt,
{
}

/// Each action of the boot sequence and of a frame is handed out from one
/// phase only. So ownership of the peripherals is asked for once, from
/// reset, and the heap is handed over once: no step leads back.
pub proof fn lemma_action_phase(s: RuntimeState, event: Event)
    ensures
        s.next(event).1 != Action::Halt ==> {
            ||| s.phase == issued_from(s.next(event).1)
            ||| s.phase == Phase::Frame && s.next(event).1 == Action::ReadTime
        },
        s.next(event).0.phase != Phase::Reset,
        s.next(event).0.phase == Phase::Heap ==> s.phase == Phase::ConfigStatus,
{
}

/// Ownership of the peripherals is granted once. While the machine owns
/// them, a second attempt to acquire them, or word of one, granted or
/// refused, fails: it stops the machine, and nothing else changes.
pub proof fn lemma_second_acquisition_is_fatal(s: RuntimeState, event: Event)
    requires
        owns_peripherals(s.phase),
        acquires(event),
    ensures
        s.next(event) == (s.halted(Fault::PeripheralsTaken), Action::Halt),
{
}

/// The machine comes to own the peripherals in one way only: they were
/// asked for, and the grant arrives.
pub proof fn lemma_ownership_is_granted(s: RuntimeState, event: Event)
    requires
        !owns_peripherals(s.phase),
        owns_peripherals(s.next(event).0.phase),
    ensures
        s.phase == Phase::Peripherals,
        event == (Event::Peripherals { granted: true }),
        s.next(event).1 == Action::TriggerConfigCheck,
{
}

/// Refused ownership of the peripherals stops the machine at once.
pub proof fn lemma_refused_peripherals_is_fatal(s: RuntimeState)
    requires
        s.phase == Phase::Peripherals,
    ensures
        s.next(Event::Peripherals { granted: false }) == (
            s.halted(Fault::PeripheralsTaken),
            Action::Halt,
        ),
{
}

/// The scratch words change on two occasions only: when a failed
/// allocation is noted, and when the boot diagnostics are, after the heap
/// was handed over. A panic leaves them as they are.
pub proof fn lemma_scratch_writers(s: RuntimeState, event: Event)
    ensures
        s.next(event).0.scratch != s.scratch ==> {
            ||| event is AllocFailure
            ||| s.phase == Phase::Heap && event is Heap
        },
        s.next(Event::Panic).0.scratch == s.scratch,
        !(s.phase is Halted) ==> s.next(Event::Panic) == (s.halted(Fault::Logic), Action::Halt),
{
}

/// A failed flush stops the machine.
pub proof fn lemma_failed_flush_is_fatal(s: RuntimeState)
    requires
        s.phase == Phase::Frame,
    ensures
        s.next(Event::Flushed { ok: false }) == (
            s.halted(Fault::DisplayTransfer),
            Action::Halt,
        ),
{
}

/// Every frame that is drawn shows the body within the arena moved in by
/// the radius.
pub proof fn lemma_drawn_ball_contained(s: RuntimeState, event: Event)
    requires
        s.well_formed(),
        s.next(event).1 is DrawBall,
    ensures
        s.next(event).0.ball matches Some(ball) && ball.contained(),
{
    if let Some(ball) = s.ball {
        crate::motion_laws::lemma_step_contained(ball);
    }
}

} // verus!
