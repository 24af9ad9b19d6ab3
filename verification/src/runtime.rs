//! The boot sequence and the render loop as a state machine. The machine
//! decides; a shell around it touches the hardware. Each call of
//! [`Runtime::step`] takes the outcome of the action handed out last and
//! hands out the next one.

use vstd::prelude::*;
use crate::bounce::{initial_motion, Bounce};
use crate::geometry::{Point, Rectangle};
use crate::motion::Motion;
use crate::scratch::{low_word, with_alloc_failure, with_boot, DebugScratch, HeapRegion};

verus! {

/// Frequency of the system clock in Hz.
pub const CONFIG_CLOCK_FREQUENCY: u32 = 100_000_000;

/// Radius of the bouncing body in pixels.
pub const BALL_RADIUS: u32 = 14;

/// Height of the strip at the top of the display that the arena leaves to
/// the uptime label.
pub const ARENA_TOP: i32 = 50;

/// Why the core was stopped for good.
#[derive(Clone, Copy, Debug, PartialEq, Eq, Structural)]
pub enum Fault {
    /// The peripherals were owned already when they were asked for.
    PeripheralsTaken,
    /// The allocator could not meet a request.
    OutOfMemory,
    /// The display could not complete a transfer.
    DisplayTransfer,
    /// Any other broken assumption.
    Logic,
}

/// What the machine is waiting for.
#[derive(Clone, Copy, Debug, PartialEq, Eq, Structural)]
pub enum Phase {
    /// Nothing has been done since reset.
    Reset,
    /// Ownership of the peripherals was asked for.
    Peripherals,
    /// The hardware configuration check was triggered.
    ConfigCheck,
    /// The I2C block is being brought up.
    I2c,
    /// The timer is being brought up.
    Timer,
    /// The hardware configuration status is being read.
    ConfigStatus,
    /// The heap is being handed to the allocator.
    Heap,
    /// The display is being brought up.
    Display,
    /// The display's size is being read.
    DisplaySize,
    /// The time since boot is being read, at the start of a frame.
    Time,
    /// The display is being cleared and the uptime label drawn.
    Label,
    /// The body is being drawn and the frame flushed.
    Frame,
    /// The core has stopped and stays so.
    Halted(Fault),
}

/// The outcome of an action, or a failure that interrupts it.
#[derive(Clone, Copy, Debug, PartialEq, Eq, Structural)]
pub enum Event {
    /// The core left reset.
    Boot,
    /// Ownership of the peripherals was granted or refused.
    Peripherals { granted: bool },
    /// The action that was handed out is complete and reports nothing.
    Done,
    /// The hardware configuration status register was read.
    ConfigStatus { bits: u32 },
    /// The allocator was given this region of memory.
    Heap { region: HeapRegion },
    /// The display reported its size in pixels.
    DisplaySize { width: u32, height: u32 },
    /// The timer reported the milliseconds since boot.
    Time { millis: u64 },
    /// The frame was flushed to the device, or the transfer failed.
    Flushed { ok: bool },
    /// The allocator could not meet a request of this many bytes.
    AllocFailure { size: usize },
    /// A broken assumption was detected somewhere.
    Panic,
}

/// What the shell is to do next.
#[derive(Clone, Copy, Debug, PartialEq, Eq, Structural)]
pub enum Action {
    /// Take exclusive ownership of the peripherals.
    TakePeripherals,
    /// Trigger the one-shot check of the hardware configuration.
    TriggerConfigCheck,
    /// Bring up the I2C block for a system clock of this many MHz.
    InitI2c { clock_mhz: u32 },
    /// Bring up the timer.
    InitTimer,
    /// Read the hardware configuration status register.
    ReadConfigStatus,
    /// Hand the heap to the allocator and report where it lies.
    InitHeap,
    /// Create the display and bring it up for this system clock.
    InitDisplay { clock_hz: u32 },
    /// Read the display's size.
    ReadDisplaySize,
    /// Read the milliseconds since boot.
    ReadTime,
    /// Clear the display and draw the uptime label for this many seconds.
    DrawLabel { seconds: u32 },
    /// Draw the body and flush the frame to the device.
    DrawBall { center: Point, radius: u32 },
    /// Stop the core for good.
    Halt,
}

/// The machine's state as plain mathematical values.
pub struct RuntimeState {
    pub phase: Phase,
    pub scratch: Seq<u32>,
    /// The hardware configuration status, once it was read.
    pub config_status: u32,
    /// The bouncing body, once the display's size is known.
    pub ball: Option<Motion>,
}

/// The arena on a display of the given size: all of it below the label's
/// strip.
pub open spec fn arena(width: u32, height: u32) -> Rectangle {
    Rectangle {
        top_left: Point { x: 0, y: ARENA_TOP },
        bottom_right: Point { x: width as i32, y: height as i32 },
    }
}

/// A display of this size has room for the body.
pub open spec fn display_admits(width: u32, height: u32) -> bool {
    &&& width <= i32::MAX
    &&& height <= i32::MAX
    &&& Bounce::admits(BALL_RADIUS, arena(width, height))
}

/// Whole seconds in `millis` milliseconds, as the label shows them.
pub open spec fn uptime_seconds(millis: u64) -> u32 {
    low_word(millis as int / 1000)
}

/// Whole seconds in `millis` milliseconds, as the label shows them.
fn seconds_of(millis: u64) -> (seconds: u32)
    ensures
        seconds == uptime_seconds(millis),
{
    ((millis / 1000) % 0x1_0000_0000) as u32
}

/// Advances the body, if there is one, by one step, and tells where it is
/// then and how large.
fn advance(ball: &mut Option<Bounce>) -> (drawn: Option<(Point, u32)>)
    requires
        *old(ball) matches Some(b) ==> b.valid(),
    ensures
        match *old(ball) {
            Some(before) => {
                &&& *final(ball) matches Some(after)
                &&& after.valid()
                &&& after@ == before@.step()
                &&& after@.contained()
                &&& drawn == Some((after.loc, after.radius))
            },
            None => *final(ball) is None && drawn is None,
        },
    no_unwind
{
    match ball {
        Some(b) => {
            b.update();
            Some((b.loc, b.radius))
        },
        None => None,
    }
}

/// In this phase the machine owns the peripherals: ownership was granted
/// and the machine still runs.
pub open spec fn owns_peripherals(phase: Phase) -> bool {
    !(phase is Reset) && !(phase is Peripherals) && !(phase is Halted)
}

/// The event is an attempt to acquire the peripherals, or word of one.
pub open spec fn acquires(event: Event) -> bool {
    event is Boot || event is Peripherals
}

impl RuntimeState {
    /// There are eight scratch words, and the body, once there is one, is
    /// well formed.
    pub open spec fn well_formed(self) -> bool {
        &&& self.scratch.len() == 8
        &&& self.ball matches Some(ball) ==> ball.well_formed()
    }

    /// The state stopped for the given reason, with nothing else changed.
    pub open spec fn halted(self, fault: Fault) -> RuntimeState {
        RuntimeState { phase: Phase::Halted(fault), ..self }
    }

    /// The state in the given phase, with nothing else changed.
    pub open spec fn at(self, phase: Phase) -> RuntimeState {
        RuntimeState { phase, ..self }
    }

    /// Why the machine stops when `event` arrives out of turn: a second
    /// acquisition of peripherals that are owned already, or else a broken
    /// assumption.
    pub open spec fn out_of_turn(self, event: Event) -> Fault {
        if owns_peripherals(self.phase) && acquires(event) {
            Fault::PeripheralsTaken
        } else {
            Fault::Logic
        }
    }

    /// The state after the events have arrived one after another.
    pub open spec fn run(self, events: Seq<Event>) -> RuntimeState
        decreases events.len(),
    {
        if events.len() == 0 {
            self
        } else {
            self.run(events.drop_last()).next(events.last()).0
        }
    }

    /// The state and the action that follow when `event` arrives. A stopped
    /// machine stays as it is. A failed allocation is noted in the scratch
    /// words and stops the machine from any phase. Otherwise the event that
    /// the phase waits for moves the machine on, and any other stops it: see
    /// [`RuntimeState::out_of_turn`].
    pub open spec fn next(self, event: Event) -> (RuntimeState, Action) {
        if self.phase is Halted {
            (self, Action::Halt)
        } else {
            match (self.phase, event) {
                (_, Event::AllocFailure { size }) => (
                    RuntimeState {
                        phase: Phase::Halted(Fault::OutOfMemory),
                        scratch: with_alloc_failure(self.scratch, size as int),
                        ..self
                    },
                    Action::Halt,
                ),
                (Phase::Reset, Event::Boot) => (
                    self.at(Phase::Peripherals),
                    Action::TakePeripherals,
                ),
                (Phase::Peripherals, Event::Peripherals { granted }) => if granted {
                    (self.at(Phase::ConfigCheck), Action::TriggerConfigCheck)
                } else {
                    (self.halted(Fault::PeripheralsTaken), Action::Halt)
                },
                (Phase::ConfigCheck, Event::Done) => (
                    self.at(Phase::I2c),
                    Action::InitI2c { clock_mhz: CONFIG_CLOCK_FREQUENCY / 1_000_000 },
                ),
                (Phase::I2c, Event::Done) => (self.at(Phase::Timer), Action::InitTimer),
                (Phase::Timer, Event::Done) => (
                    self.at(Phase::ConfigStatus),
                    Action::ReadConfigStatus,
                ),
                (Phase::ConfigStatus, Event::ConfigStatus { bits }) => (
                    RuntimeState { phase: Phase::Heap, config_status: bits, ..self },
                    Action::InitHeap,
                ),
                (Phase::Heap, Event::Heap { region }) => (
                    RuntimeState {
                        phase: Phase::Display,
                        scratch: with_boot(self.scratch, region, self.config_status),
                        ..self
                    },
                    Action::InitDisplay { clock_hz: CONFIG_CLOCK_FREQUENCY },
                ),
                (Phase::Display, Event::Done) => (
                    self.at(Phase::DisplaySize),
                    Action::ReadDisplaySize,
                ),
                (Phase::DisplaySize, Event::DisplaySize { width, height }) => if display_admits(
                    width,
                    height,
                ) {
                    (
                        RuntimeState {
                            phase: Phase::Time,
                            ball: Some(initial_motion(BALL_RADIUS, arena(width, height))),
                            ..self
                        },
                        Action::ReadTime,
                    )
                } else {
                    (self.halted(Fault::Logic), Action::Halt)
                },
                (Phase::Time, Event::Time { millis }) => (
                    self.at(Phase::Label),
                    Action::DrawLabel { seconds: uptime_seconds(millis) },
                ),
                (Phase::Label, Event::Done) => match self.ball {
                    Some(ball) => (
                        RuntimeState { phase: Phase::Frame, ball: Some(ball.step()), ..self },
                        Action::DrawBall {
                            center: Point {
                                x: ball.step().position.0 as i32,
                                y: ball.step().position.1 as i32,
                            },
                            radius: ball.radius as u32,
                        },
                    ),
                    None => (self.halted(Fault::Logic), Action::Halt),
                },
                (Phase::Frame, Event::Flushed { ok }) => if ok {
                    (self.at(Phase::Time), Action::ReadTime)
                } else {
                    (self.halted(Fault::DisplayTransfer), Action::Halt)
                },
                _ => (self.halted(self.out_of_turn(event)), Action::Halt),
            }
        }
    }
}

/// The boot sequence and the render loop.
#[derive(Debug, PartialEq, Eq)]
pub struct Runtime {
    phase: Phase,
    scratch: DebugScratch,
    config_status: u32,
    ball: Option<Bounce>,
}

impl View for Runtime {
    type V = RuntimeState;

    closed spec fn view(&self) -> RuntimeState {
        RuntimeState {
            phase: self.phase,
            scratch: self.scratch@,
            config_status: self.config_status,
            ball: match self.ball {
                Some(ball) => Some(ball@),
                None => None,
            },
        }
    }
}

impl Runtime {
    /// The body, once there is one, is valid.
    #[verifier::type_invariant]
    spec fn wf(&self) -> bool {
        self.ball matches Some(ball) ==> ball.valid()
    }

    /// A machine that has just left reset: no body yet, and every scratch
    /// word zero.
    pub fn new() -> (rt: Runtime)
        ensures
            rt@.well_formed(),
            rt@ == (RuntimeState {
                phase: Phase::Reset,
                scratch: Seq::new(8, |i: int| 0u32),
                config_status: 0,
                ball: None,
            }),
    {
        Runtime { phase: Phase::Reset, scratch: DebugScratch::new(), config_status: 0, ball: None }
    }

    /// What the machine is waiting for.
    pub fn phase(&self) -> (phase: Phase)
        ensures
            phase == self@.phase,
    {
        self.phase
    }

    /// The diagnostic scratch words.
    pub fn scratch(&self) -> (scratch: &DebugScratch)
        ensures
            scratch@ == self@.scratch,
    {
        &self.scratch
    }

    /// The bouncing body, once the display's size is known.
    pub fn ball(&self) -> (ball: Option<&Bounce>)
        ensures
            match ball {
                Some(b) => self@.ball == Some(b@) && b.valid(),
                None => self@.ball is None,
            },
    {
        proof {
            use_type_invariant(self);
        }
        self.ball.as_ref()
    }

    /// Stops the machine for the given reason.
    fn halt(&mut self, fault: Fault) -> (action: Action)
        ensures
            final(self)@ == old(self)@.halted(fault),
            action == Action::Halt,
    {
        proof {
            use_type_invariant(&*self);
        }
        self.phase = Phase::Halted(fault);
        Action::Halt
    }

    /// Moves the machine into the given phase.
    fn enter(&mut self, phase: Phase)
        ensures
            final(self)@ == old(self)@.at(phase),
    {
        proof {
            use_type_invariant(&*self);
        }
        self.phase = phase;
    }

    /// Takes the outcome of the action handed out last, or a failure that
    /// interrupted it, and hands out the next action.
    pub fn step(&mut self, event: Event) -> (action: Action)
        ensures
            final(self)@.well_formed(),
            (final(self)@, action) == old(self)@.next(event),
            action matches Action::DrawBall { center, radius } ==> {
                &&& final(self)@.ball matches Some(ball)
                &&& ball.contained()
                &&& ball.position == (center.x as int, center.y as int)
                &&& ball.radius == radius
            },
    {
        proof {
            use_type_invariant(&*self);
        }
        if let Phase::Halted(_) = self.phase {
            return Action::Halt;
        }
        if let Event::AllocFailure { size } = event {
            self.scratch.record_alloc_failure(size);
            self.phase = Phase::Halted(Fault::OutOfMemory);
            return Action::Halt;
        }
        match (self.phase, event) {
            (Phase::Reset, Event::Boot) => {
                self.enter(Phase::Peripherals);
                Action::TakePeripherals
            },
            (Phase::Peripherals, Event::Peripherals { granted }) => {
                if granted {
                    self.enter(Phase::ConfigCheck);
                    Action::TriggerConfigCheck
                } else {
                    self.halt(Fault::PeripheralsTaken)
                }
            },
            (Phase::ConfigCheck, Event::Done) => {
                self.enter(Phase::I2c);
                Action::InitI2c { clock_mhz: CONFIG_CLOCK_FREQUENCY / 1_000_000 }
            },
            (Phase::I2c, Event::Done) => {
                self.enter(Phase::Timer);
                Action::InitTimer
            },
            (Phase::Timer, Event::Done) => {
                self.enter(Phase::ConfigStatus);
                Action::ReadConfigStatus
            },
            (Phase::ConfigStatus, Event::ConfigStatus { bits }) => {
                self.config_status = bits;
                self.enter(Phase::Heap);
                Action::InitHeap
            },
            (Phase::Heap, Event::Heap { region }) => {
                self.scratch.record_boot(region, self.config_status);
                self.enter(Phase::Display);
                Action::InitDisplay { clock_hz: CONFIG_CLOCK_FREQUENCY }
            },
            (Phase::Display, Event::Done) => {
                self.enter(Phase::DisplaySize);
                Action::ReadDisplaySize
            },
            (Phase::DisplaySize, Event::DisplaySize { width, height }) => {
                if width > 0x7fff_ffff || height > 0x7fff_ffff {
                    return self.halt(Fault::Logic);
                }
                let bounds = Rectangle::new(
                    Point::new(0, ARENA_TOP),
                    Point::new(width as i32, height as i32),
                );
                let ball = Bounce::new(BALL_RADIUS, bounds);
                if ball.is_valid() {
                    self.ball = Some(ball);
                    self.enter(Phase::Time);
                    Action::ReadTime
                } else {
                    self.halt(Fault::Logic)
                }
            },
            (Phase::Time, Event::Time { millis }) => {
                self.enter(Phase::Label);
                Action::DrawLabel { seconds: seconds_of(millis) }
            },
            (Phase::Label, Event::Done) => {
                match advance(&mut self.ball) {
                    Some((center, radius)) => {
                        self.enter(Phase::Frame);
                        Action::DrawBall { center, radius }
                    },
                    None => self.halt(Fault::Logic),
                }
            },
            (Phase::Frame, Event::Flushed { ok }) => {
                if ok {
                    self.enter(Phase::Time);
                    Action::ReadTime
                } else {
                    self.halt(Fault::DisplayTransfer)
                }
            },
            (phase, event) => {
                let owned = match phase {
                    Phase::Reset | Phase::Peripherals | Phase::Halted(_) => false,
                    _ => true,
                };
                let acquiring = match event {
                    Event::Boot | Event::Peripherals { .. } => true,
                    _ => false,
                };
                if owned && acquiring {
                    self.halt(Fault::PeripheralsTaken)
                } else {
                    self.halt(Fault::Logic)
                }
            },
        }
    }
}

} // verus!
