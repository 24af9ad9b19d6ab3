use bounce_runtime::geometry::{Point, Rectangle};
use bounce_runtime::runtime::{
    Action, Event, Fault, Phase, Runtime, ARENA_TOP, BALL_RADIUS, CONFIG_CLOCK_FREQUENCY,
};
use bounce_runtime::scratch::HeapRegion;

fn heap() -> Event {
    Event::Heap { region: HeapRegion { start: 0x1000_4000, size: 0x2_0000 } }
}

/// A machine that has booted on a display of the given size and waits for
/// the time of its first frame.
fn booted(width: u32, height: u32) -> Runtime {
    let mut rt = Runtime::new();
    rt.step(Event::Boot);
    rt.step(Event::Peripherals { granted: true });
    rt.step(Event::Done);
    rt.step(Event::Done);
    rt.step(Event::Done);
    rt.step(Event::ConfigStatus { bits: 0x55 });
    rt.step(heap());
    rt.step(Event::Done);
    rt.step(Event::DisplaySize { width, height });
    rt
}

#[test]
fn constants_of_the_board() {
    assert_eq!(CONFIG_CLOCK_FREQUENCY, 100_000_000);
    assert_eq!(BALL_RADIUS, 14);
    assert_eq!(ARENA_TOP, 50);
}

#[test]
fn new_machine_is_at_reset() {
    let rt = Runtime::new();
    assert_eq!(rt.phase(), Phase::Reset);
    assert_eq!(rt.scratch().words, [0; 8]);
    assert!(rt.ball().is_none());
}

#[test]
fn boot_runs_in_order() {
    let mut rt = Runtime::new();
    assert_eq!(rt.step(Event::Boot), Action::TakePeripherals);
    assert_eq!(rt.phase(), Phase::Peripherals);
    assert_eq!(rt.step(Event::Peripherals { granted: true }), Action::TriggerConfigCheck);
    assert_eq!(rt.phase(), Phase::ConfigCheck);
    assert_eq!(rt.step(Event::Done), Action::InitI2c { clock_mhz: 100 });
    assert_eq!(rt.phase(), Phase::I2c);
    assert_eq!(rt.step(Event::Done), Action::InitTimer);
    assert_eq!(rt.phase(), Phase::Timer);
    assert_eq!(rt.step(Event::Done), Action::ReadConfigStatus);
    assert_eq!(rt.phase(), Phase::ConfigStatus);
    assert_eq!(rt.step(Event::ConfigStatus { bits: 0x55 }), Action::InitHeap);
    assert_eq!(rt.phase(), Phase::Heap);
    assert_eq!(rt.scratch().words, [0; 8]);
    assert_eq!(rt.step(heap()), Action::InitDisplay { clock_hz: 100_000_000 });
    assert_eq!(rt.phase(), Phase::Display);
    assert_eq!(rt.scratch().words, [0, 0, 0x55, 0, 0x1000_4000, 0, 0x2_0000, 0]);
    assert_eq!(rt.step(Event::Done), Action::ReadDisplaySize);
    assert_eq!(rt.phase(), Phase::DisplaySize);
    assert!(rt.ball().is_none());
    assert_eq!(rt.step(Event::DisplaySize { width: 336, height: 536 }), Action::ReadTime);
    assert_eq!(rt.phase(), Phase::Time);
    let ball = rt.ball().unwrap();
    assert_eq!(ball.radius, 14);
    assert_eq!(ball.bounds, Rectangle::new(Point::new(0, 50), Point::new(336, 536)));
    assert_eq!(ball.loc, Point { x: 168, y: 268 });
    assert_eq!(ball.vector, Point { x: 2, y: 3 });
    assert_eq!(ball.rand_index, 0);
}

#[test]
fn frames_go_round() {
    let mut rt = booted(336, 536);
    assert_eq!(rt.step(Event::Time { millis: 0 }), Action::DrawLabel { seconds: 0 });
    assert_eq!(rt.phase(), Phase::Label);
    assert_eq!(
        rt.step(Event::Done),
        Action::DrawBall { center: Point { x: 170, y: 271 }, radius: 14 }
    );
    assert_eq!(rt.phase(), Phase::Frame);
    assert_eq!(rt.step(Event::Flushed { ok: true }), Action::ReadTime);
    assert_eq!(rt.phase(), Phase::Time);
    assert_eq!(rt.step(Event::Time { millis: 1999 }), Action::DrawLabel { seconds: 1 });
    assert_eq!(
        rt.step(Event::Done),
        Action::DrawBall { center: Point { x: 172, y: 274 }, radius: 14 }
    );
    assert_eq!(rt.step(Event::Flushed { ok: true }), Action::ReadTime);
    assert_eq!(rt.ball().unwrap().loc, Point { x: 172, y: 274 });
}

#[test]
fn the_ball_is_drawn_where_the_body_is() {
    let mut rt = booted(336, 536);
    for frame in 0..700u64 {
        rt.step(Event::Time { millis: frame * 16 });
        let action = rt.step(Event::Done);
        let ball = rt.ball().unwrap();
        assert_eq!(action, Action::DrawBall { center: ball.loc, radius: 14 });
        assert!(14 <= ball.loc.x && ball.loc.x <= 322);
        assert!(64 <= ball.loc.y && ball.loc.y <= 522);
        assert_eq!(rt.step(Event::Flushed { ok: true }), Action::ReadTime);
    }
    let ball = rt.ball().unwrap();
    assert_eq!(ball.loc, Point { x: 102, y: 162 });
    assert_eq!(ball.vector, Point { x: -2, y: -6 });
    assert_eq!(ball.rand_index, 1);
}

#[test]
fn uptime_is_in_whole_seconds() {
    let mut rt = booted(336, 536);
    assert_eq!(rt.step(Event::Time { millis: 999 }), Action::DrawLabel { seconds: 0 });
    let mut rt = booted(336, 536);
    assert_eq!(rt.step(Event::Time { millis: 1000 }), Action::DrawLabel { seconds: 1 });
    let mut rt = booted(336, 536);
    assert_eq!(rt.step(Event::Time { millis: 12_345_678 }), Action::DrawLabel { seconds: 12_345 });
    let mut rt = booted(336, 536);
    assert_eq!(
        rt.step(Event::Time { millis: 4_294_967_295_999 }),
        Action::DrawLabel { seconds: 4_294_967_295 }
    );
    let mut rt = booted(336, 536);
    assert_eq!(
        rt.step(Event::Time { millis: 4_294_967_296_000 }),
        Action::DrawLabel { seconds: 0 }
    );
    let mut rt = booted(336, 536);
    assert_eq!(
        rt.step(Event::Time { millis: u64::MAX }),
        Action::DrawLabel { seconds: 1_271_310_319 }
    );
}

#[test]
fn refused_peripherals_stop_the_machine() {
    let mut rt = Runtime::new();
    rt.step(Event::Boot);
    assert_eq!(rt.step(Event::Peripherals { granted: false }), Action::Halt);
    assert_eq!(rt.phase(), Phase::Halted(Fault::PeripheralsTaken));
    assert_eq!(rt.step(Event::Peripherals { granted: true }), Action::Halt);
    assert_eq!(rt.phase(), Phase::Halted(Fault::PeripheralsTaken));
}

#[test]
fn second_acquisition_fails() {
    let mut rt = Runtime::new();
    assert_eq!(rt.step(Event::Boot), Action::TakePeripherals);
    assert_eq!(rt.step(Event::Peripherals { granted: true }), Action::TriggerConfigCheck);
    assert_eq!(rt.step(Event::Boot), Action::Halt);
    assert_eq!(rt.phase(), Phase::Halted(Fault::PeripheralsTaken));

    let mut rt = Runtime::new();
    rt.step(Event::Boot);
    rt.step(Event::Peripherals { granted: true });
    assert_eq!(rt.step(Event::Peripherals { granted: true }), Action::Halt);
    assert_eq!(rt.phase(), Phase::Halted(Fault::PeripheralsTaken));

    let mut rt = booted(336, 536);
    rt.step(Event::Time { millis: 1 });
    assert_eq!(rt.step(Event::Peripherals { granted: false }), Action::Halt);
    assert_eq!(rt.phase(), Phase::Halted(Fault::PeripheralsTaken));
    assert_eq!(rt.scratch().words, [0, 0, 0x55, 0, 0x1000_4000, 0, 0x2_0000, 0]);
}

#[test]
fn boot_before_the_grant_is_out_of_turn() {
    let mut rt = Runtime::new();
    rt.step(Event::Boot);
    assert_eq!(rt.step(Event::Boot), Action::Halt);
    assert_eq!(rt.phase(), Phase::Halted(Fault::Logic));

    let mut rt = Runtime::new();
    assert_eq!(rt.step(Event::Peripherals { granted: true }), Action::Halt);
    assert_eq!(rt.phase(), Phase::Halted(Fault::Logic));
}

#[test]
fn alloc_failure_is_noted_and_stops_the_machine() {
    let mut rt = booted(336, 536);
    rt.step(Event::Time { millis: 5 });
    rt.step(Event::Done);
    let ball = rt.ball().unwrap().clone();
    assert_eq!(rt.step(Event::AllocFailure { size: 4096 }), Action::Halt);
    assert_eq!(rt.phase(), Phase::Halted(Fault::OutOfMemory));
    assert_eq!(rt.scratch().words, [0, 0, 0x55, 4096, 0x1000_4000, 0, 0x2_0000, 0]);
    assert_eq!(rt.ball(), Some(&ball));

    assert_eq!(rt.step(Event::Flushed { ok: true }), Action::Halt);
    assert_eq!(rt.step(Event::Time { millis: 6 }), Action::Halt);
    assert_eq!(rt.step(Event::Done), Action::Halt);
    assert_eq!(rt.step(Event::AllocFailure { size: 8 }), Action::Halt);
    assert_eq!(rt.step(Event::Boot), Action::Halt);
    assert_eq!(rt.phase(), Phase::Halted(Fault::OutOfMemory));
    assert_eq!(rt.scratch().words, [0, 0, 0x55, 4096, 0x1000_4000, 0, 0x2_0000, 0]);
    assert_eq!(rt.ball(), Some(&ball));
    assert_eq!(ball.loc, Point { x: 170, y: 271 });
}

#[test]
fn alloc_failure_stops_the_machine_from_every_phase() {
    let script = [
        Event::Boot,
        Event::Peripherals { granted: true },
        Event::Done,
        Event::Done,
        Event::Done,
        Event::ConfigStatus { bits: 1 },
        heap(),
        Event::Done,
        Event::DisplaySize { width: 336, height: 536 },
        Event::Time { millis: 1 },
        Event::Done,
        Event::Flushed { ok: true },
    ];
    for n in 0..=script.len() {
        let mut rt = Runtime::new();
        for event in &script[..n] {
            assert_ne!(rt.step(*event), Action::Halt);
        }
        assert_eq!(rt.step(Event::AllocFailure { size: 77 }), Action::Halt);
        assert_eq!(rt.phase(), Phase::Halted(Fault::OutOfMemory));
        assert_eq!(rt.scratch().words[3], 77);
    }
}

#[test]
fn panic_stops_the_machine_and_notes_nothing() {
    let mut rt = booted(336, 536);
    let words = rt.scratch().words;
    assert_eq!(rt.step(Event::Panic), Action::Halt);
    assert_eq!(rt.phase(), Phase::Halted(Fault::Logic));
    assert_eq!(rt.scratch().words, words);
    assert_eq!(rt.step(Event::Time { millis: 1 }), Action::Halt);
}

#[test]
fn failed_flush_stops_the_machine() {
    let mut rt = booted(336, 536);
    rt.step(Event::Time { millis: 5 });
    rt.step(Event::Done);
    assert_eq!(rt.step(Event::Flushed { ok: false }), Action::Halt);
    assert_eq!(rt.phase(), Phase::Halted(Fault::DisplayTransfer));
    assert_eq!(rt.step(Event::Flushed { ok: true }), Action::Halt);
    assert_eq!(rt.ball().unwrap().loc, Point { x: 170, y: 271 });
}

#[test]
fn event_out_of_turn_stops_the_machine() {
    let mut rt = Runtime::new();
    assert_eq!(rt.step(Event::Done), Action::Halt);
    assert_eq!(rt.phase(), Phase::Halted(Fault::Logic));

    let mut rt = Runtime::new();
    rt.step(Event::Boot);
    rt.step(Event::Peripherals { granted: true });
    assert_eq!(rt.step(heap()), Action::Halt);
    assert_eq!(rt.phase(), Phase::Halted(Fault::Logic));
    assert_eq!(rt.scratch().words, [0; 8]);

    let mut rt = booted(336, 536);
    assert_eq!(rt.step(Event::Flushed { ok: true }), Action::Halt);
    assert_eq!(rt.phase(), Phase::Halted(Fault::Logic));
}

#[test]
fn display_without_room_stops_the_machine() {
    let rt = booted(10, 10);
    assert_eq!(rt.phase(), Phase::Halted(Fault::Logic));
    assert!(rt.ball().is_none());

    let rt = booted(28, 78);
    assert_eq!(rt.phase(), Phase::Time);
    assert_eq!(rt.ball().unwrap().loc, Point { x: 14, y: 39 });

    let rt = booted(28, 77);
    assert_eq!(rt.phase(), Phase::Halted(Fault::Logic));

    let rt = booted(u32::MAX, 536);
    assert_eq!(rt.phase(), Phase::Halted(Fault::Logic));

    let rt = booted(336, 0x8000_0000);
    assert_eq!(rt.phase(), Phase::Halted(Fault::Logic));
}

#[test]
fn wide_values_keep_their_low_word() {
    if usize::BITS > 32 {
        let mut rt = Runtime::new();
        rt.step(Event::Boot);
        rt.step(Event::Peripherals { granted: true });
        rt.step(Event::Done);
        rt.step(Event::Done);
        rt.step(Event::Done);
        rt.step(Event::ConfigStatus { bits: u32::MAX });
        let region = HeapRegion {
            start: 0x12_3456_789au64 as usize,
            size: 0x1_0000_0000u64 as usize,
        };
        rt.step(Event::Heap { region });
        assert_eq!(rt.scratch().words, [0, 0, u32::MAX, 0, 0x3456_789a, 0, 0, 0]);
        rt.step(Event::AllocFailure { size: 0x1_0000_1000u64 as usize });
        assert_eq!(rt.scratch().words, [0, 0, u32::MAX, 0x1000, 0x3456_789a, 0, 0, 0]);
    }
}
