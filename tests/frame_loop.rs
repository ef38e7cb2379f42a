use led_printer::font::MeasureError;
use led_printer::frame::{FrameAction, FrameLoop, Phase, TICK_MS};
use led_printer::scroll::{Direction, ScrollState};

#[test]
fn priming_paints_at_zero() {
    let mut f = FrameLoop::new(50, 75);
    assert_eq!(f.phase, Phase::Priming);
    assert_eq!(f.prime(), FrameAction::Paint { offset: 0 });
    assert_eq!(f.phase, Phase::Animating);
    assert_eq!(f.scroll, ScrollState::initial());
}

#[test]
fn cleared_flag_exits() {
    let mut f = FrameLoop::new(50, 75);
    f.prime();
    assert_eq!(f.tick(true), FrameAction::Wait);
    assert_eq!(f.tick(false), FrameAction::Exit);
    assert_eq!(f.phase, Phase::Stopping);
}

#[test]
fn scroll_at_75_ms_per_pixel() {
    assert_eq!(TICK_MS, 10);
    let mut f = FrameLoop::new(50, 75);
    f.prime();
    let mut expected = ScrollState::initial();
    let mut paints = 0u32;
    let mut max_offset = 0u32;
    for tick in 1..=800u32 {
        let action = f.tick(true);
        if tick % 8 == 0 {
            expected = led_printer::scroll::advance(expected, 50);
            assert_eq!(action, FrameAction::Paint { offset: expected.offset });
            paints += 1;
        } else {
            assert_eq!(action, FrameAction::Wait);
        }
        assert_eq!(f.scroll, expected);
        max_offset = max_offset.max(f.scroll.offset);
        if tick == 392 {
            assert_eq!(f.scroll, ScrollState { offset: 49, direction: Direction::Forward });
        }
        if tick == 400 {
            assert_eq!(f.scroll, ScrollState { offset: 50, direction: Direction::Backward });
        }
        if tick == 408 {
            assert_eq!(f.scroll, ScrollState { offset: 49, direction: Direction::Backward });
        }
    }
    assert_eq!(paints, 100);
    assert_eq!(max_offset, 50);
    assert_eq!(f.scroll, ScrollState::initial());
}

#[test]
fn zero_ms_per_pixel_steps_every_tick() {
    let mut f = FrameLoop::new(3, 0);
    f.prime();
    assert_eq!(f.tick(true), FrameAction::Paint { offset: 1 });
    assert_eq!(f.tick(true), FrameAction::Paint { offset: 2 });
    assert_eq!(f.tick(true), FrameAction::Paint { offset: 3 });
    assert_eq!(f.tick(true), FrameAction::Paint { offset: 2 });
    assert_eq!(f.tick(true), FrameAction::Paint { offset: 1 });
    assert_eq!(f.tick(true), FrameAction::Paint { offset: 0 });
    assert_eq!(f.tick(true), FrameAction::Paint { offset: 1 });
}

#[test]
fn step_time_must_be_exceeded() {
    let mut f = FrameLoop::new(5, 80);
    f.prime();
    for _ in 0..8 {
        assert_eq!(f.tick(true), FrameAction::Wait);
    }
    assert_eq!(f.tick(true), FrameAction::Paint { offset: 1 });
    assert_eq!(f.ticks, 0);
}

#[test]
fn zero_width_text_never_moves() {
    let mut f = FrameLoop::new(0, 0);
    assert_eq!(f.prime(), FrameAction::Paint { offset: 0 });
    for _ in 0..10 {
        assert_eq!(f.tick(true), FrameAction::Paint { offset: 0 });
    }
}

#[test]
fn empty_text_loop_has_zero_width() {
    let f = FrameLoop::for_text("", 75).unwrap();
    assert_eq!(f, FrameLoop::new(0, 75));
}

#[test]
fn text_loop_uses_measured_width() {
    let f = FrameLoop::for_text("Hello, World!", 75).unwrap();
    assert_eq!(f.width, led_printer::font::content_width("Hello, World!").unwrap());
    assert!(f.width > 0);
    assert_eq!(f.phase, Phase::Priming);
    assert_eq!(f.ms_per_pixel, 75);
}

#[test]
fn unrenderable_text_gives_no_loop() {
    assert_eq!(FrameLoop::for_text("a\u{263A}", 75), Err(MeasureError::GlyphNotFound('\u{263A}')));
}

#[test]
fn too_long_text_gives_no_loop() {
    let text = "a".repeat(led_printer::font::MAX_TEXT_LEN + 1);
    assert_eq!(FrameLoop::for_text(&text, 75), Err(MeasureError::TextTooLong));
}
