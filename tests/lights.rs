use std::sync::mpsc;

use light_tester::color::Rgba;
use light_tester::frame::{frame_of, Frame};
use light_tester::message::{buttons_update, close_update, light_update, tick_update, UpdateLights};
use light_tester::registry::{init_status_code, Delivery, InitError, Registry};
use light_tester::render_loop::{LightTester, LoopAction};
use light_tester::status::LightStatus;
use light_tester::window_label;

fn black() -> Rgba {
    Rgba { r: 0, g: 0, b: 0, a: 0 }
}

fn draw(t: &mut LightTester) -> Frame {
    match t.step(Some(tick_update())) {
        LoopAction::Draw(f) => f,
        other => panic!("expected a draw, got {:?}", other),
    }
}

#[test]
fn label_is_fixed() {
    assert_eq!(window_label(), "Light Test Window");
    assert_eq!(window_label(), window_label());
}

#[test]
fn scenario_button_zero_and_red_left_slot() {
    let mut t = LightTester::new();
    assert_eq!(t.step(Some(buttons_update(0b0000001))), LoopAction::Idle);
    assert_eq!(t.step(Some(light_update(1, 0, 255, 0, 0))), LoopAction::Idle);
    let f = draw(&mut t);
    assert_eq!(f.buttons, [true, false, false, false]);
    assert_eq!(f.aux, [false, false]);
    assert!(!f.status);
    assert_eq!(f.left[0], Rgba { r: 255, g: 0, b: 0, a: 255 });
    assert_eq!(f.left[1], black());
    assert_eq!(f.left[2], black());
    assert_eq!(f.right, [black(); 3]);
}

#[test]
fn last_write_wins_per_field() {
    let mut t = LightTester::new();
    t.step(Some(buttons_update(0b1111111)));
    t.step(Some(light_update(1, 2, 1, 2, 3)));
    t.step(Some(light_update(0, 1, 4, 5, 6)));
    t.step(Some(buttons_update(0b0100100)));
    t.step(Some(light_update(1, 2, 7, 8, 9)));
    t.step(Some(light_update(0, 0, 10, 11, 12)));
    let f = draw(&mut t);
    assert_eq!(f.buttons, [false, false, true, false]);
    assert_eq!(f.aux, [false, true]);
    assert!(!f.status);
    assert_eq!(f.left, [black(), black(), Rgba { r: 7, g: 8, b: 9, a: 255 }]);
    assert_eq!(
        f.right,
        [Rgba { r: 10, g: 11, b: 12, a: 255 }, Rgba { r: 4, g: 5, b: 6, a: 255 }, black()]
    );
}

#[test]
fn light_update_changes_one_slot_only() {
    for left in [true, false] {
        for i in 0..3u32 {
            let mut s = LightStatus::new();
            s.buttons = 5;
            let before = s;
            let side = if left { 1 } else { 0 };
            assert!(s.apply(light_update(side, i, 9, 8, 7)));
            let (changed, same, other_new, other_old) = if left {
                (s.left, before.left, s.right, before.right)
            } else {
                (s.right, before.right, s.left, before.left)
            };
            for j in 0..3usize {
                if j == i as usize {
                    assert_eq!(changed[j], Rgba { r: 9, g: 8, b: 7, a: 255 });
                } else {
                    assert_eq!(changed[j], same[j]);
                }
            }
            assert_eq!(other_new, other_old);
            assert_eq!(s.buttons, 5);
        }
    }
}

#[test]
fn side_flag_one_is_left_any_other_is_right() {
    let c = Rgba { r: 1, g: 2, b: 3, a: 255 };
    assert_eq!(light_update(1, 2, 1, 2, 3), UpdateLights::Left(c, 2));
    assert_eq!(light_update(0, 2, 1, 2, 3), UpdateLights::Right(c, 2));
    assert_eq!(light_update(2, 0, 1, 2, 3), UpdateLights::Right(c, 0));
}

#[test]
fn message_builders() {
    assert_eq!(buttons_update(42), UpdateLights::Buttons(42));
    assert_eq!(tick_update(), UpdateLights::NextFrame);
    assert_eq!(close_update(), UpdateLights::Quit);
    assert_eq!(Rgba::opaque(4, 5, 6), Rgba { r: 4, g: 5, b: 6, a: 255 });
    assert_eq!(Rgba::black(), black());
}

#[test]
fn off_strip_index_is_rejected_and_changes_nothing() {
    let mut t = LightTester::new();
    let m = light_update(1, 3, 255, 255, 255);
    assert_eq!(t.step(Some(m)), LoopAction::Rejected(m));
    let m = light_update(0, u32::MAX, 1, 1, 1);
    assert_eq!(t.step(Some(m)), LoopAction::Rejected(m));
    assert!(t.is_running());
    assert_eq!(*t.status(), LightStatus::new());
}

#[test]
fn redraw_without_updates_is_identical() {
    let mut t = LightTester::new();
    t.step(Some(buttons_update(0b1010101)));
    t.step(Some(light_update(0, 1, 3, 3, 3)));
    let f1 = draw(&mut t);
    let f2 = draw(&mut t);
    assert_eq!(f1, f2);
}

#[test]
fn quit_ends_the_loop_for_good() {
    let mut t = LightTester::new();
    t.step(Some(buttons_update(3)));
    assert_eq!(t.step(Some(close_update())), LoopAction::Exit);
    assert!(!t.is_running());
    assert_eq!(t.step(Some(buttons_update(7))), LoopAction::Exit);
    assert_eq!(t.step(Some(tick_update())), LoopAction::Exit);
    assert_eq!(t.step(None), LoopAction::Exit);
    assert_eq!(t.status().buttons, 3);
}

#[test]
fn end_of_messages_ends_the_loop() {
    let mut t = LightTester::new();
    assert_eq!(t.step(None), LoopAction::Exit);
    assert!(!t.is_running());
    assert_eq!(t.step(Some(tick_update())), LoopAction::Exit);
}

#[test]
fn fresh_state_is_dark() {
    let s = LightStatus::new();
    assert_eq!(s.buttons, 0);
    assert_eq!(s.left, [black(); 3]);
    assert_eq!(s.right, [black(); 3]);
    let f = frame_of(&s);
    assert_eq!(f.buttons, [false; 4]);
    assert_eq!(f.aux, [false; 2]);
    assert!(!f.status);
}

#[test]
fn indicator_bits() {
    let mut s = LightStatus::new();
    s.buttons = 1 << 6;
    let f = frame_of(&s);
    assert!(f.status);
    assert_eq!(f.buttons, [false; 4]);
    assert_eq!(f.aux, [false; 2]);
    s.buttons = (1 << 4) | (1 << 3) | (1 << 7) | (1 << 31);
    let f = frame_of(&s);
    assert_eq!(f.buttons, [false, false, false, true]);
    assert_eq!(f.aux, [true, false]);
    assert!(!f.status);
}

#[test]
fn second_init_is_refused() {
    let mut reg: Registry<u32> = Registry::new();
    let (tx1, _rx1) = mpsc::channel();
    let (tx2, _rx2) = mpsc::channel();
    let first = reg.initialize(7, tx1);
    assert_eq!(first, Ok(()));
    assert_eq!(init_status_code(&first), 0);
    let second = reg.initialize(8, tx2);
    assert_eq!(second, Err(InitError::AlreadyInitialized));
    let code = init_status_code(&second);
    assert_ne!(code, 0);
    assert_eq!(code, 1);
    assert_eq!(reg.logger(), Some(&7));
}

#[test]
fn updates_before_init_send_nothing() {
    let mut reg: Registry<u32> = Registry::new();
    assert!(!reg.is_initialized());
    assert_eq!(reg.logger(), None);
    assert_eq!(reg.submit(buttons_update(1)), Delivery::NotInitialized);
    assert_eq!(reg.submit(light_update(1, 0, 1, 2, 3)), Delivery::NotInitialized);
    assert_eq!(reg.submit(tick_update()), Delivery::NotInitialized);
    assert_eq!(reg.submit(close_update()), Delivery::NotInitialized);
}

#[test]
fn submitted_messages_arrive_in_order() {
    let mut reg: Registry<u32> = Registry::new();
    let (tx, rx) = mpsc::channel();
    assert!(reg.initialize(1, tx).is_ok());
    assert!(reg.is_initialized());
    assert_eq!(reg.submit(buttons_update(9)), Delivery::Sent);
    assert_eq!(reg.submit(tick_update()), Delivery::Sent);
    assert_eq!(rx.recv().unwrap(), UpdateLights::Buttons(9));
    assert_eq!(rx.recv().unwrap(), UpdateLights::NextFrame);
}

#[test]
fn updates_after_loop_ended_are_dropped() {
    let mut reg: Registry<u32> = Registry::new();
    let (tx, rx) = mpsc::channel();
    assert!(reg.initialize(1, tx).is_ok());
    drop(rx);
    let m = light_update(0, 2, 5, 5, 5);
    assert_eq!(reg.submit(m), Delivery::Dropped(m));
    assert_eq!(reg.submit(close_update()), Delivery::Dropped(UpdateLights::Quit));
}

#[test]
fn loop_fed_through_registry() {
    let mut reg: Registry<u32> = Registry::new();
    let (tx, rx) = mpsc::channel();
    assert!(reg.initialize(1, tx).is_ok());
    reg.submit(buttons_update(0b1000000));
    reg.submit(light_update(0, 2, 0, 0, 255));
    reg.submit(tick_update());
    reg.submit(close_update());
    let mut t = LightTester::new();
    let mut frames = Vec::new();
    loop {
        match t.step(rx.recv().ok()) {
            LoopAction::Draw(f) => frames.push(f),
            LoopAction::Exit => break,
            _ => {}
        }
    }
    assert_eq!(frames.len(), 1);
    assert!(frames[0].status);
    assert_eq!(frames[0].right[2], Rgba { r: 0, g: 0, b: 255, a: 255 });
}

#[test]
fn interleaving_of_fields_does_not_matter() {
    let a = buttons_update(0b0010011);
    let b = light_update(1, 1, 10, 20, 30);
    let c = light_update(0, 2, 40, 50, 60);
    let mut t1 = LightTester::new();
    for m in [a, b, c] {
        t1.step(Some(m));
    }
    let mut t2 = LightTester::new();
    for m in [c, a, b] {
        t2.step(Some(m));
    }
    assert_eq!(draw(&mut t1), draw(&mut t2));
}

#[test]
fn draws_stop_at_first_quit() {
    let msgs = [
        tick_update(),
        buttons_update(1),
        tick_update(),
        tick_update(),
        close_update(),
        tick_update(),
        buttons_update(2),
        tick_update(),
    ];
    let mut t = LightTester::new();
    let mut draws = 0;
    let mut exits = 0;
    for m in msgs {
        match t.step(Some(m)) {
            LoopAction::Draw(_) => draws += 1,
            LoopAction::Exit => exits += 1,
            _ => {}
        }
    }
    assert_eq!(draws, 3);
    assert_eq!(exits, 4);
    assert_eq!(t.status().buttons, 1);
}
