//! Scope balance, the scratch buffer, and the widget surface.

use imgui_core::Direction;
use imgui_core::NativeCall;
use imgui_core::Ui;
use imgui_core::Vec2Bits;

#[test]
fn balanced_disabled_scope() {
    let mut ui = Ui::new();
    let tok = ui.begin_disabled();
    let pressed = ui.small_button("ok");
    tok.end(&mut ui);

    assert!(!pressed);
    let calls = ui.calls();
    assert_eq!(calls.len(), 3);
    assert_eq!(calls[0], NativeCall::BeginDisabled { disabled: true });
    assert_eq!(calls[2], NativeCall::EndDisabled);
    let label = match &calls[1] {
        NativeCall::SmallButton { label } => *label,
        other => panic!("expected a small button, got {:?}", other),
    };
    assert_eq!(ui.read_c_str(label), b"ok".to_vec());
}

#[test]
fn conditional_disable_still_pairs() {
    let mut ui = Ui::new();
    let tok = ui.begin_disabled_with_cond(false);
    tok.end(&mut ui);

    let calls = ui.calls();
    assert_eq!(calls.len(), 2);
    assert_eq!(calls[0], NativeCall::BeginDisabled { disabled: false });
    assert_eq!(calls[1], NativeCall::EndDisabled);
    let ends = calls
        .iter()
        .filter(|c| matches!(c, NativeCall::EndDisabled))
        .count();
    assert_eq!(ends, 1);
}

#[test]
fn nested_scopes_close_in_lifo_order() {
    let mut ui = Ui::new();
    let outer = ui.begin_disabled();
    let inner = ui.begin_disabled_with_cond(false);
    inner.end(&mut ui);
    outer.end(&mut ui);

    let calls = ui.calls();
    assert_eq!(calls.len(), 4);
    assert_eq!(calls[0], NativeCall::BeginDisabled { disabled: true });
    assert_eq!(calls[1], NativeCall::BeginDisabled { disabled: false });
    assert_eq!(calls[2], NativeCall::EndDisabled);
    assert_eq!(calls[3], NativeCall::EndDisabled);
    ui.end_frame();
}

#[test]
fn button_repeat_push_and_pop() {
    let mut ui = Ui::new();
    ui.push_button_repeat(true);
    ui.pop_button_repeat();

    let calls = ui.calls();
    assert_eq!(calls.len(), 2);
    assert_eq!(
        calls[0],
        NativeCall::PushItemFlag {
            flag: imgui_core::ITEM_FLAG_BUTTON_REPEAT,
            enabled: true
        }
    );
    assert_eq!(calls[1], NativeCall::PopItemFlag);
}

#[test]
fn scratch_round_trips_text() {
    let mut ui = Ui::new();
    let a = ui.scratch_txt("hello");
    let b = ui.scratch_txt("world");
    assert_ne!(a, b);
    assert_eq!(ui.read_c_str(a), b"hello".to_vec());
    assert_eq!(ui.read_c_str(b), b"world".to_vec());
}

#[test]
fn scratch_truncates_at_embedded_terminator() {
    let mut ui = Ui::new();
    let start = ui.scratch_txt("ab\0cd");
    assert_eq!(ui.read_c_str(start), b"ab".to_vec());
}

#[test]
fn end_frame_resets_scratch_and_keeps_calls() {
    let mut ui = Ui::new();
    ui.bullet_text("note");
    ui.end_frame();
    assert_eq!(ui.calls().len(), 1);
    let start = ui.scratch_txt("next");
    assert_eq!(start, 0);
    assert_eq!(ui.read_c_str(start), b"next".to_vec());
}

#[test]
fn replies_drive_widget_answers_in_order() {
    let mut ui = Ui::with_replies(vec![true, false]);
    assert!(ui.small_button("a"));
    assert!(!ui.small_button("b"));
    // The queue is exhausted: an idle frame answers false.
    assert!(!ui.small_button("c"));
}

#[test]
fn widget_calls_carry_their_parameters() {
    let mut ui = Ui::new();
    ui.bullet();
    let pressed = ui.invisible_button("hit", Vec2Bits::new(16f32.to_bits(), 9f32.to_bits()));
    assert!(!pressed);
    ui.arrow_button("go", Direction::Right);
    ui.set_item_key_owner(imgui_core::Key::Enter);
    ui.set_item_key_owner_with_flags(imgui_core::Key::Escape, 3);

    let calls = ui.calls();
    assert_eq!(calls.len(), 5);
    assert_eq!(calls[0], NativeCall::Bullet);
    match &calls[1] {
        NativeCall::InvisibleButton { id, size, flags } => {
            assert_eq!(ui.read_c_str(*id), b"hit".to_vec());
            assert_eq!(f32::from_bits(size.x_bits), 16.0);
            assert_eq!(f32::from_bits(size.y_bits), 9.0);
            assert_eq!(*flags, 0);
        }
        other => panic!("expected an invisible button, got {:?}", other),
    }
    match &calls[2] {
        NativeCall::ArrowButton { id, dir } => {
            assert_eq!(ui.read_c_str(*id), b"go".to_vec());
            assert_eq!(*dir, 1);
        }
        other => panic!("expected an arrow button, got {:?}", other),
    }
    assert_eq!(calls[3], NativeCall::SetItemKeyOwner { key: 525, flags: 0 });
    assert_eq!(calls[4], NativeCall::SetItemKeyOwner { key: 526, flags: 3 });
}
