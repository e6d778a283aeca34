use vulkmini::commands::{frame_commands, Direction, FrameCommand};
use vulkmini::input::{bound_control, Control, ElementState, InputState, VirtualKeyCode};

fn idle() -> InputState {
    InputState::default()
}

#[test]
fn default_state_holds_nothing() {
    let s = idle();
    assert!(!s.forward && !s.backward && !s.strafe_left && !s.strafe_right);
    assert!(!s.move_up && !s.move_down);
    assert!(!s.light_left && !s.light_right && !s.light_up && !s.light_down);
    assert!(!s.light_forward && !s.light_backward);
    assert!(!s.light_inc_intensity && !s.light_dec_intensity);
}

#[test]
fn each_key_sets_its_own_flag() {
    let cases: Vec<(VirtualKeyCode, fn(&InputState) -> bool)> = vec![
        (VirtualKeyCode::Up, |s| s.forward),
        (VirtualKeyCode::Down, |s| s.backward),
        (VirtualKeyCode::Right, |s| s.strafe_right),
        (VirtualKeyCode::Left, |s| s.strafe_left),
        (VirtualKeyCode::Space, |s| s.move_down),
        (VirtualKeyCode::LShift, |s| s.move_up),
        (VirtualKeyCode::RShift, |s| s.move_up),
        (VirtualKeyCode::O, |s| s.light_left),
        (VirtualKeyCode::L, |s| s.light_right),
        (VirtualKeyCode::K, |s| s.light_up),
        (VirtualKeyCode::M, |s| s.light_down),
        (VirtualKeyCode::N, |s| s.light_forward),
        (VirtualKeyCode::J, |s| s.light_backward),
        (VirtualKeyCode::I, |s| s.light_inc_intensity),
        (VirtualKeyCode::P, |s| s.light_dec_intensity),
    ];
    for (key, get) in cases {
        let mut s = idle();
        s.update(key, ElementState::Pressed);
        assert!(get(&s), "{:?} should set its flag", key);
        // exactly one flag is set
        let mut expected = idle();
        expected.update(key, ElementState::Pressed);
        assert_eq!(s, expected);
        let count = [
            s.forward, s.backward, s.strafe_left, s.strafe_right, s.move_up, s.move_down,
            s.light_left, s.light_right, s.light_up, s.light_down, s.light_forward,
            s.light_backward, s.light_inc_intensity, s.light_dec_intensity,
        ]
        .iter()
        .filter(|b| **b)
        .count();
        assert_eq!(count, 1);
    }
}

#[test]
fn space_moves_down_and_shift_moves_up() {
    let mut s = idle();
    s.update(VirtualKeyCode::Space, ElementState::Pressed);
    assert!(s.move_down);
    assert!(!s.move_up);
    let mut t = idle();
    t.update(VirtualKeyCode::RShift, ElementState::Pressed);
    assert!(t.move_up);
    assert!(!t.move_down);
}

#[test]
fn unbound_keys_change_nothing() {
    let mut s = idle();
    s.update(VirtualKeyCode::Up, ElementState::Pressed);
    let before = s;
    s.update(VirtualKeyCode::Escape, ElementState::Pressed);
    assert_eq!(s, before);
    s.update(VirtualKeyCode::Other, ElementState::Released);
    assert_eq!(s, before);
}

#[test]
fn release_undoes_press() {
    let mut s = idle();
    s.update(VirtualKeyCode::K, ElementState::Pressed);
    assert!(s.light_up);
    s.update(VirtualKeyCode::K, ElementState::Released);
    assert_eq!(s, idle());
}

#[test]
fn repeated_press_is_idempotent() {
    let mut s = idle();
    s.update(VirtualKeyCode::Left, ElementState::Pressed);
    let once = s;
    s.update(VirtualKeyCode::Left, ElementState::Pressed);
    assert_eq!(s, once);
}

#[test]
fn last_event_on_shared_control_wins() {
    let mut s = idle();
    s.update(VirtualKeyCode::LShift, ElementState::Pressed);
    s.update(VirtualKeyCode::RShift, ElementState::Released);
    assert!(!s.move_up);
}

#[test]
fn events_on_different_controls_commute() {
    let mut a = idle();
    a.update(VirtualKeyCode::Up, ElementState::Pressed);
    a.update(VirtualKeyCode::I, ElementState::Pressed);
    let mut b = idle();
    b.update(VirtualKeyCode::I, ElementState::Pressed);
    b.update(VirtualKeyCode::Up, ElementState::Pressed);
    assert_eq!(a, b);
}

#[test]
fn bindings_of_keys() {
    assert_eq!(bound_control(VirtualKeyCode::Up), Some(Control::Forward));
    assert_eq!(bound_control(VirtualKeyCode::Space), Some(Control::MoveDown));
    assert_eq!(bound_control(VirtualKeyCode::LShift), Some(Control::MoveUp));
    assert_eq!(bound_control(VirtualKeyCode::P), Some(Control::LightDecIntensity));
    assert_eq!(bound_control(VirtualKeyCode::Escape), None);
    assert_eq!(bound_control(VirtualKeyCode::Other), None);
}

#[test]
fn idle_frame_only_refreshes_target() {
    assert_eq!(frame_commands(&idle()), vec![FrameCommand::RefreshCameraTarget]);
}

#[test]
fn frame_commands_follow_fixed_order() {
    let mut s = idle();
    s.update(VirtualKeyCode::P, ElementState::Pressed);
    s.update(VirtualKeyCode::O, ElementState::Pressed);
    s.update(VirtualKeyCode::Down, ElementState::Pressed);
    s.update(VirtualKeyCode::Up, ElementState::Pressed);
    s.update(VirtualKeyCode::Space, ElementState::Pressed);
    assert_eq!(
        frame_commands(&s),
        vec![
            FrameCommand::MoveForward(Direction::Positive),
            FrameCommand::MoveForward(Direction::Negative),
            FrameCommand::MoveUp(Direction::Negative),
            FrameCommand::RefreshCameraTarget,
            FrameCommand::LightX(Direction::Negative),
            FrameCommand::LightIntensity(Direction::Negative),
        ]
    );
}

#[test]
fn all_controls_held_give_every_command() {
    let mut s = idle();
    for key in [
        VirtualKeyCode::Up, VirtualKeyCode::Down, VirtualKeyCode::Left, VirtualKeyCode::Right,
        VirtualKeyCode::Space, VirtualKeyCode::LShift, VirtualKeyCode::O, VirtualKeyCode::L,
        VirtualKeyCode::K, VirtualKeyCode::M, VirtualKeyCode::N, VirtualKeyCode::J,
        VirtualKeyCode::I, VirtualKeyCode::P,
    ] {
        s.update(key, ElementState::Pressed);
    }
    assert_eq!(
        frame_commands(&s),
        vec![
            FrameCommand::MoveForward(Direction::Positive),
            FrameCommand::MoveForward(Direction::Negative),
            FrameCommand::Strafe(Direction::Positive),
            FrameCommand::Strafe(Direction::Negative),
            FrameCommand::MoveUp(Direction::Positive),
            FrameCommand::MoveUp(Direction::Negative),
            FrameCommand::RefreshCameraTarget,
            FrameCommand::LightX(Direction::Negative),
            FrameCommand::LightX(Direction::Positive),
            FrameCommand::LightY(Direction::Positive),
            FrameCommand::LightY(Direction::Negative),
            FrameCommand::LightZ(Direction::Negative),
            FrameCommand::LightZ(Direction::Positive),
            FrameCommand::LightIntensity(Direction::Positive),
            FrameCommand::LightIntensity(Direction::Negative),
        ]
    );
}

#[test]
fn unbound_and_bound_key_events_commute() {
    let mut a = idle();
    a.update(VirtualKeyCode::Escape, ElementState::Pressed);
    a.update(VirtualKeyCode::Other, ElementState::Released);
    a.update(VirtualKeyCode::J, ElementState::Pressed);
    let mut b = idle();
    b.update(VirtualKeyCode::J, ElementState::Pressed);
    b.update(VirtualKeyCode::Other, ElementState::Released);
    b.update(VirtualKeyCode::Escape, ElementState::Pressed);
    assert_eq!(a, b);
}
