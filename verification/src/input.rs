use vstd::prelude::*;

verus! {

/// A key of the keyboard, as far as the controls of the viewer tell keys
/// apart. Every key that is bound to nothing is `Other`.
#[derive(Clone, Copy, Debug, PartialEq, Eq, Structural)]
pub enum VirtualKeyCode {
    Up,
    Down,
    Left,
    Right,
    Space,
    LShift,
    RShift,
    O,
    L,
    K,
    M,
    N,
    J,
    I,
    P,
    Escape,
    Other,
}

/// Whether a key went down or came up.
#[derive(Clone, Copy, Debug, PartialEq, Eq, Structural)]
pub enum ElementState {
    Pressed,
    Released,
}

/// One held-down control of the viewer: a flag of `InputState`.
#[derive(Clone, Copy, Debug, PartialEq, Eq, Structural)]
pub enum Control {
    Forward,
    Backward,
    StrafeLeft,
    StrafeRight,
    MoveUp,
    MoveDown,
    LightLeft,
    LightRight,
    LightUp,
    LightDown,
    LightForward,
    LightBackward,
    LightIncIntensity,
    LightDecIntensity,
}

/// The key bindings: the control that a key drives, if any.
pub open spec fn control_of(key: VirtualKeyCode) -> Option<Control> {
    match key {
        VirtualKeyCode::Up => Some(Control::Forward),
        VirtualKeyCode::Down => Some(Control::Backward),
        VirtualKeyCode::Right => Some(Control::StrafeRight),
        VirtualKeyCode::Left => Some(Control::StrafeLeft),
        VirtualKeyCode::Space => Some(Control::MoveDown),
        VirtualKeyCode::LShift => Some(Control::MoveUp),
        VirtualKeyCode::RShift => Some(Control::MoveUp),
        VirtualKeyCode::O => Some(Control::LightLeft),
        VirtualKeyCode::L => Some(Control::LightRight),
        VirtualKeyCode::K => Some(Control::LightUp),
        VirtualKeyCode::M => Some(Control::LightDown),
        VirtualKeyCode::N => Some(Control::LightForward),
        VirtualKeyCode::J => Some(Control::LightBackward),
        VirtualKeyCode::I => Some(Control::LightIncIntensity),
        VirtualKeyCode::P => Some(Control::LightDecIntensity),
        VirtualKeyCode::Escape => None,
        VirtualKeyCode::Other => None,
    }
}

/// Which controls are held down right now.
#[derive(Clone, Copy, Debug, PartialEq, Eq, Structural)]
pub struct InputState {
    pub forward: bool,
    pub backward: bool,
    pub strafe_left: bool,
    pub strafe_right: bool,
    pub move_up: bool,
    pub move_down: bool,
    pub light_left: bool,
    pub light_right: bool,
    pub light_up: bool,
    pub light_down: bool,
    pub light_forward: bool,
    pub light_backward: bool,
    pub light_inc_intensity: bool,
    pub light_dec_intensity: bool,
}

impl InputState {
    /// The flag of one control.
    pub open spec fn flag(self, c: Control) -> bool {
        match c {
            Control::Forward => self.forward,
            Control::Backward => self.backward,
            Control::StrafeLeft => self.strafe_left,
            Control::StrafeRight => self.strafe_right,
            Control::MoveUp => self.move_up,
            Control::MoveDown => self.move_down,
            Control::LightLeft => self.light_left,
            Control::LightRight => self.light_right,
            Control::LightUp => self.light_up,
            Control::LightDown => self.light_down,
            Control::LightForward => self.light_forward,
            Control::LightBackward => self.light_backward,
            Control::LightIncIntensity => self.light_inc_intensity,
            Control::LightDecIntensity => self.light_dec_intensity,
        }
    }

    /// No control is held down.
    pub open spec fn is_idle(self) -> bool {
        forall|c: Control| !#[trigger] self.flag(c)
    }

    /// The state in which the flag of `c` is `v` and every other flag is
    /// that of `self`.
    pub open spec fn with_flag(self, c: Control, v: bool) -> InputState {
        InputState {
            forward: if c == Control::Forward { v } else { self.forward },
            backward: if c == Control::Backward { v } else { self.backward },
            strafe_left: if c == Control::StrafeLeft { v } else { self.strafe_left },
            strafe_right: if c == Control::StrafeRight { v } else { self.strafe_right },
            move_up: if c == Control::MoveUp { v } else { self.move_up },
            move_down: if c == Control::MoveDown { v } else { self.move_down },
            light_left: if c == Control::LightLeft { v } else { self.light_left },
            light_right: if c == Control::LightRight { v } else { self.light_right },
            light_up: if c == Control::LightUp { v } else { self.light_up },
            light_down: if c == Control::LightDown { v } else { self.light_down },
            light_forward: if c == Control::LightForward { v } else { self.light_forward },
            light_backward: if c == Control::LightBackward { v } else { self.light_backward },
            light_inc_intensity: if c == Control::LightIncIntensity { v } else { self.light_inc_intensity },
            light_dec_intensity: if c == Control::LightDecIntensity { v } else { self.light_dec_intensity },
        }
    }

    /// The state after a key event: the control bound to the key is held
    /// exactly when the key is pressed; an unbound key changes nothing.
    #[verifier::opaque]
    pub open spec fn after_key(self, key: VirtualKeyCode, state: ElementState) -> InputState {
        match control_of(key) {
            Some(c) => self.with_flag(c, state == ElementState::Pressed),
            None => self,
        }
    }

    /// Sets the flag of one control.
    fn set_flag(&mut self, c: Control, v: bool)
        ensures
            *final(self) == old(self).with_flag(c, v),
    {
        *self = InputState {
            forward: if c == Control::Forward { v } else { self.forward },
            backward: if c == Control::Backward { v } else { self.backward },
            strafe_left: if c == Control::StrafeLeft { v } else { self.strafe_left },
            strafe_right: if c == Control::StrafeRight { v } else { self.strafe_right },
            move_up: if c == Control::MoveUp { v } else { self.move_up },
            move_down: if c == Control::MoveDown { v } else { self.move_down },
            light_left: if c == Control::LightLeft { v } else { self.light_left },
            light_right: if c == Control::LightRight { v } else { self.light_right },
            light_up: if c == Control::LightUp { v } else { self.light_up },
            light_down: if c == Control::LightDown { v } else { self.light_down },
            light_forward: if c == Control::LightForward { v } else { self.light_forward },
            light_backward: if c == Control::LightBackward { v } else { self.light_backward },
            light_inc_intensity: if c == Control::LightIncIntensity { v } else { self.light_inc_intensity },
            light_dec_intensity: if c == Control::LightDecIntensity { v } else { self.light_dec_intensity },
        };
    }

    /// Records a key event: the flag of the control bound to `keycode`
    /// becomes whether the key is pressed; every other flag keeps its
    /// value, and a key bound to nothing changes nothing.
    pub fn update(&mut self, keycode: VirtualKeyCode, state: ElementState)
        ensures
            *final(self) == old(self).after_key(keycode, state),
    {
        proof {
            reveal(InputState::after_key);
        }
        let is_pressed = match state {
            ElementState::Pressed => true,
            ElementState::Released => false,
        };
        match bound_control(keycode) {
            Some(c) => self.set_flag(c, is_pressed),
            None => {},
        }
    }
}

/// The control that a key drives, if any.
pub fn bound_control(key: VirtualKeyCode) -> (r: Option<Control>)
    ensures
        r == control_of(key),
{
    match key {
        VirtualKeyCode::Up => Some(Control::Forward),
        VirtualKeyCode::Down => Some(Control::Backward),
        VirtualKeyCode::Right => Some(Control::StrafeRight),
        VirtualKeyCode::Left => Some(Control::StrafeLeft),
        VirtualKeyCode::Space => Some(Control::MoveDown),
        VirtualKeyCode::LShift | VirtualKeyCode::RShift => Some(Control::MoveUp),
        VirtualKeyCode::O => Some(Control::LightLeft),
        VirtualKeyCode::L => Some(Control::LightRight),
        VirtualKeyCode::K => Some(Control::LightUp),
        VirtualKeyCode::M => Some(Control::LightDown),
        VirtualKeyCode::N => Some(Control::LightForward),
        VirtualKeyCode::J => Some(Control::LightBackward),
        VirtualKeyCode::I => Some(Control::LightIncIntensity),
        VirtualKeyCode::P => Some(Control::LightDecIntensity),
        _ => None,
    }
}

impl Default for InputState {
    /// No control held down.
    fn default() -> (s: Self)
        ensures
            s.is_idle(),
            !s.forward,
            !s.backward,
            !s.strafe_left,
            !s.strafe_right,
            !s.move_up,
            !s.move_down,
            !s.light_left,
            !s.light_right,
            !s.light_up,
            !s.light_down,
            !s.light_forward,
            !s.light_backward,
            !s.light_inc_intensity,
            !s.light_dec_intensity,
    {
        InputState {
            forward: false,
            backward: false,
            strafe_left: false,
            strafe_right: false,
            move_up: false,
            move_down: false,
            light_left: false,
            light_right: false,
            light_up: false,
            light_down: false,
            light_forward: false,
            light_backward: false,
            light_inc_intensity: false,
            light_dec_intensity: false,
        }
    }
}

/// A key event changes the flag of the control bound to the key, to whether
/// the key is pressed, and no other flag; a key bound to nothing changes
/// nothing.
pub proof fn lemma_key_event_touches_only_its_control(
    s: InputState,
    key: VirtualKeyCode,
    state: ElementState,
)
    ensures
        forall|c: Control|
            #[trigger] s.after_key(key, state).flag(c) == (if control_of(key) == Some(c) {
                state == ElementState::Pressed
            } else {
                s.flag(c)
            }),
        control_of(key) is None ==> s.after_key(key, state) == s,
{
    assert forall|c: Control|
        #[trigger] s.after_key(key, state).flag(c) == (if control_of(key) == Some(c) {
            state == ElementState::Pressed
        } else {
            s.flag(c)
        }) by {
        lemma_flag_after_key(s, key, state, c);
    }
    if control_of(key) is None {
        lemma_same_flags_same_state(s.after_key(key, state), s);
    }
}

/// Repeating a key event (as key repeat does) changes nothing more.
pub proof fn lemma_key_event_idempotent(s: InputState, key: VirtualKeyCode, state: ElementState)
    ensures
        s.after_key(key, state).after_key(key, state) == s.after_key(key, state),
{
    let once = s.after_key(key, state);
    let twice = once.after_key(key, state);
    assert forall|c: Control| #[trigger] twice.flag(c) == once.flag(c) by {
        lemma_flag_after_key(s, key, state, c);
        lemma_flag_after_key(once, key, state, c);
    }
    lemma_same_flags_same_state(twice, once);
}

/// Releasing a key undoes pressing it: from a state in which its control
/// is not held, a press and then a release give the state back.
pub proof fn lemma_release_undoes_press(s: InputState, key: VirtualKeyCode)
    requires
        control_of(key) matches Some(c) ==> !s.flag(c),
    ensures
        s.after_key(key, ElementState::Pressed).after_key(key, ElementState::Released) == s,
{
    let pressed = s.after_key(key, ElementState::Pressed);
    let released = pressed.after_key(key, ElementState::Released);
    assert forall|c: Control| #[trigger] released.flag(c) == s.flag(c) by {
        lemma_flag_after_key(s, key, ElementState::Pressed, c);
        lemma_flag_after_key(pressed, key, ElementState::Released, c);
    }
    lemma_same_flags_same_state(released, s);
}

/// Of two events on keys bound to the same control (such as the two shift
/// keys), the later one decides.
pub proof fn lemma_last_key_event_wins(
    s: InputState,
    k1: VirtualKeyCode,
    st1: ElementState,
    k2: VirtualKeyCode,
    st2: ElementState,
)
    requires
        control_of(k1) == control_of(k2),
    ensures
        s.after_key(k1, st1).after_key(k2, st2) == s.after_key(k2, st2),
{
    let x = s.after_key(k1, st1).after_key(k2, st2);
    let y = s.after_key(k2, st2);
    assert forall|c: Control| #[trigger] x.flag(c) == y.flag(c) by {
        lemma_flag_after_key(s, k1, st1, c);
        lemma_flag_after_key(s.after_key(k1, st1), k2, st2, c);
        lemma_flag_after_key(s, k2, st2, c);
    }
    lemma_same_flags_same_state(x, y);
}

/// The flag of one control after a key event.
proof fn lemma_flag_after_key(s: InputState, key: VirtualKeyCode, state: ElementState, c: Control)
    ensures
        s.after_key(key, state).flag(c) == (if control_of(key) == Some(c) {
            state == ElementState::Pressed
        } else {
            s.flag(c)
        }),
{
    reveal(InputState::after_key);
}

/// Two states with the same flags are the same state.
proof fn lemma_same_flags_same_state(a: InputState, b: InputState)
    requires
        forall|c: Control| #[trigger] a.flag(c) == b.flag(c),
    ensures
        a == b,
{
    assert(a.flag(Control::Forward) == b.flag(Control::Forward));
    assert(a.flag(Control::Backward) == b.flag(Control::Backward));
    assert(a.flag(Control::StrafeLeft) == b.flag(Control::StrafeLeft));
    assert(a.flag(Control::StrafeRight) == b.flag(Control::StrafeRight));
    assert(a.flag(Control::MoveUp) == b.flag(Control::MoveUp));
    assert(a.flag(Control::MoveDown) == b.flag(Control::MoveDown));
    assert(a.flag(Control::LightLeft) == b.flag(Control::LightLeft));
    assert(a.flag(Control::LightRight) == b.flag(Control::LightRight));
    assert(a.flag(Control::LightUp) == b.flag(Control::LightUp));
    assert(a.flag(Control::LightDown) == b.flag(Control::LightDown));
    assert(a.flag(Control::LightForward) == b.flag(Control::LightForward));
    assert(a.flag(Control::LightBackward) == b.flag(Control::LightBackward));
    assert(a.flag(Control::LightIncIntensity) == b.flag(Control::LightIncIntensity));
    assert(a.flag(Control::LightDecIntensity) == b.flag(Control::LightDecIntensity));
}

/// Events on keys that do not drive the same control (bound to different
/// controls, or one or both bound to nothing) may arrive in either order.
pub proof fn lemma_key_events_commute(
    s: InputState,
    k1: VirtualKeyCode,
    st1: ElementState,
    k2: VirtualKeyCode,
    st2: ElementState,
)
    requires
        !(control_of(k1) is Some && control_of(k1) == control_of(k2)),
    ensures
        s.after_key(k1, st1).after_key(k2, st2) == s.after_key(k2, st2).after_key(k1, st1),
{
    let x = s.after_key(k1, st1).after_key(k2, st2);
    let y = s.after_key(k2, st2).after_key(k1, st1);
    assert forall|c: Control| #[trigger] x.flag(c) == y.flag(c) by {
        lemma_flag_after_key(s, k1, st1, c);
        lemma_flag_after_key(s, k2, st2, c);
        lemma_flag_after_key(s.after_key(k1, st1), k2, st2, c);
        lemma_flag_after_key(s.after_key(k2, st2), k1, st1, c);
    }
    lemma_same_flags_same_state(x, y);
}

/// The key bindings, from any state: the arrow keys hold forward (Up),
/// backward (Down), strafe right (Right) and left (Left); Space holds
/// moving down and either shift key moving up; O, L, K, M, N, J hold the
/// light's moves to -x, +x, +y, -y, -z, +z; I and P hold raising and
/// lowering its intensity. A key event sets its control's flag to whether
/// the key is pressed and leaves the others; Escape and unbound keys
/// change no flag.
pub proof fn lemma_key_bindings(s: InputState, state: ElementState)
    ensures
        s.after_key(VirtualKeyCode::Up, state) == (InputState {
            forward: state == ElementState::Pressed,
            ..s
        }),
        s.after_key(VirtualKeyCode::Down, state) == (InputState {
            backward: state == ElementState::Pressed,
            ..s
        }),
        s.after_key(VirtualKeyCode::Right, state) == (InputState {
            strafe_right: state == ElementState::Pressed,
            ..s
        }),
        s.after_key(VirtualKeyCode::Left, state) == (InputState {
            strafe_left: state == ElementState::Pressed,
            ..s
        }),
        s.after_key(VirtualKeyCode::Space, state) == (InputState {
            move_down: state == ElementState::Pressed,
            ..s
        }),
        s.after_key(VirtualKeyCode::LShift, state) == (InputState {
            move_up: state == ElementState::Pressed,
            ..s
        }),
        s.after_key(VirtualKeyCode::RShift, state) == (InputState {
            move_up: state == ElementState::Pressed,
            ..s
        }),
        s.after_key(VirtualKeyCode::O, state) == (InputState {
            light_left: state == ElementState::Pressed,
            ..s
        }),
        s.after_key(VirtualKeyCode::L, state) == (InputState {
            light_right: state == ElementState::Pressed,
            ..s
        }),
        s.after_key(VirtualKeyCode::K, state) == (InputState {
            light_up: state == ElementState::Pressed,
            ..s
        }),
        s.after_key(VirtualKeyCode::M, state) == (InputState {
            light_down: state == ElementState::Pressed,
            ..s
        }),
        s.after_key(VirtualKeyCode::N, state) == (InputState {
            light_forward: state == ElementState::Pressed,
            ..s
        }),
        s.after_key(VirtualKeyCode::J, state) == (InputState {
            light_backward: state == ElementState::Pressed,
            ..s
        }),
        s.after_key(VirtualKeyCode::I, state) == (InputState {
            light_inc_intensity: state == ElementState::Pressed,
            ..s
        }),
        s.after_key(VirtualKeyCode::P, state) == (InputState {
            light_dec_intensity: state == ElementState::Pressed,
            ..s
        }),
        s.after_key(VirtualKeyCode::Escape, state) == s,
        s.after_key(VirtualKeyCode::Other, state) == s,
{
    reveal(InputState::after_key);
}

} // verus!
