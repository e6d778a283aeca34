use vstd::prelude::*;

use crate::input::{Control, InputState};

verus! {

/// The sign of a step: the amount of the step is a product of speed and
/// frame time that the application computes.
#[derive(Clone, Copy, Debug, PartialEq, Eq, Structural)]
pub enum Direction {
    Positive,
    Negative,
}

/// One thing to do to the camera or the light in a frame.
#[derive(Clone, Copy, Debug, PartialEq, Eq, Structural)]
pub enum FrameCommand {
    /// Move the camera along its view direction.
    MoveForward(Direction),
    /// Move the camera sideways.
    Strafe(Direction),
    /// Move the camera along the world's vertical axis.
    MoveUp(Direction),
    /// Recompute where the camera looks from its angles.
    RefreshCameraTarget,
    /// Move the light along the x axis.
    LightX(Direction),
    /// Move the light along the y axis.
    LightY(Direction),
    /// Move the light along the z axis.
    LightZ(Direction),
    /// Change the light's intensity.
    LightIntensity(Direction),
}

/// The command `c` if `held`, else nothing.
pub open spec fn when(held: bool, c: FrameCommand) -> Seq<FrameCommand> {
    if held {
        seq![c]
    } else {
        Seq::empty()
    }
}

/// The commands of one frame, in the order in which they are carried out:
/// the camera moves, the camera target is recomputed (always), then the
/// light moves and its intensity changes.
pub open spec fn frame_commands_spec(s: InputState) -> Seq<FrameCommand> {
    when(s.forward, FrameCommand::MoveForward(Direction::Positive))
        + when(s.backward, FrameCommand::MoveForward(Direction::Negative))
        + when(s.strafe_right, FrameCommand::Strafe(Direction::Positive))
        + when(s.strafe_left, FrameCommand::Strafe(Direction::Negative))
        + when(s.move_up, FrameCommand::MoveUp(Direction::Positive))
        + when(s.move_down, FrameCommand::MoveUp(Direction::Negative))
        + seq![FrameCommand::RefreshCameraTarget]
        + when(s.light_left, FrameCommand::LightX(Direction::Negative))
        + when(s.light_right, FrameCommand::LightX(Direction::Positive))
        + when(s.light_up, FrameCommand::LightY(Direction::Positive))
        + when(s.light_down, FrameCommand::LightY(Direction::Negative))
        + when(s.light_forward, FrameCommand::LightZ(Direction::Negative))
        + when(s.light_backward, FrameCommand::LightZ(Direction::Positive))
        + when(s.light_inc_intensity, FrameCommand::LightIntensity(Direction::Positive))
        + when(s.light_dec_intensity, FrameCommand::LightIntensity(Direction::Negative))
}

fn push_when(cmds: &mut Vec<FrameCommand>, held: bool, c: FrameCommand)
    ensures
        final(cmds)@ == old(cmds)@ + when(held, c),
{
    if held {
        cmds.push(c);
    } else {
        assert(old(cmds)@ + when(held, c) =~= old(cmds)@);
    }
}

/// The commands that the held controls call for in one frame: one per
/// held control, in a fixed order, with the camera target refreshed after
/// the camera moves. Opposite controls held together give both commands.
pub fn frame_commands(input: &InputState) -> (cmds: Vec<FrameCommand>)
    ensures
        cmds@ == frame_commands_spec(*input),
{
    let mut cmds: Vec<FrameCommand> = Vec::new();
    assert(cmds@ =~= Seq::<FrameCommand>::empty());
    push_when(&mut cmds, input.forward, FrameCommand::MoveForward(Direction::Positive));
    assert(cmds@ =~= when(input.forward, FrameCommand::MoveForward(Direction::Positive)));
    push_when(&mut cmds, input.backward, FrameCommand::MoveForward(Direction::Negative));
    push_when(&mut cmds, input.strafe_right, FrameCommand::Strafe(Direction::Positive));
    push_when(&mut cmds, input.strafe_left, FrameCommand::Strafe(Direction::Negative));
    push_when(&mut cmds, input.move_up, FrameCommand::MoveUp(Direction::Positive));
    push_when(&mut cmds, input.move_down, FrameCommand::MoveUp(Direction::Negative));
    push_when(&mut cmds, true, FrameCommand::RefreshCameraTarget);
    push_when(&mut cmds, input.light_left, FrameCommand::LightX(Direction::Negative));
    push_when(&mut cmds, input.light_right, FrameCommand::LightX(Direction::Positive));
    push_when(&mut cmds, input.light_up, FrameCommand::LightY(Direction::Positive));
    push_when(&mut cmds, input.light_down, FrameCommand::LightY(Direction::Negative));
    push_when(&mut cmds, input.light_forward, FrameCommand::LightZ(Direction::Negative));
    push_when(&mut cmds, input.light_backward, FrameCommand::LightZ(Direction::Positive));
    push_when(&mut cmds, input.light_inc_intensity, FrameCommand::LightIntensity(Direction::Positive));
    push_when(&mut cmds, input.light_dec_intensity, FrameCommand::LightIntensity(Direction::Negative));
    cmds
}

/// With no control held, a frame only refreshes the camera target: the
/// camera and the light stay where they are.
pub proof fn lemma_idle_frame_moves_nothing(s: InputState)
    requires
        s.is_idle(),
    ensures
        frame_commands_spec(s) == seq![FrameCommand::RefreshCameraTarget],
{
    assert(!s.flag(Control::Forward));
    assert(!s.flag(Control::Backward));
    assert(!s.flag(Control::StrafeLeft));
    assert(!s.flag(Control::StrafeRight));
    assert(!s.flag(Control::MoveUp));
    assert(!s.flag(Control::MoveDown));
    assert(!s.flag(Control::LightLeft));
    assert(!s.flag(Control::LightRight));
    assert(!s.flag(Control::LightUp));
    assert(!s.flag(Control::LightDown));
    assert(!s.flag(Control::LightForward));
    assert(!s.flag(Control::LightBackward));
    assert(!s.flag(Control::LightIncIntensity));
    assert(!s.flag(Control::LightDecIntensity));
    assert(frame_commands_spec(s) =~= seq![FrameCommand::RefreshCameraTarget]);
}

/// A command is in a sequence joined of two exactly when it is in one of
/// them.
proof fn lemma_contains_add(a: Seq<FrameCommand>, b: Seq<FrameCommand>, x: FrameCommand)
    ensures
        (a + b).contains(x) <==> a.contains(x) || b.contains(x),
{
    if (a + b).contains(x) {
        let i = choose|i: int| 0 <= i < (a + b).len() && (a + b)[i] == x;
        if i < a.len() {
            assert(a[i] == x);
        } else {
            assert(b[i - a.len()] == x);
        }
    }
    if a.contains(x) {
        let i = choose|i: int| 0 <= i < a.len() && a[i] == x;
        assert((a + b)[i] == x);
    }
    if b.contains(x) {
        let i = choose|i: int| 0 <= i < b.len() && b[i] == x;
        assert((a + b)[i + a.len()] == x);
    }
}

proof fn lemma_contains_when(held: bool, c: FrameCommand, x: FrameCommand)
    ensures
        (when(held, c)).contains(x) <==> held && x == c,
{
    if held {
        assert(when(held, c)[0] == c);
    }
}

/// The camera moves of a frame, in order.
spec fn camera_moves(s: InputState) -> Seq<FrameCommand> {
    when(s.forward, FrameCommand::MoveForward(Direction::Positive))
        + when(s.backward, FrameCommand::MoveForward(Direction::Negative))
        + when(s.strafe_right, FrameCommand::Strafe(Direction::Positive))
        + when(s.strafe_left, FrameCommand::Strafe(Direction::Negative))
        + when(s.move_up, FrameCommand::MoveUp(Direction::Positive))
        + when(s.move_down, FrameCommand::MoveUp(Direction::Negative))
}

/// The light changes of a frame, in order.
spec fn light_changes(s: InputState) -> Seq<FrameCommand> {
    when(s.light_left, FrameCommand::LightX(Direction::Negative))
        + when(s.light_right, FrameCommand::LightX(Direction::Positive))
        + when(s.light_up, FrameCommand::LightY(Direction::Positive))
        + when(s.light_down, FrameCommand::LightY(Direction::Negative))
        + when(s.light_forward, FrameCommand::LightZ(Direction::Negative))
        + when(s.light_backward, FrameCommand::LightZ(Direction::Positive))
        + when(s.light_inc_intensity, FrameCommand::LightIntensity(Direction::Positive))
        + when(s.light_dec_intensity, FrameCommand::LightIntensity(Direction::Negative))
}

proof fn lemma_add_assoc(a: Seq<FrameCommand>, b: Seq<FrameCommand>, c: Seq<FrameCommand>)
    ensures
        (a + b) + c == a + (b + c),
{
    assert((a + b) + c =~= a + (b + c));
}

proof fn lemma_frame_splits(s: InputState)
    ensures
        frame_commands_spec(s) == camera_moves(s) + seq![FrameCommand::RefreshCameraTarget]
            + light_changes(s),
{
    let x = camera_moves(s) + seq![FrameCommand::RefreshCameraTarget];
    let a1 = when(s.light_left, FrameCommand::LightX(Direction::Negative));
    let a2 = when(s.light_right, FrameCommand::LightX(Direction::Positive));
    let a3 = when(s.light_up, FrameCommand::LightY(Direction::Positive));
    let a4 = when(s.light_down, FrameCommand::LightY(Direction::Negative));
    let a5 = when(s.light_forward, FrameCommand::LightZ(Direction::Negative));
    let a6 = when(s.light_backward, FrameCommand::LightZ(Direction::Positive));
    let a7 = when(s.light_inc_intensity, FrameCommand::LightIntensity(Direction::Positive));
    let a8 = when(s.light_dec_intensity, FrameCommand::LightIntensity(Direction::Negative));
    lemma_add_assoc(x, a1, a2);
    lemma_add_assoc(x, a1 + a2, a3);
    lemma_add_assoc(x, a1 + a2 + a3, a4);
    lemma_add_assoc(x, a1 + a2 + a3 + a4, a5);
    lemma_add_assoc(x, a1 + a2 + a3 + a4 + a5, a6);
    lemma_add_assoc(x, a1 + a2 + a3 + a4 + a5 + a6, a7);
    lemma_add_assoc(x, a1 + a2 + a3 + a4 + a5 + a6 + a7, a8);
}

proof fn lemma_camera_moves_contain(s: InputState, x: FrameCommand)
    ensures
        camera_moves(s).contains(x) <==> match x {
            FrameCommand::MoveForward(Direction::Positive) => s.forward,
            FrameCommand::MoveForward(Direction::Negative) => s.backward,
            FrameCommand::Strafe(Direction::Positive) => s.strafe_right,
            FrameCommand::Strafe(Direction::Negative) => s.strafe_left,
            FrameCommand::MoveUp(Direction::Positive) => s.move_up,
            FrameCommand::MoveUp(Direction::Negative) => s.move_down,
            _ => false,
        },
{
    let a1 = when(s.forward, FrameCommand::MoveForward(Direction::Positive));
    let a2 = when(s.backward, FrameCommand::MoveForward(Direction::Negative));
    let a3 = when(s.strafe_right, FrameCommand::Strafe(Direction::Positive));
    let a4 = when(s.strafe_left, FrameCommand::Strafe(Direction::Negative));
    let a5 = when(s.move_up, FrameCommand::MoveUp(Direction::Positive));
    let a6 = when(s.move_down, FrameCommand::MoveUp(Direction::Negative));
    lemma_contains_add(a1, a2, x);
    lemma_contains_add(a1 + a2, a3, x);
    lemma_contains_add(a1 + a2 + a3, a4, x);
    lemma_contains_add(a1 + a2 + a3 + a4, a5, x);
    lemma_contains_add(a1 + a2 + a3 + a4 + a5, a6, x);
    lemma_contains_when(s.forward, FrameCommand::MoveForward(Direction::Positive), x);
    lemma_contains_when(s.backward, FrameCommand::MoveForward(Direction::Negative), x);
    lemma_contains_when(s.strafe_right, FrameCommand::Strafe(Direction::Positive), x);
    lemma_contains_when(s.strafe_left, FrameCommand::Strafe(Direction::Negative), x);
    lemma_contains_when(s.move_up, FrameCommand::MoveUp(Direction::Positive), x);
    lemma_contains_when(s.move_down, FrameCommand::MoveUp(Direction::Negative), x);
}

proof fn lemma_light_changes_contain(s: InputState, x: FrameCommand)
    ensures
        light_changes(s).contains(x) <==> match x {
            FrameCommand::LightX(Direction::Negative) => s.light_left,
            FrameCommand::LightX(Direction::Positive) => s.light_right,
            FrameCommand::LightY(Direction::Positive) => s.light_up,
            FrameCommand::LightY(Direction::Negative) => s.light_down,
            FrameCommand::LightZ(Direction::Negative) => s.light_forward,
            FrameCommand::LightZ(Direction::Positive) => s.light_backward,
            FrameCommand::LightIntensity(Direction::Positive) => s.light_inc_intensity,
            FrameCommand::LightIntensity(Direction::Negative) => s.light_dec_intensity,
            _ => false,
        },
{
    let a1 = when(s.light_left, FrameCommand::LightX(Direction::Negative));
    let a2 = when(s.light_right, FrameCommand::LightX(Direction::Positive));
    let a3 = when(s.light_up, FrameCommand::LightY(Direction::Positive));
    let a4 = when(s.light_down, FrameCommand::LightY(Direction::Negative));
    let a5 = when(s.light_forward, FrameCommand::LightZ(Direction::Negative));
    let a6 = when(s.light_backward, FrameCommand::LightZ(Direction::Positive));
    let a7 = when(s.light_inc_intensity, FrameCommand::LightIntensity(Direction::Positive));
    let a8 = when(s.light_dec_intensity, FrameCommand::LightIntensity(Direction::Negative));
    lemma_contains_add(a1, a2, x);
    lemma_contains_add(a1 + a2, a3, x);
    lemma_contains_add(a1 + a2 + a3, a4, x);
    lemma_contains_add(a1 + a2 + a3 + a4, a5, x);
    lemma_contains_add(a1 + a2 + a3 + a4 + a5, a6, x);
    lemma_contains_add(a1 + a2 + a3 + a4 + a5 + a6, a7, x);
    lemma_contains_add(a1 + a2 + a3 + a4 + a5 + a6 + a7, a8, x);
    lemma_contains_when(s.light_left, FrameCommand::LightX(Direction::Negative), x);
    lemma_contains_when(s.light_right, FrameCommand::LightX(Direction::Positive), x);
    lemma_contains_when(s.light_up, FrameCommand::LightY(Direction::Positive), x);
    lemma_contains_when(s.light_down, FrameCommand::LightY(Direction::Negative), x);
    lemma_contains_when(s.light_forward, FrameCommand::LightZ(Direction::Negative), x);
    lemma_contains_when(s.light_backward, FrameCommand::LightZ(Direction::Positive), x);
    lemma_contains_when(s.light_inc_intensity, FrameCommand::LightIntensity(Direction::Positive), x);
    lemma_contains_when(s.light_dec_intensity, FrameCommand::LightIntensity(Direction::Negative), x);
}

/// Each held control gives the command of its own direction, and only held
/// controls give commands: forward (Up) moves the camera forward, backward
/// (Down) moves it back, right and left strafe right and left, shift moves
/// it up and space down; O and L move the light to -x and +x, K and M to +y
/// and -y, N and J to -z and +z, I raises and P lowers its intensity. The
/// camera target is refreshed in every frame.
pub proof fn lemma_frame_commands_follow_held_controls(s: InputState, x: FrameCommand)
    ensures
        frame_commands_spec(s).contains(x) <==> match x {
            FrameCommand::MoveForward(Direction::Positive) => s.forward,
            FrameCommand::MoveForward(Direction::Negative) => s.backward,
            FrameCommand::Strafe(Direction::Positive) => s.strafe_right,
            FrameCommand::Strafe(Direction::Negative) => s.strafe_left,
            FrameCommand::MoveUp(Direction::Positive) => s.move_up,
            FrameCommand::MoveUp(Direction::Negative) => s.move_down,
            FrameCommand::RefreshCameraTarget => true,
            FrameCommand::LightX(Direction::Negative) => s.light_left,
            FrameCommand::LightX(Direction::Positive) => s.light_right,
            FrameCommand::LightY(Direction::Positive) => s.light_up,
            FrameCommand::LightY(Direction::Negative) => s.light_down,
            FrameCommand::LightZ(Direction::Negative) => s.light_forward,
            FrameCommand::LightZ(Direction::Positive) => s.light_backward,
            FrameCommand::LightIntensity(Direction::Positive) => s.light_inc_intensity,
            FrameCommand::LightIntensity(Direction::Negative) => s.light_dec_intensity,
        },
{
    lemma_frame_splits(s);
    let cam = camera_moves(s);
    let r = seq![FrameCommand::RefreshCameraTarget];
    let light = light_changes(s);
    lemma_contains_add(cam, r, x);
    lemma_contains_add(cam + r, light, x);
    lemma_contains_when(true, FrameCommand::RefreshCameraTarget, x);
    assert(r == when(true, FrameCommand::RefreshCameraTarget));
    lemma_camera_moves_contain(s, x);
    lemma_light_changes_contain(s, x);
}

/// A command that moves the camera.
pub open spec fn moves_camera(c: FrameCommand) -> bool {
    c is MoveForward || c is Strafe || c is MoveUp
}

/// A command that moves the light or changes its intensity.
pub open spec fn changes_light(c: FrameCommand) -> bool {
    c is LightX || c is LightY || c is LightZ || c is LightIntensity
}

/// The camera target is refreshed at some place of `f` with only camera
/// moves before it and only light changes after it.
pub open spec fn refreshed_between(f: Seq<FrameCommand>) -> bool {
    exists|k: int|
        0 <= k < f.len() && f[k] == FrameCommand::RefreshCameraTarget && (forall|i: int|
            0 <= i < k ==> moves_camera(#[trigger] f[i])) && (forall|i: int|
            k < i < f.len() ==> changes_light(#[trigger] f[i]))
}

proof fn lemma_refreshed_between_parts(cam: Seq<FrameCommand>, light: Seq<FrameCommand>)
    requires
        forall|i: int| 0 <= i < cam.len() ==> moves_camera(#[trigger] cam[i]),
        forall|i: int| 0 <= i < light.len() ==> changes_light(#[trigger] light[i]),
    ensures
        refreshed_between(cam + seq![FrameCommand::RefreshCameraTarget] + light),
{
    let f = cam + seq![FrameCommand::RefreshCameraTarget] + light;
    let k = cam.len() as int;
    assert forall|i: int| 0 <= i < k implies moves_camera(#[trigger] f[i]) by {
        assert(f[i] == cam[i]);
    }
    assert forall|i: int| k < i < f.len() implies changes_light(#[trigger] f[i]) by {
        assert(f[i] == light[i - k - 1]);
    }
    assert(f[k] == FrameCommand::RefreshCameraTarget);
}

/// In every frame the camera target is refreshed once, after all the
/// camera moves and before all the light changes.
pub proof fn lemma_target_refreshed_between_camera_and_light(s: InputState)
    ensures
        refreshed_between(frame_commands_spec(s)),
{
    let cam = camera_moves(s);
    let light = light_changes(s);
    assert forall|i: int| 0 <= i < cam.len() implies moves_camera(#[trigger] cam[i]) by {
        assert(cam.contains(cam[i]));
        lemma_camera_moves_contain(s, cam[i]);
    }
    assert forall|i: int| 0 <= i < light.len() implies changes_light(#[trigger] light[i]) by {
        assert(light.contains(light[i]));
        lemma_light_changes_contain(s, light[i]);
    }
    lemma_refreshed_between_parts(cam, light);
    lemma_frame_splits(s);
}

/// The place of a command in the order in which a frame carries out its
/// commands: camera forward, back, right, left, up, down; the target
/// refresh; light -x, +x, +y, -y, -z, +z; intensity up, down.
pub open spec fn command_order(c: FrameCommand) -> int {
    match c {
        FrameCommand::MoveForward(Direction::Positive) => 0,
        FrameCommand::MoveForward(Direction::Negative) => 1,
        FrameCommand::Strafe(Direction::Positive) => 2,
        FrameCommand::Strafe(Direction::Negative) => 3,
        FrameCommand::MoveUp(Direction::Positive) => 4,
        FrameCommand::MoveUp(Direction::Negative) => 5,
        FrameCommand::RefreshCameraTarget => 6,
        FrameCommand::LightX(Direction::Negative) => 7,
        FrameCommand::LightX(Direction::Positive) => 8,
        FrameCommand::LightY(Direction::Positive) => 9,
        FrameCommand::LightY(Direction::Negative) => 10,
        FrameCommand::LightZ(Direction::Negative) => 11,
        FrameCommand::LightZ(Direction::Positive) => 12,
        FrameCommand::LightIntensity(Direction::Positive) => 13,
        FrameCommand::LightIntensity(Direction::Negative) => 14,
    }
}

/// Every command of `p` comes before place `k`, and they come in order.
#[verifier::opaque]
spec fn ordered_below(p: Seq<FrameCommand>, k: int) -> bool {
    &&& forall|i: int, j: int|
        0 <= i < j < p.len() ==> command_order(#[trigger] p[i]) < command_order(#[trigger] p[j])
    &&& forall|i: int| 0 <= i < p.len() ==> command_order(#[trigger] p[i]) < k
}

proof fn lemma_ordered_step(p: Seq<FrameCommand>, held: bool, c: FrameCommand, k: int)
    requires
        ordered_below(p, k),
        command_order(c) == k,
    ensures
        ordered_below(p + when(held, c), k + 1),
{
    reveal(ordered_below);
    let q = p + when(held, c);
    assert forall|i: int| 0 <= i < q.len() implies command_order(#[trigger] q[i]) < k + 1 by {
        if i < p.len() {
            assert(q[i] == p[i]);
        } else {
            assert(q[i] == c);
        }
    }
    assert forall|i: int, j: int|
        0 <= i < j < q.len() implies command_order(#[trigger] q[i]) < command_order(
        #[trigger] q[j],
    ) by {
        if j < p.len() {
            assert(q[i] == p[i]);
            assert(q[j] == p[j]);
        } else {
            assert(q[i] == p[i]);
            assert(q[j] == c);
        }
    }
}

/// A frame carries out its commands in one fixed order, each at most once:
/// along the list camera forward, back, right, left, up, down, target
/// refresh, light -x, +x, +y, -y, -z, +z, intensity up, intensity down.
/// With `lemma_frame_commands_follow_held_controls` this fixes the whole
/// sequence.
pub proof fn lemma_frame_commands_in_fixed_order(s: InputState)
    ensures
        forall|i: int, j: int|
            0 <= i < j < frame_commands_spec(s).len() ==> command_order(
                #[trigger] frame_commands_spec(s)[i],
            ) < command_order(#[trigger] frame_commands_spec(s)[j]),
{
    let p0 = Seq::<FrameCommand>::empty();
    assert(ordered_below(p0, 0)) by {
        reveal(ordered_below);
    }
    let p1 = when(s.forward, FrameCommand::MoveForward(Direction::Positive));
    assert(p0 + p1 =~= p1);
    lemma_ordered_step(p0, s.forward, FrameCommand::MoveForward(Direction::Positive), 0);
    let p2 = p1 + when(s.backward, FrameCommand::MoveForward(Direction::Negative));
    lemma_ordered_step(p1, s.backward, FrameCommand::MoveForward(Direction::Negative), 1);
    let p3 = p2 + when(s.strafe_right, FrameCommand::Strafe(Direction::Positive));
    lemma_ordered_step(p2, s.strafe_right, FrameCommand::Strafe(Direction::Positive), 2);
    let p4 = p3 + when(s.strafe_left, FrameCommand::Strafe(Direction::Negative));
    lemma_ordered_step(p3, s.strafe_left, FrameCommand::Strafe(Direction::Negative), 3);
    let p5 = p4 + when(s.move_up, FrameCommand::MoveUp(Direction::Positive));
    lemma_ordered_step(p4, s.move_up, FrameCommand::MoveUp(Direction::Positive), 4);
    let p6 = p5 + when(s.move_down, FrameCommand::MoveUp(Direction::Negative));
    lemma_ordered_step(p5, s.move_down, FrameCommand::MoveUp(Direction::Negative), 5);
    let p7 = p6 + when(true, FrameCommand::RefreshCameraTarget);
    lemma_ordered_step(p6, true, FrameCommand::RefreshCameraTarget, 6);
    let p8 = p7 + when(s.light_left, FrameCommand::LightX(Direction::Negative));
    lemma_ordered_step(p7, s.light_left, FrameCommand::LightX(Direction::Negative), 7);
    let p9 = p8 + when(s.light_right, FrameCommand::LightX(Direction::Positive));
    lemma_ordered_step(p8, s.light_right, FrameCommand::LightX(Direction::Positive), 8);
    let p10 = p9 + when(s.light_up, FrameCommand::LightY(Direction::Positive));
    lemma_ordered_step(p9, s.light_up, FrameCommand::LightY(Direction::Positive), 9);
    let p11 = p10 + when(s.light_down, FrameCommand::LightY(Direction::Negative));
    lemma_ordered_step(p10, s.light_down, FrameCommand::LightY(Direction::Negative), 10);
    let p12 = p11 + when(s.light_forward, FrameCommand::LightZ(Direction::Negative));
    lemma_ordered_step(p11, s.light_forward, FrameCommand::LightZ(Direction::Negative), 11);
    let p13 = p12 + when(s.light_backward, FrameCommand::LightZ(Direction::Positive));
    lemma_ordered_step(p12, s.light_backward, FrameCommand::LightZ(Direction::Positive), 12);
    let p14 = p13 + when(s.light_inc_intensity, FrameCommand::LightIntensity(Direction::Positive));
    lemma_ordered_step(p13, s.light_inc_intensity, FrameCommand::LightIntensity(Direction::Positive), 13);
    let p15 = p14 + when(s.light_dec_intensity, FrameCommand::LightIntensity(Direction::Negative));
    lemma_ordered_step(p14, s.light_dec_intensity, FrameCommand::LightIntensity(Direction::Negative), 14);
    assert(p15 == frame_commands_spec(s));
    reveal(ordered_below);
}

} // verus!
