//! One frame of the motion core: the phases in their fixed order, on a state
//! that the game loop owns.

use vstd::prelude::*;
use crate::collision::{handle_x_collisions, handle_y_collisions};
use crate::gravity::{apply_gravity, fall_is_bounded, fallen};
use crate::input::handle_input_x;
use crate::jump::handle_jump;
use crate::movement::integrate_position;
use crate::player::{Player, Position};
use crate::render::{position_movement, DisplayTransform};
use crate::units::{clamp, MAX_X, MAX_Y, MIN_X, MIN_Y, TERMINAL_FALL};

verus! {

/// What the game loop reads before a frame: the keys that are down and the
/// time since the frame before.
#[derive(Clone, Copy, Debug, PartialEq, Eq, Structural)]
pub struct FrameInput {
    pub right_held: bool,
    pub left_held: bool,
    pub jump_held: bool,
    pub elapsed_nanos: u64,
}

/// What the game loop gets back after a frame.
#[derive(Clone, Copy, Debug, PartialEq, Eq, Structural)]
pub struct FrameOutput {
    /// Where to draw the player.
    pub display: DisplayTransform,
    /// The frame saw a new press of the jump key, whether or not it started a jump.
    pub jump_pressed: bool,
}

/// The one player of the game.
#[derive(Clone, Copy, Debug, PartialEq, Eq, Structural)]
pub struct GameState {
    pub position: Position,
    pub player: Player,
}

impl GameState {
    /// The player's velocity and flags after the three phases that come before
    /// the position moves: input, jump, gravity.
    pub open spec fn steered(self, input: FrameInput) -> Player {
        self.player.after_input(input.right_held, input.left_held).after_jump(
            input.jump_held,
        ).after_gravity(input.elapsed_nanos)
    }

    /// The state after one frame with `input`: input, jump, gravity, position,
    /// collision along X, collision along Y.
    pub open spec fn after_frame(self, input: FrameInput) -> GameState {
        let steered = self.steered(input);
        let moved = self.position.moved_by(steered.vx as int, steered.vy as int);
        GameState {
            position: moved.resolved_x().resolved_y(),
            player: steered.after_x_collision(moved).after_y_collision(moved.resolved_x()),
        }
    }

    /// The state after one frame for each of `inputs`, in order.
    pub open spec fn after_frames(self, inputs: Seq<FrameInput>) -> GameState
        decreases inputs.len(),
    {
        if inputs.len() == 0 {
            self
        } else {
            self.after_frames(inputs.drop_last()).after_frame(inputs.last())
        }
    }

    /// What holds after every frame: the position lies within the world
    /// bounds, the player is grounded exactly if it stands on the floor, a
    /// grounded player does not move down, and at a wall or the ceiling the
    /// velocity does not point out of the world.
    pub open spec fn settled(self) -> bool {
        &&& self.position.in_bounds()
        &&& self.player.is_on_floor <==> self.position.y == MIN_Y
        &&& self.player.is_on_floor ==> self.player.vy >= 0
        &&& self.position.y == MAX_Y ==> self.player.vy <= 0
        &&& self.position.x == MIN_X ==> self.player.vx >= 0
        &&& self.position.x == MAX_X ==> self.player.vx <= 0
    }

    /// A newly spawned player: at the centre of the screen, at rest, with the
    /// default tuning.
    pub fn new() -> (out: GameState)
        ensures
            out == (GameState { position: Position { x: 0, y: 0 }, player: Player::at_rest() }),
    {
        GameState { position: Position::origin(), player: Player::default() }
    }

    /// Runs one frame and returns what to draw.
    pub fn tick(&mut self, input: FrameInput) -> (out: FrameOutput)
        ensures
            *final(self) == old(self).after_frame(input),
            final(self).settled(),
            out.display == final(self).position.projected(),
            out.jump_pressed == (input.jump_held && !old(self).player.jump_started),
    {
        handle_input_x(&mut self.player, input.right_held, input.left_held);
        let jump_pressed = handle_jump(&mut self.player, input.jump_held);
        apply_gravity(&mut self.player, input.elapsed_nanos);
        integrate_position(&mut self.position, &self.player);
        handle_x_collisions(&mut self.position, &mut self.player);
        handle_y_collisions(&mut self.position, &mut self.player);
        let mut display = DisplayTransform { x: 0, y: 0 };
        position_movement(&mut display, &self.position);
        FrameOutput { display, jump_pressed }
    }
}

/// After every frame the position lies within the world bounds, whatever the
/// state and the velocity were before.
pub proof fn frame_ends_in_bounds(state: GameState, input: FrameInput)
    ensures
        state.after_frame(input).position.in_bounds(),
{
}

/// After every frame the state is settled, whatever it was before.
pub proof fn frame_settles(state: GameState, input: FrameInput)
    ensures
        state.after_frame(input).settled(),
{
}

/// After any run of at least one frame the state is settled, and so the
/// position lies within the world bounds.
pub proof fn frames_settle(state: GameState, inputs: Seq<FrameInput>)
    requires
        inputs.len() > 0,
    ensures
        state.after_frames(inputs).settled(),
        state.after_frames(inputs).position.in_bounds(),
{
    frame_settles(state.after_frames(inputs.drop_last()), inputs.last());
}

/// The limits of 16-bit coordinates are never seen after a frame: the position
/// is the exact sum of position and velocity, held to the world bounds.
pub proof fn frame_moves_exactly(state: GameState, input: FrameInput)
    ensures
        state.after_frame(input).position.x == clamp(
            state.position.x + state.steered(input).vx,
            MIN_X as int,
            MAX_X as int,
        ),
        state.after_frame(input).position.y == clamp(
            state.position.y + state.steered(input).vy,
            MIN_Y as int,
            MAX_Y as int,
        ),
{
}

/// In a frame that starts within the world bounds, a wall, the floor or the
/// ceiling that holds the position leaves no speed along its axis: the player
/// can only have reached it by moving toward it.
pub proof fn contact_stops_the_player(state: GameState, input: FrameInput)
    requires
        state.position.in_bounds(),
    ensures
        state.after_frame(input).position.x == MIN_X || state.after_frame(input).position.x
            == MAX_X ==> state.after_frame(input).player.vx == 0,
        state.after_frame(input).position.y == MIN_Y || state.after_frame(input).position.y
            == MAX_Y ==> state.after_frame(input).player.vy == 0,
        state.after_frame(input).player.is_on_floor ==> state.after_frame(input).player.vy == 0,
{
}

/// A new press of the jump key by a grounded player lifts it off the floor
/// with the jump speed less the gravity of the frame. While the key stays down
/// the next frame gives no second impulse: it does not raise the speed with
/// which the first frame ended.
pub proof fn jump_gives_one_impulse(state: GameState, first: FrameInput, second: FrameInput)
    requires
        state.player.is_on_floor,
        !state.player.jump_started,
        first.jump_held,
        second.jump_held,
    ensures
        !state.steered(first).is_on_floor,
        state.steered(first).vy == fallen(
            state.player.jump_speed as int,
            first.elapsed_nanos as int,
        ),
        state.after_frame(first).steered(second).vy <= state.after_frame(first).player.vy,
{
    fall_is_bounded(state.player.jump_speed as int, first.elapsed_nanos as int);
    fall_is_bounded(state.after_frame(first).player.vy as int, second.elapsed_nanos as int);
}

/// Releasing the key in a frame in which the player rises faster than its
/// hover speed leaves it, before it moves, no faster than the hover speed: at
/// the hover speed less the gravity of the frame. This holds where the hover
/// speed is no lower than the terminal fall speed.
pub proof fn released_jump_stays_cut(state: GameState, input: FrameInput)
    requires
        state.player.rising(),
        state.player.vy > state.player.jump_hover_speed,
        state.player.jump_hover_speed >= TERMINAL_FALL,
        !input.jump_held,
    ensures
        state.steered(input).vy <= state.player.jump_hover_speed,
        !state.player.is_on_floor ==> state.steered(input).vy == fallen(
            state.player.jump_hover_speed as int,
            input.elapsed_nanos as int,
        ),
        !state.after_frame(input).player.is_on_floor ==> state.after_frame(input).player.vy
            <= state.player.jump_hover_speed,
{
    fall_is_bounded(state.player.jump_hover_speed as int, input.elapsed_nanos as int);
}

/// While the player stays airborne its vertical speed never rises from one
/// frame to the next, whatever the keys do: a jump that was cut to the hover
/// speed is not raised again before the player lands. This holds of a player
/// that falls no faster than the terminal fall speed.
pub proof fn airborne_speed_never_rises(state: GameState, input: FrameInput)
    requires
        !state.player.is_on_floor,
        !state.after_frame(input).player.is_on_floor,
        state.player.vy >= TERMINAL_FALL,
    ensures
        state.after_frame(input).player.vy <= state.player.vy,
        state.after_frame(input).player.vy >= TERMINAL_FALL,
{
    let jumped = state.player.after_input(input.right_held, input.left_held).after_jump(
        input.jump_held,
    );
    fall_is_bounded(jumped.vy as int, input.elapsed_nanos as int);
}

/// A player that rests on the floor stays there, grounded and at rest, through
/// every frame without a new press of the jump key.
pub proof fn rest_on_floor_is_stable(state: GameState, input: FrameInput)
    requires
        state.player.is_on_floor,
        state.position.y == MIN_Y,
        state.player.vy == 0,
        !input.jump_held || state.player.jump_started,
    ensures
        state.after_frame(input).player.is_on_floor,
        state.after_frame(input).position.y == MIN_Y,
        state.after_frame(input).player.vy == 0,
{
}

/// The vertical speed stays between the terminal fall speed and the jump
/// speed, where the player is tuned to jump and hover no slower than it may fall.
pub proof fn vertical_speed_stays_in_range(state: GameState, input: FrameInput)
    requires
        state.player.jump_speed >= TERMINAL_FALL,
        state.player.jump_hover_speed >= TERMINAL_FALL,
        TERMINAL_FALL <= state.player.vy,
        state.player.vy <= state.player.jump_speed || state.player.vy <= 0,
    ensures
        TERMINAL_FALL <= state.after_frame(input).player.vy,
        state.after_frame(input).player.vy <= state.player.jump_speed || state.after_frame(
            input,
        ).player.vy <= 0,
{
    let jumped = state.player.after_input(input.right_held, input.left_held).after_jump(
        input.jump_held,
    );
    fall_is_bounded(jumped.vy as int, input.elapsed_nanos as int);
}

/// After a frame the debounce flag says whether the jump key was down in it,
/// and the tuning is what it was.
pub proof fn frame_remembers_key(state: GameState, input: FrameInput)
    ensures
        state.after_frame(input).player.jump_started == input.jump_held,
        state.after_frame(input).player.jump_speed == state.player.jump_speed,
        state.after_frame(input).player.jump_hover_speed == state.player.jump_hover_speed,
{
}

} // verus!
