use vstd::prelude::*;

use crate::state::GameState;

verus! {

/// End of transmission (Ctrl-D).
pub const KEY_EOT: u8 = 4;

/// Escape.
pub const KEY_ESC: u8 = 27;

/// The letter `q`.
pub const KEY_QUIT: u8 = 113;

/// What the input loop does with one byte read from the terminal.
#[derive(Clone, Copy, Debug, PartialEq, Eq, Structural)]
pub enum InputAction {
    /// Leave the loop.
    Quit,
    /// Hand the byte to the beat scheduler.
    Beat(u8),
}

/// Whether a byte ends the session.
pub open spec fn is_quit_byte(b: u8) -> bool {
    b == KEY_EOT || b == KEY_ESC || b == KEY_QUIT
}

pub open spec fn spec_classify_input(b: u8) -> InputAction {
    if is_quit_byte(b) {
        InputAction::Quit
    } else {
        InputAction::Beat(b)
    }
}

/// Maps a byte read from the terminal to the loop's next action.
pub fn classify_input(byte: u8) -> (r: InputAction)
    ensures
        r == spec_classify_input(byte),
{
    if byte == KEY_EOT || byte == KEY_ESC || byte == KEY_QUIT {
        InputAction::Quit
    } else {
        InputAction::Beat(byte)
    }
}

/// Whether the loop reads another byte: only while the player is alive.
pub fn keep_running(g: &GameState) -> (r: bool)
    requires
        g.wf(),
    ensures
        r == g.spec_player_alive(),
{
    g.player_alive()
}

/// The number of beats a session performs. `states[0]` is the state the loop starts
/// from and `states[i + 1]` the state after beat `i`; `inputs` are the bytes read, in order.
/// Before each read the loop stops if the player is dead, and after it if the byte quits.
pub open spec fn beats_performed(states: Seq<GameState>, inputs: Seq<u8>) -> nat
    decreases inputs.len(),
{
    if states.len() == 0 || inputs.len() == 0 {
        0
    } else if !states[0].spec_player_alive() {
        0
    } else if spec_classify_input(inputs[0]) == InputAction::Quit {
        0
    } else {
        1 + beats_performed(states.drop_first(), inputs.drop_first())
    }
}

/// Once beat `i` leaves the player with no hit points, the session performs no further beat.
pub proof fn lemma_death_stops_session(states: Seq<GameState>, inputs: Seq<u8>, i: nat)
    requires
        i + 1 < states.len(),
        beats_performed(states, inputs) > i,
        !states[i as int + 1].spec_player_alive(),
    ensures
        beats_performed(states, inputs) == i + 1,
    decreases i,
{
    if i > 0 {
        lemma_death_stops_session(states.drop_first(), inputs.drop_first(), (i - 1) as nat);
    } else {
        let rest_states = states.drop_first();
        let rest_inputs = inputs.drop_first();
        assert(!rest_states[0].spec_player_alive());
        assert(beats_performed(rest_states, rest_inputs) == 0);
    }
}

/// A quit byte ends the session before any further beat, whatever the state holds.
pub proof fn lemma_quit_stops_session(states: Seq<GameState>, inputs: Seq<u8>, i: nat)
    requires
        i < inputs.len(),
        beats_performed(states, inputs) >= i,
        is_quit_byte(inputs[i as int]),
    ensures
        beats_performed(states, inputs) == i,
    decreases i,
{
    if i > 0 {
        lemma_quit_stops_session(states.drop_first(), inputs.drop_first(), (i - 1) as nat);
    }
}

} // verus!
