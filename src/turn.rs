use vstd::prelude::*;

verus! {

/// How many failed attempts a player may make before the turn is forfeited.
pub const MAX_TRIES: u32 = 5;

/// Where a player's turn stands.
#[derive(PartialEq, Eq, Structural, Clone, Copy, Debug)]
pub enum TurnState {
    /// Waiting for a move; the number of failed attempts still allowed.
    Awaiting(u32),
    /// A piece was placed.
    Placed,
    /// The attempts ran out: no piece is placed this turn.
    Forfeited,
}

/// The state of a turn that has just begun.
pub open spec fn initial_turn() -> TurnState {
    TurnState::Awaiting(MAX_TRIES)
}

/// The state after an attempt that succeeded (`ok`) or failed. A finished turn stays as it
/// is.
pub open spec fn turn_step(s: TurnState, ok: bool) -> TurnState {
    match s {
        TurnState::Awaiting(n) => if ok {
            TurnState::Placed
        } else if n <= 1 {
            TurnState::Forfeited
        } else {
            TurnState::Awaiting((n - 1) as u32)
        },
        _ => s,
    }
}

/// The state after `k` failed attempts in a row from `s`.
pub open spec fn after_failures(s: TurnState, k: nat) -> TurnState
    decreases k,
{
    if k == 0 {
        s
    } else {
        turn_step(after_failures(s, (k - 1) as nat), false)
    }
}

/// Begins a turn.
pub fn start_turn() -> (s: TurnState)
    ensures
        s == initial_turn(),
{
    TurnState::Awaiting(MAX_TRIES)
}

/// Moves a turn on after one attempt: a success places the piece, a failure uses up one
/// of the attempts left, and the last failure forfeits the turn.
pub fn human_turn_step(state: TurnState, ok: bool) -> (s: TurnState)
    ensures
        s == turn_step(state, ok),
{
    match state {
        TurnState::Awaiting(n) => if ok {
            TurnState::Placed
        } else if n <= 1 {
            TurnState::Forfeited
        } else {
            TurnState::Awaiting(n - 1)
        },
        _ => state,
    }
}

/// A turn survives up to four failed attempts in a row, with one fewer attempt left after
/// each, and is forfeited at the fifth.
pub proof fn lemma_forfeit_after_max_tries(k: nat)
    ensures
        k < MAX_TRIES ==> after_failures(initial_turn(), k) == TurnState::Awaiting(
            (MAX_TRIES - k) as u32,
        ),
        k >= MAX_TRIES ==> after_failures(initial_turn(), k) == TurnState::Forfeited,
    decreases k,
{
    if k > 0 {
        lemma_forfeit_after_max_tries((k - 1) as nat);
    }
}

} // verus!
