//! Directions and the tokens that name them.

use crate::text::str_equal;
use vstd::prelude::*;

verus! {

/// One of the four directions that a focus or resize request can name.
#[derive(Clone, Copy, Debug, PartialEq, Eq, Structural)]
pub enum Direction {
    Left,
    Right,
    Up,
    Down,
}

/// The token that names `d`.
pub open spec fn direction_token(d: Direction) -> Seq<char> {
    match d {
        Direction::Left => "left"@,
        Direction::Right => "right"@,
        Direction::Up => "up"@,
        Direction::Down => "down"@,
    }
}

/// The direction that the token `s` names, if it names one. Tokens are
/// matched as they stand: case counts.
pub open spec fn direction_of_token(s: Seq<char>) -> Option<Direction> {
    if s == "left"@ {
        Some(Direction::Left)
    } else if s == "right"@ {
        Some(Direction::Right)
    } else if s == "up"@ {
        Some(Direction::Up)
    } else if s == "down"@ {
        Some(Direction::Down)
    } else {
        None
    }
}

/// Reading the token of a direction gives that direction back.
pub proof fn lemma_direction_round_trip(d: Direction)
    ensures
        direction_of_token(direction_token(d)) == Some(d),
{
    reveal_strlit("left");
    reveal_strlit("right");
    reveal_strlit("up");
    reveal_strlit("down");
    assert("left"@.len() == 4 && "right"@.len() == 5 && "up"@.len() == 2 && "down"@.len() == 4);
    assert("left"@[0] == 'l' && "down"@[0] == 'd');
}

/// A token that names a direction is the token of that direction.
pub proof fn lemma_direction_token_unique(s: Seq<char>, d: Direction)
    ensures
        direction_of_token(s) == Some(d) <==> s == direction_token(d),
{
    lemma_direction_round_trip(d);
}

/// The direction that `s` names: `"left"`, `"right"`, `"up"` or `"down"`.
pub fn string_to_direction(s: &str) -> (r: Option<Direction>)
    ensures
        r == direction_of_token(s@),
{
    if str_equal(s, "left") {
        Some(Direction::Left)
    } else if str_equal(s, "right") {
        Some(Direction::Right)
    } else if str_equal(s, "up") {
        Some(Direction::Up)
    } else if str_equal(s, "down") {
        Some(Direction::Down)
    } else {
        None
    }
}

/// The token that names `d`.
pub fn direction_to_string(d: Direction) -> (r: &'static str)
    ensures
        r@ == direction_token(d),
{
    match d {
        Direction::Left => "left",
        Direction::Right => "right",
        Direction::Up => "up",
        Direction::Down => "down",
    }
}

} // verus!
