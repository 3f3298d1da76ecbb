//! Typed notifications exchanged between the tick's phases.
//!
//! There is no subscription registry: the input and logic phases append
//! messages to an [`Events`] buffer and every later phase of the same tick
//! reads the kinds it cares about by name, in the documented phase order.

use vstd::prelude::*;
use crate::components::TileType;

verus! {

/// Fired when the player types a letter key. The event is emitted even
/// when the row is already full (`valid == false`), so observers can
/// ignore it; the grid is only written when `valid` is true.
#[derive(Debug)]
pub struct TypedLetter {
    /// The column the letter goes into.
    pub x: usize,
    /// The row the letter goes into.
    pub y: usize,
    /// Whether the letter was accepted into the grid.
    pub valid: bool,
    /// The letter that was typed.
    pub letter: char,
}

/// Fired when the player submits a complete row that spells a dictionary
/// word.
#[derive(Debug)]
pub struct Guess {
    /// The word that was guessed, lowercased.
    pub word: Vec<char>,
    /// The per-letter verdicts of the guess.
    pub correctness: [TileType; 5],
    /// The row that was guessed on.
    pub row: usize,
}

/// Fired when the player submits an incomplete row or a word not in the
/// dictionary.
#[derive(Debug)]
pub struct InvalidGuess {
    pub row: usize,
}

/// Fired when the last tile of a row's reveal chain finishes flipping.
#[derive(Debug)]
pub struct EndFlipAnim {
    /// The word that was guessed.
    pub word: Vec<char>,
    /// The per-letter verdicts of the guess.
    pub correctness: [TileType; 5],
    /// The row that was guessed on.
    pub row: usize,
}

/// Fired when a guess scores `Correct` on every letter.
#[derive(Debug)]
pub struct GameWin {
    /// The winning word.
    pub word: Vec<char>,
    /// The row the game was won on.
    pub row: usize,
}

/// One tick's ordered message buffer, one list per event kind.
#[derive(Debug)]
pub struct Events {
    pub typed: Vec<TypedLetter>,
    pub guesses: Vec<Guess>,
    pub invalid: Vec<InvalidGuess>,
    pub end_flips: Vec<EndFlipAnim>,
    pub wins: Vec<GameWin>,
}

impl Events {
    /// An empty buffer, as each tick starts with.
    pub fn new() -> (e: Events)
        ensures
            e.typed@.len() == 0,
            e.guesses@.len() == 0,
            e.invalid@.len() == 0,
            e.end_flips@.len() == 0,
            e.wins@.len() == 0,
    {
        Events {
            typed: Vec::new(),
            guesses: Vec::new(),
            invalid: Vec::new(),
            end_flips: Vec::new(),
            wins: Vec::new(),
        }
    }
}

/// A copy of a character vector, element for element.
pub fn clone_chars(v: &Vec<char>) -> (r: Vec<char>)
    ensures
        r@ == v@,
{
    let n = v.len();
    let mut r: Vec<char> = Vec::new();
    let mut i: usize = 0;
    while i < n
        invariant
            n == v@.len(),
            i <= n,
            r@ =~= v@.take(i as int),
        decreases n - i,
    {
        r.push(v[i]);
        i = i + 1;
    }
    proof {
        assert(r@ =~= v@);
    }
    r
}

impl Guess {
    /// The reveal-finished event this guess's flip chain will fire once
    /// its last tile completes.
    pub fn end_anim(&self) -> (e: EndFlipAnim)
        ensures
            e.word@ == self.word@,
            e.correctness == self.correctness,
            e.row == self.row,
    {
        EndFlipAnim { word: clone_chars(&self.word), correctness: self.correctness, row: self.row }
    }
}

} // verus!
