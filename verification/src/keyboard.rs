//! The on-screen keyboard and its feedback aggregator.
//!
//! Each key stores the best verdict learned about its letter so far and,
//! separately, the verdict it currently displays. Stored verdicts are
//! updated when a guess is scored, but only ever upward on the
//! informativeness scale; displayed verdicts are repainted from the stored
//! ones when a row finishes revealing, so the keyboard recolors in
//! lockstep with the tiles rather than the instant a guess is submitted.

use vstd::prelude::*;
use crate::components::{TileType, lower_spec, to_lower};
use crate::events::Guess;

verus! {

/// One on-screen key: its (uppercase) letter, the best verdict stored for
/// it, and the verdict its color currently shows.
#[derive(Copy, Clone, Debug, Eq, PartialEq, Structural)]
pub struct Key {
    /// The key's letter.
    pub key: char,
    /// Best verdict learned so far.
    pub tt: TileType,
    /// Verdict the key's color currently displays.
    pub shown: TileType,
}

impl Key {
    /// A fresh, uninformed key.
    pub fn new(key: char) -> (k: Key)
        ensures
            k.key == key,
            k.tt == TileType::Default,
            k.shown == TileType::Default,
    {
        Key { key, tt: TileType::Default, shown: TileType::Default }
    }
}

/// Position of the leftmost occurrence of `c` in `w` at or after `j`, or
/// `-1` if there is none.
pub open spec fn find_char_from(w: Seq<char>, c: char, j: int) -> int
    decreases w.len() - j,
{
    if j < 0 || j >= w.len() {
        -1
    } else if w[j] == c {
        j
    } else {
        find_char_from(w, c, j + 1)
    }
}

/// The verdict a key stores after one guess is folded in: the verdict at
/// the guessed word's first occurrence of the key's letter, but only where
/// that is more informative than what the key already stores.
pub open spec fn upgraded_tt(
    stored: TileType,
    w: Seq<char>,
    corr: Seq<TileType>,
    kc: char,
) -> TileType {
    let p = find_char_from(w, lower_spec(kc), 0);
    if 0 <= p < corr.len() && corr[p].rank_spec() > stored.rank_spec() {
        corr[p]
    } else {
        stored
    }
}

/// Folding a guess into a key's stored verdict never makes it less
/// informative.
pub proof fn lemma_keyboard_upgrade_monotonic(
    stored: TileType,
    w: Seq<char>,
    corr: Seq<TileType>,
    kc: char,
)
    ensures
        upgraded_tt(stored, w, corr, kc).rank_spec() >= stored.rank_spec(),
{
}

/// A key that stores `Correct` stores `Correct` forever: no sequence of
/// further guesses can downgrade it, since `Correct` is already the most
/// informative verdict any single step can only preserve or improve.
pub proof fn lemma_keyboard_never_downgrades(
    stored: TileType,
    w: Seq<char>,
    corr: Seq<TileType>,
    kc: char,
)
    requires
        stored == TileType::Correct,
    ensures
        upgraded_tt(stored, w, corr, kc) == TileType::Correct,
{
}

/// Leftmost occurrence of `c` in `w`, executably; agrees with
/// [`find_char_from`] from position 0.
fn find_char(w: &Vec<char>, c: char) -> (r: Option<usize>)
    ensures
        r matches Some(j) ==> j < w@.len() && find_char_from(w@, c, 0) == j as int,
        r is None ==> find_char_from(w@, c, 0) == -1,
{
    let n = w.len();
    let mut j: usize = 0;
    while j < n
        invariant
            n == w@.len(),
            j <= n,
            find_char_from(w@, c, 0) == find_char_from(w@, c, j as int),
        decreases n - j,
    {
        if w[j] == c {
            return Some(j);
        }
        proof {
            assert(find_char_from(w@, c, j as int) == find_char_from(w@, c, j + 1));
        }
        j = j + 1;
    }
    None
}

/// Let every key learn from one guess: a key whose letter occurs in the
/// guessed word takes the verdict at the letter's first occurrence, but
/// only where that upgrades what the key already knows. Displayed
/// verdicts are untouched.
pub fn set_keyboard_color(keys: &mut Vec<Key>, guess: &Guess)
    requires
        guess.word@.len() == 5,
    ensures
        final(keys)@.len() == old(keys)@.len(),
        forall|k: int|
            0 <= k < old(keys)@.len() ==> (#[trigger] final(keys)@[k]).key == old(keys)@[k].key
                && final(keys)@[k].shown == old(keys)@[k].shown && final(keys)@[k].tt
                == upgraded_tt(
                old(keys)@[k].tt,
                guess.word@,
                guess.correctness@,
                old(keys)@[k].key,
            ),
{
    let n = keys.len();
    let mut k: usize = 0;
    while k < n
        invariant
            n == keys@.len(),
            n == old(keys)@.len(),
            k <= n,
            guess.word@.len() == 5,
            guess.correctness@.len() == 5,
            forall|i: int| k <= i < n ==> keys@[i] == old(keys)@[i],
            forall|i: int|
                0 <= i < k ==> (#[trigger] keys@[i]).key == old(keys)@[i].key && keys@[i].shown
                    == old(keys)@[i].shown && keys@[i].tt == upgraded_tt(
                    old(keys)@[i].tt,
                    guess.word@,
                    guess.correctness@,
                    old(keys)@[i].key,
                ),
        decreases n - k,
    {
        let lc = to_lower(keys[k].key);
        match find_char(&guess.word, lc) {
            Some(idx) => {
                let new_tt = guess.correctness[idx];
                if new_tt.rank() > keys[k].tt.rank() {
                    let old_key = keys[k];
                    keys[k] = Key { key: old_key.key, tt: new_tt, shown: old_key.shown };
                }
            },
            None => {},
        }
        k = k + 1;
    }
}

/// Repaint every key's displayed verdict from its stored one; runs when a
/// row finishes revealing.
pub fn color_keyboard(keys: &mut Vec<Key>)
    ensures
        final(keys)@.len() == old(keys)@.len(),
        forall|k: int|
            0 <= k < old(keys)@.len() ==> (#[trigger] final(keys)@[k]).key == old(keys)@[k].key
                && final(keys)@[k].tt == old(keys)@[k].tt && final(keys)@[k].shown == old(
                keys,
            )@[k].tt,
{
    let n = keys.len();
    let mut k: usize = 0;
    while k < n
        invariant
            n == keys@.len(),
            n == old(keys)@.len(),
            k <= n,
            forall|i: int| k <= i < n ==> keys@[i] == old(keys)@[i],
            forall|i: int|
                0 <= i < k ==> (#[trigger] keys@[i]).key == old(keys)@[i].key && keys@[i].tt == old(
                    keys,
                )@[i].tt && keys@[i].shown == old(keys)@[i].tt,
        decreases n - k,
    {
        let old_key = keys[k];
        keys[k] = Key { key: old_key.key, tt: old_key.tt, shown: old_key.tt };
        k = k + 1;
    }
}

/// The letters of the on-screen keyboard, top row to bottom row.
pub open spec fn keyboard_letters() -> Seq<char> {
    seq![
        'Q', 'W', 'E', 'R', 'T', 'Y', 'U', 'I', 'O', 'P', 'A', 'S', 'D', 'F', 'G', 'H', 'J', 'K',
        'L', 'Z', 'X', 'C', 'V', 'B', 'N', 'M',
    ]
}

/// The full keyboard at startup: one uninformed key per letter, laid out
/// in the usual three rows.
pub fn setup_keyboard() -> (keys: Vec<Key>)
    ensures
        keys@.len() == 26,
        forall|k: int|
            0 <= k < 26 ==> (#[trigger] keys@[k]).key == keyboard_letters()[k] && keys@[k].tt
                == TileType::Default && keys@[k].shown == TileType::Default,
{
    let letters: [char; 26] = [
        'Q', 'W', 'E', 'R', 'T', 'Y', 'U', 'I', 'O', 'P', 'A', 'S', 'D', 'F', 'G', 'H', 'J', 'K',
        'L', 'Z', 'X', 'C', 'V', 'B', 'N', 'M',
    ];
    let mut keys: Vec<Key> = Vec::new();
    let mut i: usize = 0;
    while i < 26
        invariant
            i <= 26,
            keys@.len() == i,
            letters@ == keyboard_letters(),
            forall|k: int|
                0 <= k < i ==> (#[trigger] keys@[k]).key == keyboard_letters()[k] && keys@[k].tt
                    == TileType::Default && keys@[k].shown == TileType::Default,
        decreases 26 - i,
    {
        keys.push(Key::new(letters[i]));
        i = i + 1;
    }
    keys
}

} // verus!
