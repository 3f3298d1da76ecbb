//! The whole game state and its tick pipeline.
//!
//! One explicit state struct is threaded through the phases of each tick
//! in a fixed order — input, logic, animation — so that an event emitted
//! in one phase is seen by every later phase of the same tick and never
//! by an earlier one.

use vstd::prelude::*;
use rand::seq::SliceRandom;
use crate::components::{Cursor, Pause, Tile, TileMap, TileType, Word, WordDic, chars_of, lower_spec, to_lower};
use crate::events::{Events, GameWin, Guess, InvalidGuess, TypedLetter, clone_chars};
use crate::anim::{JumpEntry, RevealChain, RowShake, WaveChain};
use crate::keyboard::Key;
use crate::score::{score_spec, score_chars};

verus! {

/// A discrete key press handed to the input state machine.
#[derive(Copy, Clone, Debug, Eq, PartialEq, Structural)]
pub enum InputKey {
    /// Backspace.
    Back,
    /// Enter.
    Return,
    /// A character key, carrying the character it types.
    Letter(char),
}

/// Relies on rand's `SliceRandom::choose` for `[T]`: returns `None` iff
/// the slice is empty, otherwise a uniformly chosen element of it.
#[verifier::external_body]
fn choose_word(words: &Vec<String>) -> (r: Option<String>)
    ensures
        r is Some <==> words@.len() > 0,
        r matches Some(w) ==> exists|i: int| 0 <= i < words@.len() && words@[i]@ == w@,
{
    words.choose(&mut rand::thread_rng()).cloned()
}

/// Whether every verdict of a scored row is `Correct`.
pub fn all_correct(v: &[TileType; 5]) -> (r: bool)
    ensures
        r == (forall|j: int| 0 <= j < 5 ==> v@[j] == TileType::Correct),
{
    let mut j: usize = 0;
    while j < 5
        invariant
            j <= 5,
            forall|i: int| 0 <= i < j ==> v@[i] == TileType::Correct,
        decreases 5 - j,
    {
        if !(v[j] == TileType::Correct) {
            return false;
        }
        j = j + 1;
    }
    true
}

/// The grid with the tile at row `y`, column `x` replaced.
pub open spec fn tiles_with(tm: Seq<Seq<Tile>>, y: int, x: int, t: Tile) -> Seq<Seq<Tile>> {
    tm.update(y, tm[y].update(x, t))
}

/// The same tile with its typed character cleared.
pub open spec fn cleared_tile(t: Tile) -> Tile {
    Tile { tt: t.tt, c: None, x: t.x, y: t.y, revealed: t.revealed }
}

/// The same tile with a freshly typed character.
pub open spec fn typed_tile(t: Tile, letter: char) -> Tile {
    Tile { tt: t.tt, c: Some(letter), x: t.x, y: t.y, revealed: t.revealed }
}

/// The lowercased word spelled by the five characters of row `y`.
pub open spec fn guessed_word(tm: Seq<Seq<Tile>>, y: int) -> Seq<char> {
    Seq::new(5, |j: int| lower_spec(tm[y][j].c->0))
}

/// A row after scoring: each tile takes its verdict, everything else
/// stays.
pub open spec fn scored_row(row: Seq<Tile>, v: Seq<TileType>) -> Seq<Tile> {
    Seq::new(
        row.len(),
        |j: int| (Tile { tt: v[j], c: row[j].c, x: row[j].x, y: row[j].y, revealed: row[j].revealed }),
    )
}

/// The process-wide game state, created once at startup and threaded by
/// reference through every tick.
pub struct GameState {
    /// The hidden target word.
    pub word: Word,
    /// The dictionary of valid guesses.
    pub dic: WordDic,
    /// The entry position.
    pub cursor: Cursor,
    /// The 6-by-5 grid of letter cells.
    pub tiles: TileMap,
    /// The pause token; the reveal chain holds a lock from it while it runs.
    pub pause: Pause,
    /// The on-screen keyboard.
    pub keys: Vec<Key>,
    /// The live reveal chain, if a guess is being revealed.
    pub reveal: Option<RevealChain>,
    /// The live victory wave, if one is running.
    pub wave: Option<WaveChain>,
    /// The live row shake, if one is running.
    pub shake: Option<RowShake>,
    /// The live entry bounces.
    pub jumps: Vec<JumpEntry>,
}

impl GameState {
    /// Well-formedness, preserved by every tick: the target has five
    /// letters; the cursor stays inside the board; the grid keeps its
    /// shape and coordinates; every cell left of the cursor holds a
    /// character; the game is paused exactly while a reveal chain is
    /// live; and every live animation is within its bounds.
    pub open spec fn wf(&self) -> bool {
        &&& self.word.0@.len() == 5
        &&& self.cursor.x <= 5
        &&& self.cursor.y <= 6
        &&& self.tiles.wf()
        &&& self.cursor.y < 6 ==> forall|j: int|
            0 <= j < self.cursor.x ==> (#[trigger] self.tiles@[self.cursor.y as int][j]).c is Some
        &&& self.pause.count() == (if self.reveal is Some {
            1int
        } else {
            0int
        })
        &&& self.reveal matches Some(rc) ==> rc.wf()
        &&& self.wave matches Some(wc) ==> wc.wf()
        &&& self.shake matches Some(rs) ==> rs.wf()
        &&& forall|k: int| 0 <= k < self.jumps@.len() ==> (#[trigger] self.jumps@[k]).wf()
    }

    /// The input state machine: apply one discrete key press.
    ///
    /// While the game is paused, or once the board is full, key presses
    /// are ignored entirely. Otherwise: Backspace steps left and clears
    /// that cell; a character key always emits a `TypedLetter` (valid
    /// only if the row has room) and advances on a valid one; Enter on a
    /// complete row looks the lowercased word up in the dictionary,
    /// scores it against the target, writes the verdicts into the row,
    /// emits `Guess` (plus `GameWin` on an all-`Correct` score, in which
    /// case the cursor stays), and otherwise moves to the next row; Enter
    /// on an incomplete row or an unknown word emits `InvalidGuess` and
    /// changes nothing else.
    #[verifier::loop_isolation(false)]
    pub fn key_input(&mut self, k: InputKey, ev: &mut Events)
        requires
            old(self).wf(),
        ensures
            final(self).word == old(self).word,
            final(self).dic == old(self).dic,
            final(self).keys == old(self).keys,
            final(self).pause == old(self).pause,
            final(self).reveal == old(self).reveal,
            final(self).wave == old(self).wave,
            final(self).shake == old(self).shake,
            final(self).jumps == old(self).jumps,
            final(ev).end_flips == old(ev).end_flips,
            old(self).pause.count() > 0 ==> *final(self) == *old(self) && *final(ev) == *old(ev),
            old(self).pause.count() == 0 && old(self).cursor.y >= 6 ==> *final(self) == *old(self)
                && *final(ev) == *old(ev),
            old(self).pause.count() == 0 && old(self).cursor.y < 6 && k == InputKey::Back ==> ({
                &&& *final(ev) == *old(ev)
                &&& final(self).cursor.y == old(self).cursor.y
                &&& if old(self).cursor.x > 0 {
                    final(self).cursor.x == old(self).cursor.x - 1 && final(self).tiles@
                        == tiles_with(
                        old(self).tiles@,
                        old(self).cursor.y as int,
                        old(self).cursor.x - 1,
                        cleared_tile(
                            old(self).tiles@[old(self).cursor.y as int][old(self).cursor.x - 1],
                        ),
                    )
                } else {
                    final(self).cursor.x == 0 && final(self).tiles == old(self).tiles
                }
            }),
            k matches InputKey::Letter(c) ==> old(self).pause.count() == 0 && old(self).cursor.y
                < 6 ==> ({
                &&& final(self).tiles == old(self).tiles
                &&& final(self).cursor.y == old(self).cursor.y
                &&& final(self).cursor.x == (if old(self).cursor.x < 5 {
                    old(self).cursor.x + 1
                } else {
                    5
                })
                &&& final(ev).typed@ == old(ev).typed@.push(
                    (TypedLetter {
                        x: old(self).cursor.x,
                        y: old(self).cursor.y,
                        valid: old(self).cursor.x < 5,
                        letter: c,
                    }),
                )
                &&& final(ev).guesses == old(ev).guesses
                &&& final(ev).invalid == old(ev).invalid
                &&& final(ev).wins == old(ev).wins
            }),
            old(self).pause.count() == 0 && old(self).cursor.y < 6 && k == InputKey::Return && (old(
                self,
            ).cursor.x < 5 || !old(self).dic.contains_spec(
                guessed_word(old(self).tiles@, old(self).cursor.y as int),
            )) ==> ({
                &&& final(self).tiles == old(self).tiles
                &&& final(self).cursor == old(self).cursor
                &&& final(ev).invalid@ == old(ev).invalid@.push(
                    (InvalidGuess { row: old(self).cursor.y }),
                )
                &&& final(ev).typed == old(ev).typed
                &&& final(ev).guesses == old(ev).guesses
                &&& final(ev).wins == old(ev).wins
            }),
            old(self).pause.count() == 0 && old(self).cursor.y < 6 && k == InputKey::Return && old(
                self,
            ).cursor.x == 5 && old(self).dic.contains_spec(
                guessed_word(old(self).tiles@, old(self).cursor.y as int),
            ) ==> ({
                let y = old(self).cursor.y as int;
                let w = guessed_word(old(self).tiles@, y);
                let verdicts = score_spec(old(self).word.0@, w);
                let won = forall|j: int| 0 <= j < 5 ==> verdicts[j] == TileType::Correct;
                &&& final(self).tiles@ == old(self).tiles@.update(
                    y,
                    scored_row(old(self).tiles@[y], verdicts),
                )
                &&& final(ev).guesses@.len() == old(ev).guesses@.len() + 1
                &&& final(ev).guesses@.take(old(ev).guesses@.len() as int) == old(ev).guesses@
                &&& final(ev).guesses@.last().word@ == w
                &&& final(ev).guesses@.last().correctness@ == verdicts
                &&& final(ev).guesses@.last().row == old(self).cursor.y
                &&& final(ev).typed == old(ev).typed
                &&& final(ev).invalid == old(ev).invalid
                &&& if won {
                    &&& final(self).cursor == old(self).cursor
                    &&& final(ev).wins@.len() == old(ev).wins@.len() + 1
                    &&& final(ev).wins@.take(old(ev).wins@.len() as int) == old(ev).wins@
                    &&& final(ev).wins@.last().word@ == w
                    &&& final(ev).wins@.last().row == old(self).cursor.y
                } else {
                    &&& final(self).cursor.x == 0
                    &&& final(self).cursor.y == old(self).cursor.y + 1
                    &&& final(ev).wins == old(ev).wins
                }
            }),
    {
        if self.pause.paused() {
            return ;
        }
        if self.cursor.y >= 6 {
            return ;
        }
        match k {
            InputKey::Back => {
                if self.cursor.x > 0 {
                    self.cursor.x = self.cursor.x - 1;
                    let y = self.cursor.y;
                    let x = self.cursor.x;
                    let mut t = *self.tiles.get(y, x);
                    t.c = None;
                    self.tiles.set(y, x, t);
                }
            },
            InputKey::Return => {
                if self.cursor.x == 5 {
                    let y = self.cursor.y;
                    // Collect the row's characters into a lowercase word.
                    let mut w: Vec<char> = Vec::new();
                    let mut j: usize = 0;
                    while j < 5
                        invariant
                            j <= 5,
                            self.tiles.wf(),
                            y == self.cursor.y,
                            y < 6,
                            forall|i: int| 0 <= i < 5 ==> (#[trigger] self.tiles@[y as int][i]).c is Some,
                            w@ =~= guessed_word(self.tiles@, y as int).take(j as int),
                        decreases 5 - j,
                    {
                        let t = self.tiles.get(y, j);
                        let ch = t.c.unwrap();
                        w.push(to_lower(ch));
                        j = j + 1;
                    }
                    proof {
                        assert(w@ =~= guessed_word(self.tiles@, y as int));
                    }
                    if self.dic.contains(&w) {
                        let t_chars = chars_of(self.word.0.as_str());
                        let verdicts: [TileType; 5] = score_chars(&t_chars, &w);
                        // Write each verdict into its tile.
                        let ghost tm0 = self.tiles@;
                        let mut j: usize = 0;
                        while j < 5
                            invariant
                                j <= 5,
                                y < 6,
                                self.word == old(self).word,
                                self.dic == old(self).dic,
                                self.cursor == old(self).cursor,
                                self.pause == old(self).pause,
                                self.keys == old(self).keys,
                                self.reveal == old(self).reveal,
                                self.wave == old(self).wave,
                                self.shake == old(self).shake,
                                self.jumps == old(self).jumps,
                                tm0.len() == 6,
                                forall|r: int| 0 <= r < 6 ==> (#[trigger] tm0[r]).len() == 5,
                                self.tiles@.len() == 6,
                                forall|r: int|
                                    0 <= r < 6 && r != y ==> (#[trigger] self.tiles@[r]) == tm0[r],
                                self.tiles@[y as int].len() == 5,
                                forall|i: int|
                                    0 <= i < j ==> (#[trigger] self.tiles@[y as int][i])
                                        == scored_row(tm0[y as int], verdicts@)[i],
                                forall|i: int|
                                    j <= i < 5 ==> (#[trigger] self.tiles@[y as int][i])
                                        == tm0[y as int][i],
                            decreases 5 - j,
                        {
                            let mut t = *self.tiles.get(y, j);
                            t.tt = verdicts[j];
                            self.tiles.set(y, j, t);
                            j = j + 1;
                        }
                        proof {
                            assert(self.tiles@ =~~= tm0.update(
                                y as int,
                                scored_row(tm0[y as int], verdicts@),
                            ));
                        }
                        let won = all_correct(&verdicts);
                        let word_for_guess = clone_chars(&w);
                        ev.guesses.push(
                            Guess { word: word_for_guess, correctness: verdicts, row: y },
                        );
                        if won {
                            ev.wins.push(GameWin { word: w, row: y });
                        } else {
                            self.cursor.next_line();
                        }
                    } else {
                        ev.invalid.push(InvalidGuess { row: self.cursor.y });
                    }
                } else {
                    ev.invalid.push(InvalidGuess { row: self.cursor.y });
                }
            },
            InputKey::Letter(c) => {
                let valid = self.cursor.x < 5;
                ev.typed.push(
                    TypedLetter { x: self.cursor.x, y: self.cursor.y, valid, letter: c },
                );
                if valid {
                    self.cursor.next_char();
                }
            },
        }
    }
}

/// The grid after the typed-letter events from position `i` on are
/// applied: each valid event writes its letter into its cell.
pub open spec fn apply_typed_from(
    tm: Seq<Seq<Tile>>,
    typed: Seq<TypedLetter>,
    i: int,
) -> Seq<Seq<Tile>>
    decreases typed.len() - i,
{
    if i < 0 || i >= typed.len() {
        tm
    } else {
        let e = typed[i];
        let tm2 = if e.valid {
            tiles_with(
                tm,
                e.y as int,
                e.x as int,
                typed_tile(tm[e.y as int][e.x as int], e.letter),
            )
        } else {
            tm
        };
        apply_typed_from(tm2, typed, i + 1)
    }
}

/// The logic phase: write every valid typed letter of this tick into its
/// grid cell. Only the typed character of the addressed cells changes.
#[verifier::loop_isolation(false)]
pub fn update_chars(tiles: &mut TileMap, typed: &Vec<TypedLetter>)
    requires
        old(tiles)@.len() == 6,
        forall|r: int| 0 <= r < 6 ==> (#[trigger] old(tiles)@[r]).len() == 5,
        forall|k: int|
            0 <= k < typed@.len() ==> (#[trigger] typed@[k]).valid ==> typed@[k].x < 5
                && typed@[k].y < 6,
    ensures
        final(tiles)@ == apply_typed_from(old(tiles)@, typed@, 0),
        final(tiles)@.len() == 6,
        forall|r: int| 0 <= r < 6 ==> (#[trigger] final(tiles)@[r]).len() == 5,
        forall|r: int, c: int|
            0 <= r < 6 && 0 <= c < 5 ==> (#[trigger] final(tiles)@[r][c]).tt == old(
                tiles,
            )@[r][c].tt && final(tiles)@[r][c].x == old(tiles)@[r][c].x && final(tiles)@[r][c].y
                == old(tiles)@[r][c].y && final(tiles)@[r][c].revealed == old(
                tiles,
            )@[r][c].revealed,
{
    let n = typed.len();
    let mut i: usize = 0;
    while i < n
        invariant
            i <= n,
            tiles@.len() == 6,
            forall|r: int| 0 <= r < 6 ==> (#[trigger] tiles@[r]).len() == 5,
            apply_typed_from(old(tiles)@, typed@, 0) == apply_typed_from(tiles@, typed@, i as int),
            forall|r: int, c: int|
                0 <= r < 6 && 0 <= c < 5 ==> (#[trigger] tiles@[r][c]).tt == old(tiles)@[r][c].tt
                    && tiles@[r][c].x == old(tiles)@[r][c].x && tiles@[r][c].y == old(
                    tiles,
                )@[r][c].y && tiles@[r][c].revealed == old(tiles)@[r][c].revealed,
        decreases n - i,
    {
        let ghost tm_before = tiles@;
        let valid = typed[i].valid;
        if valid {
            let y = typed[i].y;
            let x = typed[i].x;
            let mut t = *tiles.get(y, x);
            t.c = Some(typed[i].letter);
            tiles.set(y, x, t);
            proof {
                assert(tiles@ == tiles_with(
                    tm_before,
                    y as int,
                    x as int,
                    typed_tile(tm_before[y as int][x as int], typed@[i as int].letter),
                ));
            }
        }
        proof {
            assert(apply_typed_from(tm_before, typed@, i as int) == apply_typed_from(
                tiles@,
                typed@,
                i + 1,
            ));
        }
        i = i + 1;
    }
}

impl GameState {
    /// A fresh game: the target drawn at random from the dictionary, an
    /// empty grid whose cells know their coordinates, an uninformed
    /// keyboard, nothing animating and input live.
    #[verifier::loop_isolation(false)]
    pub fn new(dic: WordDic) -> (g: GameState)
        requires
            dic.0@.len() > 0,
            forall|i: int| 0 <= i < dic.0@.len() ==> (#[trigger] dic.0@[i])@.len() == 5,
        ensures
            g.wf(),
            g.dic == dic,
            exists|i: int| 0 <= i < dic.0@.len() && (#[trigger] dic.0@[i])@ == g.word.0@,
            g.cursor.x == 0 && g.cursor.y == 0,
            g.pause.count() == 0,
            g.reveal is None,
            g.wave is None,
            g.shake is None,
            g.jumps@.len() == 0,
            forall|y: int, x: int|
                0 <= y < 6 && 0 <= x < 5 ==> (#[trigger] g.tiles@[y][x]).tt == TileType::Default
                    && g.tiles@[y][x].c is None && !g.tiles@[y][x].revealed,
            g.keys@.len() == 26,
            forall|k: int|
                0 <= k < 26 ==> (#[trigger] g.keys@[k]).key == crate::keyboard::keyboard_letters()[k]
                    && g.keys@[k].tt == TileType::Default && g.keys@[k].shown == TileType::Default,
    {
        let target = choose_word(&dic.0).unwrap();
        proof {
            let i = choose|i: int| 0 <= i < dic.0@.len() && dic.0@[i]@ == target@;
            assert(dic.0@[i]@.len() == 5);
        }
        let mut tiles = TileMap::null();
        let mut y: usize = 0;
        while y < 6
            invariant
                y <= 6,
                tiles@.len() == 6,
                forall|r: int| 0 <= r < 6 ==> (#[trigger] tiles@[r]).len() == 5,
                forall|r: int, x: int|
                    0 <= r < y && 0 <= x < 5 ==> (#[trigger] tiles@[r][x]) == (Tile {
                        tt: TileType::Default,
                        c: None,
                        x: x as u32,
                        y: r as u32,
                        revealed: false,
                    }),
                forall|r: int, x: int|
                    y <= r < 6 && 0 <= x < 5 ==> (#[trigger] tiles@[r][x]) == crate::components::blank_tile(),
            decreases 6 - y,
        {
            let mut x: usize = 0;
            while x < 5
                invariant
                    x <= 5,
                    y < 6,
                    tiles@.len() == 6,
                    forall|r: int| 0 <= r < 6 ==> (#[trigger] tiles@[r]).len() == 5,
                    forall|r: int, c: int|
                        0 <= r < y && 0 <= c < 5 ==> (#[trigger] tiles@[r][c]) == (Tile {
                            tt: TileType::Default,
                            c: None,
                            x: c as u32,
                            y: r as u32,
                            revealed: false,
                        }),
                    forall|c: int|
                        0 <= c < x ==> (#[trigger] tiles@[y as int][c]) == (Tile {
                            tt: TileType::Default,
                            c: None,
                            x: c as u32,
                            y: y as u32,
                            revealed: false,
                        }),
                    forall|c: int|
                        x <= c < 5 ==> (#[trigger] tiles@[y as int][c]) == crate::components::blank_tile(),
                    forall|r: int, c: int|
                        y < r < 6 && 0 <= c < 5 ==> (#[trigger] tiles@[r][c]) == crate::components::blank_tile(),
                decreases 5 - x,
            {
                tiles.set(
                    y,
                    x,
                    Tile {
                        tt: TileType::Default,
                        c: None,
                        x: x as u32,
                        y: y as u32,
                        revealed: false,
                    },
                );
                x = x + 1;
            }
            y = y + 1;
        }
        GameState {
            word: Word(target),
            dic,
            cursor: Cursor { x: 0, y: 0 },
            tiles,
            pause: Pause::new(),
            keys: crate::keyboard::setup_keyboard(),
            reveal: None,
            wave: None,
            shake: None,
            jumps: Vec::new(),
        }
    }

    /// One scheduler tick. The optional key press goes through the input
    /// machine (which ignores it while the game is paused or the board is
    /// full); freshly typed letters are written into the grid; the live
    /// animations advance by the frame delta; then the animations and
    /// keyboard updates called for by this tick's events are started — in
    /// that order, so every phase sees the events of the phases before
    /// it. Returns the tick's events for the rendering layer.
    pub fn tick(&mut self, key: Option<InputKey>, delta_ms: u64) -> (ev: Events)
        requires
            old(self).wf(),
            delta_ms <= 1000000000000,
        ensures
            final(self).wf(),
            final(self).word == old(self).word,
            final(self).dic == old(self).dic,
            old(self).pause.count() > 0 ==> final(self).cursor == old(self).cursor && forall|
                r: int,
                c: int,
            |
                0 <= r < 6 && 0 <= c < 5 ==> (#[trigger] final(self).tiles@[r][c]).c == old(
                    self,
                ).tiles@[r][c].c && final(self).tiles@[r][c].tt == old(self).tiles@[r][c].tt,
            old(self).pause.count() > 0 ==> ev.typed@.len() == 0 && ev.guesses@.len() == 0
                && ev.invalid@.len() == 0 && ev.wins@.len() == 0,
            key matches Some(ik) ==> ik matches InputKey::Letter(c) ==> old(self).pause.count()
                == 0 && old(self).cursor.y < 6 ==> ({
                &&& ev.typed@.len() == 1
                &&& ev.typed@[0].letter == c
                &&& ev.typed@[0].valid == (old(self).cursor.x < 5)
                &&& old(self).cursor.x < 5 ==> final(self).tiles@[old(
                    self,
                ).cursor.y as int][old(self).cursor.x as int].c == Some(c) && final(self).cursor.x
                    == old(self).cursor.x + 1 && final(self).cursor.y == old(self).cursor.y
            }),
            key matches Some(ik) ==> ik == InputKey::Return ==> old(self).pause.count() == 0 && old(
                self,
            ).cursor.y < 6 ==> ({
                let y = old(self).cursor.y as int;
                let w = guessed_word(old(self).tiles@, y);
                &&& (old(self).cursor.x == 5 && old(self).dic.contains_spec(w)) ==> ({
                    &&& ev.guesses@.len() == 1
                    &&& ev.guesses@[0].word@ == w
                    &&& ev.guesses@[0].correctness@ == score_spec(old(self).word.0@, w)
                    &&& ev.guesses@[0].row == old(self).cursor.y
                    &&& final(self).reveal is Some
                    &&& final(self).pause.count() > 0
                })
                &&& (old(self).cursor.x < 5 || !old(self).dic.contains_spec(w)) ==> ({
                    &&& ev.invalid@.len() == 1
                    &&& ev.invalid@[0].row == old(self).cursor.y
                    &&& ev.guesses@.len() == 0
                    &&& final(self).cursor == old(self).cursor
                    &&& final(self).shake is Some
                })
            }),
    {
        let mut ev = Events::new();
        // Input phase.
        match key {
            Some(k) => self.key_input(k, &mut ev),
            None => {},
        }
        proof {
            assert(self.tiles@.len() == 6);
            assert(forall|r: int| 0 <= r < 6 ==> (#[trigger] self.tiles@[r]).len() == 5);
            assert(forall|r: int, c: int|
                0 <= r < 6 && 0 <= c < 5 ==> (#[trigger] self.tiles@[r][c]).x == c
                    && self.tiles@[r][c].y == r);
        }
        let ghost tiles_in = self.tiles@;
        // Logic phase: letters into the grid.
        update_chars(&mut self.tiles, &ev.typed);
        proof {
            assert(self.tiles.wf());
            let t0 = ev.typed@;
            if t0.len() == 0 {
                assert(apply_typed_from(tiles_in, t0, 0) == tiles_in);
            } else {
                if t0[0].valid {
                    let e = t0[0];
                    let tm2 = tiles_with(
                        tiles_in,
                        e.y as int,
                        e.x as int,
                        typed_tile(tiles_in[e.y as int][e.x as int], e.letter),
                    );
                    assert(apply_typed_from(tiles_in, t0, 0) == apply_typed_from(tm2, t0, 1));
                    assert(apply_typed_from(tm2, t0, 1) == tm2);
                } else {
                    assert(apply_typed_from(tiles_in, t0, 0) == apply_typed_from(tiles_in, t0, 1));
                    assert(apply_typed_from(tiles_in, t0, 1) == tiles_in);
                }
            }
            if self.cursor.y < 6 {
                assert forall|j: int| 0 <= j < self.cursor.x implies (#[trigger] self.tiles@[self.cursor.y as int][j]).c is Some by {}
            }
        }
        // Animation phase: advance what is live.
        crate::anim::jump_anim(&mut self.jumps, delta_ms);
        proof {
            crate::anim::lemma_advance_jumps_wf(old(self).jumps@, delta_ms, 0);
        }
        crate::anim::shake_anim(&mut self.shake, delta_ms);
        let ghost tiles_mid = self.tiles@;
        crate::anim::flip_anim(&mut self.reveal, &mut self.tiles, &mut self.pause, &mut ev, delta_ms);
        proof {
            assert(forall|r: int, c: int|
                0 <= r < 6 && 0 <= c < 5 ==> (#[trigger] self.tiles@[r][c]).c == tiles_mid[r][c].c
                    && self.tiles@[r][c].tt == tiles_mid[r][c].tt && self.tiles@[r][c].x
                    == tiles_mid[r][c].x && self.tiles@[r][c].y == tiles_mid[r][c].y);
            assert(self.tiles.wf());
        }
        crate::anim::wave_anim(&mut self.wave, delta_ms);
        // Animation phase: start what this tick's events call for.
        if ev.typed.len() > 0 {
            if ev.typed[0].valid {
                crate::anim::start_jump(&mut self.jumps, ev.typed[0].x, ev.typed[0].y);
                proof {
                    crate::anim::lemma_drop_at_wf(
                        crate::anim::advance_jumps_from(old(self).jumps@, delta_ms, 0),
                        ev.typed@[0].x as int,
                        ev.typed@[0].y as int,
                        0,
                    );
                }
            }
        }
        if ev.invalid.len() > 0 {
            crate::anim::start_shake(&mut self.shake, ev.invalid[0].row);
        }
        if ev.guesses.len() > 0 {
            crate::anim::start_flip(&mut self.reveal, &mut self.pause, &ev.guesses[0]);
            crate::keyboard::set_keyboard_color(&mut self.keys, &ev.guesses[0]);
        }
        if ev.end_flips.len() > 0 {
            if all_correct(&ev.end_flips[0].correctness) {
                crate::anim::start_wave(&mut self.wave, ev.end_flips[0].row);
            }
            crate::keyboard::color_keyboard(&mut self.keys);
        }
        ev
    }
}

/// The game is paused exactly while a reveal chain is live: input stays
/// suspended from the moment the chain's first flip starts until the
/// moment its reveal-finished event fires, and at no other time.
pub proof fn lemma_paused_iff_revealing(s: &GameState)
    requires
        s.wf(),
    ensures
        s.pause.count() > 0 <==> s.reveal is Some,
{
}

/// A reveal chain starts exactly one flip per tile it has passed, so the
/// chain that finishes on the rightmost of the five tiles has started
/// exactly five flips.
pub proof fn lemma_reveal_chain_flip_count(rc: &RevealChain)
    requires
        rc.wf(),
    ensures
        rc.started == rc.col + 1,
        rc.col == 4 ==> rc.started == 5,
{
}

} // verus!
