//! Shared components and resources: tile verdicts and colors, the cursor,
//! the tile grid, the pause token, the word dictionary and the target word.

use vstd::prelude::*;

verus! {

/// Labels for the phases of one scheduler tick, in the order they run:
/// `Setup` once at startup, then every tick `Input`, `Logic`, `Anim`,
/// `Graphics`. An event emitted in one phase is visible to every later
/// phase of the same tick and never to an earlier one.
#[derive(Copy, Clone, Eq, PartialEq, Debug, Hash)]
pub enum SysLabel {
    Anim,
    Input,
    Logic,
    Graphics,
    Setup,
}

/// An RGB color handed to the rendering layer.
#[derive(Copy, Clone, Eq, PartialEq, Structural, Debug)]
pub struct Rgb {
    pub red: u8,
    pub green: u8,
    pub blue: u8,
}

/// Per-letter verdict of scoring a guess against the target.
/// `Correct`: right letter, right position. `Close`: right letter, wrong
/// position. `Wrong`: letter not present, duplicates already claimed
/// accounted for. `Default`: not scored yet.
#[derive(Copy, Clone, Debug, Eq, PartialEq, Structural)]
pub enum TileType {
    Correct,
    Close,
    Wrong,
    Default,
}

impl TileType {
    /// How informative a verdict is: `Correct` beats `Close`, which beats
    /// `Wrong`, which beats `Default`. The keyboard aggregator only ever
    /// moves a key's verdict up this scale.
    pub open spec fn rank_spec(self) -> int {
        match self {
            TileType::Correct => 3,
            TileType::Close => 2,
            TileType::Wrong => 1,
            TileType::Default => 0,
        }
    }

    /// Executable informativeness rank; see [`TileType::rank_spec`].
    pub fn rank(&self) -> (r: u8)
        ensures
            r as int == self.rank_spec(),
    {
        match self {
            TileType::Correct => 3,
            TileType::Close => 2,
            TileType::Wrong => 1,
            TileType::Default => 0,
        }
    }

    /// The display color of this verdict.
    pub open spec fn color_spec(self) -> Rgb {
        match self {
            TileType::Default => (Rgb { red: 0x81, green: 0x83, blue: 0x84 }),
            TileType::Correct => (Rgb { red: 0x53, green: 0x8d, blue: 0x4e }),
            TileType::Close => (Rgb { red: 0xb5, green: 0x9f, blue: 0x3b }),
            TileType::Wrong => (Rgb { red: 0x3a, green: 0x3a, blue: 0x3c }),
        }
    }

    pub fn color(&self) -> (c: Rgb)
        ensures
            c == self.color_spec(),
    {
        match self {
            TileType::Default => Rgb { red: 0x81, green: 0x83, blue: 0x84 },
            TileType::Correct => Rgb { red: 0x53, green: 0x8d, blue: 0x4e },
            TileType::Close => Rgb { red: 0xb5, green: 0x9f, blue: 0x3b },
            TileType::Wrong => Rgb { red: 0x3a, green: 0x3a, blue: 0x3c },
        }
    }
}

/// One letter cell of the grid: its verdict, the typed character if any,
/// its column `x` and row `y`, and whether the flip animation has already
/// swapped its face from the blank outline to the colored verdict face.
#[derive(Copy, Clone, Debug, Eq, PartialEq)]
pub struct Tile {
    pub tt: TileType,
    pub c: Option<char>,
    pub x: u32,
    pub y: u32,
    pub revealed: bool,
}

/// The hidden target word, chosen once at game start.
#[derive(Clone, Debug)]
pub struct Word(pub String);

/// The list of valid guess words, read-only after load.
#[derive(Clone)]
pub struct WordDic(pub Vec<String>);

impl WordDic {
    /// Whether `w` is one of the dictionary's words.
    pub open spec fn contains_spec(&self, w: Seq<char>) -> bool {
        exists|i: int| 0 <= i < self.0@.len() && self.0@[i]@ == w
    }

    /// Membership test against the word list.
    pub fn contains(&self, w: &Vec<char>) -> (r: bool)
        ensures
            r == self.contains_spec(w@),
    {
        let n = self.0.len();
        let mut i: usize = 0;
        while i < n
            invariant
                n == self.0@.len(),
                i <= n,
                forall|j: int| 0 <= j < i ==> self.0@[j]@ != w@,
            decreases n - i,
        {
            if str_eq_chars(&self.0[i], w) {
                return true;
            }
            i = i + 1;
        }
        false
    }
}

/// Whether the string slice spells exactly the characters of `w`.
pub fn str_eq_chars(s: &str, w: &Vec<char>) -> (r: bool)
    ensures
        r == (s@ == w@),
{
    let n = s.unicode_len();
    if n != w.len() {
        assert(s@.len() != w@.len());
        return false;
    }
    let mut i: usize = 0;
    while i < n
        invariant
            n == s@.len(),
            n == w@.len(),
            i <= n,
            forall|j: int| 0 <= j < i ==> s@[j] == w@[j],
        decreases n - i,
    {
        if s.get_char(i) != w[i] {
            return false;
        }
        i = i + 1;
    }
    proof {
        assert(s@ =~= w@);
    }
    true
}

/// The characters of a string slice as a vector.
pub fn chars_of(s: &str) -> (v: Vec<char>)
    ensures
        v@ == s@,
{
    let n = s.unicode_len();
    let mut v: Vec<char> = Vec::new();
    let mut i: usize = 0;
    while i < n
        invariant
            n == s@.len(),
            i <= n,
            v@ =~= s@.take(i as int),
        decreases n - i,
    {
        v.push(s.get_char(i));
        i = i + 1;
    }
    proof {
        assert(v@ =~= s@);
    }
    v
}

/// Lowercase image of an ASCII uppercase letter; anything else is itself.
pub open spec fn lower_spec(c: char) -> char {
    match c {
        'A' => 'a',
        'B' => 'b',
        'C' => 'c',
        'D' => 'd',
        'E' => 'e',
        'F' => 'f',
        'G' => 'g',
        'H' => 'h',
        'I' => 'i',
        'J' => 'j',
        'K' => 'k',
        'L' => 'l',
        'M' => 'm',
        'N' => 'n',
        'O' => 'o',
        'P' => 'p',
        'Q' => 'q',
        'R' => 'r',
        'S' => 's',
        'T' => 't',
        'U' => 'u',
        'V' => 'v',
        'W' => 'w',
        'X' => 'x',
        'Y' => 'y',
        'Z' => 'z',
        _ => c,
    }
}

/// Executable lowercasing of an ASCII uppercase letter.
pub fn to_lower(c: char) -> (r: char)
    ensures
        r == lower_spec(c),
{
    match c {
        'A' => 'a',
        'B' => 'b',
        'C' => 'c',
        'D' => 'd',
        'E' => 'e',
        'F' => 'f',
        'G' => 'g',
        'H' => 'h',
        'I' => 'i',
        'J' => 'j',
        'K' => 'k',
        'L' => 'l',
        'M' => 'm',
        'N' => 'n',
        'O' => 'o',
        'P' => 'p',
        'Q' => 'q',
        'R' => 'r',
        'S' => 's',
        'T' => 't',
        'U' => 'u',
        'V' => 'v',
        'W' => 'w',
        'X' => 'x',
        'Y' => 'y',
        'Z' => 'z',
        _ => c,
    }
}

/// The entry position: row `y` and column `x` of the grid cell the next
/// typed letter goes into. `x` stays within `[0, 5]` and `y` within
/// `[0, 6]`; `y == 6` means the board is full.
#[derive(Copy, Clone, Debug, Eq, PartialEq, Structural)]
pub struct Cursor {
    pub x: usize,
    pub y: usize,
}

impl Cursor {
    /// Move to the start of the next row, after an accepted guess.
    pub fn next_line(&mut self)
        requires
            old(self).y < 6,
        ensures
            final(self).y == old(self).y + 1,
            final(self).x == 0,
    {
        self.y = self.y + 1;
        self.x = 0;
    }

    /// Move one column right, saturating at the end of the row.
    pub fn next_char(&mut self)
        requires
            old(self).x <= 5,
        ensures
            final(self).y == old(self).y,
            final(self).x == if old(self).x < 5 { old(self).x + 1 } else { 5 },
    {
        if self.x < 5 {
            self.x = self.x + 1;
        }
    }
}

} // verus!

verus! {

/// The fixed 6-row by 5-column grid of letter cells. Every cell always
/// holds a tile; a well-formed map's tiles carry their own coordinates.
pub struct TileMap {
    tiles: Vec<Vec<Tile>>,
}

impl View for TileMap {
    type V = Seq<Seq<Tile>>;

    closed spec fn view(&self) -> Seq<Seq<Tile>> {
        Seq::new(self.tiles@.len(), |y: int| self.tiles@[y]@)
    }
}

/// The blank cell every grid position starts out as.
pub open spec fn blank_tile() -> Tile {
    Tile { tt: TileType::Default, c: None, x: 0, y: 0, revealed: false }
}

impl TileMap {
    /// Shape and coordinates: 6 rows of 5 tiles, each knowing its place.
    pub open spec fn wf(&self) -> bool {
        &&& self@.len() == 6
        &&& forall|y: int| 0 <= y < 6 ==> self@[y].len() == 5
        &&& forall|y: int, x: int|
            0 <= y < 6 && 0 <= x < 5 ==> (#[trigger] self@[y][x]).x == x && self@[y][x].y == y
    }

    /// A grid of blank placeholder cells. Callers initialize every cell's
    /// coordinates before the map is used.
    pub fn null() -> (tm: TileMap)
        ensures
            tm@.len() == 6,
            forall|y: int| 0 <= y < 6 ==> tm@[y].len() == 5,
            forall|y: int, x: int| 0 <= y < 6 && 0 <= x < 5 ==> tm@[y][x] == blank_tile(),
    {
        let mut tiles: Vec<Vec<Tile>> = Vec::new();
        let mut y: usize = 0;
        while y < 6
            invariant
                y <= 6,
                tiles@.len() == y,
                forall|r: int| 0 <= r < y ==> tiles@[r]@.len() == 5,
                forall|r: int, x: int|
                    0 <= r < y && 0 <= x < 5 ==> tiles@[r]@[x] == blank_tile(),
            decreases 6 - y,
        {
            let mut row: Vec<Tile> = Vec::new();
            let mut x: usize = 0;
            while x < 5
                invariant
                    x <= 5,
                    row@.len() == x,
                    forall|j: int| 0 <= j < x ==> row@[j] == blank_tile(),
                decreases 5 - x,
            {
                row.push(Tile { tt: TileType::Default, c: None, x: 0, y: 0, revealed: false });
                x = x + 1;
            }
            tiles.push(row);
            y = y + 1;
        }
        TileMap { tiles }
    }

    /// Read the tile at row `y`, column `x`.
    pub fn get(&self, y: usize, x: usize) -> (t: &Tile)
        requires
            y < self@.len(),
            x < self@[y as int].len(),
        ensures
            *t == self@[y as int][x as int],
    {
        &self.tiles[y][x]
    }

    /// Replace the tile at row `y`, column `x`.
    pub fn set(&mut self, y: usize, x: usize, t: Tile)
        requires
            y < old(self)@.len(),
            x < old(self)@[y as int].len(),
        ensures
            final(self)@ == old(self)@.update(y as int, old(self)@[y as int].update(x as int, t)),
    {
        self.tiles[y][x] = t;
        proof {
            assert(self@ =~= old(self)@.update(
                y as int,
                old(self)@[y as int].update(x as int, t),
            ));
        }
    }
}

/// A counted pause token. The game counts as paused while any lock taken
/// from the token has not yet been returned; a lock can also be
/// duplicated. The reveal chain keeps one from its first tile's flip
/// until its last tile's flip completes, which suspends player input for
/// the whole chain.
pub struct Pause {
    locks: u64,
}

/// A handle witnessing that its holder is pausing the game.
pub struct PauseLock {
    handle: (),
}

impl Pause {
    /// The number of outstanding locks.
    pub closed spec fn count(&self) -> u64 {
        self.locks
    }

    /// A fresh token with no outstanding locks.
    pub fn new() -> (p: Pause)
        ensures
            p.count() == 0,
    {
        Pause { locks: 0 }
    }

    /// Acquire a lock, pausing the game until every lock is back.
    pub fn lock(&mut self) -> (l: PauseLock)
        requires
            old(self).count() < u64::MAX,
        ensures
            final(self).count() == old(self).count() + 1,
    {
        self.locks = self.locks + 1;
        PauseLock { handle: () }
    }

    /// Duplicate an outstanding lock, as when a chained animation hands
    /// its lock to the next tile before letting its own go.
    pub fn clone_lock(&mut self, _l: &PauseLock) -> (l2: PauseLock)
        requires
            old(self).count() < u64::MAX,
        ensures
            final(self).count() == old(self).count() + 1,
    {
        self.locks = self.locks + 1;
        PauseLock { handle: () }
    }

    /// Hand a lock back; the game unpauses when the last one returns.
    pub fn release(&mut self, l: PauseLock)
        requires
            old(self).count() > 0,
        ensures
            final(self).count() == old(self).count() - 1,
    {
        let PauseLock { handle: _ } = l;
        self.locks = self.locks - 1;
    }

    /// Whether any lock is outstanding.
    pub fn paused(&self) -> (r: bool)
        ensures
            r == (self.count() > 0),
    {
        self.locks > 0
    }
}

/// Decoding a raw key into the character it types, implemented by the
/// input layer's key type.
pub trait GetChar {
    fn get_char(&self) -> Option<char>;
}

} // verus!
