//! The animation sequencing engine.
//!
//! Each visual effect is a small timed state machine that accumulates the
//! frame delta in integer milliseconds until its duration is exceeded, at
//! which point it is removed. The reveal flip chains rightward across a
//! row one tile at a time, holds a pause lock for the whole chain, swaps
//! the tile's face exactly once at its temporal midpoint, and fires one
//! reveal-finished event when the rightmost tile completes. The victory
//! wave chains the same way but holds no lock. Easing curves and
//! positions are floating-point concerns of the rendering layer, which
//! derives them from the elapsed times kept here.

use vstd::prelude::*;
use crate::components::{Pause, PauseLock, Tile, TileMap};
use crate::events::{EndFlipAnim, Events, Guess};

verus! {

/// Duration of the entry bounce played on a freshly typed letter.
pub const JUMP_ANIM_MS: u64 = 100;

/// Duration of one tile's reveal flip.
pub const FLIP_ANIM_MS: u64 = 300;

/// Duration of the row shake played on a rejected guess.
pub const SHAKE_ANIM_MS: u64 = 500;

/// Duration of one tile's victory wave.
pub const WAVE_ANIM_MS: u64 = 200;

/// The row-shake state: elapsed time since the rejected guess.
#[derive(Copy, Clone, Debug, Eq, PartialEq, Structural)]
pub struct ShakeAnim {
    /// Elapsed milliseconds.
    pub d: u64,
}

impl ShakeAnim {
    /// A shake that has just started.
    pub fn new() -> (a: ShakeAnim)
        ensures
            a.d == 0,
    {
        ShakeAnim { d: 0 }
    }

    /// Advance by `dur` milliseconds; reports whether the shake is over.
    pub fn tick(&mut self, dur: u64) -> (fin: bool)
        requires
            old(self).d + dur <= u64::MAX,
        ensures
            final(self).d == old(self).d + dur,
            fin == (final(self).d > SHAKE_ANIM_MS),
    {
        self.d = self.d + dur;
        self.d > SHAKE_ANIM_MS
    }
}

/// The entry-bounce state: elapsed time since the letter was typed.
#[derive(Copy, Clone, Debug, Eq, PartialEq, Structural)]
pub struct JumpAnim {
    /// Elapsed milliseconds.
    pub d: u64,
}

impl JumpAnim {
    /// A bounce that has just started.
    pub fn new() -> (a: JumpAnim)
        ensures
            a.d == 0,
    {
        JumpAnim { d: 0 }
    }

    /// Advance by `dur` milliseconds; reports whether the bounce is over.
    pub fn tick(&mut self, dur: u64) -> (fin: bool)
        requires
            old(self).d + dur <= u64::MAX,
        ensures
            final(self).d == old(self).d + dur,
            fin == (final(self).d > JUMP_ANIM_MS),
    {
        self.d = self.d + dur;
        self.d > JUMP_ANIM_MS
    }
}

/// The victory-wave state of one tile: elapsed time since its wave began.
#[derive(Copy, Clone, Debug, Eq, PartialEq, Structural)]
pub struct WaveAnim {
    /// Elapsed milliseconds.
    pub d: u64,
}

impl WaveAnim {
    /// A wave that has just started.
    pub fn new() -> (a: WaveAnim)
        ensures
            a.d == 0,
    {
        WaveAnim { d: 0 }
    }

    /// Advance by `dur` milliseconds; reports whether this tile's wave is
    /// over.
    pub fn tick(&mut self, dur: u64) -> (fin: bool)
        requires
            old(self).d + dur <= u64::MAX,
        ensures
            final(self).d == old(self).d + dur,
            fin == (final(self).d > WAVE_ANIM_MS),
    {
        self.d = self.d + dur;
        self.d > WAVE_ANIM_MS
    }
}

/// The reveal-flip state of one tile. It owns a pause lock, keeps the
/// reveal-finished event the chain will fire at its end, and carries a
/// one-shot face-swap flag that is set when the elapsed time crosses the
/// temporal midpoint and consumed exactly once.
pub struct FlipAnim {
    /// Elapsed milliseconds.
    pub d: u64,
    /// Whether the face swap is due and not yet consumed.
    pub should_change: bool,
    /// Whether the midpoint has been crossed already.
    pub changed: bool,
    /// Held so the game stays paused while this flip (or any flip the
    /// chain hands it on to) is alive.
    pub pause_lock: PauseLock,
    /// The event to fire once the chain's last tile finishes.
    pub end_event: EndFlipAnim,
}

impl FlipAnim {
    /// A flip that has just started, inheriting the chain's pause lock
    /// and pending end event.
    pub fn new(pause_lock: PauseLock, end_event: EndFlipAnim) -> (a: FlipAnim)
        ensures
            a.d == 0,
            a.should_change == false,
            a.changed == false,
            a.end_event == end_event,
    {
        FlipAnim { d: 0, should_change: false, changed: false, pause_lock, end_event }
    }

    /// Advance by `dur` milliseconds, arming the one-shot face-swap flag
    /// when the midpoint is crossed; reports whether the flip is over.
    pub fn tick(&mut self, dur: u64) -> (fin: bool)
        requires
            old(self).d + dur <= u64::MAX,
        ensures
            final(self).d == old(self).d + dur,
            final(self).changed == (old(self).changed || old(self).d + dur > FLIP_ANIM_MS / 2),
            final(self).should_change == (old(self).should_change || (!old(self).changed && old(self).d + dur > FLIP_ANIM_MS / 2)),
            final(self).end_event == old(self).end_event,
            fin == (old(self).d + dur > FLIP_ANIM_MS),
    {
        self.d = self.d + dur;
        if !self.changed && self.d > FLIP_ANIM_MS / 2 {
            self.changed = true;
            self.should_change = true;
        }
        self.d > FLIP_ANIM_MS
    }

    /// Whether the tile's face should swap now. Returns true exactly once
    /// per flip: reading the flag clears it.
    pub fn should_change(&mut self) -> (r: bool)
        ensures
            r == old(self).should_change,
            final(self).should_change == false,
            final(self).d == old(self).d,
            final(self).changed == old(self).changed,
            final(self).end_event == old(self).end_event,
    {
        let r = self.should_change;
        self.should_change = false;
        r
    }
}

/// The live reveal chain of one accepted guess: the single tile currently
/// flipping, and how many flips the chain has started so far.
pub struct RevealChain {
    /// Column of the tile currently flipping.
    pub col: usize,
    /// Number of flips started so far; always `col + 1`.
    pub started: usize,
    /// The running flip.
    pub anim: FlipAnim,
}

impl RevealChain {
    pub open spec fn wf(&self) -> bool {
        &&& self.col < 5
        &&& self.started == self.col + 1
        &&& self.anim.d <= FLIP_ANIM_MS
        &&& self.anim.should_change == false
        &&& self.anim.end_event.row < 6
        &&& self.anim.end_event.word@.len() == 5
    }
}

/// The live victory wave: the single tile currently waving.
pub struct WaveChain {
    /// The winning row.
    pub row: usize,
    /// Column of the tile currently waving.
    pub col: usize,
    /// The running wave.
    pub anim: WaveAnim,
}

impl WaveChain {
    pub open spec fn wf(&self) -> bool {
        &&& self.row < 6
        &&& self.col < 5
        &&& self.anim.d <= WAVE_ANIM_MS
    }
}

/// The live row shake after a rejected guess; all five tiles of the row
/// shake in lockstep, so one timer serves the row.
pub struct RowShake {
    /// The rejected row.
    pub row: usize,
    /// The running shake.
    pub anim: ShakeAnim,
}

impl RowShake {
    pub open spec fn wf(&self) -> bool {
        &&& self.row < 6
        &&& self.anim.d <= SHAKE_ANIM_MS
    }
}

/// One live entry bounce, attached to the tile at `(y, x)`.
#[derive(Copy, Clone, Debug, Eq, PartialEq, Structural)]
pub struct JumpEntry {
    /// Column of the bouncing tile.
    pub x: usize,
    /// Row of the bouncing tile.
    pub y: usize,
    /// The running bounce.
    pub anim: JumpAnim,
}

impl JumpEntry {
    pub open spec fn wf(&self) -> bool {
        &&& self.x < 5
        &&& self.y < 6
        &&& self.anim.d <= JUMP_ANIM_MS
    }
}

/// The entries of `s` from position `i` on, without those attached to the
/// tile at `(y, x)`, in order.
pub open spec fn drop_at_from(s: Seq<JumpEntry>, x: int, y: int, i: int) -> Seq<JumpEntry>
    decreases s.len() - i,
{
    if i < 0 || i >= s.len() {
        Seq::empty()
    } else if s[i].x == x && s[i].y == y {
        drop_at_from(s, x, y, i + 1)
    } else {
        seq![s[i]] + drop_at_from(s, x, y, i + 1)
    }
}

/// The entries of `s` from position `i` on, each advanced by `dur`
/// milliseconds, without those that thereby finish, in order.
pub open spec fn advance_jumps_from(s: Seq<JumpEntry>, dur: u64, i: int) -> Seq<JumpEntry>
    decreases s.len() - i,
{
    if i < 0 || i >= s.len() {
        Seq::empty()
    } else if s[i].anim.d + dur > JUMP_ANIM_MS {
        advance_jumps_from(s, dur, i + 1)
    } else {
        seq![
            (JumpEntry { x: s[i].x, y: s[i].y, anim: (JumpAnim { d: (s[i].anim.d + dur) as u64 }) }),
        ] + advance_jumps_from(s, dur, i + 1)
    }
}

/// Every entry kept by [`drop_at_from`] was one of the original entries.
pub proof fn lemma_drop_at_wf(s: Seq<JumpEntry>, x: int, y: int, i: int)
    requires
        forall|k: int| 0 <= k < s.len() ==> (#[trigger] s[k]).wf(),
    ensures
        forall|k: int|
            0 <= k < drop_at_from(s, x, y, i).len() ==> (#[trigger] drop_at_from(s, x, y, i)[k]).wf(),
    decreases s.len() - i,
{
    if i < 0 || i >= s.len() {
    } else {
        lemma_drop_at_wf(s, x, y, i + 1);
        let d = drop_at_from(s, x, y, i);
        let rest = drop_at_from(s, x, y, i + 1);
        if !(s[i].x == x && s[i].y == y) {
            assert forall|k: int| 0 <= k < d.len() implies (#[trigger] d[k]).wf() by {
                if k == 0 {
                    assert(d[k] == s[i]);
                } else {
                    assert(d[k] == rest[k - 1]);
                }
            }
        }
    }
}

/// Every entry kept by [`advance_jumps_from`] keeps its coordinates and
/// stays within the bounce's duration.
pub proof fn lemma_advance_jumps_wf(s: Seq<JumpEntry>, dur: u64, i: int)
    requires
        forall|k: int| 0 <= k < s.len() ==> (#[trigger] s[k]).x < 5 && s[k].y < 6,
        forall|k: int| 0 <= k < s.len() ==> (#[trigger] s[k]).anim.d + dur <= u64::MAX,
    ensures
        forall|k: int|
            0 <= k < advance_jumps_from(s, dur, i).len() ==> (#[trigger] advance_jumps_from(
                s,
                dur,
                i,
            )[k]).wf(),
    decreases s.len() - i,
{
    if i < 0 || i >= s.len() {
    } else {
        lemma_advance_jumps_wf(s, dur, i + 1);
        let a = advance_jumps_from(s, dur, i);
        let rest = advance_jumps_from(s, dur, i + 1);
        if !(s[i].anim.d + dur > JUMP_ANIM_MS) {
            assert forall|k: int| 0 <= k < a.len() implies (#[trigger] a[k]).wf() by {
                if k == 0 {
                    assert(a[k] == (JumpEntry {
                        x: s[i].x,
                        y: s[i].y,
                        anim: (JumpAnim { d: (s[i].anim.d + dur) as u64 }),
                    }));
                } else {
                    assert(a[k] == rest[k - 1]);
                }
            }
        }
    }
}

/// Start (or restart) the shake of a rejected row.
pub fn start_shake(shake: &mut Option<RowShake>, row: usize)
    requires
        row < 6,
    ensures
        (*final(shake)) matches Some(rs) && rs.row == row && rs.anim.d == 0,
{
    *shake = Some(RowShake { row, anim: ShakeAnim::new() });
}

/// Start the entry bounce of the tile at `(y, x)`, replacing any bounce
/// already attached to it.
pub fn start_jump(jumps: &mut Vec<JumpEntry>, x: usize, y: usize)
    requires
        x < 5,
        y < 6,
    ensures
        final(jumps)@ == drop_at_from(old(jumps)@, x as int, y as int, 0).push(
            (JumpEntry { x, y, anim: (JumpAnim { d: 0 }) }),
        ),
{
    let ghost s = jumps@;
    let n = jumps.len();
    let mut out: Vec<JumpEntry> = Vec::new();
    let mut i: usize = 0;
    while i < n
        invariant
            n == s.len(),
            i <= n,
            drop_at_from(s, x as int, y as int, 0) =~= out@ + drop_at_from(
                s,
                x as int,
                y as int,
                i as int,
            ),
            jumps@ == s,
            x < 5,
            y < 6,
        decreases n - i,
    {
        let e = jumps[i];
        if !(e.x == x && e.y == y) {
            out.push(e);
        }
        proof {
            assert(drop_at_from(s, x as int, y as int, 0) =~= out@ + drop_at_from(
                s,
                x as int,
                y as int,
                i + 1,
            ));
        }
        i = i + 1;
    }
    out.push(JumpEntry { x, y, anim: JumpAnim::new() });
    *jumps = out;
}

/// Start the reveal chain of an accepted guess on the first tile of its
/// row, taking the pause lock the chain holds until it completes.
pub fn start_flip(reveal: &mut Option<RevealChain>, pause: &mut Pause, g: &Guess)
    requires
        (*old(reveal)) is None,
        old(pause).count() < u64::MAX,
        g.row < 6,
        g.word@.len() == 5,
    ensures
        final(pause).count() == old(pause).count() + 1,
        (*final(reveal)) matches Some(rc) && rc.col == 0 && rc.started == 1 && rc.anim.d == 0
            && rc.anim.changed == false && rc.anim.should_change == false
            && rc.anim.end_event.row == g.row && rc.anim.end_event.word@ == g.word@
            && rc.anim.end_event.correctness == g.correctness,
{
    let lock = pause.lock();
    let end_event = g.end_anim();
    *reveal = Some(RevealChain { col: 0, started: 1, anim: FlipAnim::new(lock, end_event) });
}

/// Start the victory wave on the first tile of the winning row.
pub fn start_wave(wave: &mut Option<WaveChain>, row: usize)
    requires
        row < 6,
    ensures
        (*final(wave)) matches Some(wc) && wc.row == row && wc.col == 0 && wc.anim.d == 0,
{
    *wave = Some(WaveChain { row, col: 0, anim: WaveAnim::new() });
}

/// Advance the row shake; when its duration is exceeded the shake is
/// removed and the row returns to rest.
pub fn shake_anim(shake: &mut Option<RowShake>, dur: u64)
    requires
        (*old(shake)) matches Some(rs) ==> rs.anim.d + dur <= u64::MAX,
    ensures
        (*old(shake)) is None ==> (*final(shake)) is None,
        (*old(shake)) matches Some(rs) ==> rs.anim.d + dur <= SHAKE_ANIM_MS ==> ((*final(shake))
            matches Some(rs2) && rs2.row == rs.row && rs2.anim.d == rs.anim.d + dur),
        (*old(shake)) matches Some(rs) ==> rs.anim.d + dur > SHAKE_ANIM_MS ==> (*final(shake)) is None,
{
    match shake.take() {
        None => {},
        Some(mut rs) => {
            let fin = rs.anim.tick(dur);
            if !fin {
                *shake = Some(rs);
            }
        },
    }
}

/// Advance every live entry bounce and remove the ones that finish.
pub fn jump_anim(jumps: &mut Vec<JumpEntry>, dur: u64)
    requires
        forall|k: int| 0 <= k < old(jumps)@.len() ==> (#[trigger] old(jumps)@[k]).anim.d + dur
            <= u64::MAX,
    ensures
        final(jumps)@ == advance_jumps_from(old(jumps)@, dur, 0),
{
    let ghost s = jumps@;
    let n = jumps.len();
    let mut out: Vec<JumpEntry> = Vec::new();
    let mut i: usize = 0;
    while i < n
        invariant
            n == s.len(),
            i <= n,
            jumps@ == s,
            forall|k: int| 0 <= k < s.len() ==> (#[trigger] s[k]).anim.d + dur <= u64::MAX,
            advance_jumps_from(s, dur, 0) =~= out@ + advance_jumps_from(s, dur, i as int),
        decreases n - i,
    {
        let e = jumps[i];
        let mut anim = e.anim;
        let fin = anim.tick(dur);
        if !fin {
            out.push(JumpEntry { x: e.x, y: e.y, anim });
        }
        proof {
            assert(advance_jumps_from(s, dur, 0) =~= out@ + advance_jumps_from(s, dur, i + 1));
        }
        i = i + 1;
    }
    *jumps = out;
}

/// The same tile with its face swapped to the colored verdict face.
pub open spec fn revealed_tile(t: Tile) -> Tile {
    Tile { tt: t.tt, c: t.c, x: t.x, y: t.y, revealed: true }
}

/// Advance the reveal chain: swap the current tile's face when its flip
/// crosses the midpoint; when a flip completes, hand the chain (and a
/// duplicate of its pause lock) to the next tile of the row, or — on the
/// rightmost tile — fire the reveal-finished event and let the last lock
/// go, unpausing input.
pub fn flip_anim(
    reveal: &mut Option<RevealChain>,
    tiles: &mut TileMap,
    pause: &mut Pause,
    ev: &mut Events,
    dur: u64,
)
    requires
        old(tiles).wf(),
        (*old(reveal)) matches Some(rc) ==> rc.wf() && rc.anim.d + dur <= u64::MAX && 0 < old(pause).count() < u64::MAX,
    ensures
        final(ev).typed == old(ev).typed,
        final(ev).guesses == old(ev).guesses,
        final(ev).invalid == old(ev).invalid,
        final(ev).wins == old(ev).wins,
        (*old(reveal)) is None ==> (*final(reveal)) is None && *final(tiles) == *old(tiles) && final(pause).count() == old(pause).count() && final(ev).end_flips == old(ev).end_flips,
        (*old(reveal)) matches Some(rc) ==> rc.anim.d + dur <= FLIP_ANIM_MS ==> ((*final(reveal))
            matches Some(rc2) && rc2.col == rc.col && rc2.started == rc.started && rc2.anim.d
            == rc.anim.d + dur && rc2.anim.end_event == rc.anim.end_event
            && rc2.anim.should_change == false && rc2.anim.changed == (rc.anim.changed
            || rc.anim.d + dur > FLIP_ANIM_MS / 2) && final(pause).count() == old(pause).count()
            && final(ev).end_flips == old(ev).end_flips && if !rc.anim.changed && rc.anim.d + dur
            > FLIP_ANIM_MS / 2 {
            final(tiles)@ == old(tiles)@.update(
                rc.anim.end_event.row as int,
                old(tiles)@[rc.anim.end_event.row as int].update(
                    rc.col as int,
                    revealed_tile(old(tiles)@[rc.anim.end_event.row as int][rc.col as int]),
                ),
            )
        } else {
            *final(tiles) == *old(tiles)
        }),
        (*old(reveal)) matches Some(rc) ==> rc.anim.d + dur > FLIP_ANIM_MS && rc.col < 4 ==> ((*final(reveal)) matches Some(rc2) && rc2.col == rc.col + 1 && rc2.started == rc.started + 1 && rc2.anim.d
            == 0 && rc2.anim.changed == false && rc2.anim.should_change == false
            && rc2.anim.end_event == rc.anim.end_event && *final(tiles) == *old(tiles) && final(pause).count() == old(pause).count() && final(ev).end_flips == old(ev).end_flips),
        (*old(reveal)) matches Some(rc) ==> rc.anim.d + dur > FLIP_ANIM_MS && rc.col == 4 ==> ((*final(reveal)) is None && *final(tiles) == *old(tiles) && final(pause).count() == old(pause).count() - 1
            && final(ev).end_flips@ == old(ev).end_flips@.push(rc.anim.end_event)),
{
    match reveal.take() {
        None => {},
        Some(mut rc) => {
            let fin = rc.anim.tick(dur);
            if !fin {
                if rc.anim.should_change() {
                    let row = rc.anim.end_event.row;
                    let col = rc.col;
                    let mut t = *tiles.get(row, col);
                    t.revealed = true;
                    tiles.set(row, col, t);
                }
                *reveal = Some(rc);
            } else {
                if rc.col < 4 {
                    let next_lock = pause.clone_lock(&rc.anim.pause_lock);
                    let FlipAnim { pause_lock, end_event, .. } = rc.anim;
                    pause.release(pause_lock);
                    *reveal = Some(
                        RevealChain {
                            col: rc.col + 1,
                            started: rc.started + 1,
                            anim: FlipAnim::new(next_lock, end_event),
                        },
                    );
                } else {
                    let FlipAnim { pause_lock, end_event, .. } = rc.anim;
                    pause.release(pause_lock);
                    ev.end_flips.push(end_event);
                }
            }
        },
    }
}

/// Advance the victory wave: when a tile's wave completes, move to the
/// next tile of the row, or finish after the rightmost tile.
pub fn wave_anim(wave: &mut Option<WaveChain>, dur: u64)
    requires
        (*old(wave)) matches Some(wc) ==> wc.anim.d + dur <= u64::MAX,
    ensures
        (*old(wave)) is None ==> (*final(wave)) is None,
        (*old(wave)) matches Some(wc) ==> wc.anim.d + dur <= WAVE_ANIM_MS ==> ((*final(wave))
            matches Some(wc2) && wc2.row == wc.row && wc2.col == wc.col && wc2.anim.d == wc.anim.d
            + dur),
        (*old(wave)) matches Some(wc) ==> wc.anim.d + dur > WAVE_ANIM_MS && wc.col < 4 ==> ((*final(wave)) matches Some(wc2) && wc2.row == wc.row && wc2.col == wc.col + 1 && wc2.anim.d == 0),
        (*old(wave)) matches Some(wc) ==> wc.anim.d + dur > WAVE_ANIM_MS && wc.col == 4 ==> (*final(wave)) is None,
{
    match wave.take() {
        None => {},
        Some(mut wc) => {
            let fin = wc.anim.tick(dur);
            if !fin {
                *wave = Some(wc);
            } else {
                if wc.col < 4 {
                    *wave = Some(WaveChain { row: wc.row, col: wc.col + 1, anim: WaveAnim::new() });
                }
            }
        },
    }
}

} // verus!
