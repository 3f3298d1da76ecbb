//! The letter-correctness scoring engine.
//!
//! Scoring is two passes. The first pass marks every position where guess
//! and target agree as `Correct` and removes that target letter from
//! further consideration. The second pass walks the guess left to right:
//! a letter that still occurs among the remaining target letters is marked
//! `Close` and claims the leftmost such occurrence; otherwise the position
//! is `Wrong`. Each target letter instance satisfies at most one guess
//! letter, which is what makes duplicated letters come out right.

use vstd::prelude::*;
use crate::components::TileType;
use crate::components::chars_of;

verus! {

/// First-pass verdicts: `Correct` exactly where the words agree.
pub open spec fn first_marks(t: Seq<char>, g: Seq<char>) -> Seq<TileType> {
    Seq::new(g.len(), |i: int| if t[i] == g[i] { TileType::Correct } else { TileType::Wrong })
}

/// Target letters still up for grabs after the first pass: `None` where the
/// letter was claimed by an exact match.
pub open spec fn first_rem(t: Seq<char>, g: Seq<char>) -> Seq<Option<char>> {
    Seq::new(t.len(), |i: int| if t[i] == g[i] { None } else { Some(t[i]) })
}

/// Position of the leftmost unclaimed occurrence of `c` in `rem` at or
/// after `j`, or `-1` if there is none.
pub open spec fn find_from(rem: Seq<Option<char>>, c: char, j: int) -> int
    decreases rem.len() - j,
{
    if j < 0 || j >= rem.len() {
        -1
    } else if rem[j] == Some(c) {
        j
    } else {
        find_from(rem, c, j + 1)
    }
}

/// The second pass from position `i` on: non-`Correct` positions whose
/// letter still occurs among the remaining target letters become `Close`
/// and claim the leftmost occurrence.
pub open spec fn second_pass(
    g: Seq<char>,
    marks: Seq<TileType>,
    rem: Seq<Option<char>>,
    i: int,
) -> (Seq<TileType>, Seq<Option<char>>)
    decreases g.len() - i,
{
    if i < 0 || i >= g.len() {
        (marks, rem)
    } else if marks[i] == TileType::Correct {
        second_pass(g, marks, rem, i + 1)
    } else {
        let j = find_from(rem, g[i], 0);
        if j >= 0 {
            second_pass(g, marks.update(i, TileType::Close), rem.update(j, None), i + 1)
        } else {
            second_pass(g, marks, rem, i + 1)
        }
    }
}

/// The verdicts of scoring `g` against target `t`.
pub open spec fn score_spec(t: Seq<char>, g: Seq<char>) -> Seq<TileType> {
    second_pass(g, first_marks(t, g), first_rem(t, g), 0).0
}

/// Leftmost unclaimed occurrence of `c`, executably; agrees with
/// [`find_from`] from position 0.
fn find_in_rem(rem: &[Option<char>; 5], c: char) -> (r: Option<usize>)
    ensures
        r matches Some(j) ==> j < 5 && find_from(rem@, c, 0) == j as int,
        r is None ==> find_from(rem@, c, 0) == -1,
{
    let mut j: usize = 0;
    while j < 5
        invariant
            j <= 5,
            rem@.len() == 5,
            find_from(rem@, c, 0) == find_from(rem@, c, j as int),
        decreases 5 - j,
    {
        let hit = match rem[j] {
            Some(d) => d == c,
            None => false,
        };
        if hit {
            return Some(j);
        }
        proof {
            assert(find_from(rem@, c, j as int) == find_from(rem@, c, j + 1));
        }
        j = j + 1;
    }
    None
}

/// Score a five-letter guess against a five-letter target, two passes,
/// duplicates handled by claiming each target letter at most once.
pub fn score_chars(target: &Vec<char>, guess: &Vec<char>) -> (r: [TileType; 5])
    requires
        target@.len() == 5,
        guess@.len() == 5,
    ensures
        r@ == score_spec(target@, guess@),
{
    let mut marks: [TileType; 5] = [TileType::Wrong; 5];
    let mut rem: [Option<char>; 5] = [None; 5];

    let mut i: usize = 0;
    while i < 5
        invariant
            target@.len() == 5,
            guess@.len() == 5,
            i <= 5,
            marks@.len() == 5,
            rem@.len() == 5,
            forall|k: int| 0 <= k < i ==> marks@[k] == first_marks(target@, guess@)[k],
            forall|k: int| 0 <= k < i ==> rem@[k] == first_rem(target@, guess@)[k],
        decreases 5 - i,
    {
        if guess[i] == target[i] {
            marks[i] = TileType::Correct;
            rem[i] = None;
        } else {
            marks[i] = TileType::Wrong;
            rem[i] = Some(target[i]);
        }
        i = i + 1;
    }
    proof {
        assert(marks@ =~= first_marks(target@, guess@));
        assert(rem@ =~= first_rem(target@, guess@));
    }

    let ghost fm = first_marks(target@, guess@);
    let ghost fr = first_rem(target@, guess@);

    let mut i: usize = 0;
    while i < 5
        invariant
            guess@.len() == 5,
            i <= 5,
            marks@.len() == 5,
            rem@.len() == 5,
            second_pass(guess@, marks@, rem@, i as int) == second_pass(guess@, fm, fr, 0),
        decreases 5 - i,
    {
        let ghost m0 = marks@;
        let ghost r0 = rem@;
        let skip = marks[i] == TileType::Correct;
        if !skip {
            match find_in_rem(&rem, guess[i]) {
                Some(j) => {
                    marks[i] = TileType::Close;
                    rem[j] = None;
                }
                None => {}
            }
        }
        proof {
            assert(second_pass(guess@, m0, r0, i as int) == second_pass(
                guess@,
                marks@,
                rem@,
                i + 1,
            ));
        }
        i = i + 1;
    }
    proof {
        assert(second_pass(guess@, marks@, rem@, 5) == (marks@, rem@));
    }
    marks
}

/// Number of positions `k >= i` whose verdict is `Correct`.
pub open spec fn count_correct_from(s: Seq<TileType>, i: int) -> int
    decreases s.len() - i,
{
    if i < 0 || i >= s.len() {
        0
    } else {
        (if s[i] == TileType::Correct {
            1int
        } else {
            0int
        }) + count_correct_from(s, i + 1)
    }
}

/// Number of positions `k >= i` where target and guess agree.
pub open spec fn count_matches_from(t: Seq<char>, g: Seq<char>, i: int) -> int
    decreases g.len() - i,
{
    if i < 0 || i >= g.len() {
        0
    } else {
        (if t[i] == g[i] {
            1int
        } else {
            0int
        }) + count_matches_from(t, g, i + 1)
    }
}

/// Number of positions `k >= i` whose verdict claims an occurrence of the
/// letter `c`: the letter stands there in the guess and the verdict is
/// `Correct` or `Close`.
pub open spec fn count_claimed_from(s: Seq<TileType>, g: Seq<char>, c: char, i: int) -> int
    decreases g.len() - i,
{
    if i < 0 || i >= g.len() {
        0
    } else {
        (if g[i] == c && (s[i] == TileType::Correct || s[i] == TileType::Close) {
            1int
        } else {
            0int
        }) + count_claimed_from(s, g, c, i + 1)
    }
}

/// Number of unclaimed occurrences of `c` among the remaining target
/// letters at positions `k >= i`.
pub open spec fn count_rem_from(rem: Seq<Option<char>>, c: char, i: int) -> int
    decreases rem.len() - i,
{
    if i < 0 || i >= rem.len() {
        0
    } else {
        (if rem[i] == Some(c) {
            1int
        } else {
            0int
        }) + count_rem_from(rem, c, i + 1)
    }
}

/// Number of occurrences of `c` in `t` at positions `k >= i`.
pub open spec fn count_char_from(t: Seq<char>, c: char, i: int) -> int
    decreases t.len() - i,
{
    if i < 0 || i >= t.len() {
        0
    } else {
        (if t[i] == c {
            1int
        } else {
            0int
        }) + count_char_from(t, c, i + 1)
    }
}

/// The second pass keeps the verdict sequence's length.
proof fn lemma_second_pass_len(
    g: Seq<char>,
    marks: Seq<TileType>,
    rem: Seq<Option<char>>,
    i: int,
)
    requires
        marks.len() == g.len(),
    ensures
        second_pass(g, marks, rem, i).0.len() == g.len(),
    decreases g.len() - i,
{
    if i < 0 || i >= g.len() {
    } else if marks[i] == TileType::Correct {
        lemma_second_pass_len(g, marks, rem, i + 1);
    } else {
        let j = find_from(rem, g[i], 0);
        if j >= 0 {
            lemma_second_pass_len(g, marks.update(i, TileType::Close), rem.update(j, None), i + 1);
        } else {
            lemma_second_pass_len(g, marks, rem, i + 1);
        }
    }
}

/// Scoring two equal-length words gives one verdict per position.
pub proof fn lemma_score_len(t: Seq<char>, g: Seq<char>)
    requires
        t.len() == g.len(),
    ensures
        score_spec(t, g).len() == g.len(),
{
    lemma_second_pass_len(g, first_marks(t, g), first_rem(t, g), 0);
}

/// Scoring is a pure function of the two words: any two results of scoring
/// the same guess against the same target are equal.
pub proof fn lemma_score_pure(t: Seq<char>, g: Seq<char>, r1: Seq<TileType>, r2: Seq<TileType>)
    requires
        r1 == score_spec(t, g),
        r2 == score_spec(t, g),
    ensures
        r1 == r2,
{
}

/// The second pass neither creates nor destroys `Correct` verdicts.
proof fn lemma_second_pass_correct_positions(
    g: Seq<char>,
    marks: Seq<TileType>,
    rem: Seq<Option<char>>,
    i: int,
    k: int,
)
    requires
        marks.len() == g.len(),
        0 <= k < g.len(),
    ensures
        (second_pass(g, marks, rem, i).0[k] == TileType::Correct) == (marks[k]
            == TileType::Correct),
    decreases g.len() - i,
{
    if i < 0 || i >= g.len() {
    } else if marks[i] == TileType::Correct {
        lemma_second_pass_correct_positions(g, marks, rem, i + 1, k);
    } else {
        let j = find_from(rem, g[i], 0);
        if j >= 0 {
            lemma_second_pass_correct_positions(
                g,
                marks.update(i, TileType::Close),
                rem.update(j, None),
                i + 1,
                k,
            );
        } else {
            lemma_second_pass_correct_positions(g, marks, rem, i + 1, k);
        }
    }
}

/// A scored position is `Correct` exactly where guess and target agree.
pub proof fn lemma_score_correct_iff(t: Seq<char>, g: Seq<char>, k: int)
    requires
        t.len() == g.len(),
        0 <= k < g.len(),
    ensures
        (score_spec(t, g)[k] == TileType::Correct) == (t[k] == g[k]),
{
    lemma_second_pass_correct_positions(g, first_marks(t, g), first_rem(t, g), 0, k);
}

/// Counting helper: two verdict sequences that are `Correct` at the same
/// positions from `i` on hold the same number of `Correct` verdicts as the
/// matching positions of the words.
proof fn lemma_count_correct_matches(t: Seq<char>, g: Seq<char>, s: Seq<TileType>, i: int)
    requires
        t.len() == g.len(),
        s.len() == g.len(),
        forall|k: int| 0 <= k < g.len() ==> ((s[k] == TileType::Correct) == (t[k] == g[k])),
    ensures
        count_correct_from(s, i) == count_matches_from(t, g, i),
    decreases g.len() - i,
{
    if i < 0 || i >= g.len() {
    } else {
        lemma_count_correct_matches(t, g, s, i + 1);
    }
}

/// The number of `Correct` verdicts equals the number of positions where
/// the two words agree.
pub proof fn lemma_score_correct_count(t: Seq<char>, g: Seq<char>)
    requires
        t.len() == g.len(),
    ensures
        count_correct_from(score_spec(t, g), 0) == count_matches_from(t, g, 0),
{
    let s = score_spec(t, g);
    lemma_score_len(t, g);
    assert forall|k: int| 0 <= k < g.len() implies ((s[k] == TileType::Correct) == (t[k]
        == g[k])) by {
        lemma_score_correct_iff(t, g, k);
    }
    lemma_count_correct_matches(t, g, s, 0);
}

/// Updating one verdict changes the claimed count of `c` by the difference
/// of the two verdicts' contributions at that position.
proof fn lemma_count_claimed_update(
    s: Seq<TileType>,
    g: Seq<char>,
    c: char,
    p: int,
    v: TileType,
    i: int,
)
    requires
        s.len() == g.len(),
        0 <= p < g.len(),
        0 <= i,
    ensures
        count_claimed_from(s.update(p, v), g, c, i) == count_claimed_from(s, g, c, i) + if i <= p {
            (if g[p] == c && (v == TileType::Correct || v == TileType::Close) {
                1int
            } else {
                0int
            }) - (if g[p] == c && (s[p] == TileType::Correct || s[p] == TileType::Close) {
                1int
            } else {
                0int
            })
        } else {
            0int
        },
    decreases g.len() - i,
{
    if i < 0 || i >= g.len() {
    } else {
        lemma_count_claimed_update(s, g, c, p, v, i + 1);
    }
}

/// Updating one remaining slot changes the count of `c` by the difference
/// of the two values' contributions at that position.
proof fn lemma_count_rem_update(rem: Seq<Option<char>>, c: char, p: int, v: Option<char>, i: int)
    requires
        0 <= p < rem.len(),
        0 <= i,
    ensures
        count_rem_from(rem.update(p, v), c, i) == count_rem_from(rem, c, i) + if i <= p {
            (if v == Some(c) {
                1int
            } else {
                0int
            }) - (if rem[p] == Some(c) {
                1int
            } else {
                0int
            })
        } else {
            0int
        },
    decreases rem.len() - i,
{
    if i < 0 || i >= rem.len() {
    } else {
        lemma_count_rem_update(rem, c, p, v, i + 1);
    }
}

/// The count of remaining occurrences is never negative.
proof fn lemma_count_rem_nonneg(rem: Seq<Option<char>>, c: char, i: int)
    ensures
        count_rem_from(rem, c, i) >= 0,
    decreases rem.len() - i,
{
    if i < 0 || i >= rem.len() {
    } else {
        lemma_count_rem_nonneg(rem, c, i + 1);
    }
}

/// Where [`find_from`] reports a hit, the slot really holds `c`.
proof fn lemma_find_from_hit(rem: Seq<Option<char>>, c: char, j: int)
    requires
        find_from(rem, c, j) >= 0,
    ensures
        0 <= find_from(rem, c, j) < rem.len(),
        rem[find_from(rem, c, j)] == Some(c),
    decreases rem.len() - j,
{
    if j < 0 || j >= rem.len() {
    } else if rem[j] == Some(c) {
    } else {
        lemma_find_from_hit(rem, c, j + 1);
    }
}

/// After the first pass, the claimed and the remaining occurrences of `c`
/// together account for every occurrence of `c` in the target.
proof fn lemma_first_pass_conserves(t: Seq<char>, g: Seq<char>, c: char, i: int)
    requires
        t.len() == g.len(),
    ensures
        count_claimed_from(first_marks(t, g), g, c, i) + count_rem_from(first_rem(t, g), c, i)
            == count_char_from(t, c, i),
    decreases g.len() - i,
{
    if i < 0 || i >= g.len() {
    } else {
        lemma_first_pass_conserves(t, g, c, i + 1);
    }
}

/// The second pass conserves claimed plus remaining occurrences of `c`,
/// provided the positions it has not reached yet are still first-pass
/// verdicts (`Correct` or `Wrong`).
proof fn lemma_second_pass_conserves(
    g: Seq<char>,
    marks: Seq<TileType>,
    rem: Seq<Option<char>>,
    c: char,
    i: int,
)
    requires
        marks.len() == g.len(),
        forall|k: int|
            i <= k < g.len() ==> (marks[k] == TileType::Correct || marks[k] == TileType::Wrong),
    ensures
        ({
            let (m2, r2) = second_pass(g, marks, rem, i);
            count_claimed_from(m2, g, c, 0) + count_rem_from(r2, c, 0) == count_claimed_from(
                marks,
                g,
                c,
                0,
            ) + count_rem_from(rem, c, 0)
        }),
    decreases g.len() - i,
{
    if i < 0 || i >= g.len() {
    } else if marks[i] == TileType::Correct {
        lemma_second_pass_conserves(g, marks, rem, c, i + 1);
    } else {
        let j = find_from(rem, g[i], 0);
        if j >= 0 {
            let m1 = marks.update(i, TileType::Close);
            let r1 = rem.update(j, None);
            lemma_find_from_hit(rem, g[i], 0);
            lemma_count_claimed_update(marks, g, c, i, TileType::Close, 0);
            lemma_count_rem_update(rem, c, j, None, 0);
            lemma_second_pass_conserves(g, m1, r1, c, i + 1);
        } else {
            lemma_second_pass_conserves(g, marks, rem, c, i + 1);
        }
    }
}

/// Per letter, the verdicts `Correct` and `Close` together never claim more
/// occurrences of that letter than the target holds.
pub proof fn lemma_score_letter_bound(t: Seq<char>, g: Seq<char>, c: char)
    requires
        t.len() == g.len(),
    ensures
        count_claimed_from(score_spec(t, g), g, c, 0) <= count_char_from(t, c, 0),
{
    let fm = first_marks(t, g);
    let fr = first_rem(t, g);
    let (m2, r2) = second_pass(g, fm, fr, 0);
    lemma_first_pass_conserves(t, g, c, 0);
    lemma_second_pass_conserves(g, fm, fr, c, 0);
    lemma_count_rem_nonneg(r2, c, 0);
}

/// Score one word against another, both exactly five characters.
pub fn correctness(correct: &str, guess: &str) -> (r: [TileType; 5])
    requires
        correct@.len() == 5,
        guess@.len() == 5,
    ensures
        r@ == score_spec(correct@, guess@),
{
    let t = chars_of(correct);
    let g = chars_of(guess);
    score_chars(&t, &g)
}

} // verus!
