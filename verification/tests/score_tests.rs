use wordle::components::TileType::{Close, Correct, Wrong};
use wordle::components::TileType;
use wordle::score::correctness;

#[test]
fn test_correctness_logic() {
    assert_eq!(correctness("hello", "lemon"), [Close, Correct, Wrong, Close, Wrong]);
    assert_eq!(correctness("hello", "ppplp"), [Wrong, Wrong, Wrong, Correct, Wrong]);
    assert_eq!(correctness("hello", "shark"), [Wrong, Close, Wrong, Wrong, Wrong]);
    assert_eq!(correctness("mints", "mmmmm"), [Correct, Wrong, Wrong, Wrong, Wrong]);
    assert_eq!(correctness("slips", "ssssk"), [Correct, Close, Wrong, Wrong, Wrong]);
}

#[test]
fn score_returns_five_verdicts() {
    assert_eq!(correctness("crane", "crane").len(), 5);
    assert_eq!(correctness("abide", "zzzzz").len(), 5);
}

#[test]
fn score_is_pure() {
    let a = correctness("hello", "lemon");
    let b = correctness("hello", "lemon");
    assert_eq!(a, b);
}

#[test]
fn correct_count_matches_exact_positions() {
    for (t, g) in [("hello", "lemon"), ("mints", "mmmmm"), ("slips", "ssssk"), ("crane", "crane")] {
        let verdicts = correctness(t, g);
        let exact = t.chars().zip(g.chars()).filter(|(a, b)| a == b).count();
        let correct = verdicts.iter().filter(|v| **v == Correct).count();
        assert_eq!(correct, exact);
    }
}

#[test]
fn claimed_letters_never_exceed_target_occurrences() {
    for (t, g) in [("hello", "lllll"), ("hello", "lemon"), ("slips", "ssssk"), ("mints", "mmmmm")] {
        let verdicts = correctness(t, g);
        let gc: Vec<char> = g.chars().collect();
        for c in 'a'..='z' {
            let claimed = (0..5)
                .filter(|&i| gc[i] == c && (verdicts[i] == Correct || verdicts[i] == Close))
                .count();
            let in_target = t.chars().filter(|&d| d == c).count();
            assert!(claimed <= in_target);
        }
    }
}

#[test]
fn all_letters_wrong_when_disjoint() {
    assert_eq!(correctness("abcde", "fghij"), [Wrong; 5]);
}

#[test]
fn verdict_colors_are_exact() {
    let green = TileType::Correct.color();
    assert_eq!((green.red, green.green, green.blue), (0x53, 0x8d, 0x4e));
    let yellow = TileType::Close.color();
    assert_eq!((yellow.red, yellow.green, yellow.blue), (0xb5, 0x9f, 0x3b));
    let dark = TileType::Wrong.color();
    assert_eq!((dark.red, dark.green, dark.blue), (0x3a, 0x3a, 0x3c));
    let light = TileType::Default.color();
    assert_eq!((light.red, light.green, light.blue), (0x81, 0x83, 0x84));
}
