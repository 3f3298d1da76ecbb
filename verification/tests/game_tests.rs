use wordle::anim::FLIP_ANIM_MS;
use wordle::components::{Cursor, Pause, TileMap, TileType, Word, WordDic};
use wordle::events::Events;
use wordle::game::{GameState, InputKey};
use wordle::keyboard::setup_keyboard;

/// A game with a known target, bypassing the random draw.
fn game_with(target: &str, dict: &[&str]) -> GameState {
    GameState {
        word: Word(target.to_string()),
        dic: WordDic(dict.iter().map(|w| w.to_string()).collect()),
        cursor: Cursor { x: 0, y: 0 },
        tiles: TileMap::null(),
        pause: Pause::new(),
        keys: setup_keyboard(),
        reveal: None,
        wave: None,
        shake: None,
        jumps: vec![],
    }
}

fn type_word(g: &mut GameState, word: &str) -> Vec<Events> {
    word.chars().map(|c| g.tick(Some(InputKey::Letter(c)), 0)).collect()
}

/// Run ticks until the reveal chain (if any) has fully played out.
fn drain_animations(g: &mut GameState) -> Vec<Events> {
    let mut out = vec![];
    for _ in 0..16 {
        out.push(g.tick(None, FLIP_ANIM_MS + 1));
    }
    out
}

#[test]
fn cursor_saturates_and_backspace_stops_at_zero() {
    let mut g = game_with("crane", &["crane"]);
    for _ in 0..9 {
        g.tick(Some(InputKey::Letter('A')), 0);
    }
    assert_eq!(g.cursor.x, 5);
    assert_eq!(g.cursor.y, 0);
    for _ in 0..9 {
        g.tick(Some(InputKey::Back), 0);
    }
    assert_eq!(g.cursor.x, 0);
    assert_eq!(g.cursor.y, 0);
}

#[test]
fn typed_letter_lands_in_grid_and_backspace_clears_it() {
    let mut g = game_with("crane", &["crane"]);
    let ev = g.tick(Some(InputKey::Letter('C')), 0);
    assert_eq!(ev.typed.len(), 1);
    assert!(ev.typed[0].valid);
    assert_eq!(ev.typed[0].letter, 'C');
    assert_eq!(g.tiles.get(0, 0).c, Some('C'));
    assert_eq!(g.cursor.x, 1);
    g.tick(Some(InputKey::Back), 0);
    assert_eq!(g.tiles.get(0, 0).c, None);
    assert_eq!(g.cursor.x, 0);
}

#[test]
fn sixth_letter_is_invalid_and_grid_untouched() {
    let mut g = game_with("crane", &["crane"]);
    type_word(&mut g, "CRANE");
    let ev = g.tick(Some(InputKey::Letter('X')), 0);
    assert_eq!(ev.typed.len(), 1);
    assert!(!ev.typed[0].valid);
    assert_eq!(g.cursor.x, 5);
    for x in 0..5 {
        assert_ne!(g.tiles.get(0, x).c, Some('X'));
    }
}

#[test]
fn submit_incomplete_row_changes_nothing() {
    let mut g = game_with("crane", &["crane"]);
    type_word(&mut g, "CRA");
    let before: Vec<Option<char>> = (0..5).map(|x| g.tiles.get(0, x).c).collect();
    let ev = g.tick(Some(InputKey::Return), 0);
    assert_eq!(ev.invalid.len(), 1);
    assert_eq!(ev.invalid[0].row, 0);
    assert_eq!(ev.guesses.len(), 0);
    assert_eq!(g.cursor.x, 3);
    assert_eq!(g.cursor.y, 0);
    let after: Vec<Option<char>> = (0..5).map(|x| g.tiles.get(0, x).c).collect();
    assert_eq!(before, after);
    // the rejected row shakes
    assert!(g.shake.is_some());
}

#[test]
fn unknown_word_is_rejected() {
    let mut g = game_with("crane", &["crane"]);
    type_word(&mut g, "ZZZZZ");
    let ev = g.tick(Some(InputKey::Return), 0);
    assert_eq!(ev.invalid.len(), 1);
    assert_eq!(ev.guesses.len(), 0);
    assert_eq!(g.cursor.y, 0);
}

#[test]
fn accepted_guess_scores_row_and_advances() {
    let mut g = game_with("crane", &["crane", "lemon"]);
    type_word(&mut g, "LEMON");
    let ev = g.tick(Some(InputKey::Return), 0);
    assert_eq!(ev.guesses.len(), 1);
    assert_eq!(ev.guesses[0].row, 0);
    let w: String = ev.guesses[0].word.iter().collect();
    assert_eq!(w, "lemon");
    // target crane vs lemon: the two e/n letters are close, the rest wrong
    assert_eq!(
        ev.guesses[0].correctness,
        [TileType::Wrong, TileType::Close, TileType::Wrong, TileType::Wrong, TileType::Close]
    );
    for x in 0..5 {
        assert_eq!(g.tiles.get(0, x).tt, ev.guesses[0].correctness[x]);
    }
    assert_eq!(ev.wins.len(), 0);
    assert_eq!(g.cursor.x, 0);
    assert_eq!(g.cursor.y, 1);
}

#[test]
fn reveal_chain_runs_five_flips_and_one_finish() {
    let mut g = game_with("crane", &["crane", "lemon"]);
    type_word(&mut g, "LEMON");
    let ev = g.tick(Some(InputKey::Return), 0);
    assert_eq!(ev.guesses.len(), 1);
    // the chain is live on the first tile and the game is paused
    assert!(g.reveal.is_some());
    assert!(g.pause.paused());
    let mut starts = vec![1usize];
    let mut finishes = 0usize;
    for _ in 0..10 {
        let ev = g.tick(None, FLIP_ANIM_MS + 1);
        if let Some(rc) = &g.reveal {
            starts.push(rc.started);
            assert!(g.pause.paused());
        }
        finishes += ev.end_flips.len();
    }
    // one flip per tile, strictly sequential, and exactly one finish event
    assert_eq!(starts, vec![1, 2, 3, 4, 5]);
    assert_eq!(finishes, 1);
    assert!(g.reveal.is_none());
    assert!(!g.pause.paused());
}

#[test]
fn input_is_ignored_while_revealing() {
    let mut g = game_with("crane", &["crane", "lemon"]);
    type_word(&mut g, "LEMON");
    g.tick(Some(InputKey::Return), 0);
    assert!(g.pause.paused());
    let ev = g.tick(Some(InputKey::Letter('Q')), 10);
    assert_eq!(ev.typed.len(), 0);
    assert_eq!(g.cursor.x, 0);
    assert_eq!(g.cursor.y, 1);
    assert_eq!(g.tiles.get(1, 0).c, None);
}

#[test]
fn tile_face_swaps_exactly_once_per_flip() {
    let mut g = game_with("crane", &["crane", "lemon"]);
    type_word(&mut g, "LEMON");
    g.tick(Some(InputKey::Return), 0);
    assert!(!g.tiles.get(0, 0).revealed);
    // cross the midpoint of the first flip
    g.tick(None, FLIP_ANIM_MS / 2 + 1);
    assert!(g.tiles.get(0, 0).revealed);
    assert!(!g.tiles.get(0, 1).revealed);
}

#[test]
fn end_to_end_win_scenario() {
    let mut g = game_with("crane", &["crane", "lemon"]);
    // "hello" is not in the dictionary: rejected, row unchanged
    type_word(&mut g, "HELLO");
    let ev = g.tick(Some(InputKey::Return), 0);
    assert_eq!(ev.invalid.len(), 1);
    assert_eq!(g.cursor.y, 0);
    for _ in 0..5 {
        g.tick(Some(InputKey::Back), 0);
    }
    // "crane" is the target: every verdict Correct, the game is won,
    // and the cursor does not move to a further row
    type_word(&mut g, "CRANE");
    let ev = g.tick(Some(InputKey::Return), 0);
    assert_eq!(ev.guesses.len(), 1);
    assert_eq!(ev.guesses[0].correctness, [TileType::Correct; 5]);
    assert_eq!(ev.wins.len(), 1);
    let w: String = ev.wins[0].word.iter().collect();
    assert_eq!(w, "crane");
    assert_eq!(ev.wins[0].row, 0);
    assert_eq!(g.cursor.y, 0);
    // the reveal chain finishes and starts the victory wave
    let evs = drain_animations(&mut g);
    let finishes: usize = evs.iter().map(|e| e.end_flips.len()).sum();
    assert_eq!(finishes, 1);
    assert!(!g.pause.paused());
}

#[test]
fn victory_wave_starts_only_on_winning_reveal() {
    let mut g = game_with("crane", &["crane", "lemon"]);
    type_word(&mut g, "LEMON");
    g.tick(Some(InputKey::Return), 0);
    drain_animations(&mut g);
    assert!(g.wave.is_none());

    let mut g = game_with("crane", &["crane"]);
    type_word(&mut g, "CRANE");
    g.tick(Some(InputKey::Return), 0);
    // tick the five flips through, then the wave must be live
    let mut seen_wave = false;
    for _ in 0..8 {
        g.tick(None, FLIP_ANIM_MS + 1);
        if g.wave.is_some() {
            seen_wave = true;
        }
    }
    assert!(seen_wave);
}

#[test]
fn board_exhaustion_stops_input() {
    let mut g = game_with("crane", &["crane", "lemon"]);
    for row in 0..6 {
        assert_eq!(g.cursor.y, row);
        type_word(&mut g, "LEMON");
        g.tick(Some(InputKey::Return), 0);
        drain_animations(&mut g);
    }
    assert_eq!(g.cursor.y, 6);
    // out of guesses: keys do nothing now
    let ev = g.tick(Some(InputKey::Letter('A')), 0);
    assert_eq!(ev.typed.len(), 0);
    assert_eq!(g.cursor.y, 6);
    assert_eq!(g.cursor.x, 0);
}

#[test]
fn new_game_draws_target_from_dictionary() {
    let dic = WordDic(vec!["crane".to_string()]);
    let g = GameState::new(dic);
    assert_eq!(g.word.0, "crane");
    assert_eq!(g.cursor.x, 0);
    assert_eq!(g.cursor.y, 0);
    assert!(!g.pause.paused());

    let words = ["crane", "lemon", "slips", "mints"];
    let dic = WordDic(words.iter().map(|w| w.to_string()).collect());
    let g = GameState::new(dic);
    assert!(words.contains(&g.word.0.as_str()));
}

#[test]
fn entry_bounce_attaches_and_expires() {
    let mut g = game_with("crane", &["crane"]);
    g.tick(Some(InputKey::Letter('C')), 0);
    assert_eq!(g.jumps.len(), 1);
    assert_eq!((g.jumps[0].x, g.jumps[0].y), (0, 0));
    g.tick(None, 30);
    assert_eq!(g.jumps.len(), 1);
    assert_eq!(g.jumps[0].anim.d, 30);
    g.tick(None, 200);
    assert_eq!(g.jumps.len(), 0);
}

#[test]
fn pause_token_counts_locks() {
    let mut p = Pause::new();
    assert!(!p.paused());
    let a = p.lock();
    assert!(p.paused());
    let b = p.clone_lock(&a);
    p.release(a);
    assert!(p.paused());
    p.release(b);
    assert!(!p.paused());
}
