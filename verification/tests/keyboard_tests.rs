use wordle::anim::FLIP_ANIM_MS;
use wordle::components::TileType::{Close, Correct, Wrong};
use wordle::components::{Cursor, Pause, TileMap, Word, WordDic};
use wordle::events::Guess;
use wordle::game::{GameState, InputKey};
use wordle::keyboard::{color_keyboard, set_keyboard_color, setup_keyboard, Key};

fn guess(word: &str, correctness: [wordle::components::TileType; 5]) -> Guess {
    Guess { word: word.chars().collect(), correctness, row: 0 }
}

fn stored(keys: &[Key], letter: char) -> wordle::components::TileType {
    keys.iter().find(|k| k.key == letter).unwrap().tt
}

fn shown(keys: &[Key], letter: char) -> wordle::components::TileType {
    keys.iter().find(|k| k.key == letter).unwrap().shown
}

#[test]
fn keyboard_has_26_uninformed_keys() {
    let keys = setup_keyboard();
    assert_eq!(keys.len(), 26);
    for k in &keys {
        assert_eq!(k.tt, wordle::components::TileType::Default);
        assert_eq!(k.shown, wordle::components::TileType::Default);
    }
    assert_eq!(keys[0].key, 'Q');
    assert_eq!(keys[25].key, 'M');
}

#[test]
fn aggregator_upgrades_but_never_downgrades() {
    let mut keys = setup_keyboard();
    set_keyboard_color(&mut keys, &guess("lemon", [Wrong, Close, Wrong, Wrong, Close]));
    assert_eq!(stored(&keys, 'E'), Close);
    assert_eq!(stored(&keys, 'L'), Wrong);
    // a later guess with better information upgrades
    set_keyboard_color(&mut keys, &guess("crane", [Correct, Wrong, Wrong, Wrong, Correct]));
    assert_eq!(stored(&keys, 'E'), Correct);
    assert_eq!(stored(&keys, 'C'), Correct);
    // worse information afterwards never downgrades a Correct
    set_keyboard_color(&mut keys, &guess("ceden", [Close, Wrong, Wrong, Close, Wrong]));
    assert_eq!(stored(&keys, 'C'), Correct);
    assert_eq!(stored(&keys, 'E'), Correct);
    // and Wrong never overwrites Close
    set_keyboard_color(&mut keys, &guess("llama", [Wrong, Wrong, Wrong, Wrong, Wrong]));
    assert_eq!(stored(&keys, 'L'), Wrong);
}

#[test]
fn first_occurrence_of_letter_decides() {
    let mut keys = setup_keyboard();
    // 'p' appears three times; the verdict at its first occurrence counts
    set_keyboard_color(&mut keys, &guess("ppplp", [Wrong, Wrong, Wrong, Correct, Wrong]));
    assert_eq!(stored(&keys, 'P'), Wrong);
}

#[test]
fn displayed_color_lags_until_repaint() {
    let mut keys = setup_keyboard();
    set_keyboard_color(&mut keys, &guess("crane", [Correct; 5]));
    assert_eq!(stored(&keys, 'C'), Correct);
    assert_eq!(shown(&keys, 'C'), wordle::components::TileType::Default);
    color_keyboard(&mut keys);
    assert_eq!(shown(&keys, 'C'), Correct);
}

#[test]
fn keyboard_recolors_in_lockstep_with_reveal() {
    let mut g = GameState {
        word: Word("crane".to_string()),
        dic: WordDic(vec!["crane".to_string()]),
        cursor: Cursor { x: 0, y: 0 },
        tiles: TileMap::null(),
        pause: Pause::new(),
        keys: setup_keyboard(),
        reveal: None,
        wave: None,
        shake: None,
        jumps: vec![],
    };
    for c in "CRANE".chars() {
        g.tick(Some(InputKey::Letter(c)), 0);
    }
    g.tick(Some(InputKey::Return), 0);
    // informed immediately, displayed only after the reveal finishes
    assert_eq!(stored(&g.keys, 'C'), Correct);
    assert_eq!(shown(&g.keys, 'C'), wordle::components::TileType::Default);
    let mut finished = false;
    for _ in 0..8 {
        let ev = g.tick(None, FLIP_ANIM_MS + 1);
        if !finished {
            finished = ev.end_flips.len() > 0;
            if !finished {
                assert_eq!(shown(&g.keys, 'C'), wordle::components::TileType::Default);
            }
        }
    }
    assert!(finished);
    assert_eq!(shown(&g.keys, 'C'), Correct);
}
