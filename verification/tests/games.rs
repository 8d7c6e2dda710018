use stim::guessing_game::{Answer, GameState, Hint};
use stim::typing_game::GameState as TypingGame;

fn find_secret(game: &mut GameState) -> Vec<u32> {
    let mut found = Vec::new();
    for n in 0..=200u32 {
        if game.guess(n).is_true {
            found.push(n);
        }
    }
    found
}

#[test]
fn new_answer_is_neither_true_nor_bigger() {
    let answer = Answer::new();
    assert!(!answer.is_true);
    assert!(!answer.is_bigger);
    assert_eq!(answer, Answer { is_true: false, is_bigger: false });
}

#[test]
fn guess_compares_with_the_secret() {
    let mut game = GameState::with_secret(42);
    assert_eq!(game.guess(42), Answer { is_true: true, is_bigger: false });
    assert_eq!(game.guess(43), Answer { is_true: false, is_bigger: true });
    assert_eq!(game.guess(99), Answer { is_true: false, is_bigger: true });
    assert_eq!(game.guess(41), Answer { is_true: false, is_bigger: false });
    assert_eq!(game.guess(0), Answer { is_true: false, is_bigger: false });
}

#[test]
fn new_game_is_blank() {
    let game = GameState::with_secret(7);
    assert_eq!(game.digit_10(), None);
    assert_eq!(game.digit_1(), None);
    assert_eq!(game.message(), Hint::Blank);
    assert_eq!(game.selected(), 0);
    assert_eq!(game.entered_number(), None);
}

#[test]
fn random_secret_lies_from_1_to_99() {
    for _ in 0..300 {
        let mut game = GameState::new();
        let found = find_secret(&mut game);
        assert_eq!(found.len(), 1);
        assert!(1 <= found[0] && found[0] <= 99);
        assert_eq!(game.message(), Hint::Blank);
        assert_eq!(game.entered_number(), None);
    }
}

#[test]
fn random_secrets_differ() {
    let mut seen = Vec::new();
    for _ in 0..300 {
        let secret = find_secret(&mut GameState::new())[0];
        if !seen.contains(&secret) {
            seen.push(secret);
        }
    }
    assert!(seen.len() > 1);
}

#[test]
fn reload_clears_the_game() {
    let mut game = GameState::with_secret(50);
    game.enter_digit(5);
    game.select(1);
    game.enter_digit(0);
    game.sub_guess();
    assert_eq!(game.message(), Hint::Correct);
    game.reload();
    assert_eq!(game.digit_10(), None);
    assert_eq!(game.digit_1(), None);
    assert_eq!(game.message(), Hint::Blank);
    assert_eq!(game.selected(), 0);
    let found = find_secret(&mut game);
    assert_eq!(found.len(), 1);
    assert!(1 <= found[0] && found[0] <= 99);
}

#[test]
fn digits_go_to_the_selected_box() {
    let mut game = GameState::with_secret(10);
    game.enter_digit(3);
    assert_eq!((game.digit_10(), game.digit_1()), (Some(3), None));
    game.enter_digit(4);
    assert_eq!((game.digit_10(), game.digit_1()), (Some(4), None));
    game.select(1);
    assert_eq!(game.selected(), 1);
    game.enter_digit(9);
    assert_eq!((game.digit_10(), game.digit_1()), (Some(4), Some(9)));
    assert_eq!(game.entered_number(), Some(49));
}

#[test]
fn boxes_spell_a_number_side_by_side() {
    let mut game = GameState::with_secret(10);
    game.enter_digit(7);
    assert_eq!(game.entered_number(), Some(7));
    let mut game = GameState::with_secret(10);
    game.select(1);
    game.enter_digit(8);
    assert_eq!(game.entered_number(), Some(8));
    game.select(0);
    game.enter_digit(0);
    assert_eq!(game.entered_number(), Some(8));
}

#[test]
fn sub_guess_gives_the_hint() {
    let mut game = GameState::with_secret(42);
    game.enter_digit(5);
    game.sub_guess();
    assert_eq!(game.message(), Hint::Bigger);
    game.select(1);
    game.enter_digit(0);
    game.sub_guess();
    assert_eq!(game.message(), Hint::Smaller);
    game.select(0);
    game.enter_digit(4);
    game.select(1);
    game.enter_digit(2);
    game.sub_guess();
    assert_eq!(game.message(), Hint::Correct);
}

#[test]
fn sub_guess_with_empty_boxes_changes_nothing() {
    let mut game = GameState::with_secret(42);
    game.sub_guess();
    assert_eq!(game.message(), Hint::Blank);
    assert_eq!(game.entered_number(), None);
}

#[test]
fn typing_game_begins_with_the_last_word() {
    let game = TypingGame::new();
    assert_eq!(game.current_word, "cherry");
    assert_eq!(game.word_list, vec!["apple".to_string(), "banana".to_string()]);
    assert_eq!(game.progress, 0);
}

#[test]
fn typing_targets_are_three_words() {
    assert_eq!(
        TypingGame::new_targets(),
        vec!["apple".to_string(), "banana".to_string(), "cherry".to_string()]
    );
}

#[test]
fn right_letter_moves_on() {
    let mut game = TypingGame::new();
    game.judge_input("c");
    assert_eq!(game.progress, 1);
    game.judge_input("h");
    assert_eq!(game.progress, 2);
    assert_eq!(game.current_word, "cherry");
}

#[test]
fn wrong_key_changes_nothing() {
    let mut game = TypingGame::new();
    for key in ["h", "C", "", "ch", "enter", "c "] {
        game.judge_input(key);
        assert_eq!(game.progress, 0);
        assert_eq!(game.current_word, "cherry");
        assert_eq!(game.word_list.len(), 2);
    }
}

#[test]
fn finished_word_brings_the_next() {
    let mut game = TypingGame::new();
    for key in ["c", "h", "e", "r", "r", "y"] {
        game.judge_input(key);
    }
    assert_eq!(game.current_word, "banana");
    assert_eq!(game.progress, 0);
    assert_eq!(game.word_list, vec!["apple".to_string()]);
}

#[test]
fn last_word_leaves_the_empty_word() {
    let mut game = TypingGame::new();
    for key in "cherrybananaapple".chars() {
        game.judge_input(&key.to_string());
    }
    assert_eq!(game.current_word, "");
    assert_eq!(game.progress, 0);
    assert!(game.word_list.is_empty());
    game.judge_input("a");
    assert_eq!(game.current_word, "");
    assert_eq!(game.progress, 0);
}

#[test]
fn typing_counts_letters_not_bytes() {
    let mut game = TypingGame {
        word_list: vec!["ok".to_string()],
        current_word: "né".to_string(),
        progress: 0,
    };
    game.judge_input("n");
    assert_eq!(game.progress, 1);
    game.judge_input("é");
    assert_eq!(game.current_word, "ok");
    assert_eq!(game.progress, 0);
}
