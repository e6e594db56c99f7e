use astrocards::flashcards::Flashcard;
use astrocards::game::{Game, GameScreen};
use astrocards::learn::{is_taken, probe, ChoiceDraws, LearnState, DISPLAY_CORRECT_ANS_TIMER};

fn card(name: &str) -> Flashcard {
    Flashcard::new(&format!("q-{name}"), name)
}

fn cards(names: &[&str]) -> Vec<Flashcard> {
    names.iter().map(|n| card(n)).collect()
}

fn draws(slot: u32, first: u32, second: u32, third: u32) -> ChoiceDraws {
    ChoiceDraws { slot, first, second, third }
}

fn zero() -> ChoiceDraws {
    draws(0, 0, 0, 0)
}

fn session(pool: &[&str], mcq: &[&str], frq: &[&str]) -> LearnState {
    LearnState::with_decks(&cards(pool), cards(mcq), cards(frq)).unwrap()
}

fn current(state: &LearnState) -> String {
    state.get_flashcard().unwrap().answer
}

fn answer(state: &mut LearnState, ans: &str) {
    state.submit(ans);
    state.update_with(DISPLAY_CORRECT_ANS_TIMER, &zero());
}

#[test]
fn a_session_starts_with_nothing_done() {
    let s = session(&["a", "b", "c"], &["b", "a", "c"], &["c", "a", "b", "a", "b", "c"]);
    assert_eq!(s.percent(), 0);
    assert_eq!(s.size(), 9);
    assert_eq!(s.mcq_len(), 3);
    assert_eq!(s.frq_len(), 6);
    assert_eq!(current(&s), "b");
    assert!(s.mcq_ans().is_empty());
    assert!(!s.display_correct());
    assert_eq!(s.answer(), "");
}

#[test]
fn all_correct_answers_complete_the_session() {
    let mut s = session(&["a", "b", "c"], &["b", "a", "c"], &["c", "a", "b", "a", "b", "c"]);
    let mut asked = Vec::new();
    let mut last = 0;
    for round in 1..=9usize {
        let ans = current(&s);
        asked.push(ans.clone());
        answer(&mut s, &ans);
        assert_eq!(s.mcq_len() + s.frq_len(), 9 - round);
        assert!(s.percent() > last);
        last = s.percent();
    }
    assert_eq!(asked, vec!["b", "a", "c", "c", "a", "b", "a", "b", "c"]);
    assert_eq!(s.percent(), 1_000_000);
    assert_eq!(s.mcq_len(), 0);
    assert_eq!(s.frq_len(), 0);
    assert!(s.get_flashcard().is_none());
}

#[test]
fn the_share_done_is_rounded_down() {
    let mut s = session(&["a", "b", "c"], &["b", "a", "c"], &["c", "a", "b", "a", "b", "c"]);
    answer(&mut s, "b");
    assert_eq!(s.percent(), 111_111);
    answer(&mut s, "a");
    assert_eq!(s.percent(), 222_222);
    answer(&mut s, "c");
    assert_eq!(s.percent(), 333_333);
}

#[test]
fn a_wrong_choice_sends_the_card_to_the_back() {
    let mut s = session(&["a", "b", "c"], &["a", "b", "c"], &["a", "b"]);
    answer(&mut s, "b");
    assert_eq!(s.mcq_len(), 3);
    assert_eq!(s.frq_len(), 2);
    assert_eq!(s.percent(), 0);
    assert_eq!(current(&s), "b");
    answer(&mut s, "b");
    assert_eq!(s.mcq_len(), 2);
    assert_eq!(current(&s), "c");
    answer(&mut s, "c");
    assert_eq!(current(&s), "a");
    assert_eq!(s.mcq_len(), 1);
    answer(&mut s, "a");
    assert_eq!(s.mcq_len(), 0);
    assert_eq!(s.frq_len(), 2);
}

#[test]
fn a_wrong_free_response_sends_the_card_to_the_back() {
    let mut s = session(&["a", "b"], &[], &["a", "b", "a"]);
    assert!(s.mcq_ans().is_empty());
    answer(&mut s, "nope");
    assert_eq!(s.frq_len(), 3);
    assert_eq!(current(&s), "b");
    answer(&mut s, "");
    assert_eq!(s.frq_len(), 3);
    assert_eq!(current(&s), "a");
    answer(&mut s, "a");
    assert_eq!(s.frq_len(), 2);
    assert_eq!(current(&s), "a");
    answer(&mut s, "a");
    assert_eq!(current(&s), "b");
    answer(&mut s, "B");
    assert_eq!(s.frq_len(), 1);
    answer(&mut s, "b");
    assert_eq!(s.frq_len(), 0);
    assert_eq!(s.percent(), 1_000_000);
}

#[test]
fn queue_length_only_drops_on_correct_answers() {
    let mut s = session(&["a", "b", "c"], &["a", "b", "c"], &["c", "b", "a", "a", "b", "c"]);
    let guesses = ["x", "b", "c", "a", "a", "q", "b", "c", "c", "b", "", "a", "a", "b", "b", "c"];
    for guess in guesses {
        let left = s.mcq_len() + s.frq_len();
        let done = s.percent();
        let right = s.get_flashcard().map(|c| c.answer == guess).unwrap_or(false);
        answer(&mut s, guess);
        let now = s.mcq_len() + s.frq_len();
        if right {
            assert_eq!(now, left - 1);
        } else {
            assert_eq!(now, left);
        }
        assert!(s.percent() >= done);
        assert_eq!(s.size(), 9);
    }
}

#[test]
fn an_answer_is_resolved_only_after_its_time_to_show() {
    let mut s = session(&["a", "b"], &["a", "b"], &[]);
    s.submit("a");
    assert!(s.display_correct());
    assert_eq!(s.answer(), "a");
    s.update_with(1_000_000, &zero());
    assert!(s.display_correct());
    assert_eq!(s.mcq_len(), 2);
    s.update_with(499_999, &zero());
    assert!(s.display_correct());
    assert_eq!(s.mcq_len(), 2);
    s.update_with(1, &zero());
    assert!(!s.display_correct());
    assert_eq!(s.mcq_len(), 1);
    assert_eq!(s.answer(), "");
    assert_eq!(current(&s), "b");
}

#[test]
fn a_second_submission_waits_its_turn() {
    let mut s = session(&["a", "b"], &["a", "b"], &[]);
    s.submit("wrong");
    s.update_with(1_000_000, &zero());
    s.submit("a");
    assert_eq!(s.answer(), "wrong");
    s.update_with(500_000, &zero());
    assert_eq!(s.mcq_len(), 2);
    assert_eq!(current(&s), "b");
    s.submit("b");
    assert_eq!(s.answer(), "b");
    assert!(s.display_correct());
}

#[test]
fn time_passes_without_effect_while_nothing_is_submitted() {
    let mut s = session(&["a"], &["a"], &["a"]);
    s.update_with(u64::MAX, &zero());
    assert_eq!(s.mcq_len(), 1);
    assert_eq!(s.frq_len(), 1);
    assert!(!s.display_correct());
    assert!(s.mcq_ans().is_empty());
}

#[test]
fn choices_hold_the_answer_at_its_place_and_three_others() {
    let mut s = session(&["a", "b", "c", "d", "e"], &["c", "a"], &[]);
    s.set_mcq_ans_with(&draws(1, 0, 0, 2));
    assert_eq!(s.mcq_ans(), &vec!["a", "c", "b", "d"]);
    s.set_mcq_ans_with(&draws(7, 4, 9, 3));
    assert_eq!(s.mcq_ans(), &vec!["e", "a", "d", "c"]);
    s.set_mcq_ans_with(&draws(4, 2, 2, 2));
    assert_eq!(s.mcq_ans(), &vec!["c", "d", "e", "a"]);
    s.set_mcq_ans_with(&draws(u32::MAX, u32::MAX, u32::MAX - 1, 0));
    assert_eq!(s.mcq_ans(), &vec!["a", "e", "b", "c"]);
}

#[test]
fn choices_repeat_when_the_pool_is_too_small() {
    let mut one = session(&["a"], &["a"], &[]);
    one.set_mcq_ans_with(&draws(2, 5, 6, 7));
    assert_eq!(one.mcq_ans(), &vec!["a", "a", "a", "a"]);
    let mut two = session(&["a", "b"], &["a"], &[]);
    two.set_mcq_ans_with(&draws(0, 0, 0, 1));
    assert_eq!(two.mcq_ans(), &vec!["a", "b", "a", "b"]);
    let mut same = session(&["a", "a", "b", "a"], &["b"], &[]);
    same.set_mcq_ans_with(&draws(3, 1, 1, 1));
    assert_eq!(same.mcq_ans(), &vec!["a", "a", "a", "b"]);
}

#[test]
fn there_are_no_choices_outside_the_multiple_choice_phase() {
    let mut s = session(&["a", "b"], &["a"], &["b"]);
    s.set_mcq_ans_with(&zero());
    assert_eq!(s.mcq_ans().len(), 4);
    answer(&mut s, "a");
    assert!(s.mcq_ans().is_empty());
    s.set_mcq_ans_with(&draws(1, 2, 3, 4));
    assert!(s.mcq_ans().is_empty());
    s.set_mcq_ans();
    assert!(s.mcq_ans().is_empty());
}

#[test]
fn resolving_a_choice_builds_the_next_choices() {
    let mut s = session(&["a", "b", "c", "d"], &["a", "b"], &[]);
    s.submit("a");
    s.update_with(DISPLAY_CORRECT_ANS_TIMER, &draws(2, 0, 0, 0));
    assert_eq!(current(&s), "b");
    assert_eq!(s.mcq_ans(), &vec!["a", "c", "b", "d"]);
}

#[test]
fn random_choices_hold_the_answer() {
    let mut s = session(&["a", "b", "c", "d", "e", "f"], &["d"], &[]);
    for _ in 0..100 {
        s.set_mcq_ans();
        let c = s.mcq_ans().clone();
        assert_eq!(c.len(), 4);
        assert_eq!(c.iter().filter(|x| x.as_str() == "d").count(), 1);
        for (i, x) in c.iter().enumerate() {
            assert!(["a", "b", "c", "d", "e", "f"].contains(&x.as_str()));
            assert!(!c[..i].contains(x));
        }
    }
}

#[test]
fn an_answer_is_taken_if_it_is_the_correct_one_or_chosen() {
    let chosen = vec!["x".to_string(), "y".to_string()];
    let answer = "z".to_string();
    assert!(is_taken(&chosen, &answer, &"x".to_string()));
    assert!(is_taken(&chosen, &answer, &"y".to_string()));
    assert!(is_taken(&chosen, &answer, &"z".to_string()));
    assert!(!is_taken(&chosen, &answer, &"w".to_string()));
    assert!(!is_taken(&vec![], &answer, &"".to_string()));
}

#[test]
fn the_search_goes_round_the_pool_at_most_once() {
    let pool = cards(&["a", "b", "c"]);
    let none: Vec<String> = vec![];
    let a = "a".to_string();
    assert_eq!(probe(&pool, &none, &a, 0), 1);
    assert_eq!(probe(&pool, &none, &a, 1), 1);
    assert_eq!(probe(&pool, &none, &a, 2), 2);
    assert_eq!(probe(&pool, &none, &a, 3), 1);
    assert_eq!(probe(&pool, &vec!["c".to_string()], &a, 2), 1);
    let all = vec!["b".to_string(), "c".to_string()];
    assert_eq!(probe(&pool, &all, &a, 0), 0);
    assert_eq!(probe(&pool, &all, &a, 1), 1);
    assert_eq!(probe(&pool, &all, &a, 5), 2);
}

#[test]
fn an_empty_session_is_complete() {
    let mut s = LearnState::empty();
    assert_eq!(s.percent(), 1_000_000);
    assert_eq!(s.size(), 0);
    assert!(s.get_flashcard().is_none());
    s.set_mcq_ans();
    assert!(s.mcq_ans().is_empty());
    s.submit("x");
    assert!(s.display_correct());
    s.update(DISPLAY_CORRECT_ANS_TIMER);
    assert!(!s.display_correct());
    assert_eq!(s.answer(), "");
    assert_eq!(s.percent(), 1_000_000);
}

#[test]
fn decks_must_fit_the_pool() {
    assert!(LearnState::with_decks(&[], cards(&["a"]), vec![]).is_none());
    assert!(LearnState::with_decks(&[], vec![], cards(&["a"])).is_some());
    assert!(LearnState::with_decks(&[], vec![], vec![]).is_some());
    assert!(LearnState::with_decks(&cards(&["a"]), cards(&["b", "c"]), vec![]).is_some());
}

#[test]
fn a_new_session_holds_each_card_once_and_then_twice() {
    let pool = cards(&["a", "b", "c", "d", "e"]);
    let mut reordered = 0;
    for _ in 0..20 {
        let mut s = LearnState::new(&pool);
        assert_eq!(s.size(), 15);
        assert_eq!(s.mcq_len(), 5);
        assert_eq!(s.frq_len(), 10);
        assert_eq!(s.percent(), 0);
        assert!(s.mcq_ans().is_empty());
        let mut asked = Vec::new();
        while let Some(c) = s.get_flashcard() {
            assert_eq!(c.question, format!("q-{}", c.answer));
            asked.push(c.answer.clone());
            s.submit(&c.answer);
            s.update(DISPLAY_CORRECT_ANS_TIMER);
        }
        assert_eq!(asked.len(), 15);
        for part in asked.chunks(5) {
            let mut sorted = part.to_vec();
            sorted.sort();
            assert_eq!(sorted, vec!["a", "b", "c", "d", "e"]);
            if part != sorted.as_slice() {
                reordered += 1;
            }
        }
        assert_eq!(s.percent(), 1_000_000);
    }
    assert!(reordered > 0);
}

#[test]
fn a_new_session_of_no_cards_is_complete() {
    let s = LearnState::new(&[]);
    assert_eq!(s.size(), 0);
    assert_eq!(s.percent(), 1_000_000);
    assert!(s.get_flashcard().is_none());
}

#[test]
fn random_draws_can_be_drawn() {
    let d = ChoiceDraws::random();
    assert_eq!(d.pick_at(0), if d.slot % 4 == 0 { d.first } else { d.first });
    let e = draws(2, 10, 11, 12);
    assert_eq!(e.pick_at(0), 10);
    assert_eq!(e.pick_at(1), 11);
    assert_eq!(e.pick_at(3), 12);
    let f = draws(0, 10, 11, 12);
    assert_eq!(f.pick_at(1), 10);
    assert_eq!(f.pick_at(2), 11);
    assert_eq!(f.pick_at(3), 12);
}

#[test]
fn the_game_starts_a_fresh_session_over_its_pool() {
    let mut g = Game::new();
    g.flashcards = cards(&["a", "b", "c"]);
    g.score = 42;
    g.start_learning();
    assert_eq!(g.current_screen, GameScreen::Learn);
    assert_eq!(g.learn_state.size(), 9);
    assert_eq!(g.learn_state.mcq_len(), 3);
    assert_eq!(g.learn_state.frq_len(), 6);
    assert_eq!(g.learn_state.percent(), 0);
    assert_eq!(g.score, 42);
    assert_eq!(g.flashcards.len(), 3);
    let head = g.learn_state.get_flashcard().unwrap().answer;
    let choices = g.learn_state.mcq_ans().clone();
    assert_eq!(choices.len(), 4);
    assert!(choices.contains(&head));
    g.learn_state.submit(&head);
    g.learn_state.update(DISPLAY_CORRECT_ANS_TIMER);
    assert_eq!(g.learn_state.mcq_len(), 2);
    g.start_learning();
    assert_eq!(g.learn_state.mcq_len(), 3);
    assert_eq!(g.learn_state.answer(), "");
}

#[test]
fn a_session_over_an_empty_pool_is_complete_at_once() {
    let mut g = Game::new();
    g.start_learning();
    assert_eq!(g.current_screen, GameScreen::Learn);
    assert_eq!(g.learn_state.size(), 0);
    assert_eq!(g.learn_state.percent(), 1_000_000);
    assert!(g.learn_state.mcq_ans().is_empty());
}
