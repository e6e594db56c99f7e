//! The flashcard: a question and its answer.

use vstd::prelude::*;

verus! {

/// What a flashcard says, as two sequences of characters.
pub ghost struct FlashcardView {
    pub question: Seq<char>,
    pub answer: Seq<char>,
}

/// A question and the answer that destroys the asteroid carrying it.
#[derive(Debug)]
pub struct Flashcard {
    pub question: String,
    pub answer: String,
}

impl View for Flashcard {
    type V = FlashcardView;

    open spec fn view(&self) -> FlashcardView {
        FlashcardView { question: self.question@, answer: self.answer@ }
    }
}

impl Clone for Flashcard {
    fn clone(&self) -> (card: Self)
        ensures
            card == *self,
    {
        Flashcard { question: self.question.clone(), answer: self.answer.clone() }
    }
}

/// The views of a sequence of cards, in order.
pub open spec fn card_views(cards: Seq<Flashcard>) -> Seq<FlashcardView> {
    Seq::new(cards.len(), |i: int| cards[i]@)
}

/// The card that stands in where a deck has none to give.
pub open spec fn none_card() -> FlashcardView {
    FlashcardView { question: "None"@, answer: "None"@ }
}

/// The cards that a list of names and values stands for: each name is a
/// question and its value the answer.
pub open spec fn cards_of_vars(vars: Seq<(String, String)>) -> Seq<FlashcardView> {
    Seq::new(vars.len(), |i: int| FlashcardView { question: vars[i].0@, answer: vars[i].1@ })
}

/// The cards of a file: those of its entries' lists, one entry after
/// another.
pub open spec fn cards_of_file(entries: Seq<Vec<(String, String)>>) -> Seq<FlashcardView>
    decreases entries.len(),
{
    if entries.len() == 0 {
        Seq::empty()
    } else {
        cards_of_file(entries.drop_last()) + cards_of_vars(entries.last()@)
    }
}

/// The cards of several files, one file after another.
pub open spec fn cards_of_files(files: Seq<Vec<Vec<(String, String)>>>) -> Seq<FlashcardView>
    decreases files.len(),
{
    if files.len() == 0 {
        Seq::empty()
    } else {
        cards_of_files(files.drop_last()) + cards_of_file(files.last()@)
    }
}

impl Flashcard {
    /// The stand-in card, whose question and answer both read "None".
    pub fn none() -> (card: Self)
        ensures
            card@ == none_card(),
    {
        Flashcard { question: "None".to_string(), answer: "None".to_string() }
    }

    /// A card with the given question and answer.
    pub fn new(q: &str, a: &str) -> (card: Self)
        ensures
            card@.question == q@,
            card@.answer == a@,
    {
        Flashcard { question: q.to_string(), answer: a.to_string() }
    }
}

/// Adds to `cards` the cards that `vars` stands for.
fn push_vars(cards: &mut Vec<Flashcard>, vars: &Vec<(String, String)>)
    ensures
        card_views(final(cards)@) == card_views(old(cards)@) + cards_of_vars(vars@),
{
    let ghost before = card_views(cards@);
    let mut i: usize = 0;
    assert(card_views(cards@) =~= before + cards_of_vars(vars@).take(0));
    while i < vars.len()
        invariant
            i <= vars.len(),
            card_views(cards@) == before + cards_of_vars(vars@).take(i as int),
        decreases vars.len() - i,
    {
        let ghost so_far = card_views(cards@);
        let card = Flashcard::new(vars[i].0.as_str(), vars[i].1.as_str());
        cards.push(card);
        assert(card_views(cards@) =~= so_far.push(card@));
        assert(card_views(cards@) =~= before + cards_of_vars(vars@).take(i + 1));
        i = i + 1;
    }
    assert(cards_of_vars(vars@).take(i as int) =~= cards_of_vars(vars@));
}

/// Adds to `cards` the cards of a file.
fn push_file(cards: &mut Vec<Flashcard>, entries: &Vec<Vec<(String, String)>>)
    ensures
        card_views(final(cards)@) == card_views(old(cards)@) + cards_of_file(entries@),
{
    let ghost before = card_views(cards@);
    let mut i: usize = 0;
    assert(entries@.take(0) =~= Seq::empty());
    assert(card_views(cards@) =~= before + cards_of_file(entries@.take(0)));
    while i < entries.len()
        invariant
            i <= entries.len(),
            card_views(cards@) == before + cards_of_file(entries@.take(i as int)),
        decreases entries.len() - i,
    {
        let ghost so_far = cards_of_file(entries@.take(i as int));
        push_vars(cards, &entries[i]);
        proof {
            assert(entries@.take(i + 1).drop_last() =~= entries@.take(i as int));
            assert(card_views(cards@) =~= before + (so_far + cards_of_vars(entries@[i as int]@)));
        }
        i = i + 1;
    }
    assert(entries@.take(i as int) =~= entries@);
}

/// The cards of one file, given as its entries: each entry is a list of
/// names and values, each name a question and its value the answer. They
/// come in the order of the file.
pub fn load_flashcards_from_file(entries: &Vec<Vec<(String, String)>>) -> (cards: Vec<Flashcard>)
    ensures
        card_views(cards@) == cards_of_file(entries@),
{
    let mut cards: Vec<Flashcard> = Vec::new();
    assert(card_views(cards@) =~= Seq::empty());
    push_file(&mut cards, entries);
    assert(card_views(cards@) =~= cards_of_file(entries@));
    cards
}

/// The cards of several files, each given as its entries, one file after
/// another.
pub fn load_flashcards(files: &Vec<Vec<Vec<(String, String)>>>) -> (cards: Vec<Flashcard>)
    ensures
        card_views(cards@) == cards_of_files(files@),
{
    let mut cards: Vec<Flashcard> = Vec::new();
    let mut i: usize = 0;
    assert(files@.take(0) =~= Seq::empty());
    assert(card_views(cards@) =~= cards_of_files(files@.take(0)));
    while i < files.len()
        invariant
            i <= files.len(),
            card_views(cards@) == cards_of_files(files@.take(i as int)),
        decreases files.len() - i,
    {
        push_file(&mut cards, &files[i]);
        proof {
            assert(files@.take(i + 1).drop_last() =~= files@.take(i as int));
        }
        i = i + 1;
    }
    assert(files@.take(i as int) =~= files@);
    cards
}

} // verus!
