//! The learning scheduler: the deck goes through a multiple-choice phase,
//! then twice through a free-response phase. A card that is answered
//! correctly leaves its queue; one that is answered wrongly goes to the
//! back of it.

use std::collections::VecDeque;
use vstd::arithmetic::div_mod::{lemma_add_mod_noop, lemma_small_mod};
use vstd::prelude::*;
use crate::flashcards::{card_views, Flashcard, FlashcardView};
use crate::random::{random_u32, shuffle};
use crate::units::{lemma_share_of_grows, share, share_of, WHOLE};

verus! {

/// How long the correct answer is shown after a submission.
pub const DISPLAY_CORRECT_ANS_TIMER: u64 = 1_500_000;

/// How many answers a multiple-choice question offers.
pub const CHOICES: u32 = 4;

/// The views of a sequence of strings, in order.
pub open spec fn string_views(s: Seq<String>) -> Seq<Seq<char>> {
    Seq::new(s.len(), |i: int| s[i]@)
}

/// What chance decides of one set of choices, as it was drawn.
#[derive(Clone, Copy, Debug, PartialEq, Eq, Structural)]
pub struct ChoiceDraws {
    /// Decides which choice is the correct answer.
    pub slot: u32,
    /// Where in the pool the search for the first wrong answer starts.
    pub first: u32,
    /// The same for the second wrong answer.
    pub second: u32,
    /// The same for the third wrong answer.
    pub third: u32,
}

impl ChoiceDraws {
    /// The place of the correct answer among the choices.
    pub open spec fn correct_slot(self) -> int {
        self.slot as int % CHOICES as int
    }

    /// The draw for the wrong answer at place `i`: the wrong answers use
    /// the draws in order.
    pub open spec fn pick(self, i: int) -> u32 {
        let k = if i < self.correct_slot() {
            i
        } else {
            i - 1
        };
        if k <= 0 {
            self.first
        } else if k == 1 {
            self.second
        } else {
            self.third
        }
    }

    /// The draw for the wrong answer at place `i`.
    pub fn pick_at(&self, i: u32) -> (draw: u32)
        ensures
            draw == self.pick(i as int),
    {
        let correct: u32 = self.slot % CHOICES;
        let k: u32 = if i < correct {
            i
        } else if i > 0 {
            i - 1
        } else {
            0
        };
        if k == 0 {
            self.first
        } else if k == 1 {
            self.second
        } else {
            self.third
        }
    }

    /// Draws what chance decides of one set of choices.
    pub fn random() -> (draws: Self) {
        let slot = random_u32();
        let first = random_u32();
        let second = random_u32();
        let third = random_u32();
        ChoiceDraws { slot, first, second, third }
    }
}

/// The answer `x` is used up: it is the correct answer or already among
/// the choices.
pub open spec fn taken(earlier: Seq<Seq<char>>, answer: Seq<char>, x: Seq<char>) -> bool {
    x == answer || earlier.contains(x)
}

/// How many cards the search passes, having passed `passed` already,
/// until it meets one whose answer is not used up; it never passes more
/// cards than the pool has. The search starts at `start` and goes round
/// the pool.
pub open spec fn probe_steps(
    pool: Seq<FlashcardView>,
    earlier: Seq<Seq<char>>,
    answer: Seq<char>,
    start: int,
    passed: int,
) -> int
    decreases pool.len() - passed,
{
    if passed >= pool.len() || !taken(
        earlier,
        answer,
        pool[(start + passed) % pool.len() as int].answer,
    ) {
        passed
    } else {
        probe_steps(pool, earlier, answer, start, passed + 1)
    }
}

/// The place of the card whose answer is the wrong answer for `draw`: the
/// first card, from the place the draw names and round the pool, whose
/// answer is not used up. Where every answer is used up, it is the place
/// the draw names.
pub open spec fn distractor_index(
    pool: Seq<FlashcardView>,
    earlier: Seq<Seq<char>>,
    answer: Seq<char>,
    draw: u32,
) -> int {
    let start = draw as int % pool.len() as int;
    (start + probe_steps(pool, earlier, answer, start, 0)) % pool.len() as int
}

/// The wrong answer for `draw`.
pub open spec fn distractor(
    pool: Seq<FlashcardView>,
    earlier: Seq<Seq<char>>,
    answer: Seq<char>,
    draw: u32,
) -> Seq<char> {
    pool[distractor_index(pool, earlier, answer, draw)].answer
}

/// The choice at place `i`, after the choices `earlier`.
pub open spec fn choice_at(
    pool: Seq<FlashcardView>,
    answer: Seq<char>,
    draws: ChoiceDraws,
    earlier: Seq<Seq<char>>,
    i: int,
) -> Seq<char> {
    if i == draws.correct_slot() {
        answer
    } else {
        distractor(pool, earlier, answer, draws.pick(i))
    }
}

/// The first `n` choices for a card with the given answer.
pub open spec fn choices_upto(
    pool: Seq<FlashcardView>,
    answer: Seq<char>,
    draws: ChoiceDraws,
    n: nat,
) -> Seq<Seq<char>>
    decreases n,
{
    if n == 0 {
        Seq::empty()
    } else {
        let earlier = choices_upto(pool, answer, draws, (n - 1) as nat);
        earlier.push(choice_at(pool, answer, draws, earlier, n - 1))
    }
}

/// The choices for a card with the given answer: the correct answer at the
/// place that the draws name, a wrong answer at each other place.
pub open spec fn choices(
    pool: Seq<FlashcardView>,
    answer: Seq<char>,
    draws: ChoiceDraws,
) -> Seq<Seq<char>> {
    choices_upto(pool, answer, draws, CHOICES as nat)
}

/// Two sequences hold the same cards, each as often as the other.
pub open spec fn is_shuffle(a: Seq<Flashcard>, b: Seq<Flashcard>) -> bool {
    a.to_multiset() == b.to_multiset()
}

/// A vector of the same cards.
pub fn copy_cards(cards: &[Flashcard]) -> (copy: Vec<Flashcard>)
    ensures
        copy@ == cards@,
{
    let mut copy: Vec<Flashcard> = Vec::new();
    let mut i: usize = 0;
    while i < cards.len()
        invariant
            i <= cards.len(),
            copy@ == cards@.take(i as int),
        decreases cards.len() - i,
    {
        copy.push(cards[i].clone());
        assert(copy@ =~= cards@.take(i + 1));
        i = i + 1;
    }
    assert(cards@.take(i as int) =~= cards@);
    copy
}

/// A queue of the same cards, the first at the head.
pub fn queue_of(cards: Vec<Flashcard>) -> (queue: VecDeque<Flashcard>)
    ensures
        queue@ == cards@,
{
    let mut cards = cards;
    let mut queue: VecDeque<Flashcard> = VecDeque::new();
    let ghost all = cards@;
    loop
        invariant
            cards@ + queue@ == all,
        ensures
            queue@ == all,
        decreases cards.len(),
    {
        let ghost rest = cards@;
        let ghost queued = queue@;
        match cards.pop() {
            Some(card) => {
                queue.push_front(card);
                assert(cards@ + queue@ =~= rest + queued);
            },
            None => {
                assert(cards@ + queue@ =~= queue@);
                break ;
            },
        }
    }
    queue
}

/// Whether the answer `candidate` is used up.
pub fn is_taken(chosen: &Vec<String>, answer: &String, candidate: &String) -> (used: bool)
    ensures
        used == taken(string_views(chosen@), answer@, candidate@),
{
    if *candidate == *answer {
        return true;
    }
    let mut i: usize = 0;
    while i < chosen.len()
        invariant
            i <= chosen.len(),
            forall|k: int| 0 <= k < i ==> string_views(chosen@)[k] != candidate@,
        decreases chosen.len() - i,
    {
        if chosen[i] == *candidate {
            assert(string_views(chosen@)[i as int] == candidate@);
            return true;
        }
        i = i + 1;
    }
    false
}

/// Searches the pool for the wrong answer for `draw` and gives the place
/// of the card that has it.
pub fn probe(pool: &Vec<Flashcard>, chosen: &Vec<String>, answer: &String, draw: u32) -> (index:
    usize)
    requires
        pool.len() > 0,
    ensures
        index < pool.len(),
        index == distractor_index(card_views(pool@), string_views(chosen@), answer@, draw),
{
    let n: usize = pool.len();
    let start: usize = draw as usize % n;
    let mut index: usize = start;
    let mut passed: usize = 0;
    let ghost cards = card_views(pool@);
    let ghost earlier = string_views(chosen@);
    proof {
        lemma_small_mod(start as nat, n as nat);
    }
    loop
        invariant
            n == pool.len(),
            n > 0,
            start < n,
            start == draw as int % n as int,
            passed <= n,
            index == (start + passed) % n as int,
            cards == card_views(pool@),
            earlier == string_views(chosen@),
            probe_steps(cards, earlier, answer@, start as int, passed as int) == probe_steps(
                cards,
                earlier,
                answer@,
                start as int,
                0,
            ),
        ensures
            index < n,
            index == (start + probe_steps(cards, earlier, answer@, start as int, 0)) % n as int,
        decreases n - passed,
    {
        if passed >= n {
            break ;
        }
        if !is_taken(chosen, answer, &pool[index].answer) {
            break ;
        }
        proof {
            lemma_add_mod_noop(start + passed, 1, n as int);
            if n > 1 {
                lemma_small_mod(1, n as nat);
            }
        }
        index = (index + 1) % n;
        passed = passed + 1;
    }
    index
}

/// The scheduler as the contracts see it.
pub ghost struct LearnView {
    /// The pool that wrong answers are taken from.
    pub flashcards: Seq<FlashcardView>,
    /// The multiple-choice queue; its head is the current card.
    pub mcq: Seq<FlashcardView>,
    /// The free-response queue, which has its turn when the other is
    /// empty.
    pub frq: Seq<FlashcardView>,
    /// How many cards the two queues held at the start.
    pub size: nat,
    /// The choices for the current card.
    pub mcq_ans: Seq<Seq<char>>,
    /// Time left to show the correct answer.
    pub timer: u64,
    /// The answer that was submitted.
    pub answer: Seq<char>,
    /// An answer was submitted and is not resolved yet.
    pub submitted: bool,
}

impl LearnView {
    /// What holds of every scheduler: the queues hold no more cards than
    /// at the start, and while the multiple-choice queue has a card the
    /// pool has one too.
    pub open spec fn wf(self) -> bool {
        &&& self.mcq.len() + self.frq.len() <= self.size <= usize::MAX
        &&& self.mcq.len() > 0 ==> self.flashcards.len() > 0
    }

    /// A scheduler at its start, with the given pool and queues.
    pub open spec fn seeded(
        pool: Seq<FlashcardView>,
        mcq: Seq<FlashcardView>,
        frq: Seq<FlashcardView>,
    ) -> LearnView {
        LearnView {
            flashcards: pool,
            mcq,
            frq,
            size: mcq.len() + frq.len(),
            mcq_ans: Seq::empty(),
            timer: 0,
            answer: Seq::empty(),
            submitted: false,
        }
    }

    /// The card that is asked: the head of the multiple-choice queue,
    /// or of the free-response queue once the other is empty.
    pub open spec fn current(self) -> Option<FlashcardView> {
        if self.mcq.len() > 0 {
            Some(self.mcq[0])
        } else if self.frq.len() > 0 {
            Some(self.frq[0])
        } else {
            None
        }
    }

    /// How many cards are still queued.
    pub open spec fn remaining(self) -> nat {
        self.mcq.len() + self.frq.len()
    }

    /// The share of the cards that is done.
    pub open spec fn percent(self) -> nat {
        share_of((self.size - self.remaining()) as nat, self.size)
    }

    /// The submitted answer is that of the current card.
    pub open spec fn correct(self) -> bool {
        self.current() matches Some(card) && self.answer == card.answer
    }

    /// The scheduler with fresh choices for the head of the
    /// multiple-choice queue; with none when that queue is empty.
    pub open spec fn with_choices(self, draws: ChoiceDraws) -> LearnView {
        if self.mcq.len() == 0 {
            LearnView { mcq_ans: Seq::empty(), ..self }
        } else {
            LearnView { mcq_ans: choices(self.flashcards, self.mcq[0].answer, draws), ..self }
        }
    }

    /// The scheduler after `ans` was submitted: while an answer waits to
    /// be resolved nothing happens; else the answer is kept and the
    /// correct one is shown for its full time.
    pub open spec fn submitted_with(self, ans: Seq<char>) -> LearnView {
        if self.submitted {
            self
        } else {
            LearnView { answer: ans, submitted: true, timer: DISPLAY_CORRECT_ANS_TIMER, ..self }
        }
    }

    /// The correct answer is on display.
    pub open spec fn display_correct(self) -> bool {
        self.timer > 0 && self.submitted
    }

    /// The scheduler after `dt` passed: the time to show runs, down to 0,
    /// while an answer waits to be resolved.
    pub open spec fn ticked(self, dt: u64) -> LearnView {
        if self.submitted {
            LearnView { timer: self.timer.saturating_sub(dt), ..self }
        } else {
            self
        }
    }

    /// An answer waits and its time to show is over.
    pub open spec fn reveal_over(self) -> bool {
        self.submitted && self.timer == 0
    }

    /// The queue `queue` after its head was answered: a correct answer
    /// removes the head, a wrong one sends it to the back.
    pub open spec fn rotated(queue: Seq<FlashcardView>, correct: bool) -> Seq<FlashcardView> {
        if correct {
            queue.skip(1)
        } else {
            queue.skip(1).push(queue[0])
        }
    }

    /// The scheduler after the submitted answer was resolved against the
    /// current card. In the multiple-choice phase the queue moves and the
    /// new head gets fresh choices; in the free-response phase the queue
    /// moves. The answer is cleared and no answer waits any more.
    pub open spec fn resolved(self, draws: ChoiceDraws) -> LearnView {
        let done = LearnView { answer: Seq::empty(), submitted: false, ..self };
        if self.mcq.len() > 0 {
            LearnView { mcq: Self::rotated(self.mcq, self.correct()), ..done }.with_choices(draws)
        } else if self.frq.len() > 0 {
            LearnView { frq: Self::rotated(self.frq, self.correct()), ..done }
        } else {
            done
        }
    }

    /// The scheduler after `dt` passed, with `draws` for the choices if
    /// the answer is resolved.
    pub open spec fn updated(self, dt: u64, draws: ChoiceDraws) -> LearnView {
        if self.ticked(dt).reveal_over() {
            self.ticked(dt).resolved(draws)
        } else {
            self.ticked(dt)
        }
    }

    /// The scheduler after one round in which the player knows the card:
    /// the current card's own answer is submitted and shown for its full
    /// time. With nothing queued there is no round.
    pub open spec fn answered_correctly(self, draws: ChoiceDraws) -> LearnView {
        match self.current() {
            Some(card) => self.submitted_with(card.answer).updated(
                DISPLAY_CORRECT_ANS_TIMER,
                draws,
            ),
            None => self,
        }
    }

    /// The scheduler after as many such rounds as `draws` has entries.
    pub open spec fn answered_correctly_through(self, draws: Seq<ChoiceDraws>) -> LearnView
        decreases draws.len(),
    {
        if draws.len() == 0 {
            self
        } else {
            self.answered_correctly(draws[0]).answered_correctly_through(draws.skip(1))
        }
    }
}

/// The pool and the queues can make a scheduler: the queues' lengths add
/// up to a machine length, and the multiple-choice queue is empty if the
/// pool is.
pub open spec fn decks_fit(pool: nat, mcq: nat, frq: nat) -> bool {
    mcq + frq <= usize::MAX && (mcq > 0 ==> pool > 0)
}

/// A scheduler at its start has nothing done, unless it has nothing to
/// do.
pub proof fn lemma_seeded_percent(
    pool: Seq<FlashcardView>,
    mcq: Seq<FlashcardView>,
    frq: Seq<FlashcardView>,
)
    ensures
        mcq.len() + frq.len() > 0 ==> LearnView::seeded(pool, mcq, frq).percent() == 0,
        mcq.len() + frq.len() == 0 ==> LearnView::seeded(pool, mcq, frq).percent() == WHOLE,
        decks_fit(pool.len(), mcq.len(), frq.len()) ==> LearnView::seeded(pool, mcq, frq).wf(),
{
    lemma_share_of_grows(0, 0, mcq.len() + frq.len());
}

/// Resolving an answer takes exactly one card out of the queues if the
/// answer was correct and none if it was wrong: a wrong answer only
/// moves its card to the back. The share that is done never drops.
pub proof fn lemma_resolved_counts(s: LearnView, draws: ChoiceDraws)
    requires
        s.wf(),
    ensures
        s.resolved(draws).wf(),
        s.resolved(draws).size == s.size,
        s.resolved(draws).flashcards == s.flashcards,
        !s.resolved(draws).submitted,
        s.correct() ==> s.resolved(draws).remaining() == s.remaining() - 1,
        !s.correct() ==> s.resolved(draws).remaining() == s.remaining(),
        s.mcq.len() > 0 ==> s.resolved(draws).frq == s.frq,
        s.mcq.len() == 0 ==> s.resolved(draws).mcq == s.mcq,
        s.resolved(draws).percent() >= s.percent(),
{
    let r = s.resolved(draws);
    lemma_share_of_grows(
        (s.size - s.remaining()) as nat,
        (r.size - r.remaining()) as nat,
        s.size,
    );
}

/// Whatever is submitted and however much time passes, the queues never
/// grow, they shrink by at most one card, and only when a correct answer
/// was resolved; the share that is done never drops.
pub proof fn lemma_updated_counts(s: LearnView, dt: u64, draws: ChoiceDraws)
    requires
        s.wf(),
    ensures
        s.updated(dt, draws).wf(),
        s.updated(dt, draws).size == s.size,
        s.updated(dt, draws).remaining() == s.remaining() - if s.ticked(dt).reveal_over()
            && s.correct() {
            1nat
        } else {
            0nat
        },
        s.updated(dt, draws).percent() >= s.percent(),
{
    if s.ticked(dt).reveal_over() {
        lemma_resolved_counts(s.ticked(dt), draws);
    }
}

/// Submitting an answer changes neither queue.
pub proof fn lemma_submitted_counts(s: LearnView, ans: Seq<char>)
    requires
        s.wf(),
    ensures
        s.submitted_with(ans).wf(),
        s.submitted_with(ans).mcq == s.mcq,
        s.submitted_with(ans).frq == s.frq,
        s.submitted_with(ans).size == s.size,
        s.submitted_with(ans).percent() == s.percent(),
{
}

/// One thing that happens to a scheduler.
pub ghost enum LearnStep {
    /// An answer is submitted.
    Submit(Seq<char>),
    /// Time passes, with the draws for the choices if an answer is
    /// resolved.
    Tick(u64, ChoiceDraws),
}

impl LearnView {
    /// The scheduler after `step`.
    pub open spec fn stepped(self, step: LearnStep) -> LearnView {
        match step {
            LearnStep::Submit(ans) => self.submitted_with(ans),
            LearnStep::Tick(dt, draws) => self.updated(dt, draws),
        }
    }

    /// The scheduler after `steps`, one after another.
    pub open spec fn stepped_through(self, steps: Seq<LearnStep>) -> LearnView
        decreases steps.len(),
    {
        if steps.len() == 0 {
            self
        } else {
            self.stepped_through(steps.drop_last()).stepped(steps.last())
        }
    }
}

/// Whatever is submitted and whenever: the queues never hold more cards
/// than at the start nor more than before, and the share that is done
/// never drops.
pub proof fn lemma_steps_never_undo(s: LearnView, steps: Seq<LearnStep>)
    requires
        s.wf(),
    ensures
        s.stepped_through(steps).wf(),
        s.stepped_through(steps).size == s.size,
        s.stepped_through(steps).remaining() <= s.remaining(),
        s.stepped_through(steps).percent() >= s.percent(),
    decreases steps.len(),
{
    if steps.len() > 0 {
        lemma_steps_never_undo(s, steps.drop_last());
        let before = s.stepped_through(steps.drop_last());
        match steps.last() {
            LearnStep::Submit(ans) => {
                lemma_submitted_counts(before, ans);
            },
            LearnStep::Tick(dt, draws) => {
                lemma_updated_counts(before, dt, draws);
            },
        }
    }
}

/// When every queued card is answered correctly in its turn, as many
/// rounds as cards are queued leave both queues empty and everything
/// done.
pub proof fn lemma_all_correct_completes(s: LearnView, draws: Seq<ChoiceDraws>)
    requires
        s.wf(),
        !s.submitted,
        draws.len() == s.remaining(),
    ensures
        s.answered_correctly_through(draws).mcq.len() == 0,
        s.answered_correctly_through(draws).frq.len() == 0,
        s.answered_correctly_through(draws).percent() == WHOLE,
    decreases draws.len(),
{
    if draws.len() == 0 {
        lemma_share_of_grows(s.size, s.size, s.size);
    } else {
        let card = s.current()->0;
        let waiting = s.submitted_with(card.answer);
        assert(waiting.ticked(DISPLAY_CORRECT_ANS_TIMER).reveal_over());
        assert(waiting.ticked(DISPLAY_CORRECT_ANS_TIMER).correct());
        lemma_resolved_counts(waiting.ticked(DISPLAY_CORRECT_ANS_TIMER), draws[0]);
        lemma_all_correct_completes(s.answered_correctly(draws[0]), draws.skip(1));
    }
}

/// The state of a learning session.
pub struct LearnState {
    flashcards: Vec<Flashcard>,
    mcq: VecDeque<Flashcard>,
    frq: VecDeque<Flashcard>,
    size: usize,
    mcq_ans: Vec<String>,
    timer: u64,
    answer: String,
    submitted: bool,
}

impl View for LearnState {
    type V = LearnView;

    closed spec fn view(&self) -> LearnView {
        LearnView {
            flashcards: card_views(self.flashcards@),
            mcq: card_views(self.mcq@),
            frq: card_views(self.frq@),
            size: self.size as nat,
            mcq_ans: string_views(self.mcq_ans@),
            timer: self.timer,
            answer: self.answer@,
            submitted: self.submitted,
        }
    }
}

impl LearnState {
    #[verifier::type_invariant]
    spec fn well_formed(&self) -> bool {
        self@.wf()
    }

    /// Puts a scheduler together from a pool and two queues that fit.
    fn assemble(cards: &[Flashcard], mcq: Vec<Flashcard>, frq: Vec<Flashcard>) -> (state: Self)
        requires
            decks_fit(cards@.len(), mcq@.len(), frq@.len()),
        ensures
            state@ == LearnView::seeded(card_views(cards@), card_views(mcq@), card_views(frq@)),
    {
        proof {
            lemma_seeded_percent(card_views(cards@), card_views(mcq@), card_views(frq@));
        }
        let size: usize = mcq.len() + frq.len();
        let state = LearnState {
            flashcards: copy_cards(cards),
            mcq: queue_of(mcq),
            frq: queue_of(frq),
            size,
            mcq_ans: Vec::new(),
            timer: 0,
            answer: String::new(),
            submitted: false,
        };
        assert(state@.mcq_ans =~= Seq::empty());
        state
    }

    /// A scheduler at its start for the pool `cards`, with chance taken
    /// out: `mcq` and `frq` are the two queues, heads first.
    ///
    /// There is none where the queues' lengths do not add up to a machine
    /// length, or the pool is empty and the multiple-choice queue is not.
    pub fn with_decks(cards: &[Flashcard], mcq: Vec<Flashcard>, frq: Vec<Flashcard>) -> (state:
        Option<Self>)
        ensures
            state is Some <==> decks_fit(cards@.len(), mcq@.len(), frq@.len()),
            state matches Some(s) ==> s@ == LearnView::seeded(
                card_views(cards@),
                card_views(mcq@),
                card_views(frq@),
            ),
    {
        if cards.len() == 0 && mcq.len() > 0 {
            return None;
        }
        match mcq.len().checked_add(frq.len()) {
            None => None,
            Some(_) => Some(Self::assemble(cards, mcq, frq)),
        }
    }

    /// A scheduler at its start for the pool `cards`.
    ///
    /// The multiple-choice queue holds the cards once, shuffled. The
    /// free-response queue holds them twice: a shuffle of them, then
    /// another. Nothing is done yet, unless there are no cards.
    pub fn new(cards: &[Flashcard]) -> (state: Self)
        requires
            cards@.len() * 3 <= usize::MAX,
        ensures
            exists|mcq: Seq<Flashcard>, first: Seq<Flashcard>, second: Seq<Flashcard>|
                is_shuffle(mcq, cards@) && is_shuffle(first, cards@) && is_shuffle(second, cards@)
                    && state@ == LearnView::seeded(
                    card_views(cards@),
                    card_views(mcq),
                    card_views(first + second),
                ),
            state@.size == 3 * cards@.len(),
            state@.remaining() == state@.size,
            cards@.len() > 0 ==> state@.percent() == 0,
    {
        let mut mcq = copy_cards(cards);
        shuffle(&mut mcq);
        let mut frq = copy_cards(cards);
        shuffle(&mut frq);
        let mut again = copy_cards(cards);
        shuffle(&mut again);
        let ghost order = mcq@;
        let ghost first = frq@;
        let ghost second = again@;
        proof {
            order.to_multiset_ensures();
            first.to_multiset_ensures();
            second.to_multiset_ensures();
            cards@.to_multiset_ensures();
        }
        frq.append(&mut again);
        proof {
            lemma_seeded_percent(card_views(cards@), card_views(mcq@), card_views(frq@));
        }
        let state = Self::assemble(cards, mcq, frq);
        assert(is_shuffle(order, cards@) && is_shuffle(first, cards@) && is_shuffle(second, cards@)
            && state@ == LearnView::seeded(
            card_views(cards@),
            card_views(order),
            card_views(first + second),
        ));
        state
    }

    /// A scheduler with no pool and nothing queued.
    pub fn empty() -> (state: Self)
        ensures
            state@ == LearnView::seeded(Seq::empty(), Seq::empty(), Seq::empty()),
    {
        let state = LearnState {
            flashcards: Vec::new(),
            mcq: VecDeque::new(),
            frq: VecDeque::new(),
            size: 0,
            mcq_ans: Vec::new(),
            timer: 0,
            answer: String::new(),
            submitted: false,
        };
        assert(state@.flashcards =~= Seq::empty());
        assert(state@.mcq =~= Seq::empty());
        assert(state@.frq =~= Seq::empty());
        assert(state@.mcq_ans =~= Seq::empty());
        state
    }

    /// The card that is asked, if any is queued.
    pub fn get_flashcard(&self) -> (card: Option<Flashcard>)
        ensures
            match card {
                Some(c) => self@.current() == Some(c@),
                None => self@.current() is None,
            },
    {
        if self.mcq.len() > 0 {
            Some(self.mcq[0].clone())
        } else if self.frq.len() > 0 {
            Some(self.frq[0].clone())
        } else {
            None
        }
    }

    /// The share of the cards that is done, in millionths: none of them
    /// at the start, all of them once both queues are empty (and at once
    /// where there were none).
    pub fn percent(&self) -> (done: u64)
        ensures
            done == self@.percent(),
            done <= WHOLE,
    {
        proof {
            use_type_invariant(self);
        }
        let left: usize = self.mcq.len() + self.frq.len();
        share((self.size - left) as u64, self.size as u64)
    }

    /// Submits `ans` for the current card. While an answer waits to be
    /// resolved nothing happens. Else the answer is kept, and the correct
    /// one is shown for its full time before the answer is resolved.
    pub fn submit(&mut self, ans: &str)
        ensures
            final(self)@ == old(self)@.submitted_with(ans@),
    {
        proof {
            use_type_invariant(&*self);
        }
        if self.submitted {
            return ;
        }
        self.answer = ans.to_string();
        self.submitted = true;
        self.timer = DISPLAY_CORRECT_ANS_TIMER;
    }

    /// Whether the correct answer is on display.
    pub fn display_correct(&self) -> (shown: bool)
        ensures
            shown == self@.display_correct(),
    {
        self.timer > 0 && self.submitted
    }

    /// How many cards wait in the multiple-choice queue.
    pub fn mcq_len(&self) -> (n: usize)
        ensures
            n == self@.mcq.len(),
    {
        self.mcq.len()
    }

    /// How many cards wait in the free-response queue.
    pub fn frq_len(&self) -> (n: usize)
        ensures
            n == self@.frq.len(),
    {
        self.frq.len()
    }

    /// How many cards the two queues held at the start.
    pub fn size(&self) -> (n: usize)
        ensures
            n == self@.size,
    {
        self.size
    }

    /// The choices for the current card.
    pub fn mcq_ans(&self) -> (choices: &Vec<String>)
        ensures
            string_views(choices@) == self@.mcq_ans,
    {
        &self.mcq_ans
    }

    /// The answer that was submitted and waits to be resolved.
    pub fn answer(&self) -> (ans: &String)
        ensures
            ans@ == self@.answer,
    {
        &self.answer
    }
    /// Builds the choices for the current card with chance taken out.
    ///
    /// Outside the multiple-choice phase there are no choices. Else there
    /// are four: the correct answer of the head of the queue at the place
    /// that `draws` names, and at each other place a wrong answer, found
    /// by a search of the pool from the place that the next draw names,
    /// past every answer that is used up, at most once round the pool.
    /// Where the pool has too few different answers, an answer comes
    /// twice.
    pub fn set_mcq_ans_with(&mut self, draws: &ChoiceDraws)
        ensures
            final(self)@ == old(self)@.with_choices(*draws),
    {
        proof {
            use_type_invariant(&*self);
        }
        let mut chosen: Vec<String> = Vec::new();
        if self.mcq.len() == 0 {
            assert(string_views(chosen@) =~= Seq::empty());
            self.mcq_ans = chosen;
            return ;
        }
        let correct: u32 = draws.slot % CHOICES;
        let answer = self.mcq[0].answer.clone();
        let ghost pool = card_views(self.flashcards@);
        let mut i: u32 = 0;
        assert(string_views(chosen@) =~= Seq::empty());
        while i < CHOICES
            invariant
                i <= CHOICES,
                correct == draws.correct_slot(),
                self.flashcards.len() > 0,
                pool == card_views(self.flashcards@),
                string_views(chosen@) == choices_upto(pool, answer@, *draws, i as nat),
            decreases CHOICES - i,
        {
            let ghost earlier = string_views(chosen@);
            if i == correct {
                chosen.push(answer.clone());
            } else {
                let index = probe(&self.flashcards, &chosen, &answer, draws.pick_at(i));
                chosen.push(self.flashcards[index].answer.clone());
            }
            assert(string_views(chosen@) =~= earlier.push(
                choice_at(pool, answer@, *draws, earlier, i as int),
            ));
            i = i + 1;
        }
        self.mcq_ans = chosen;
    }

    /// Builds the choices for the current card; chance places the correct
    /// answer and starts the search for each wrong one.
    pub fn set_mcq_ans(&mut self)
        ensures
            exists|draws: ChoiceDraws| final(self)@ == old(self)@.with_choices(draws),
    {
        let draws = ChoiceDraws::random();
        self.set_mcq_ans_with(&draws);
        assert(self@ == old(self)@.with_choices(draws));
    }

    /// Lets `dt` pass for the time to show, and says whether an answer
    /// waits whose time to show is over.
    pub fn tick(&mut self, dt: u64) -> (over: bool)
        ensures
            final(self)@ == old(self)@.ticked(dt),
            over == final(self)@.reveal_over(),
    {
        proof {
            use_type_invariant(&*self);
        }
        if self.submitted {
            self.timer = self.timer.saturating_sub(dt);
        }
        self.timer == 0 && self.submitted
    }

    /// Resolves the submitted answer against the current card, with
    /// chance taken out.
    ///
    /// In the multiple-choice phase a correct answer removes the head of
    /// the queue and a wrong one sends it to the back; the new head gets
    /// the choices that `draws` describes. In the free-response phase
    /// the queue moves in the same way. The answer is cleared and no
    /// answer waits any more.
    pub fn resolve_with(&mut self, draws: &ChoiceDraws)
        ensures
            final(self)@ == old(self)@.resolved(*draws),
    {
        proof {
            use_type_invariant(&*self);
        }
        if self.mcq.len() > 0 {
            let ghost queue = self.mcq@;
            let correct = self.answer == self.mcq[0].answer;
            let mut moving: VecDeque<Flashcard> = VecDeque::new();
            std::mem::swap(&mut self.mcq, &mut moving);
            let head = moving.pop_front();
            if !correct {
                if let Some(card) = head {
                    moving.push_back(card);
                }
            }
            assert(card_views(moving@) =~= LearnView::rotated(card_views(queue), correct));
            self.mcq = moving;
            self.answer = String::new();
            self.submitted = false;
            self.set_mcq_ans_with(draws);
        } else if self.frq.len() > 0 {
            let ghost queue = self.frq@;
            let correct = self.answer == self.frq[0].answer;
            let mut moving: VecDeque<Flashcard> = VecDeque::new();
            std::mem::swap(&mut self.frq, &mut moving);
            let head = moving.pop_front();
            if !correct {
                if let Some(card) = head {
                    moving.push_back(card);
                }
            }
            assert(card_views(moving@) =~= LearnView::rotated(card_views(queue), correct));
            self.frq = moving;
            self.answer = String::new();
            self.submitted = false;
        } else {
            self.answer = String::new();
            self.submitted = false;
        }
    }

    /// Lets `dt` pass, with chance taken out.
    ///
    /// While an answer waits, the time to show runs. When it is over the
    /// answer is resolved, with `draws` for the new choices.
    pub fn update_with(&mut self, dt: u64, draws: &ChoiceDraws)
        ensures
            final(self)@ == old(self)@.updated(dt, *draws),
    {
        if self.tick(dt) {
            self.resolve_with(draws);
        }
    }

    /// Lets `dt` pass; when the answer is resolved, chance describes the
    /// new choices.
    pub fn update(&mut self, dt: u64)
        ensures
            exists|draws: ChoiceDraws| final(self)@ == old(self)@.updated(dt, draws),
    {
        let draws = if self.tick(dt) {
            let draws = ChoiceDraws::random();
            self.resolve_with(&draws);
            draws
        } else {
            ChoiceDraws { slot: 0, first: 0, second: 0, third: 0 }
        };
        assert(self@ == old(self)@.updated(dt, draws));
    }
}

} // verus!
