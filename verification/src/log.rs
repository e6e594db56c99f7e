//! The reminders of missed asteroids.

use vstd::prelude::*;
use vstd::string::StringExecFns;
use crate::flashcards::{Flashcard, FlashcardView};

verus! {

/// How long a reminder is shown.
pub const MESSAGE_DURATION: i64 = 10_000_000;

/// A reminder as the contracts see it.
pub ghost struct LogItemView {
    pub timer: i64,
    pub flashcard: FlashcardView,
}

impl LogItemView {
    /// The reminder after `dt` more has passed; the timer stops at the
    /// lowest value there is.
    pub open spec fn aged(self, dt: u64) -> LogItemView {
        LogItemView {
            timer: if self.timer - dt < i64::MIN {
                i64::MIN
            } else {
                (self.timer - dt) as i64
            },
            ..self
        }
    }

    /// The reminder with its full duration ahead of it again.
    pub open spec fn rewound(self) -> LogItemView {
        LogItemView { timer: MESSAGE_DURATION, ..self }
    }

    /// The time to show has run out: more than the duration has passed.
    pub open spec fn can_delete(self) -> bool {
        self.timer < 0
    }
}

/// The line that reminds the player of a missed card.
pub open spec fn message_text(card: FlashcardView) -> Seq<char> {
    "Missed asteroid: \""@ + card.question + "\" = \""@ + card.answer + "\""@
}

/// A missed flashcard and the time left to show it.
#[derive(Debug)]
pub struct LogItem {
    pub timer: i64,
    pub flashcard: Flashcard,
}

impl View for LogItem {
    type V = LogItemView;

    open spec fn view(&self) -> LogItemView {
        LogItemView { timer: self.timer, flashcard: self.flashcard@ }
    }
}

/// The views of a sequence of reminders, in order.
pub open spec fn log_views(s: Seq<LogItem>) -> Seq<LogItemView> {
    Seq::new(s.len(), |i: int| s[i]@)
}

impl LogItem {
    /// A reminder of `card` with the full duration ahead of it.
    pub fn new(card: Flashcard) -> (item: Self)
        ensures
            item@ == (LogItemView { timer: MESSAGE_DURATION, flashcard: card@ }),
    {
        LogItem { timer: MESSAGE_DURATION, flashcard: card }
    }

    /// Lets `dt` pass for the reminder.
    pub fn update(&mut self, dt: u64)
        ensures
            final(self)@ == old(self)@.aged(dt),
    {
        let left: i128 = self.timer as i128 - dt as i128;
        if left < i64::MIN as i128 {
            self.timer = i64::MIN;
        } else {
            self.timer = left as i64;
        }
    }

    /// Whether the reminder has been shown for longer than its duration.
    pub fn can_delete(&self) -> (gone: bool)
        ensures
            gone == self@.can_delete(),
    {
        self.timer < 0
    }

    /// Gives the reminder its full duration again.
    pub fn reset_timer(&mut self)
        ensures
            final(self)@ == old(self)@.rewound(),
    {
        self.timer = MESSAGE_DURATION;
    }

    /// The line to show: the missed question and its answer, both quoted.
    pub fn message(&self) -> (text: String)
        ensures
            text@ == message_text(self.flashcard@),
    {
        let mut text = "Missed asteroid: \"".to_string();
        text.append(self.flashcard.question.as_str());
        text.append("\" = \"");
        text.append(self.flashcard.answer.as_str());
        text.append("\"");
        text
    }
}

} // verus!
