//! Which sounds are due. The library decides and queues; the program
//! around it takes the queue and plays.

use vstd::prelude::*;

verus! {

/// A sound effect of the game.
#[derive(Clone, Copy, Debug, PartialEq, Eq, Structural)]
pub enum Sfx {
    /// An asteroid burst, answered or fallen through.
    Explosion,
    /// The next level began.
    LevelUp,
}

impl Sfx {
    /// The name under which the effect's sound is kept.
    pub open spec fn name(self) -> Seq<char> {
        match self {
            Sfx::Explosion => "explosion"@,
            Sfx::LevelUp => "levelup"@,
        }
    }

    /// The name under which the effect's sound is kept.
    pub fn id(&self) -> (id: &'static str)
        ensures
            id@ == self.name(),
    {
        match self {
            Sfx::Explosion => "explosion",
            Sfx::LevelUp => "levelup",
        }
    }
}

/// The player as the contracts see it.
pub ghost struct SfxPlayerView {
    pub muted: bool,
    pub queued: Seq<Sfx>,
}

impl SfxPlayerView {
    /// The player after `sfx` was asked for: queued unless muted.
    pub open spec fn played(self, sfx: Sfx) -> SfxPlayerView {
        if self.muted {
            self
        } else {
            SfxPlayerView { queued: self.queued.push(sfx), ..self }
        }
    }

    /// The player after `n` explosions were asked for, one after another.
    pub open spec fn exploded(self, n: nat) -> SfxPlayerView
        decreases n,
    {
        if n == 0 {
            self
        } else {
            self.exploded((n - 1) as nat).played(Sfx::Explosion)
        }
    }
}

/// Keeps the mute switch and the effects that wait to be played.
#[derive(Debug)]
pub struct SfxPlayer {
    pub muted: bool,
    pub queued: Vec<Sfx>,
}

impl View for SfxPlayer {
    type V = SfxPlayerView;

    open spec fn view(&self) -> SfxPlayerView {
        SfxPlayerView { muted: self.muted, queued: self.queued@ }
    }
}

impl SfxPlayer {
    /// A player that is not muted and has nothing queued.
    pub fn init() -> (player: Self)
        ensures
            player@ == (SfxPlayerView { muted: false, queued: Seq::empty() }),
    {
        SfxPlayer { muted: false, queued: Vec::new() }
    }

    /// Asks for `sfx`: it joins the queue, unless the player is muted.
    pub fn play(&mut self, sfx: Sfx)
        ensures
            final(self)@ == old(self)@.played(sfx),
    {
        if !self.muted {
            self.queued.push(sfx);
        }
    }

    /// Hands out what is queued, oldest first, and leaves the queue empty.
    pub fn take_queued(&mut self) -> (due: Vec<Sfx>)
        ensures
            due@ == old(self)@.queued,
            final(self)@ == (SfxPlayerView { queued: Seq::empty(), ..old(self)@ }),
    {
        let mut due: Vec<Sfx> = Vec::new();
        std::mem::swap(&mut due, &mut self.queued);
        due
    }

    /// Flips the mute switch. What is queued stays queued.
    pub fn toggle_mute(&mut self)
        ensures
            final(self)@ == (SfxPlayerView { muted: !old(self)@.muted, ..old(self)@ }),
    {
        self.muted = !self.muted;
    }

    /// Whether the player is muted.
    pub fn muted(&self) -> (m: bool)
        ensures
            m == self@.muted,
    {
        self.muted
    }
}

} // verus!
