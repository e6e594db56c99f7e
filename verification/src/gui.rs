//! What the player's clicks do to the game.

use vstd::prelude::*;
use crate::game::audio::SfxPlayerView;
use crate::game::{Game, GameScreen, GameView};

verus! {

/// What the player asked for with a click.
#[derive(Clone, Copy, Debug, PartialEq, Eq, Structural)]
pub enum GuiAction {
    Restart,
    GotoMainMenu,
    GotoAbout,
    GotoLoadFlashcards,
    Load,
    ToggleMute,
    Quit,
}

/// What is left to do outside the game after a click was handled.
#[derive(Clone, Copy, Debug, PartialEq, Eq, Structural)]
pub enum GuiEffect {
    /// Nothing.
    Nothing,
    /// List the flashcard sets that can be loaded.
    ListSets,
    /// Read the picked flashcard set and hand its cards to the game.
    LoadSet,
    /// End the program.
    Quit,
}

impl GameView {
    /// The game after the click `action` was handled.
    pub open spec fn acted(self, action: GuiAction) -> GameView {
        match action {
            GuiAction::Restart => self.restarted(),
            GuiAction::GotoMainMenu => GameView { current_screen: GameScreen::MainMenu, ..self },
            GuiAction::GotoAbout => GameView { current_screen: GameScreen::About, ..self },
            GuiAction::GotoLoadFlashcards => GameView {
                current_screen: GameScreen::LoadFlashcards,
                selected_set_path: Seq::empty(),
                ..self
            },
            GuiAction::Load => if self.selected_set_path.len() == 0 {
                self
            } else {
                self.restarted()
            },
            GuiAction::ToggleMute => GameView {
                audio: SfxPlayerView { muted: !self.audio.muted, ..self.audio },
                ..self
            },
            GuiAction::Quit => self,
        }
    }

    /// What the click `action` leaves to do outside the game.
    pub open spec fn effect_of(self, action: GuiAction) -> GuiEffect {
        match action {
            GuiAction::GotoLoadFlashcards => GuiEffect::ListSets,
            GuiAction::Load => if self.selected_set_path.len() == 0 {
                GuiEffect::Nothing
            } else {
                GuiEffect::LoadSet
            },
            GuiAction::Quit => GuiEffect::Quit,
            _ => GuiEffect::Nothing,
        }
    }
}

/// Of two clicks in one frame the later one counts.
pub fn update_action(action: Option<GuiAction>, new_action: Option<GuiAction>) -> (kept: Option<
    GuiAction,
>)
    ensures
        kept == if new_action is Some {
            new_action
        } else {
            action
        },
{
    if new_action.is_some() {
        new_action
    } else {
        action
    }
}

/// Handles a click and says what is left to do outside the game.
///
/// A restart begins the game anew. The three screen changes bring their
/// screen up; the load screen also forgets the picked set and wants the
/// sets listed. Loading does nothing while no set is picked; else the
/// game begins anew and the picked set is to be read. The mute switch is
/// flipped. Quitting changes nothing and ends the program.
pub fn handle_gui_action(gamestate: &mut Game, action: GuiAction) -> (effect: GuiEffect)
    ensures
        final(gamestate)@ == old(gamestate)@.acted(action),
        effect == old(gamestate)@.effect_of(action),
{
    match action {
        GuiAction::Restart => {
            gamestate.restart();
            GuiEffect::Nothing
        },
        GuiAction::GotoMainMenu => {
            gamestate.current_screen = GameScreen::MainMenu;
            GuiEffect::Nothing
        },
        GuiAction::GotoAbout => {
            gamestate.current_screen = GameScreen::About;
            GuiEffect::Nothing
        },
        GuiAction::GotoLoadFlashcards => {
            gamestate.current_screen = GameScreen::LoadFlashcards;
            gamestate.selected_set_path = String::new();
            GuiEffect::ListSets
        },
        GuiAction::Load => {
            if gamestate.selected_set_path.as_str().is_empty() {
                return GuiEffect::Nothing;
            }
            gamestate.restart();
            GuiEffect::LoadSet
        },
        GuiAction::ToggleMute => {
            gamestate.audio.toggle_mute();
            GuiEffect::Nothing
        },
        GuiAction::Quit => GuiEffect::Quit,
    }
}

} // verus!
