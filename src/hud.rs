//! The heads-up display: the message label, the score label, the start button
//! and the three-step "game over" sequence.
use vstd::prelude::*;
use crate::text::{decimal, decimal_string};

verus! {

/// What the HUD asks the engine to do with its nodes.
#[derive(Clone, Debug, PartialEq, Eq)]
pub enum HudAction {
    /// Set the text of the message label.
    SetMessageText(String),
    ShowMessage,
    HideMessage,
    /// (Re)start the timer that hides the message label.
    StartMessageTimer,
    /// Start a one-shot timer of the given number of seconds, after which the
    /// engine reports `on_title_timer_timeout`.
    StartTitleTimer(u32),
    ShowStartButton,
    HideStartButton,
    /// Set the text of the score label.
    SetScoreText(String),
    /// Emit the HUD's `start_game` signal.
    EmitStartGame,
}

/// The meaning of a `HudAction`, with texts as character sequences.
pub ghost enum HudEffect {
    SetMessageText(Seq<char>),
    ShowMessage,
    HideMessage,
    StartMessageTimer,
    StartTitleTimer(nat),
    ShowStartButton,
    HideStartButton,
    SetScoreText(Seq<char>),
    EmitStartGame,
}

impl View for HudAction {
    type V = HudEffect;

    open spec fn view(&self) -> HudEffect {
        match self {
            HudAction::SetMessageText(t) => HudEffect::SetMessageText(t@),
            HudAction::ShowMessage => HudEffect::ShowMessage,
            HudAction::HideMessage => HudEffect::HideMessage,
            HudAction::StartMessageTimer => HudEffect::StartMessageTimer,
            HudAction::StartTitleTimer(s) => HudEffect::StartTitleTimer(*s as nat),
            HudAction::ShowStartButton => HudEffect::ShowStartButton,
            HudAction::HideStartButton => HudEffect::HideStartButton,
            HudAction::SetScoreText(t) => HudEffect::SetScoreText(t@),
            HudAction::EmitStartGame => HudEffect::EmitStartGame,
        }
    }
}

/// The effects of a list of actions, in order.
pub open spec fn hud_effects(actions: Seq<HudAction>) -> Seq<HudEffect> {
    actions.map_values(|a: HudAction| a@)
}

/// Where the "game over" sequence stands.
#[derive(Clone, Copy, Debug, PartialEq, Eq, Structural)]
pub enum GameOverStage {
    /// No sequence is running.
    Idle,
    /// "Game over" is shown; the message timer's timeout brings the title.
    ShowingGameOver,
    /// The title is shown; the title timer's timeout brings the start button.
    ShowingTitle,
}

/// The message shown when the game ends.
pub open spec fn game_over_text() -> Seq<char> {
    seq!['G', 'a', 'm', 'e', ' ', 'o', 'v', 'e', 'r']
}

/// The title shown once the "game over" message has gone.
pub open spec fn title_text() -> Seq<char> {
    seq!['D', 'o', 'd', 'g', 'e', ' ', 't', 'h', 'e', ' ', 'C', 'r', 'e', 'e', 'p', 's', '!']
}

/// How long the title stays before the start button comes back, in seconds.
pub const TITLE_SECONDS: u32 = 1;

/// The effects of showing `text` in the message label.
pub open spec fn show_message_effects(text: Seq<char>) -> Seq<HudEffect> {
    seq![HudEffect::SetMessageText(text), HudEffect::ShowMessage, HudEffect::StartMessageTimer]
}

/// The state of the heads-up display that its decisions depend on.
pub struct HUD {
    stage: GameOverStage,
}

impl HUD {
    pub closed spec fn spec_stage(&self) -> GameOverStage {
        self.stage
    }

    /// A display with no "game over" sequence running.
    pub fn new() -> (r: HUD)
        ensures
            r.spec_stage() == GameOverStage::Idle,
    {
        HUD { stage: GameOverStage::Idle }
    }

    /// Where the "game over" sequence stands.
    pub fn stage(&self) -> (r: GameOverStage)
        ensures
            r == self.spec_stage(),
    {
        self.stage
    }

    /// Shows `text` in the message label and starts the timer that hides it.
    pub fn show_message(&self, text: String) -> (r: Vec<HudAction>)
        ensures
            hud_effects(r@) == show_message_effects(text@),
    {
        let ghost t = text@;
        let r = vec![HudAction::SetMessageText(text), HudAction::ShowMessage, HudAction::StartMessageTimer];
        assert(hud_effects(r@) =~= show_message_effects(t));
        r
    }

    /// Starts the "game over" sequence: "Game over" is shown until the message
    /// timer runs out.
    pub fn show_game_over(&mut self) -> (r: Vec<HudAction>)
        ensures
            final(self).spec_stage() == GameOverStage::ShowingGameOver,
            hud_effects(r@) == show_message_effects(game_over_text()),
    {
        self.stage = GameOverStage::ShowingGameOver;
        proof { reveal_strlit("Game over"); }
        let text = String::from_str("Game over");
        assert(text@ =~= game_over_text());
        self.show_message(text)
    }

    /// The message timer ran out: the message label is hidden, and in a
    /// "game over" sequence the title is shown for `TITLE_SECONDS`.
    pub fn on_message_timer_timeout(&mut self) -> (r: Vec<HudAction>)
        ensures
            old(self).spec_stage() == GameOverStage::ShowingGameOver ==> {
                &&& final(self).spec_stage() == GameOverStage::ShowingTitle
                &&& hud_effects(r@) == seq![
                    HudEffect::HideMessage,
                    HudEffect::SetMessageText(title_text()),
                    HudEffect::ShowMessage,
                    HudEffect::StartTitleTimer(TITLE_SECONDS as nat),
                ]
            },
            old(self).spec_stage() != GameOverStage::ShowingGameOver ==> {
                &&& final(self).spec_stage() == old(self).spec_stage()
                &&& hud_effects(r@) == seq![HudEffect::HideMessage]
            },
    {
        let mut r = vec![HudAction::HideMessage];
        if self.stage == GameOverStage::ShowingGameOver {
            self.stage = GameOverStage::ShowingTitle;
            proof { reveal_strlit("Dodge the Creeps!"); }
            let title = String::from_str("Dodge the Creeps!");
            assert(title@ =~= title_text());
            r.push(HudAction::SetMessageText(title));
            r.push(HudAction::ShowMessage);
            r.push(HudAction::StartTitleTimer(TITLE_SECONDS));
            assert(hud_effects(r@) =~= seq![
                HudEffect::HideMessage,
                HudEffect::SetMessageText(title_text()),
                HudEffect::ShowMessage,
                HudEffect::StartTitleTimer(TITLE_SECONDS as nat),
            ]);
        } else {
            assert(hud_effects(r@) =~= seq![HudEffect::HideMessage]);
        }
        r
    }

    /// The title timer ran out: the sequence ends with the start button shown.
    pub fn on_title_timer_timeout(&mut self) -> (r: Vec<HudAction>)
        ensures
            old(self).spec_stage() == GameOverStage::ShowingTitle ==> {
                &&& final(self).spec_stage() == GameOverStage::Idle
                &&& hud_effects(r@) == seq![HudEffect::ShowStartButton]
            },
            old(self).spec_stage() != GameOverStage::ShowingTitle ==> {
                &&& final(self).spec_stage() == old(self).spec_stage()
                &&& r@.len() == 0
            },
    {
        if self.stage == GameOverStage::ShowingTitle {
            self.stage = GameOverStage::Idle;
            let r = vec![HudAction::ShowStartButton];
            assert(hud_effects(r@) =~= seq![HudEffect::ShowStartButton]);
            r
        } else {
            Vec::new()
        }
    }

    /// Shows `score` in decimal in the score label.
    pub fn update_score(&self, score: u64) -> (r: Vec<HudAction>)
        ensures
            hud_effects(r@) == seq![HudEffect::SetScoreText(decimal(score as nat))],
    {
        let r = vec![HudAction::SetScoreText(decimal_string(score))];
        assert(hud_effects(r@) =~= seq![HudEffect::SetScoreText(decimal(score as nat))]);
        r
    }

    /// The start button was pressed: it is hidden and `start_game` is emitted.
    pub fn on_start_button_pressed(&self) -> (r: Vec<HudAction>)
        ensures
            hud_effects(r@) == seq![HudEffect::HideStartButton, HudEffect::EmitStartGame],
    {
        let r = vec![HudAction::HideStartButton, HudAction::EmitStartGame];
        assert(hud_effects(r@) =~= seq![HudEffect::HideStartButton, HudEffect::EmitStartGame]);
        r
    }
}

} // verus!
