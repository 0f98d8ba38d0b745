//! The game controller: the score and the flow from a new game to game over.
use vstd::prelude::*;

verus! {

/// What the game controller asks the engine to do.
#[derive(Clone, Debug, PartialEq, Eq)]
pub enum MainAction {
    StartScoreTimer,
    StopScoreTimer,
    StartMobTimer,
    StopMobTimer,
    /// Start the timer that ends the "Get Ready" pause.
    StartStartTimer,
    PlayMusic,
    StopMusic,
    PlayDeathSound,
    /// Place the player at the start position and make it active.
    StartPlayer,
    /// Free every mob of the "mobs" group.
    ClearMobs,
    /// Run `HUD::show_game_over`.
    HudShowGameOver,
    /// Run `HUD::update_score` with this score.
    HudUpdateScore(u64),
    /// Run `HUD::show_message` with this text.
    HudShowMessage(String),
}

/// The meaning of a `MainAction`, with texts as character sequences.
pub ghost enum MainEffect {
    StartScoreTimer,
    StopScoreTimer,
    StartMobTimer,
    StopMobTimer,
    StartStartTimer,
    PlayMusic,
    StopMusic,
    PlayDeathSound,
    StartPlayer,
    ClearMobs,
    HudShowGameOver,
    HudUpdateScore(nat),
    HudShowMessage(Seq<char>),
}

impl View for MainAction {
    type V = MainEffect;

    open spec fn view(&self) -> MainEffect {
        match self {
            MainAction::StartScoreTimer => MainEffect::StartScoreTimer,
            MainAction::StopScoreTimer => MainEffect::StopScoreTimer,
            MainAction::StartMobTimer => MainEffect::StartMobTimer,
            MainAction::StopMobTimer => MainEffect::StopMobTimer,
            MainAction::StartStartTimer => MainEffect::StartStartTimer,
            MainAction::PlayMusic => MainEffect::PlayMusic,
            MainAction::StopMusic => MainEffect::StopMusic,
            MainAction::PlayDeathSound => MainEffect::PlayDeathSound,
            MainAction::StartPlayer => MainEffect::StartPlayer,
            MainAction::ClearMobs => MainEffect::ClearMobs,
            MainAction::HudShowGameOver => MainEffect::HudShowGameOver,
            MainAction::HudUpdateScore(s) => MainEffect::HudUpdateScore(*s as nat),
            MainAction::HudShowMessage(t) => MainEffect::HudShowMessage(t@),
        }
    }
}

/// The effects of a list of actions, in order.
pub open spec fn main_effects(actions: Seq<MainAction>) -> Seq<MainEffect> {
    actions.map_values(|a: MainAction| a@)
}

/// The message shown while a new game gets ready.
pub open spec fn get_ready_text() -> Seq<char> {
    seq!['G', 'e', 't', ' ', 'R', 'e', 'a', 'd', 'y']
}

/// The game controller's state: the score of the current game.
pub struct Main {
    score: u64,
}

impl Main {
    pub closed spec fn spec_score(&self) -> nat {
        self.score as nat
    }

    /// A controller with a score of zero.
    pub fn new() -> (r: Main)
        ensures
            r.spec_score() == 0,
    {
        Main { score: 0 }
    }

    /// The score of the current game.
    pub fn score(&self) -> (r: u64)
        ensures
            r as nat == self.spec_score(),
    {
        self.score
    }

    /// The player was hit: the timers stop, the HUD runs its "game over"
    /// sequence, the music stops and the death sound plays. The score stays.
    pub fn game_over(&self) -> (r: Vec<MainAction>)
        ensures
            main_effects(r@) == seq![
                MainEffect::StopScoreTimer,
                MainEffect::StopMobTimer,
                MainEffect::HudShowGameOver,
                MainEffect::StopMusic,
                MainEffect::PlayDeathSound,
            ],
    {
        let r = vec![
            MainAction::StopScoreTimer,
            MainAction::StopMobTimer,
            MainAction::HudShowGameOver,
            MainAction::StopMusic,
            MainAction::PlayDeathSound,
        ];
        assert(main_effects(r@) =~= seq![
            MainEffect::StopScoreTimer,
            MainEffect::StopMobTimer,
            MainEffect::HudShowGameOver,
            MainEffect::StopMusic,
            MainEffect::PlayDeathSound,
        ]);
        r
    }

    /// A new game: the score goes back to zero, the player is placed at the
    /// start, the HUD shows the score and "Get Ready", the mobs of the last
    /// game are freed, the music plays and the "Get Ready" pause begins.
    pub fn new_game(&mut self) -> (r: Vec<MainAction>)
        ensures
            final(self).spec_score() == 0,
            main_effects(r@) == seq![
                MainEffect::StartPlayer,
                MainEffect::HudUpdateScore(0),
                MainEffect::HudShowMessage(get_ready_text()),
                MainEffect::ClearMobs,
                MainEffect::PlayMusic,
                MainEffect::StartStartTimer,
            ],
    {
        self.score = 0;
        proof { reveal_strlit("Get Ready"); }
        let text = String::from_str("Get Ready");
        assert(text@ =~= get_ready_text());
        let r = vec![
            MainAction::StartPlayer,
            MainAction::HudUpdateScore(self.score),
            MainAction::HudShowMessage(text),
            MainAction::ClearMobs,
            MainAction::PlayMusic,
            MainAction::StartStartTimer,
        ];
        assert(main_effects(r@) =~= seq![
            MainEffect::StartPlayer,
            MainEffect::HudUpdateScore(0),
            MainEffect::HudShowMessage(get_ready_text()),
            MainEffect::ClearMobs,
            MainEffect::PlayMusic,
            MainEffect::StartStartTimer,
        ]);
        r
    }

    /// The "Get Ready" pause is over: scoring and mob spawning begin.
    pub fn on_start_timer_timeout(&self) -> (r: Vec<MainAction>)
        ensures
            main_effects(r@) == seq![MainEffect::StartScoreTimer, MainEffect::StartMobTimer],
    {
        let r = vec![MainAction::StartScoreTimer, MainAction::StartMobTimer];
        assert(main_effects(r@) =~= seq![MainEffect::StartScoreTimer, MainEffect::StartMobTimer]);
        r
    }

    /// One more second survived: the score goes up by one and the HUD shows it.
    pub fn on_score_timer_timeout(&mut self) -> (r: Vec<MainAction>)
        requires
            old(self).spec_score() < u64::MAX,
        ensures
            final(self).spec_score() == old(self).spec_score() + 1,
            main_effects(r@) == seq![MainEffect::HudUpdateScore(final(self).spec_score())],
    {
        self.score = self.score + 1;
        let r = vec![MainAction::HudUpdateScore(self.score)];
        assert(main_effects(r@) =~= seq![MainEffect::HudUpdateScore(self.score as nat)]);
        r
    }
}

} // verus!
