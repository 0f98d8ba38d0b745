//! The player: how it starts, how it is hit, and which animation its sprite
//! plays for the way it moves.
use vstd::prelude::*;
use crate::animations::{check_animations, names, AnimationCheck};

verus! {

/// The animations the player's sprite plays.
#[derive(Clone, Copy, Debug, PartialEq, Eq, Structural)]
pub enum PlayerAnimation {
    Walk,
    Up,
}

impl PlayerAnimation {
    pub open spec fn spec_name(self) -> Seq<char> {
        match self {
            PlayerAnimation::Walk => seq!['w', 'a', 'l', 'k'],
            PlayerAnimation::Up => seq!['u', 'p'],
        }
    }

    /// The animation's name in the sprite's frames.
    pub fn name(&self) -> (r: &'static str)
        ensures
            r@ == self.spec_name(),
    {
        match self {
            PlayerAnimation::Walk => {
                proof { reveal_strlit("walk"); }
                let r = "walk";
                assert(r@ =~= self.spec_name());
                r
            },
            PlayerAnimation::Up => {
                proof { reveal_strlit("up"); }
                let r = "up";
                assert(r@ =~= self.spec_name());
                r
            },
        }
    }
}

/// The names of every animation the player may play.
pub open spec fn player_animation_names() -> Seq<Seq<char>> {
    seq![PlayerAnimation::Walk.spec_name(), PlayerAnimation::Up.spec_name()]
}

/// The sign of one component of the player's velocity.
#[derive(Clone, Copy, Debug, PartialEq, Eq, Structural)]
pub enum Sign {
    Negative,
    Zero,
    Positive,
}

/// What the player asks the engine to do.
#[derive(Clone, Copy, Debug, PartialEq, Eq, Structural)]
pub enum PlayerAction {
    /// Place the player at the start position and aim it there.
    MoveToStart,
    Show,
    Hide,
    EnableCollision,
    /// Disable the collision shape once the physics step is over.
    DisableCollisionDeferred,
    /// Emit the player's `hit` signal.
    EmitHit,
}

/// How the player's sprite changes in one frame. `None` leaves a setting as
/// it was.
#[derive(Clone, Copy, Debug, PartialEq, Eq, Structural)]
pub struct SpriteUpdate {
    /// Whether the sprite plays (or else stops).
    pub playing: bool,
    pub animation: Option<PlayerAnimation>,
    pub flip_h: Option<bool>,
    pub flip_v: Option<bool>,
}

/// The script of the player.
pub struct Player {}

impl Player {
    pub fn new() -> (r: Player) {
        Player {}
    }

    /// A new game starts: the player is placed at the start, shown, and can be
    /// hit again.
    pub fn start(&self) -> (r: Vec<PlayerAction>)
        ensures
            r@ == seq![PlayerAction::MoveToStart, PlayerAction::Show, PlayerAction::EnableCollision],
    {
        let r = vec![PlayerAction::MoveToStart, PlayerAction::Show, PlayerAction::EnableCollision];
        assert(r@ =~= seq![PlayerAction::MoveToStart, PlayerAction::Show, PlayerAction::EnableCollision]);
        r
    }

    /// A body touched the player: it disappears, reports the hit, and stops
    /// colliding once the physics step is over.
    pub fn on_player_body_entered(&self) -> (r: Vec<PlayerAction>)
        ensures
            r@ == seq![PlayerAction::Hide, PlayerAction::EmitHit, PlayerAction::DisableCollisionDeferred],
    {
        let r = vec![PlayerAction::Hide, PlayerAction::EmitHit, PlayerAction::DisableCollisionDeferred];
        assert(r@ =~= seq![PlayerAction::Hide, PlayerAction::EmitHit, PlayerAction::DisableCollisionDeferred]);
        r
    }

    /// The sprite's settings for a frame in which the player moves (`moving`)
    /// with a velocity whose components have the signs `vx` and `vy`.
    /// Horizontal motion plays "walk", mirrored when going left; otherwise
    /// vertical motion plays "up", flipped when going down.
    pub fn sprite_update(moving: bool, vx: Sign, vy: Sign) -> (r: SpriteUpdate)
        ensures
            r.playing == moving,
            vx != Sign::Zero ==> {
                &&& r.animation == Some(PlayerAnimation::Walk)
                &&& r.flip_h == Some(vx == Sign::Negative)
                &&& r.flip_v == Some(false)
            },
            vx == Sign::Zero && vy != Sign::Zero ==> {
                &&& r.animation == Some(PlayerAnimation::Up)
                &&& r.flip_h is None
                &&& r.flip_v == Some(vy == Sign::Positive)
            },
            vx == Sign::Zero && vy == Sign::Zero ==> {
                &&& r.animation is None
                &&& r.flip_h is None
                &&& r.flip_v is None
            },
    {
        if vx != Sign::Zero {
            SpriteUpdate {
                playing: moving,
                animation: Some(PlayerAnimation::Walk),
                flip_h: Some(vx == Sign::Negative),
                flip_v: Some(false),
            }
        } else if vy != Sign::Zero {
            SpriteUpdate {
                playing: moving,
                animation: Some(PlayerAnimation::Up),
                flip_h: None,
                flip_v: Some(vy == Sign::Positive),
            }
        } else {
            SpriteUpdate { playing: moving, animation: None, flip_h: None, flip_v: None }
        }
    }

    /// The names of every animation the player may play.
    pub fn animation_names(&self) -> (r: Vec<String>)
        ensures
            names(r@) == player_animation_names(),
    {
        let r = vec![
            String::from_str(PlayerAnimation::Walk.name()),
            String::from_str(PlayerAnimation::Up.name()),
        ];
        assert(names(r@) =~= player_animation_names());
        r
    }

    /// Compares the animations the player may play with those its sprite holds.
    pub fn check_animations(&self, found: &Vec<String>) -> (r: AnimationCheck)
        ensures
            names(r.missing@).to_set() == player_animation_names().to_set().difference(
                names(found@).to_set(),
            ),
            names(r.missing@).no_duplicates(),
            names(r.unknown@).to_set() == names(found@).to_set().difference(
                player_animation_names().to_set(),
            ),
            names(r.unknown@).no_duplicates(),
    {
        let known = self.animation_names();
        check_animations(&known, found)
    }
}

} // verus!
