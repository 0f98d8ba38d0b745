//! The mobs: their animations and the random pick of one for a new mob.
use vstd::prelude::*;
use rand::seq::SliceRandom;
use crate::animations::{check_animations, names, AnimationCheck};

verus! {

/// The animations a mob's sprite plays.
#[derive(Clone, Copy, Debug, PartialEq, Eq, Structural)]
pub enum MobAnimation {
    Walk,
    Swim,
    Fly,
}

impl MobAnimation {
    pub open spec fn spec_name(self) -> Seq<char> {
        match self {
            MobAnimation::Walk => seq!['w', 'a', 'l', 'k'],
            MobAnimation::Swim => seq!['s', 'w', 'i', 'm'],
            MobAnimation::Fly => seq!['f', 'l', 'y'],
        }
    }

    /// The animation's name in the sprite's frames.
    pub fn name(&self) -> (r: &'static str)
        ensures
            r@ == self.spec_name(),
    {
        match self {
            MobAnimation::Walk => {
                proof { reveal_strlit("walk"); }
                let r = "walk";
                assert(r@ =~= self.spec_name());
                r
            },
            MobAnimation::Swim => {
                proof { reveal_strlit("swim"); }
                let r = "swim";
                assert(r@ =~= self.spec_name());
                r
            },
            MobAnimation::Fly => {
                proof { reveal_strlit("fly"); }
                let r = "fly";
                assert(r@ =~= self.spec_name());
                r
            },
        }
    }
}

/// Every animation a mob may play.
pub open spec fn mob_animations_spec() -> Seq<MobAnimation> {
    seq![MobAnimation::Walk, MobAnimation::Swim, MobAnimation::Fly]
}

/// The names of every animation a mob may play.
pub open spec fn mob_animation_names() -> Seq<Seq<char>> {
    mob_animations_spec().map_values(|a: MobAnimation| a.spec_name())
}

/// Every animation a mob may play.
pub fn mob_animations() -> (r: Vec<MobAnimation>)
    ensures
        r@ == mob_animations_spec(),
{
    let r = vec![MobAnimation::Walk, MobAnimation::Swim, MobAnimation::Fly];
    assert(r@ =~= mob_animations_spec());
    r
}

/// Relies on rand's `SliceRandom::choose`, drawn with `rand::thread_rng`:
/// `None` for an empty slice, otherwise a reference to one of its elements.
#[verifier::external_body]
fn choose_animation(animations: &Vec<MobAnimation>) -> (r: Option<MobAnimation>)
    ensures
        animations@.len() == 0 ==> r is None,
        animations@.len() > 0 ==> r is Some && animations@.contains(r.unwrap()),
{
    animations.choose(&mut rand::thread_rng()).copied()
}

/// The script of a mob.
pub struct Mob {}

impl Mob {
    pub fn new() -> (r: Mob) {
        Mob {}
    }

    /// The animation a new mob plays: one of `mob_animations`, at random.
    pub fn random_animation(&self) -> (r: MobAnimation)
        ensures
            mob_animations_spec().contains(r),
    {
        let animations = mob_animations();
        choose_animation(&animations).unwrap()
    }

    /// The names of every animation a mob may play.
    pub fn animation_names(&self) -> (r: Vec<String>)
        ensures
            names(r@) == mob_animation_names(),
    {
        let animations = mob_animations();
        let mut r: Vec<String> = Vec::new();
        let mut i: usize = 0;
        while i < animations.len()
            invariant
                0 <= i <= animations@.len(),
                animations@ == mob_animations_spec(),
                names(r@) =~= mob_animation_names().take(i as int),
            decreases animations@.len() - i,
        {
            let ghost before = r@;
            r.push(String::from_str(animations[i].name()));
            assert(names(r@) =~= names(before).push(animations@[i as int].spec_name()));
            assert(mob_animation_names().take(i as int + 1) =~= mob_animation_names().take(
                i as int,
            ).push(animations@[i as int].spec_name()));
            i = i + 1;
        }
        assert(mob_animation_names().take(3) =~= mob_animation_names());
        r
    }

    /// Compares the animations a mob may play with those its sprite holds.
    pub fn check_animations(&self, found: &Vec<String>) -> (r: AnimationCheck)
        ensures
            names(r.missing@).to_set() == mob_animation_names().to_set().difference(
                names(found@).to_set(),
            ),
            names(r.missing@).no_duplicates(),
            names(r.unknown@).to_set() == names(found@).to_set().difference(
                mob_animation_names().to_set(),
            ),
            names(r.unknown@).no_duplicates(),
    {
        let known = self.animation_names();
        check_animations(&known, found)
    }
}

} // verus!
