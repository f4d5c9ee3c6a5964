//! Creatures: what every creature can be asked to do, the state that creatures
//! have in common, and the player as the plainest creature.

use vstd::prelude::*;
use crate::stat::{clamped, OverflowReaction, Stat};

verus! {

/// How a creature came to die.
#[derive(Clone, Copy, PartialEq, Eq, Debug, Structural)]
pub enum Death {
    /// Health was driven below its floor.
    Dying,
}

/// What kind of harm an attack does, each kind with its magnitude: the number
/// of health points that it takes away.
#[derive(Clone, Copy, PartialEq, Eq, Debug, Structural)]
pub enum DamageType {
    /// A blow, a cut or a bite.
    Physical(isize),
    /// A spell or a curse.
    Magical(isize),
}

impl DamageType {
    /// The number of health points that the attack takes away.
    pub open spec fn spec_magnitude(&self) -> isize {
        match self {
            DamageType::Physical(points) => *points,
            DamageType::Magical(points) => *points,
        }
    }

    /// The number of health points that the attack takes away.
    #[verifier::when_used_as_spec(spec_magnitude)]
    pub fn magnitude(&self) -> (points: isize)
        ensures
            points == self.spec_magnitude(),
    {
        match self {
            DamageType::Physical(points) => *points,
            DamageType::Magical(points) => *points,
        }
    }
}

/// The reaction of a health stat: an update that drove health below its floor
/// is a mortal wound, one that pushed it above its ceiling is harmless.
#[derive(Clone, Copy, PartialEq, Eq, Debug, Structural)]
pub struct LethalBelowFloor;

impl OverflowReaction for LethalBelowFloor {
    type Outcome = Option<Death>;

    fn react(&self, amount: isize) -> (outcome: Option<Death>)
        ensures
            outcome == (if amount < 0 { Some(Death::Dying) } else { None }),
    {
        if amount < 0 {
            Some(Death::Dying)
        } else {
            None
        }
    }
}

/// The mathematical content of a creature's state.
pub struct CcdView {
    pub x: int,
    pub y: int,
    pub hp: int,
    pub hp_min: int,
    pub hp_max: int,
    pub mp: int,
}

impl CcdView {
    /// The state after `magnitude` points were taken off health: health is
    /// the difference, clamped into its range; nothing else changes.
    pub open spec fn damaged(self, magnitude: int) -> Self {
        CcdView { hp: clamped(self.hp - magnitude, self.hp_min, self.hp_max), ..self }
    }

    /// Whether taking `magnitude` points off health would drive it below its floor.
    pub open spec fn mortal(self, magnitude: int) -> bool {
        self.hp - magnitude < self.hp_min
    }
}

/// The state that all creatures have in common: a position on the grid,
/// health, which is bounded and tells of mortal wounds, and mana.
pub struct CCD {
    x: usize,
    y: usize,
    hp: Stat<LethalBelowFloor>,
    mp: isize,
}

impl View for CCD {
    type V = CcdView;

    closed spec fn view(&self) -> CcdView {
        CcdView {
            x: self.x as int,
            y: self.y as int,
            hp: self.hp@.value,
            hp_min: self.hp@.min,
            hp_max: self.hp@.max,
            mp: self.mp as int,
        }
    }
}

impl CCD {
    /// The state of a creature at `(x, y)` with health `hp` and mana `mp`.
    pub fn new(x: usize, y: usize, hp: Stat<LethalBelowFloor>, mp: isize) -> (state: Self)
        ensures
            state@ == (CcdView {
                x: x as int,
                y: y as int,
                hp: hp@.value,
                hp_min: hp@.min,
                hp_max: hp@.max,
                mp: mp as int,
            }),
    {
        CCD { x, y, hp, mp }
    }

    /// The column of the grid that the creature stands in.
    pub fn x(&self) -> (x: usize)
        ensures
            x == self@.x,
    {
        self.x
    }

    /// The row of the grid that the creature stands in.
    pub fn y(&self) -> (y: usize)
        ensures
            y == self@.y,
    {
        self.y
    }

    /// The creature's health.
    pub fn hp(&self) -> (hp: &Stat<LethalBelowFloor>)
        ensures
            hp@.value == self@.hp,
            hp@.min == self@.hp_min,
            hp@.max == self@.hp_max,
    {
        &self.hp
    }

    /// The creature's mana.
    pub fn mp(&self) -> (mp: isize)
        ensures
            mp == self@.mp,
    {
        self.mp
    }

    /// Takes `magnitude` points off health, which stays inside its range. The
    /// blow is mortal exactly when it would have driven health below its
    /// floor; reaching the floor exactly is not.
    pub fn take_damage(&mut self, magnitude: isize) -> (death: Option<Death>)
        ensures
            final(self)@ == old(self)@.damaged(magnitude as int),
            death == (if old(self)@.mortal(magnitude as int) {
                Some(Death::Dying)
            } else {
                None
            }),
    {
        proof {
            use_type_invariant(&self.hp);
        }
        let answer = if magnitude > isize::MIN {
            self.hp.value_update(-magnitude)
        } else {
            // Only the least integer has no negative: health is owed one
            // point more than the greatest, given in two steps.
            let _ = self.hp.value_update(isize::MAX);
            self.hp.value_update(1)
        };
        match answer {
            Some(verdict) => verdict,
            None => None,
        }
    }
}

/// What every creature can be asked to do.
pub trait Creature {
    /// Handles the creature's next tick. The first result says whether the
    /// screen needs to be redrawn, the second how the creature died this tick
    /// from a passive cause, if it did.
    fn next_tick(&mut self) -> (outcome: (bool, Option<Death>));

    /// Handles an attack from another creature. The first result says how the
    /// attack killed this creature, if it did, the second is the attack to
    /// apply to the attacker in return. A creature that dies does not strike back.
    fn attack(&mut self, attacker: Option<&CCD>, damage_type: DamageType) -> (outcome: (
        Option<Death>,
        Option<(isize, DamageType)>,
    ))
        ensures
            outcome.0 is Some ==> outcome.1 is None,
    ;
}

/// The player: the plainest creature. Nothing happens to it between attacks,
/// and it does not strike back.
pub struct Player(CCD);

impl View for Player {
    type V = CcdView;

    closed spec fn view(&self) -> CcdView {
        self.0@
    }
}

impl Player {
    /// The player with the state `state`.
    pub fn new(state: CCD) -> (player: Self)
        ensures
            player@ == state@,
    {
        Player(state)
    }

    /// The player's state.
    pub fn state(&self) -> (state: &CCD)
        ensures
            state@ == self@,
    {
        &self.0
    }
}

impl Creature for Player {
    /// Nothing passive acts on the player: the state stays as it is, nothing
    /// needs redrawing and nobody dies.
    fn next_tick(&mut self) -> (outcome: (bool, Option<Death>))
        ensures
            final(self)@ == old(self)@,
            outcome == (false, None::<Death>),
    {
        (false, None)
    }

    /// Takes the magnitude of `damage_type` off the player's health, which
    /// stays inside its range. The attack kills exactly when it would have
    /// driven health below its floor; reaching the floor exactly does not.
    /// The player never strikes back.
    fn attack(&mut self, attacker: Option<&CCD>, damage_type: DamageType) -> (outcome: (
        Option<Death>,
        Option<(isize, DamageType)>,
    ))
        ensures
            final(self)@ == old(self)@.damaged(damage_type.magnitude() as int),
            outcome.0 == (if old(self)@.mortal(damage_type.magnitude() as int) {
                Some(Death::Dying)
            } else {
                None
            }),
            outcome.1 is None,
    {
        (self.0.take_damage(damage_type.magnitude()), None)
    }
}

} // verus!
