//! A skill of a unit.

use vstd::prelude::*;

verus! {

/// Something a unit can do: what it costs, what damage it deals, and how long
/// the unit waits before using it again (in milliseconds).
#[derive(Debug, Clone, Copy, PartialEq, Eq)]
pub struct Skill {
    mana_cost: i8,
    damage: i16,
    cooldown: i32,
    actual_cooldown: i32,
    level: i8,
}

/// A skill as plain numbers.
pub struct SkillView {
    pub mana_cost: int,
    pub damage: int,
    pub cooldown: int,
    pub actual_cooldown: int,
    pub level: int,
}

impl View for Skill {
    type V = SkillView;

    closed spec fn view(&self) -> SkillView {
        SkillView {
            mana_cost: self.mana_cost as int,
            damage: self.damage as int,
            cooldown: self.cooldown as int,
            actual_cooldown: self.actual_cooldown as int,
            level: self.level as int,
        }
    }
}

impl Skill {
    /// A skill at level zero, ready to be used: the cooldown that is left is
    /// the full cooldown.
    pub fn from(mana_cost: i8, damage: i16, cooldown: i32) -> (skill: Self)
        ensures
            skill@ == (SkillView {
                mana_cost: mana_cost as int,
                damage: damage as int,
                cooldown: cooldown as int,
                actual_cooldown: cooldown as int,
                level: 0,
            }),
    {
        Skill { mana_cost, damage, cooldown, actual_cooldown: cooldown, level: 0 }
    }

    /// Raises the level by one. The highest level is `i8::MAX`.
    pub fn update_level(&mut self)
        requires
            old(self)@.level < i8::MAX,
        ensures
            final(self)@ == (SkillView { level: old(self)@.level + 1, ..old(self)@ }),
    {
        self.level += 1
    }

    /// Sets the cooldown that is left.
    pub fn update_actual_cooldown(&mut self, new_cooldown: i32)
        ensures
            final(self)@ == (SkillView { actual_cooldown: new_cooldown as int, ..old(self)@ }),
    {
        self.actual_cooldown = new_cooldown
    }

    pub fn get_actual_cooldown(&self) -> (value: &i32)
        ensures
            *value == self@.actual_cooldown,
    {
        &self.actual_cooldown
    }

    pub fn get_mana_cost(&self) -> (value: &i8)
        ensures
            *value == self@.mana_cost,
    {
        &self.mana_cost
    }

    pub fn get_damage(&self) -> (value: &i16)
        ensures
            *value == self@.damage,
    {
        &self.damage
    }

    pub fn get_cooldown(&self) -> (value: &i32)
        ensures
            *value == self@.cooldown,
    {
        &self.cooldown
    }

    pub fn get_level(&self) -> (value: &i8)
        ensures
            *value == self@.level,
    {
        &self.level
    }
}

} // verus!
