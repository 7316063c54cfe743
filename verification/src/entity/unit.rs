//! Units and the resources they live on.

use crate::components::play_ground::{HasIdentifier, Identifier};
use crate::entity::skill::Skill;
use crate::exceptions::{RtsException, RtsExceptionView};
use crate::text::{decimal, to_decimal};
use vstd::prelude::*;
use vstd::string::StringExecFns;

verus! {

const CLASSIC_UNIT_COST: i16 = 20;

/// A unit of a game. It has four resources (health, mana, armor and range),
/// each with a current value and a maximum, and a list of skills.
///
/// A unit starts with every resource at its maximum, and no update lifts a
/// resource above its maximum. A resource may fall below zero: damage has no
/// floor.
#[derive(Debug, PartialEq, Eq)]
pub struct Unit {
    identifier: Identifier,
    max_health: i16,
    max_mana: i16,
    max_armor: i16,
    max_range: i16,
    health: i16,
    mana: i16,
    armor: i16,
    range: i16,
    skills: Vec<Skill>,
}

/// The kinds of unit that can be bought.
#[derive(Debug, PartialEq, Eq, Clone, Copy)]
pub enum UnitType {
    Classic,
}

/// A unit as plain values.
pub struct UnitView {
    pub identifier: Identifier,
    pub max_health: int,
    pub max_mana: int,
    pub max_armor: int,
    pub max_range: int,
    pub health: int,
    pub mana: int,
    pub armor: int,
    pub range: int,
    pub skills: Seq<Skill>,
}

impl UnitView {
    /// No resource is above its maximum.
    pub open spec fn within_limits(self) -> bool {
        &&& self.health <= self.max_health
        &&& self.mana <= self.max_mana
        &&& self.armor <= self.max_armor
        &&& self.range <= self.max_range
    }

    /// How a unit is printed: its four current values.
    pub open spec fn text(self) -> Seq<char> {
        "h:"@ + decimal(self.health) + " m:"@ + decimal(self.mana) + " a:"@ + decimal(self.armor)
            + " r:"@ + decimal(self.range)
    }
}

impl View for Unit {
    type V = UnitView;

    closed spec fn view(&self) -> UnitView {
        UnitView {
            identifier: self.identifier,
            max_health: self.max_health as int,
            max_mana: self.max_mana as int,
            max_armor: self.max_armor as int,
            max_range: self.max_range as int,
            health: self.health as int,
            mana: self.mana as int,
            armor: self.armor as int,
            range: self.range as int,
            skills: self.skills@,
        }
    }
}

impl HasIdentifier for Unit {
    open spec fn identifier(&self) -> Identifier {
        self@.identifier
    }

    fn get_identifier(&self) -> (id: Identifier) {
        self.identifier
    }

    fn is(&self, identifier: &Identifier) -> (same: bool) {
        self.identifier == *identifier
    }
}

impl Clone for Unit {
    fn clone(&self) -> (copy: Self)
        ensures
            copy@ == self@,
    {
        Unit {
            identifier: self.identifier,
            max_health: self.max_health,
            max_mana: self.max_mana,
            max_armor: self.max_armor,
            max_range: self.max_range,
            health: self.health,
            mana: self.mana,
            armor: self.armor,
            range: self.range,
            skills: self.skills.clone(),
        }
    }
}

impl UnitType {
    /// The price of a unit of this kind.
    pub open spec fn cost(self) -> int {
        match self {
            UnitType::Classic => 20,
        }
    }

    /// The name of this kind.
    pub open spec fn name(self) -> Seq<char> {
        match self {
            UnitType::Classic => "Classic"@,
        }
    }

    pub fn get_cost(&self) -> (cost: i16)
        ensures
            cost == self.cost(),
    {
        match &self {
            UnitType::Classic => CLASSIC_UNIT_COST,
        }
    }

    /// The name of this kind.
    pub fn to_string(&self) -> (text: String)
        ensures
            text@ == self.name(),
    {
        match &self {
            UnitType::Classic => String::from_str("Classic"),
        }
    }
}

/// Whether a resource can take a change: their sum is a value that a resource
/// can hold.
pub open spec fn accepts(current: int, change: int) -> bool {
    i16::MIN <= current + change <= i16::MAX
}

/// What a resource becomes when it takes a change: the sum, or the maximum
/// where the sum would reach it or pass it. A negative change is damage, and
/// nothing stops the sum from falling below zero.
pub open spec fn changed(current: int, max: int, change: int) -> int {
    if current + change >= max {
        max
    } else {
        current + change
    }
}

impl Unit {
    /// A unit in full possession of its resources: each current value is the
    /// maximum.
    pub fn from(
        identifier: Identifier,
        max_health: i16,
        max_mana: i16,
        max_armor: i16,
        max_range: i16,
        skills: Vec<Skill>,
    ) -> (unit: Self)
        ensures
            unit@ == (UnitView {
                identifier,
                max_health: max_health as int,
                max_mana: max_mana as int,
                max_armor: max_armor as int,
                max_range: max_range as int,
                health: max_health as int,
                mana: max_mana as int,
                armor: max_armor as int,
                range: max_range as int,
                skills: skills@,
            }),
            unit@.within_limits(),
    {
        Unit {
            identifier,
            max_health,
            max_mana,
            max_armor,
            max_range,
            health: max_health,
            mana: max_mana,
            armor: max_armor,
            range: max_range,
            skills,
        }
    }

    /// Damages (negative `new_health`) or heals the unit. Refused, with the
    /// unit left as it was, where the sum is no value that a resource can hold.
    pub fn update_health(&mut self, new_health: i16) -> (result: Result<(), RtsException>)
        ensures
            old(self)@.within_limits() ==> final(self)@.within_limits(),
            match result {
                Ok(()) => {
                    &&& accepts(old(self)@.health, new_health as int)
                    &&& final(self)@ == (UnitView {
                        health: changed(old(self)@.health, old(self)@.max_health, new_health as int),
                        ..old(self)@
                    })
                },
                Err(e) => {
                    &&& !accepts(old(self)@.health, new_health as int)
                    &&& final(self)@ == old(self)@
                    &&& e@ == RtsExceptionView::GeneralException("Failed to update health"@)
                },
            },
    {
        if let Some(res) = Unit::update_attribut_under_max(self.health, self.max_health, new_health)
        {
            self.health = res;
            Ok(())
        } else {
            Err(RtsException::GeneralException(String::from_str("Failed to update health")))
        }
    }

    /// Spends (negative `new_mana`) or restores mana. Refused, with the unit
    /// left as it was, where the sum is no value that a resource can hold.
    pub fn update_mana(&mut self, new_mana: i16) -> (result: Result<(), RtsException>)
        ensures
            old(self)@.within_limits() ==> final(self)@.within_limits(),
            match result {
                Ok(()) => {
                    &&& accepts(old(self)@.mana, new_mana as int)
                    &&& final(self)@ == (UnitView {
                        mana: changed(old(self)@.mana, old(self)@.max_mana, new_mana as int),
                        ..old(self)@
                    })
                },
                Err(e) => {
                    &&& !accepts(old(self)@.mana, new_mana as int)
                    &&& final(self)@ == old(self)@
                    &&& e@ == RtsExceptionView::GeneralException("Failed to update mana"@)
                },
            },
    {
        if let Some(res) = Unit::update_attribut_under_max(self.mana, self.max_mana, new_mana) {
            self.mana = res;
            Ok(())
        } else {
            Err(RtsException::GeneralException(String::from_str("Failed to update mana")))
        }
    }

    /// Wears down (negative `new_armor`) or mends armor. Refused, with the
    /// unit left as it was, where the sum is no value that a resource can hold.
    pub fn update_armor(&mut self, new_armor: i16) -> (result: Result<(), RtsException>)
        ensures
            old(self)@.within_limits() ==> final(self)@.within_limits(),
            match result {
                Ok(()) => {
                    &&& accepts(old(self)@.armor, new_armor as int)
                    &&& final(self)@ == (UnitView {
                        armor: changed(old(self)@.armor, old(self)@.max_armor, new_armor as int),
                        ..old(self)@
                    })
                },
                Err(e) => {
                    &&& !accepts(old(self)@.armor, new_armor as int)
                    &&& final(self)@ == old(self)@
                    &&& e@ == RtsExceptionView::GeneralException("Failed to update armor"@)
                },
            },
    {
        if let Some(res) = Unit::update_attribut_under_max(self.armor, self.max_armor, new_armor) {
            self.armor = res;
            Ok(())
        } else {
            Err(RtsException::GeneralException(String::from_str("Failed to update armor")))
        }
    }

    /// Shortens (negative `new_range`) or extends the range. Refused, with the
    /// unit left as it was, where the sum is no value that a resource can hold.
    pub fn update_range(&mut self, new_range: i16) -> (result: Result<(), RtsException>)
        ensures
            old(self)@.within_limits() ==> final(self)@.within_limits(),
            match result {
                Ok(()) => {
                    &&& accepts(old(self)@.range, new_range as int)
                    &&& final(self)@ == (UnitView {
                        range: changed(old(self)@.range, old(self)@.max_range, new_range as int),
                        ..old(self)@
                    })
                },
                Err(e) => {
                    &&& !accepts(old(self)@.range, new_range as int)
                    &&& final(self)@ == old(self)@
                    &&& e@ == RtsExceptionView::GeneralException("Failed to update range"@)
                },
            },
    {
        if let Some(res) = Unit::update_attribut_under_max(self.range, self.max_range, new_range) {
            self.range = res;
            Ok(())
        } else {
            Err(RtsException::GeneralException(String::from_str("Failed to update range")))
        }
    }

    /// The new value of a resource, or nothing where the resource cannot take
    /// the change.
    fn update_attribut_under_max(attribut: i16, max_attribut: i16, to_update_with: i16) -> (result:
        Option<i16>)
        ensures
            result == (if accepts(attribut as int, to_update_with as int) {
                Some(changed(attribut as int, max_attribut as int, to_update_with as int) as i16)
            } else {
                None
            }),
    {
        if let Some(res) = attribut.checked_add(to_update_with) {
            let to_return = if res >= max_attribut {
                max_attribut
            } else {
                res
            };
            Some(to_return)
        } else {
            None
        }
    }

    pub fn get_health(&self) -> (value: &i16)
        ensures
            *value == self@.health,
    {
        &self.health
    }

    pub fn get_mana(&self) -> (value: &i16)
        ensures
            *value == self@.mana,
    {
        &self.mana
    }

    pub fn get_armor(&self) -> (value: &i16)
        ensures
            *value == self@.armor,
    {
        &self.armor
    }

    pub fn get_range(&self) -> (value: &i16)
        ensures
            *value == self@.range,
    {
        &self.range
    }

    /// The unit as it is printed: its four current values.
    pub fn to_string(&self) -> (text: String)
        ensures
            text@ == self@.text(),
    {
        let mut text = String::from_str("h:");
        text.append(to_decimal(self.health as i128).as_str());
        text.append(" m:");
        text.append(to_decimal(self.mana as i128).as_str());
        text.append(" a:");
        text.append(to_decimal(self.armor as i128).as_str());
        text.append(" r:");
        text.append(to_decimal(self.range as i128).as_str());
        text
    }
}

} // verus!
