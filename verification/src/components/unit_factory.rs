//! The factory that makes units, and the counter that numbers them.

use crate::components::play_ground::Identifier;
use crate::entity::unit::{Unit, UnitType, UnitView};
use crate::exceptions::{RtsException, RtsExceptionView};
use vstd::prelude::*;
use vstd::string::StringExecFns;

verus! {

/// Makes the units of one game, each with an identifier of its own.
pub struct UnitFactory {
    counter: Counter,
}

/// Gives out identifiers: 1, 2, 3 and so on, each one once.
pub struct Counter {
    identifier: Identifier,
}

/// What is reported when no identifier is left.
pub open spec fn exhausted_message() -> Seq<char> {
    "Something went really bad went generating a id for unit"@
}

/// The identifiers that have been given out when the last one was `last`:
/// every one from 1 up to it.
pub open spec fn given_up_to(last: int) -> Set<Identifier> {
    Set::new(|identifier: Identifier| 1 <= identifier <= last)
}

/// The unit that the factory makes of a kind, under a given identifier: all
/// its resources at their maximum, and no skill.
pub open spec fn fresh_unit(unit_type: UnitType, identifier: Identifier) -> UnitView {
    match unit_type {
        UnitType::Classic => UnitView {
            identifier,
            max_health: 20,
            max_mana: 10,
            max_armor: 5,
            max_range: 15,
            health: 20,
            mana: 10,
            armor: 5,
            range: 15,
            skills: Seq::empty(),
        },
    }
}

impl Default for UnitFactory {
    fn default() -> (factory: Self)
        ensures
            factory.issued() == 0,
    {
        Self::new()
    }
}

impl UnitFactory {
    /// The last identifier that was given to a unit; zero before the first.
    pub closed spec fn issued(&self) -> int {
        self.counter.last()
    }

    /// The last identifier given to a unit is never negative, and it is an
    /// identifier.
    pub proof fn lemma_issued_in_range(&self)
        ensures
            0 <= self.issued() <= i128::MAX,
    {
        self.counter.lemma_last_in_range();
    }

    /// The identifiers of all the units that this factory has made.
    pub open spec fn given(&self) -> Set<Identifier> {
        given_up_to(self.issued())
    }

    fn new() -> (factory: Self)
        ensures
            factory.issued() == 0,
    {
        UnitFactory { counter: Counter::new() }
    }

    /// Makes a unit of the given kind under the next identifier, which no
    /// unit of this factory has had before. Fails, and gives out no
    /// identifier, when none is left.
    pub fn build_unit(&mut self, unit_type: UnitType) -> (result: Result<Unit, RtsException>)
        ensures
            0 <= old(self).issued() <= i128::MAX,
            match result {
                Ok(unit) => {
                    &&& old(self).issued() < i128::MAX
                    &&& final(self).issued() == old(self).issued() + 1
                    &&& unit@ == fresh_unit(unit_type, (old(self).issued() + 1) as i128)
                    &&& !old(self).given().contains(unit@.identifier)
                    &&& final(self).given() == old(self).given().insert(unit@.identifier)
                },
                Err(e) => {
                    &&& old(self).issued() == i128::MAX
                    &&& final(self).issued() == old(self).issued()
                    &&& e@ == RtsExceptionView::GeneralException(exhausted_message())
                },
            },
    {
        let next_identifier = match self.counter.get_next() {
            Ok(identifier) => identifier,
            Err(e) => {
                return Err(e);
            },
        };
        match unit_type {
            UnitType::Classic => Ok(Unit::from(next_identifier, 20, 10, 5, 15, Vec::new())),
        }
    }
}

impl Counter {
    #[verifier::type_invariant]
    spec fn never_negative(self) -> bool {
        self.identifier >= 0
    }

    /// The last identifier that was given out; zero before the first.
    pub closed spec fn last(&self) -> int {
        if self.identifier >= 0 {
            self.identifier as int
        } else {
            0
        }
    }

    /// The last identifier given out is never negative, and it is an
    /// identifier.
    pub proof fn lemma_last_in_range(&self)
        ensures
            0 <= self.last() <= i128::MAX,
    {
    }

    /// The identifiers that this counter has given out.
    pub open spec fn given(&self) -> Set<Identifier> {
        given_up_to(self.last())
    }

    /// A counter that has given out nothing yet.
    pub fn new() -> (counter: Self)
        ensures
            counter.last() == 0,
    {
        Counter { identifier: 0 }
    }

    /// Gives out the next identifier: one more than the last, and so one
    /// that this counter has not given out before. Fails, and leaves the
    /// counter as it was, when none is left.
    pub fn get_next(&mut self) -> (result: Result<Identifier, RtsException>)
        ensures
            0 <= old(self).last() <= i128::MAX,
            match result {
                Ok(identifier) => {
                    &&& old(self).last() < i128::MAX
                    &&& identifier == old(self).last() + 1
                    &&& final(self).last() == identifier
                    &&& !old(self).given().contains(identifier)
                    &&& final(self).given() == old(self).given().insert(identifier)
                },
                Err(e) => {
                    &&& old(self).last() == i128::MAX
                    &&& final(self).last() == old(self).last()
                    &&& e@ == RtsExceptionView::GeneralException(exhausted_message())
                },
            },
    {
        proof {
            use_type_invariant(&*self);
            if self.last() < i128::MAX {
                lemma_next_is_fresh(self.last());
            }
        }
        match self.increment() {
            Ok(()) => Ok(self.identifier),
            Err(e) => Err(e),
        }
    }

    fn increment(&mut self) -> (result: Result<(), RtsException>)
        ensures
            0 <= old(self).last() <= i128::MAX,
            match result {
                Ok(()) => {
                    &&& old(self).last() < i128::MAX
                    &&& final(self).last() == old(self).last() + 1
                },
                Err(e) => {
                    &&& old(self).last() == i128::MAX
                    &&& final(self).last() == old(self).last()
                    &&& e@ == RtsExceptionView::GeneralException(exhausted_message())
                },
            },
    {
        proof {
            use_type_invariant(&*self);
        }
        if let Some(res) = self.identifier.checked_add(1) {
            self.identifier = res;
            Ok(())
        } else {
            Err(
                RtsException::GeneralException(
                    String::from_str("Something went really bad went generating a id for unit"),
                ),
            )
        }
    }
}

/// The identifier that follows the last one given out has not been given
/// out, and giving it out adds it, and nothing else, to those given out.
pub proof fn lemma_next_is_fresh(last: int)
    requires
        0 <= last < i128::MAX,
    ensures
        !given_up_to(last).contains((last + 1) as i128),
        given_up_to(last + 1) == given_up_to(last).insert((last + 1) as i128),
{
    assert(given_up_to(last + 1) =~= given_up_to(last).insert((last + 1) as i128));
}

/// Identifiers that are given out one after the other differ, and each is
/// greater than those before it. `lasts` holds the last identifier given out
/// before the first call and after every call; `identifiers` holds what the
/// calls gave out.
pub proof fn lemma_identifiers_in_sequence_differ(lasts: Seq<int>, identifiers: Seq<Identifier>)
    requires
        lasts.len() == identifiers.len() + 1,
        forall|k: int|
            0 <= k < identifiers.len() ==> #[trigger] identifiers[k] == lasts[k] + 1 && lasts[k + 1]
                == lasts[k] + 1,
    ensures
        forall|i: int, j: int|
            0 <= i < j < identifiers.len() ==> #[trigger] identifiers[i] < #[trigger] identifiers[j],
        forall|i: int, j: int|
            0 <= i < identifiers.len() && 0 <= j < identifiers.len() && i != j
                ==> #[trigger] identifiers[i] != #[trigger] identifiers[j],
{
    assert forall|k: int| 0 <= k < identifiers.len() implies #[trigger] identifiers[k] == lasts[0]
        + k + 1 by {
        lemma_lasts_grow_by_one(lasts, identifiers, k);
    }
}

/// After `count` calls the last identifier given out is `count` more than it
/// was before the first.
proof fn lemma_lasts_grow_by_one(lasts: Seq<int>, identifiers: Seq<Identifier>, count: int)
    requires
        lasts.len() == identifiers.len() + 1,
        forall|k: int|
            0 <= k < identifiers.len() ==> #[trigger] identifiers[k] == lasts[k] + 1 && lasts[k + 1]
                == lasts[k] + 1,
        0 <= count <= identifiers.len(),
    ensures
        lasts[count] == lasts[0] + count,
    decreases count,
{
    if count > 0 {
        lemma_lasts_grow_by_one(lasts, identifiers, count - 1);
        assert(identifiers[count - 1] == lasts[count - 1] + 1);
    }
}

} // verus!
