//! The buildings of the economy: the bank pays players, the barrack sells
//! them units.

use crate::components::play_ground::Identifier;
use crate::components::unit_factory::{exhausted_message, fresh_unit, given_up_to, UnitFactory};
use crate::entity::player::{legal_balance, Player, PlayerView, TurnStrategyRequester};
use crate::entity::unit::{Unit, UnitType};
use crate::exceptions::{RtsException, RtsExceptionView};
use vstd::prelude::*;
use vstd::string::StringExecFns;

verus! {

/// Produce units and take money from players
pub struct Barrack {
    unit_factory: UnitFactory,
}

/// Produce money and give it to players
pub struct Bank;

/// What the bank pays at a time.
pub const NEW_MONEY_BATCH: i32 = 100;

/// What is reported to a player who cannot pay for a unit.
pub open spec fn not_enough_money_message(name: Seq<char>) -> Seq<char> {
    "Player "@ + name + " does not have enough money !"@
}

impl Default for Barrack {
    fn default() -> (barrack: Self)
        ensures
            barrack.issued() == 0,
    {
        Self::new()
    }
}

impl Bank {
    /// Pays the player one batch of money. Refused, with the wallet left as
    /// it was, where the wallet cannot hold that much.
    pub fn give_money<T: TurnStrategyRequester>(player: &mut Player<T>) -> (result: Result<
        (),
        RtsException,
    >)
        ensures
            match result {
                Ok(()) => {
                    &&& old(player)@.money + NEW_MONEY_BATCH <= i32::MAX
                    &&& final(player)@ == (PlayerView {
                        money: old(player)@.money + NEW_MONEY_BATCH,
                        ..old(player)@
                    })
                },
                Err(e) => {
                    &&& old(player)@.money + NEW_MONEY_BATCH > i32::MAX
                    &&& final(player)@ == old(player)@
                    &&& e@ == RtsExceptionView::UpdatePlayerException("Give new money batch"@)
                },
            },
    {
        if let Some(_money) = player.update_money(NEW_MONEY_BATCH) {
            Ok(())
        } else {
            Err(RtsException::UpdatePlayerException(String::from_str("Give new money batch")))
        }
    }
}

impl Barrack {
    /// The last identifier that was given to a unit; zero before the first.
    pub closed spec fn issued(&self) -> int {
        self.unit_factory.issued()
    }

    /// The last identifier given to a unit is never negative, and it is an
    /// identifier.
    pub proof fn lemma_issued_in_range(&self)
        ensures
            0 <= self.issued() <= i128::MAX,
    {
        self.unit_factory.lemma_issued_in_range();
    }

    /// The identifiers of all the units that this barrack has sold.
    pub open spec fn given(&self) -> Set<Identifier> {
        given_up_to(self.issued())
    }

    fn new() -> (barrack: Self)
        ensures
            barrack.issued() == 0,
    {
        Barrack { unit_factory: UnitFactory::default() }
    }

    /// Sells the player a unit of the given kind: takes the price from the
    /// wallet and makes the unit under the next identifier, which no unit
    /// of this barrack has had before.
    ///
    /// Nothing is sold when the wallet does not hold the price, nor when no
    /// identifier is left. In both cases the wallet and the counter are as
    /// they were when the error is returned: a price that was taken for a
    /// unit that cannot be made is given back. Where both are missing, the
    /// missing money is what is reported.
    pub fn buy_unit<T: TurnStrategyRequester>(
        &mut self,
        unit_type: UnitType,
        player: &mut Player<T>,
    ) -> (result: Result<Unit, RtsException>)
        ensures
            0 <= old(self).issued() <= i128::MAX,
            match result {
                Ok(unit) => {
                    &&& old(player)@.money >= unit_type.cost()
                    &&& old(self).issued() < i128::MAX
                    &&& final(self).issued() == old(self).issued() + 1
                    &&& !old(self).given().contains(unit@.identifier)
                    &&& final(self).given() == old(self).given().insert(unit@.identifier)
                    &&& final(player)@ == (PlayerView {
                        money: old(player)@.money - unit_type.cost(),
                        ..old(player)@
                    })
                    &&& unit@ == fresh_unit(unit_type, (old(self).issued() + 1) as i128)
                },
                Err(e) => {
                    &&& final(self).issued() == old(self).issued()
                    &&& final(player)@ == old(player)@
                    &&& if old(player)@.money < unit_type.cost() {
                        e@ == RtsExceptionView::BuyUnitException(
                            unit_type,
                            not_enough_money_message(old(player)@.name),
                        )
                    } else {
                        &&& old(self).issued() == i128::MAX
                        &&& e@ == RtsExceptionView::GeneralException(exhausted_message())
                    }
                },
            },
    {
        proof {
            self.unit_factory.lemma_issued_in_range();
        }
        if self.retrieve_money(&unit_type, player) {
            match self.unit_factory.build_unit(unit_type) {
                Ok(unit) => Ok(unit),
                Err(e) => {
                    player.update_money(unit_type.get_cost() as i32);
                    Err(e)
                },
            }
        } else {
            let mut message = String::from_str("Player ");
            message.append(player.get_name());
            message.append(" does not have enough money !");
            Err(RtsException::BuyUnitException(unit_type, message))
        }
    }

    /// Takes the price of a unit from the wallet, if the wallet holds it.
    fn retrieve_money<T: TurnStrategyRequester>(
        &self,
        unit_type: &UnitType,
        player: &mut Player<T>,
    ) -> (paid: bool)
        ensures
            legal_balance(old(player)@.money),
            paid == (old(player)@.money >= unit_type.cost()),
            paid ==> final(player)@ == (PlayerView {
                money: old(player)@.money - unit_type.cost(),
                ..old(player)@
            }),
            !paid ==> final(player)@ == old(player)@,
    {
        player.update_money(-unit_type.get_cost() as i32).is_some()
    }
}

} // verus!
