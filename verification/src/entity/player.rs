//! Players and their wallets.

use crate::entity::game_actions::Action;
use crate::exceptions::RtsException;
use crate::text::{decimal, to_decimal};
use vstd::prelude::*;
use vstd::string::StringExecFns;

verus! {

/// Where the actions of a player come from: a person, a script, a program.
/// Asked once per turn, it answers with one action or fails.
pub trait TurnStrategyRequester {
    fn request(&self) -> Result<Action, RtsException>;
}

/// Whether a strategy may give this answer when it is asked for an action.
pub open spec fn may_answer<TurnStrategy: TurnStrategyRequester>(
    strategy: TurnStrategy,
    answer: Result<Action, RtsException>,
) -> bool {
    call_ensures(TurnStrategy::request, (&strategy,), answer)
}

/// A player: a name that never changes, a wallet, and the strategy that
/// decides the player's turns.
pub struct Player<TurnStrategy> where TurnStrategy: TurnStrategyRequester {
    name: String,
    wallet: Wallet,
    turn_strategy_requester: TurnStrategy,
}

/// A player as plain values.
pub struct PlayerView<TurnStrategy> {
    pub name: Seq<char>,
    pub money: int,
    pub strategy: TurnStrategy,
}

/// The balances that a wallet can hold: none is negative.
pub open spec fn legal_balance(money: int) -> bool {
    0 <= money <= i32::MAX
}

impl<TurnStrategy> PlayerView<TurnStrategy> {
    /// How a player is printed.
    pub open spec fn text(self) -> Seq<char> {
        "name: "@ + self.name + " wallet: "@ + decimal(self.money)
    }
}

impl<TurnStrategy> View for Player<TurnStrategy> where TurnStrategy: TurnStrategyRequester {
    type V = PlayerView<TurnStrategy>;

    closed spec fn view(&self) -> PlayerView<TurnStrategy> {
        PlayerView {
            name: self.name@,
            money: self.wallet.money as int,
            strategy: self.turn_strategy_requester,
        }
    }
}

impl<TurnStrategy> Player<TurnStrategy> where TurnStrategy: TurnStrategyRequester {
    #[verifier::type_invariant]
    spec fn balance_is_legal(self) -> bool {
        legal_balance(self.wallet.money as int)
    }

    /// A player with an empty wallet.
    pub fn new(name: String, turn_strategy_requester: TurnStrategy) -> (player: Self)
        ensures
            player@ == (PlayerView { name: name@, money: 0, strategy: turn_strategy_requester }),
    {
        Player { name, wallet: Wallet::new(), turn_strategy_requester }
    }

    /// Asks the strategy for the action of this turn, and hands on what it
    /// answers.
    pub fn request(&self) -> (answer: Result<Action, RtsException>)
        ensures
            may_answer(self@.strategy, answer),
    {
        self.turn_strategy_requester.request()
    }

    pub fn get_name(&self) -> (name: &str)
        ensures
            name@ == self@.name,
    {
        self.name.as_str()
    }

    /// The balance of the wallet, which is never negative.
    pub fn get_money(&self) -> (money: &i32)
        ensures
            *money == self@.money,
            legal_balance(self@.money),
    {
        proof {
            use_type_invariant(self);
        }
        &self.wallet.money
    }

    /// Adds `amount` to the wallet (a negative amount is taken from it) and
    /// returns the new balance. Where the new balance would be negative or
    /// too large for a wallet, nothing changes and nothing is returned.
    pub fn update_money(&mut self, amount: i32) -> (balance: Option<i32>)
        ensures
            legal_balance(old(self)@.money),
            legal_balance(final(self)@.money),
            legal_balance(old(self)@.money + amount) ==> balance == Some(
                (old(self)@.money + amount) as i32,
            ) && final(self)@ == (PlayerView {
                money: old(self)@.money + amount,
                ..old(self)@
            }),
            !legal_balance(old(self)@.money + amount) ==> balance.is_none() && final(self)@ == old(
                self,
            )@,
    {
        proof {
            use_type_invariant(&*self);
        }
        if let Some(res) = self.wallet.money.checked_add(amount) {
            if res >= 0 {
                self.wallet.money = res;
                return Some(self.wallet.money);
            }
        }
        None
    }

    /// The player as it is printed: the name and the balance.
    pub fn to_string(&self) -> (text: String)
        ensures
            text@ == self@.text(),
    {
        let mut text = String::from_str("name: ");
        text.append(self.name.as_str());
        text.append(" wallet: ");
        text.append(self.wallet.to_string().as_str());
        text
    }
}

struct Wallet {
    money: i32,
}

impl Wallet {
    fn new() -> (wallet: Self)
        ensures
            wallet.money == 0,
    {
        Wallet { money: 0 }
    }

    fn to_string(&self) -> (text: String)
        ensures
            text@ == decimal(self.money as int),
    {
        to_decimal(self.money as i128)
    }
}

} // verus!
