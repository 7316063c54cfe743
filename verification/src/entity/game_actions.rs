//! What a player may ask for, and what is recorded once it was done.

use crate::components::play_ground::{Coordinate, Identifier};
use crate::entity::unit::{Unit, UnitType, UnitView};
use crate::exceptions::{RtsException, RtsExceptionView};
use crate::text::{decimal, to_decimal};
use vstd::prelude::*;
use vstd::string::StringExecFns;

verus! {

/// What a player asks the game to do in a turn.
#[derive(Debug, PartialEq, Eq, Clone, Copy)]
pub enum Action {
    /// Buy a unit of the given kind.
    BuyUnit(UnitType),
    /// Move the unit with the given identifier to the given place.
    MoveUnit(Identifier, Coordinate),
    /// Pay the player a batch of money.
    GiveMoneyBatch,
    /// End the game.
    EndGame,
}

impl Action {
    /// The words that name an action in messages.
    pub open spec fn name(self) -> Seq<char> {
        match self {
            Action::BuyUnit(t) => "Buy new unit "@ + t.name(),
            Action::GiveMoneyBatch => "Give new money batch to"@,
            Action::EndGame => "Game is over !"@,
            Action::MoveUnit(i, c) => "Move unit "@ + decimal(i as int) + " to ("@ + decimal(
                c.0 as int,
            ) + ","@ + decimal(c.1 as int) + ")"@,
        }
    }

    /// The action that a type name stands for, if it stands for one:
    /// `end_game` and `give_money_batch` do.
    pub open spec fn of_type(action_type: Seq<char>) -> Option<Action> {
        if action_type == "end_game"@ {
            Some(Action::EndGame)
        } else if action_type == "give_money_batch"@ {
            Some(Action::GiveMoneyBatch)
        } else {
            None
        }
    }

    /// The words that name this action in messages.
    pub fn get_name(&self) -> (name: String)
        ensures
            name@ == self.name(),
    {
        match &self {
            Action::BuyUnit(t) => {
                let mut name = String::from_str("Buy new unit ");
                name.append(t.to_string().as_str());
                name
            },
            Action::GiveMoneyBatch => String::from_str("Give new money batch to"),
            Action::EndGame => String::from_str("Game is over !"),
            Action::MoveUnit(i, (x, y)) => {
                let mut name = String::from_str("Move unit ");
                name.append(to_decimal(*i).as_str());
                name.append(" to (");
                name.append(to_decimal(*x as i128).as_str());
                name.append(",");
                name.append(to_decimal(*y as i128).as_str());
                name.append(")");
                name
            },
        }
    }

    /// Reads an action from the name of its type. Any name but `end_game` and
    /// `give_money_batch` is refused.
    pub fn extract(action_type: &str) -> (result: Result<Action, RtsException>)
        ensures
            match Action::of_type(action_type@) {
                Some(action) => result == Ok::<Action, RtsException>(action),
                None => result.is_err() && result.unwrap_err()@
                    == RtsExceptionView::PythonException("Unknown action type"@),
            },
    {
        let given = String::from_str(action_type);
        if given == String::from_str("end_game") {
            Ok(Action::EndGame)
        } else if given == String::from_str("give_money_batch") {
            Ok(Action::GiveMoneyBatch)
        } else {
            Err(RtsException::PythonException(String::from_str("Unknown action type")))
        }
    }
}

/// What the log records of an action that was carried out.
#[derive(Debug, PartialEq, Eq)]
pub enum MoveState {
    /// A unit was bought: this one.
    BuyUnit(Unit),
    MoveUnit,
    GiveMoneyBatch,
    EndGame,
}

/// An entry of the log as plain values.
pub enum MoveStateView {
    BuyUnit(UnitView),
    MoveUnit,
    GiveMoneyBatch,
    EndGame,
}

impl View for MoveState {
    type V = MoveStateView;

    open spec fn view(&self) -> MoveStateView {
        match self {
            MoveState::BuyUnit(unit) => MoveStateView::BuyUnit(unit@),
            MoveState::MoveUnit => MoveStateView::MoveUnit,
            MoveState::GiveMoneyBatch => MoveStateView::GiveMoneyBatch,
            MoveState::EndGame => MoveStateView::EndGame,
        }
    }
}

} // verus!
