//! The errors of the game, and the text each one is reported with.

use crate::entity::unit::UnitType;
use vstd::prelude::*;
use vstd::string::StringExecFns;

verus! {

/// Every way in which an operation of the game can fail.
///
/// A request that names a player who does not exist is an
/// `ExecuteActionException`. A purchase that the wallet cannot pay for is a
/// `BuyUnitException`, and a deposit that the wallet cannot take is an
/// `UpdatePlayerException`. An exhausted identifier counter, and a unit
/// resource that cannot be updated, are a `GeneralException`. A move of a unit
/// that is not on the play ground is an `UpdatePlayGroundException`.
#[derive(Debug)]
pub enum RtsException {
    GeneralException(String),
    BuyUnitException(UnitType, String),
    ExecuteActionException(String),
    StoreUnitCoordinatesException(String),
    UpdatePlayGroundException(String),
    /// Holds the name of the action that could not be carried out.
    UpdatePlayerException(String),
    PythonException(String),
    /// Holds what identifies the code that did not compile.
    PythonCompileCodeException(String),
}

/// An error with its strings as sequences of characters.
pub enum RtsExceptionView {
    GeneralException(Seq<char>),
    BuyUnitException(UnitType, Seq<char>),
    ExecuteActionException(Seq<char>),
    StoreUnitCoordinatesException(Seq<char>),
    UpdatePlayGroundException(Seq<char>),
    UpdatePlayerException(Seq<char>),
    PythonException(Seq<char>),
    PythonCompileCodeException(Seq<char>),
}

impl View for RtsException {
    type V = RtsExceptionView;

    open spec fn view(&self) -> RtsExceptionView {
        match self {
            RtsException::GeneralException(m) => RtsExceptionView::GeneralException(m@),
            RtsException::BuyUnitException(u, m) => RtsExceptionView::BuyUnitException(*u, m@),
            RtsException::ExecuteActionException(m) => RtsExceptionView::ExecuteActionException(m@),
            RtsException::StoreUnitCoordinatesException(m) => {
                RtsExceptionView::StoreUnitCoordinatesException(m@)
            },
            RtsException::UpdatePlayGroundException(m) => {
                RtsExceptionView::UpdatePlayGroundException(m@)
            },
            RtsException::UpdatePlayerException(m) => RtsExceptionView::UpdatePlayerException(m@),
            RtsException::PythonException(m) => RtsExceptionView::PythonException(m@),
            RtsException::PythonCompileCodeException(m) => {
                RtsExceptionView::PythonCompileCodeException(m@)
            },
        }
    }
}

impl RtsExceptionView {
    /// The text an error is reported with.
    pub open spec fn text(self) -> Seq<char> {
        match self {
            RtsExceptionView::UpdatePlayerException(action) => {
                "Rts Game: Failed to execute action "@ + action + " with player "@
            },
            RtsExceptionView::GeneralException(m)
            | RtsExceptionView::ExecuteActionException(m)
            | RtsExceptionView::UpdatePlayGroundException(m)
            | RtsExceptionView::StoreUnitCoordinatesException(m)
            | RtsExceptionView::PythonException(m) => "Rts Game: "@ + m,
            RtsExceptionView::BuyUnitException(u, m) => {
                "Rts Game: Failed to buy unit "@ + u.name() + " because "@ + m
            },
            RtsExceptionView::PythonCompileCodeException(hash) => {
                "Rts Game: Failed to compile python code with hash "@ + hash
            },
        }
    }
}

/// The error of a result, if it is one, as plain values.
pub open spec fn error_of<T>(result: Result<T, RtsException>) -> Option<RtsExceptionView> {
    match result {
        Ok(_) => None,
        Err(e) => Some(e@),
    }
}

impl RtsException {
    /// The text this error is reported with.
    pub fn to_string(&self) -> (text: String)
        ensures
            text@ == self@.text(),
    {
        match self {
            RtsException::UpdatePlayerException(action) => {
                let mut text = String::from_str("Rts Game: Failed to execute action ");
                text.append(action.as_str());
                text.append(" with player ");
                text
            },
            RtsException::GeneralException(m)
            | RtsException::ExecuteActionException(m)
            | RtsException::UpdatePlayGroundException(m)
            | RtsException::StoreUnitCoordinatesException(m)
            | RtsException::PythonException(m) => {
                let mut text = String::from_str("Rts Game: ");
                text.append(m.as_str());
                text
            },
            RtsException::BuyUnitException(u, m) => {
                let mut text = String::from_str("Rts Game: Failed to buy unit ");
                text.append(u.to_string().as_str());
                text.append(" because ");
                text.append(m.as_str());
                text
            },
            RtsException::PythonCompileCodeException(hash) => {
                let mut text = String::from_str(
                    "Rts Game: Failed to compile python code with hash ",
                );
                text.append(hash.as_str());
                text
            },
        }
    }
}

} // verus!
