use rts_core::entity::game_actions::{Action, MoveState};
use rts_core::entity::unit::{Unit, UnitType};
use rts_core::exceptions::RtsException;

#[test]
pub fn every_action_has_a_name() {
    assert_eq!("Buy new unit Classic", Action::BuyUnit(UnitType::Classic).get_name());
    assert_eq!("Give new money batch to", Action::GiveMoneyBatch.get_name());
    assert_eq!("Game is over !", Action::EndGame.get_name());
    assert_eq!("Move unit 12 to (3,4)", Action::MoveUnit(12, (3, 4)).get_name());
    assert_eq!("Move unit -1 to (-3,0)", Action::MoveUnit(-1, (-3, 0)).get_name());
}

#[test]
pub fn action_is_read_from_the_name_of_its_type() {
    assert_eq!(Action::EndGame, Action::extract("end_game").unwrap());
    assert_eq!(Action::GiveMoneyBatch, Action::extract("give_money_batch").unwrap());
}

#[test]
pub fn unknown_type_is_refused() {
    for name in ["", "buy_unit", "End_game", "end_game ", "give_money"] {
        match Action::extract(name) {
            Err(RtsException::PythonException(m)) => assert_eq!("Unknown action type", m),
            _ => panic!("the type was to be refused"),
        }
    }
}

#[test]
pub fn entries_of_the_log_compare_by_what_they_hold() {
    assert_eq!(MoveState::EndGame, MoveState::EndGame);
    assert_ne!(MoveState::EndGame, MoveState::MoveUnit);
    assert_eq!(
        MoveState::BuyUnit(Unit::from(1, 2, 3, 4, 5, Vec::new())),
        MoveState::BuyUnit(Unit::from(1, 2, 3, 4, 5, Vec::new()))
    );
    assert_ne!(
        MoveState::BuyUnit(Unit::from(1, 2, 3, 4, 5, Vec::new())),
        MoveState::BuyUnit(Unit::from(2, 2, 3, 4, 5, Vec::new()))
    );
}
