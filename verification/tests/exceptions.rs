use rts_core::entity::unit::UnitType;
use rts_core::exceptions::RtsException;

#[test]
pub fn plain_errors_print_their_message() {
    let m = String::from("oops");
    assert_eq!("Rts Game: oops", RtsException::GeneralException(m.clone()).to_string());
    assert_eq!("Rts Game: oops", RtsException::ExecuteActionException(m.clone()).to_string());
    assert_eq!("Rts Game: oops", RtsException::UpdatePlayGroundException(m.clone()).to_string());
    assert_eq!(
        "Rts Game: oops",
        RtsException::StoreUnitCoordinatesException(m.clone()).to_string()
    );
    assert_eq!("Rts Game: oops", RtsException::PythonException(m).to_string());
}

#[test]
pub fn player_error_prints_the_action() {
    let e = RtsException::UpdatePlayerException(String::from("Give new money batch"));
    assert_eq!(
        "Rts Game: Failed to execute action Give new money batch with player ",
        e.to_string()
    );
}

#[test]
pub fn purchase_error_prints_the_unit_and_the_reason() {
    let e = RtsException::BuyUnitException(UnitType::Classic, String::from("no money"));
    assert_eq!("Rts Game: Failed to buy unit Classic because no money", e.to_string());
}

#[test]
pub fn compile_error_prints_the_hash() {
    let e = RtsException::PythonCompileCodeException(String::from("1234"));
    assert_eq!("Rts Game: Failed to compile python code with hash 1234", e.to_string());
}
