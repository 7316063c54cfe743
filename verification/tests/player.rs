use rts_core::entity::game_actions::Action;
use rts_core::entity::player::{Player, TurnStrategyRequester};
use rts_core::exceptions::RtsException;

pub struct TestTurnStrategyRequester;

impl TurnStrategyRequester for TestTurnStrategyRequester {
    fn request(&self) -> Result<Action, RtsException> {
        Ok(Action::GiveMoneyBatch)
    }
}

pub struct FailingRequester;

impl TurnStrategyRequester for FailingRequester {
    fn request(&self) -> Result<Action, RtsException> {
        Err(RtsException::GeneralException(String::from("nothing to say")))
    }
}

#[test]
pub fn should_earn_money() {
    let mut player = Player::new("Tigran".to_string(), TestTurnStrategyRequester);
    player.update_money(10);
    assert_eq!(&10, player.get_money())
}

#[test]
pub fn should_loose_money() {
    let mut player = Player::new("Tigran".to_string(), TestTurnStrategyRequester);
    player.update_money(10);
    player.update_money(-8);
    assert_eq!(&2, player.get_money())
}

#[test]
pub fn new_player_has_an_empty_wallet() {
    let player = Player::new("Tigran".to_string(), TestTurnStrategyRequester);
    assert_eq!(&0, player.get_money());
    assert_eq!("Tigran", player.get_name());
}

#[test]
pub fn update_returns_the_new_balance() {
    let mut player = Player::new("Tigran".to_string(), TestTurnStrategyRequester);
    assert_eq!(Some(10), player.update_money(10));
    assert_eq!(Some(3), player.update_money(-7));
    assert_eq!(Some(0), player.update_money(-3));
    assert_eq!(Some(0), player.update_money(0));
}

#[test]
pub fn balance_never_falls_below_zero() {
    let mut player = Player::new("Emma".to_string(), TestTurnStrategyRequester);
    assert_eq!(None, player.update_money(-1));
    assert_eq!(&0, player.get_money());
    player.update_money(19);
    assert_eq!(None, player.update_money(-20));
    assert_eq!(&19, player.get_money());
    assert_eq!(None, player.update_money(i32::MIN));
    assert_eq!(&19, player.get_money());
}

#[test]
pub fn balance_never_passes_what_a_wallet_holds() {
    let mut player = Player::new("Emma".to_string(), TestTurnStrategyRequester);
    assert_eq!(Some(i32::MAX), player.update_money(i32::MAX));
    assert_eq!(None, player.update_money(1));
    assert_eq!(&i32::MAX, player.get_money());
    assert_eq!(Some(i32::MAX - 1), player.update_money(-1));
}

#[test]
pub fn player_asks_its_strategy() {
    let player = Player::new("Tigran".to_string(), TestTurnStrategyRequester);
    assert_eq!(Action::GiveMoneyBatch, player.request().unwrap());
    let silent = Player::new("Emma".to_string(), FailingRequester);
    match silent.request() {
        Err(RtsException::GeneralException(m)) => assert_eq!("nothing to say", m),
        _ => panic!("the strategy was to fail"),
    }
}

#[test]
pub fn player_prints_name_and_balance() {
    let mut player = Player::new("Tigran".to_string(), TestTurnStrategyRequester);
    player.update_money(10);
    assert_eq!("name: Tigran wallet: 10", player.to_string());
}
