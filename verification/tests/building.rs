use rts_core::components::building::{Bank, Barrack, NEW_MONEY_BATCH};
use rts_core::components::play_ground::HasIdentifier;
use rts_core::components::turn_strategy::TurnStrategy;
use rts_core::components::unit_factory::{Counter, UnitFactory};
use rts_core::entity::game_actions::Action;
use rts_core::entity::player::{Player, TurnStrategyRequester};
use rts_core::entity::unit::UnitType;
use rts_core::exceptions::RtsException;

/// A strategy with nobody to run it: it is never asked in these tests.
struct Unasked(TurnStrategy);

impl TurnStrategyRequester for Unasked {
    fn request(&self) -> Result<Action, RtsException> {
        match self.0 {
            TurnStrategy::AI(_) => Ok(Action::EndGame),
            TurnStrategy::Dummy => Ok(Action::GiveMoneyBatch),
        }
    }
}

#[test]
pub fn should_buy_unit() {
    let mut player = Player::new(String::from("Tigran"), Unasked(TurnStrategy::AI(String::new())));
    player.update_money(100);
    let mut barrack = Barrack::default();

    if let Ok(unit) = barrack.buy_unit(UnitType::Classic, &mut player) {
        assert_eq!(&20, unit.get_health());
        assert_eq!(&80, player.get_money());
    } else {
        assert!(false);
    }
}

#[test]
pub fn bought_unit_has_the_stats_of_its_kind() {
    let mut player = Player::new(String::from("Tigran"), Unasked(TurnStrategy::Dummy));
    player.update_money(20);
    let mut barrack = Barrack::default();
    let unit = barrack.buy_unit(UnitType::Classic, &mut player).unwrap();
    assert_eq!(&20, unit.get_health());
    assert_eq!(&10, unit.get_mana());
    assert_eq!(&5, unit.get_armor());
    assert_eq!(&15, unit.get_range());
    assert_eq!(1, unit.get_identifier());
    assert_eq!(&0, player.get_money());
}

#[test]
pub fn unit_is_not_sold_to_a_player_without_the_price() {
    let mut player = Player::new(String::from("Emma"), Unasked(TurnStrategy::Dummy));
    player.update_money(19);
    let mut barrack = Barrack::default();
    match barrack.buy_unit(UnitType::Classic, &mut player) {
        Err(RtsException::BuyUnitException(unit_type, m)) => {
            assert_eq!(UnitType::Classic, unit_type);
            assert_eq!("Player Emma does not have enough money !", m);
        }
        _ => panic!("the purchase was to be refused"),
    }
    assert_eq!(&19, player.get_money());
    player.update_money(1);
    let unit = barrack.buy_unit(UnitType::Classic, &mut player).unwrap();
    assert_eq!(1, unit.get_identifier());
}

#[test]
pub fn units_of_one_barrack_have_identifiers_of_their_own() {
    let mut player = Player::new(String::from("Tigran"), Unasked(TurnStrategy::Dummy));
    player.update_money(2000);
    let mut barrack = Barrack::default();
    let mut seen: Vec<i128> = Vec::new();
    for expected in 1..=50 {
        let unit = barrack.buy_unit(UnitType::Classic, &mut player).unwrap();
        assert_eq!(expected, unit.get_identifier());
        assert!(!seen.contains(&unit.get_identifier()));
        seen.push(unit.get_identifier());
    }
    assert_eq!(&1000, player.get_money());
}

#[test]
pub fn bank_pays_one_batch() {
    let mut player = Player::new(String::from("Tigran"), Unasked(TurnStrategy::Dummy));
    assert_eq!(100, NEW_MONEY_BATCH);
    assert!(Bank::give_money(&mut player).is_ok());
    assert_eq!(&100, player.get_money());
    assert!(Bank::give_money(&mut player).is_ok());
    assert_eq!(&200, player.get_money());
}

#[test]
pub fn bank_does_not_pay_a_wallet_that_is_full() {
    let mut player = Player::new(String::from("Tigran"), Unasked(TurnStrategy::Dummy));
    player.update_money(i32::MAX - 99);
    match Bank::give_money(&mut player) {
        Err(RtsException::UpdatePlayerException(m)) => assert_eq!("Give new money batch", m),
        _ => panic!("the payment was to be refused"),
    }
    assert_eq!(&(i32::MAX - 99), player.get_money());
    player.update_money(-1);
    assert!(Bank::give_money(&mut player).is_ok());
    assert_eq!(&i32::MAX, player.get_money());
}

#[test]
pub fn counter_gives_out_one_two_three() {
    let mut counter = Counter::new();
    assert_eq!(1, counter.get_next().unwrap());
    assert_eq!(2, counter.get_next().unwrap());
    assert_eq!(3, counter.get_next().unwrap());
}

#[test]
pub fn factory_numbers_its_units() {
    let mut factory = UnitFactory::default();
    let first = factory.build_unit(UnitType::Classic).unwrap();
    let second = factory.build_unit(UnitType::Classic).unwrap();
    assert_eq!(1, first.get_identifier());
    assert_eq!(2, second.get_identifier());
    assert_eq!(&20, second.get_health());
    assert_eq!(&10, second.get_mana());
    assert_eq!(&5, second.get_armor());
    assert_eq!(&15, second.get_range());
}
