use rts_core::components::game::{
    Game, GameStateObserver, GameStatus, TURN_DURATION_IN_SECONDS,
};
use rts_core::components::play_ground::HasIdentifier;
use rts_core::components::turn_strategy::{action_of_turn, Request, TurnStrategy};
use rts_core::entity::game_actions::{Action, MoveState};
use rts_core::entity::player::{Player, TurnStrategyRequester};
use rts_core::entity::unit::UnitType;
use rts_core::exceptions::RtsException;
use std::cell::RefCell;
use std::rc::Rc;

struct TestClientGameState();

impl GameStateObserver for TestClientGameState {
    fn update(&self, _m: &MoveState) {
        println!("client has been updated !");
    }
}

/// Keeps what it was told, in order.
struct Recorder {
    seen: Rc<RefCell<Vec<String>>>,
}

impl GameStateObserver for Recorder {
    fn update(&self, m: &MoveState) {
        let what = match m {
            MoveState::BuyUnit(unit) => format!("buy {}", unit.get_identifier()),
            MoveState::MoveUnit => String::from("move"),
            MoveState::GiveMoneyBatch => String::from("batch"),
            MoveState::EndGame => String::from("end"),
        };
        self.seen.borrow_mut().push(what);
    }
}

/// Asks for the actions of a list, one per turn, then for the end of the game.
struct Script {
    actions: RefCell<Vec<Action>>,
}

impl Script {
    fn of(mut actions: Vec<Action>) -> Self {
        actions.reverse();
        Script { actions: RefCell::new(actions) }
    }
}

impl TurnStrategyRequester for Script {
    fn request(&self) -> Result<Action, RtsException> {
        Ok(self.actions.borrow_mut().pop().unwrap_or(Action::EndGame))
    }
}

struct Failing;

impl TurnStrategyRequester for Failing {
    fn request(&self) -> Result<Action, RtsException> {
        Err(RtsException::GeneralException(String::from("no answer")))
    }
}

/// A strategy without an interpreter: what needs none is answered, and code
/// is not run.
struct Offline(TurnStrategy);

impl TurnStrategyRequester for Offline {
    fn request(&self) -> Result<Action, RtsException> {
        match self.0.prepare() {
            Request::Settled(actions) => action_of_turn(Ok(actions)),
            Request::Pending(_) => {
                Err(RtsException::PythonException(String::from("no interpreter")))
            }
        }
    }
}

fn two_players() -> Game<Offline, TestClientGameState> {
    let mut tigran = Player::new("Tigran".to_string(), Offline(TurnStrategy::Dummy));
    tigran.update_money(100);
    let emma = Player::new("Emma".to_string(), Offline(TurnStrategy::Dummy));
    Game::new(vec![tigran, emma], vec![TestClientGameState()])
}

#[test]
pub fn game_should_play_with_ai() {
    let mut tigran = Player::new("Tigran".to_string(), Offline(TurnStrategy::AI(String::new())));
    tigran.update_money(100);

    let emma = Player::new("Emma".to_string(), Offline(TurnStrategy::AI(String::new())));

    let mut game = Game::new(vec![tigran, emma], vec![TestClientGameState()]);

    let m = game.play(0, Action::BuyUnit(UnitType::Classic));

    assert!(m.is_ok());
}

#[test]
pub fn should_not_find_user() {
    let tigran = Player::new("Tigran".to_string(), Offline(TurnStrategy::AI(String::new())));
    let mut game = Game::new(vec![tigran], vec![TestClientGameState()]);

    let res = game.play(1, Action::BuyUnit(UnitType::Classic));
    assert!(res.is_err());
}

#[test]
pub fn playground_should_play_with_ai() {
    let mut tigran = Player::new("Tigran".to_string(), Offline(TurnStrategy::Dummy));
    tigran.update_money(100);

    let emma = Player::new("Emma".to_string(), Offline(TurnStrategy::Dummy));

    let mut play_ground = Game::new(vec![tigran, emma], vec![TestClientGameState()]);

    if let Ok(()) = play_ground.play(0, Action::BuyUnit(UnitType::Classic)) {
        let moves = play_ground.get_moves();
        if let MoveState::BuyUnit(unit) = &moves[0] {
            assert_eq!(&20, unit.get_health());
        } else {
            assert!(false);
        }
        let players = play_ground.get_players();
        let tigran = &players[0];
        assert_eq!(&80, tigran.get_money());
    } else {
        assert!(false);
    }
}

#[test]
pub fn new_game_is_empty_and_running() {
    let game = two_players();
    assert_eq!(2, game.get_players().len());
    assert_eq!("Tigran", game.get_players()[0].get_name());
    assert_eq!("Emma", game.get_players()[1].get_name());
    assert_eq!(0, game.get_moves().len());
    assert_eq!(0, game.snapshot_playground().get_cells().len());
    assert_eq!(false, game.check_game_is_over().unwrap());
    assert_eq!(10, TURN_DURATION_IN_SECONDS);
}

#[test]
pub fn batch_grows_the_balance_by_one_batch_and_is_recorded() {
    let mut game = two_players();
    assert!(game.play(1, Action::GiveMoneyBatch).is_ok());
    assert_eq!(&100, game.get_players()[1].get_money());
    assert_eq!(&100, game.get_players()[0].get_money());
    assert_eq!(1, game.get_moves().len());
    assert_eq!(MoveState::GiveMoneyBatch, game.get_moves()[0]);
    assert!(game.play(1, Action::GiveMoneyBatch).is_ok());
    assert_eq!(&200, game.get_players()[1].get_money());
    assert_eq!(2, game.get_moves().len());
}

#[test]
pub fn batch_that_the_wallet_cannot_hold_changes_nothing() {
    let mut rich = Player::new("Rich".to_string(), Offline(TurnStrategy::Dummy));
    rich.update_money(i32::MAX - 50);
    let mut game = Game::new(vec![rich], vec![TestClientGameState()]);
    match game.play(0, Action::GiveMoneyBatch) {
        Err(RtsException::UpdatePlayerException(m)) => assert_eq!("Give new money batch", m),
        _ => panic!("the payment was to be refused"),
    }
    assert_eq!(&(i32::MAX - 50), game.get_players()[0].get_money());
    assert_eq!(0, game.get_moves().len());
}

#[test]
pub fn tigran_buys_a_unit_and_emma_cannot() {
    let mut game = two_players();

    assert!(game.play(0, Action::BuyUnit(UnitType::Classic)).is_ok());
    assert_eq!(&80, game.get_players()[0].get_money());
    assert_eq!(1, game.get_moves().len());
    match &game.get_moves()[0] {
        MoveState::BuyUnit(unit) => {
            assert_eq!(&20, unit.get_health());
            assert_eq!(&10, unit.get_mana());
            assert_eq!(&5, unit.get_armor());
            assert_eq!(&15, unit.get_range());
            assert_eq!(1, unit.get_identifier());
        }
        _ => panic!("the log was to hold the purchase"),
    }

    match game.play(1, Action::BuyUnit(UnitType::Classic)) {
        Err(RtsException::BuyUnitException(unit_type, m)) => {
            assert_eq!(UnitType::Classic, unit_type);
            assert_eq!("Player Emma does not have enough money !", m);
        }
        _ => panic!("the purchase was to be refused"),
    }
    assert_eq!(&0, game.get_players()[1].get_money());
    assert_eq!(&80, game.get_players()[0].get_money());
    assert_eq!(1, game.get_moves().len());
}

#[test]
pub fn player_who_does_not_exist_is_named_in_the_error() {
    let mut game = two_players();
    match game.play(5, Action::GiveMoneyBatch) {
        Err(RtsException::ExecuteActionException(m)) => assert_eq!(
            "Failed to find player 5 when executing action Give new money batch to",
            m
        ),
        _ => panic!("the action was to be refused"),
    }
    match game.play(2, Action::MoveUnit(7, (1, -1))) {
        Err(RtsException::ExecuteActionException(m)) => assert_eq!(
            "Failed to find player 2 when executing action Move unit 7 to (1,-1)",
            m
        ),
        _ => panic!("the action was to be refused"),
    }
    assert_eq!(0, game.get_moves().len());
    assert_eq!(&100, game.get_players()[0].get_money());
    assert_eq!(&0, game.get_players()[1].get_money());
}

#[test]
pub fn bought_units_have_identifiers_of_their_own() {
    let mut game = two_players();
    for _ in 0..30 {
        game.play(0, Action::GiveMoneyBatch).unwrap();
        game.play(1, Action::GiveMoneyBatch).unwrap();
    }
    let mut seen: Vec<i128> = Vec::new();
    for turn in 0..40 {
        game.play(turn % 2, Action::BuyUnit(UnitType::Classic)).unwrap();
        match game.get_moves().last().unwrap() {
            MoveState::BuyUnit(unit) => {
                assert!(!seen.contains(&unit.get_identifier()));
                seen.push(unit.get_identifier());
            }
            _ => panic!("the log was to hold the purchase"),
        }
    }
    assert_eq!((1..=40).collect::<Vec<i128>>(), seen);
}

#[test]
pub fn unit_reaches_the_play_ground_when_the_log_is_taken_in() {
    let mut game = two_players();
    game.play(0, Action::BuyUnit(UnitType::Classic)).unwrap();
    assert_eq!(0, game.snapshot_playground().get_cells().len());
    assert!(game.update_observers().is_ok());
    let cells = game.snapshot_playground().get_cells();
    assert_eq!(1, cells.len());
    assert_eq!((0, 0), cells[0].get_coordinate());
    assert_eq!(1, cells[0].get_unit().as_ref().unwrap().get_identifier());

    assert!(game.update_observers().is_ok());
    assert_eq!(1, game.snapshot_playground().get_cells().len());
}

#[test]
pub fn purchased_unit_can_be_moved_and_a_stranger_cannot() {
    let mut game = two_players();
    game.play(0, Action::BuyUnit(UnitType::Classic)).unwrap();
    let id1 = match &game.get_moves()[0] {
        MoveState::BuyUnit(unit) => unit.get_identifier(),
        _ => panic!("the log was to hold the purchase"),
    };
    game.update_observers().unwrap();

    assert!(game.play(0, Action::MoveUnit(id1, (3, 4))).is_ok());
    let cells = game.snapshot_playground().get_cells();
    assert_eq!(1, cells.len());
    assert_eq!((3, 4), cells[0].get_coordinate());
    assert_eq!(id1, cells[0].get_unit().as_ref().unwrap().get_identifier());
    assert_eq!(MoveState::MoveUnit, game.get_moves()[1]);

    match game.play(0, Action::MoveUnit(id1 + 1, (9, 9))) {
        Err(RtsException::UpdatePlayGroundException(m)) => {
            assert_eq!("Failed to find cell with identifier 2", m)
        }
        _ => panic!("the move was to be refused"),
    }
    assert_eq!(2, game.get_moves().len());
    assert_eq!((3, 4), game.snapshot_playground().get_cells()[0].get_coordinate());
}

#[test]
pub fn unit_cannot_be_moved_before_it_reached_the_play_ground() {
    let mut game = two_players();
    game.play(0, Action::BuyUnit(UnitType::Classic)).unwrap();
    assert!(game.play(0, Action::MoveUnit(1, (3, 4))).is_err());
    assert_eq!(1, game.get_moves().len());
}

#[test]
pub fn move_leaves_the_other_cells_where_they_are() {
    let mut game = two_players();
    game.play(0, Action::BuyUnit(UnitType::Classic)).unwrap();
    game.play(0, Action::BuyUnit(UnitType::Classic)).unwrap();
    game.play(0, Action::BuyUnit(UnitType::Classic)).unwrap();
    game.update_observers().unwrap();
    game.play(1, Action::MoveUnit(2, (5, -5))).unwrap();
    let cells = game.snapshot_playground().get_cells();
    assert_eq!(3, cells.len());
    assert_eq!((0, 0), cells[0].get_coordinate());
    assert_eq!((5, -5), cells[1].get_coordinate());
    assert_eq!((0, 0), cells[2].get_coordinate());
    assert_eq!(&40, game.get_players()[0].get_money());
    assert_eq!(&0, game.get_players()[1].get_money());
}

#[test]
pub fn end_of_the_game_is_found_in_the_log() {
    let mut game = two_players();
    game.play(0, Action::GiveMoneyBatch).unwrap();
    assert_eq!(false, game.check_game_is_over().unwrap());
    game.play(1, Action::EndGame).unwrap();
    assert_eq!(true, game.check_game_is_over().unwrap());
    assert_eq!(MoveState::EndGame, game.get_moves()[1]);
    game.play(0, Action::GiveMoneyBatch).unwrap();
    assert_eq!(true, game.check_game_is_over().unwrap());
}

#[test]
pub fn recurring_actions_pay_every_player() {
    let mut game = two_players();
    assert!(game.execute_recurring_actions().is_ok());
    assert_eq!(&200, game.get_players()[0].get_money());
    assert_eq!(&100, game.get_players()[1].get_money());
    assert_eq!(2, game.get_moves().len());
    assert_eq!(MoveState::GiveMoneyBatch, game.get_moves()[0]);
    assert_eq!(MoveState::GiveMoneyBatch, game.get_moves()[1]);
}

#[test]
pub fn recurring_actions_stop_at_the_first_full_wallet() {
    let poor = Player::new("Poor".to_string(), Offline(TurnStrategy::Dummy));
    let mut rich = Player::new("Rich".to_string(), Offline(TurnStrategy::Dummy));
    rich.update_money(i32::MAX);
    let last = Player::new("Last".to_string(), Offline(TurnStrategy::Dummy));
    let mut game = Game::new(vec![poor, rich, last], vec![TestClientGameState()]);
    match game.execute_recurring_actions() {
        Err(RtsException::UpdatePlayerException(m)) => assert_eq!("Give new money batch", m),
        _ => panic!("the payment was to be refused"),
    }
    assert_eq!(&100, game.get_players()[0].get_money());
    assert_eq!(&i32::MAX, game.get_players()[1].get_money());
    assert_eq!(&0, game.get_players()[2].get_money());
    assert_eq!(1, game.get_moves().len());
}

#[test]
pub fn round_pays_then_plays_then_shows() {
    let seen = Rc::new(RefCell::new(Vec::new()));
    let first = Player::new(
        "First".to_string(),
        Script::of(vec![Action::BuyUnit(UnitType::Classic), Action::MoveUnit(1, (2, 3))]),
    );
    let second = Player::new(
        "Second".to_string(),
        Script::of(vec![Action::GiveMoneyBatch, Action::GiveMoneyBatch]),
    );
    let mut game = Game::new(vec![first, second], vec![Recorder { seen: Rc::clone(&seen) }]);

    assert_eq!(GameStatus::Running, game.play_round().unwrap());
    assert_eq!(&80, game.get_players()[0].get_money());
    assert_eq!(&200, game.get_players()[1].get_money());
    assert_eq!(4, game.get_moves().len());
    assert_eq!(1, game.snapshot_playground().get_cells().len());
    assert_eq!(vec!["batch", "batch", "buy 1", "batch"], *seen.borrow());

    assert_eq!(GameStatus::Running, game.play_round().unwrap());
    assert_eq!(&180, game.get_players()[0].get_money());
    assert_eq!(&400, game.get_players()[1].get_money());
    assert_eq!(8, game.get_moves().len());
    let cells = game.snapshot_playground().get_cells();
    assert_eq!(1, cells.len());
    assert_eq!((2, 3), cells[0].get_coordinate());
    assert_eq!(
        vec!["batch", "batch", "buy 1", "batch", "batch", "batch", "move", "batch"],
        *seen.borrow()
    );

    assert_eq!(GameStatus::Over, game.play_round().unwrap());
    assert_eq!(12, game.get_moves().len());
    assert_eq!(MoveState::EndGame, game.get_moves()[10]);
    assert_eq!(MoveState::EndGame, game.get_moves()[11]);
    assert_eq!(12, seen.borrow().len());
    assert_eq!(1, game.snapshot_playground().get_cells().len());
}

#[test]
pub fn round_in_which_the_game_ends_is_played_to_its_end() {
    let seen = Rc::new(RefCell::new(Vec::new()));
    let first = Player::new("First".to_string(), Script::of(vec![]));
    let second =
        Player::new("Second".to_string(), Script::of(vec![Action::BuyUnit(UnitType::Classic)]));
    let mut game = Game::new(
        vec![first, second],
        vec![Recorder { seen: Rc::clone(&seen) }, Recorder { seen: Rc::clone(&seen) }],
    );
    assert_eq!(GameStatus::Over, game.play_round().unwrap());
    assert_eq!(4, game.get_moves().len());
    assert_eq!(MoveState::EndGame, game.get_moves()[2]);
    assert_eq!(1, game.snapshot_playground().get_cells().len());
    assert_eq!(&80, game.get_players()[1].get_money());
    assert_eq!(
        vec!["batch", "batch", "batch", "batch", "end", "end", "buy 1", "buy 1"],
        *seen.borrow()
    );
    assert_eq!(true, game.check_game_is_over().unwrap());
}

#[test]
pub fn round_ends_with_the_error_of_a_strategy() {
    let first = Player::new("First".to_string(), Failing);
    let second = Player::new("Second".to_string(), Failing);
    let mut game = Game::new(vec![first, second], vec![TestClientGameState()]);
    match game.play_round() {
        Err(RtsException::GeneralException(m)) => assert_eq!("no answer", m),
        _ => panic!("the round was to fail"),
    }
    assert_eq!(2, game.get_moves().len());
    assert_eq!(&100, game.get_players()[0].get_money());
    assert_eq!(&100, game.get_players()[1].get_money());
}

#[test]
pub fn round_ends_with_the_first_action_that_is_refused() {
    let first = Player::new("First".to_string(), Script::of(vec![Action::MoveUnit(1, (1, 1))]));
    let second = Player::new("Second".to_string(), Script::of(vec![Action::GiveMoneyBatch]));
    let mut game = Game::new(vec![first, second], vec![TestClientGameState()]);
    match game.play_with_all_players() {
        Err(RtsException::UpdatePlayGroundException(m)) => {
            assert_eq!("Failed to find cell with identifier 1", m)
        }
        _ => panic!("the round was to fail"),
    }
    assert_eq!(0, game.get_moves().len());
    assert_eq!(&0, game.get_players()[1].get_money());
}

#[test]
pub fn dummy_players_cannot_take_a_turn() {
    let mut game = two_players();
    match game.play_with_all_players() {
        Err(RtsException::GeneralException(m)) => assert_eq!("The strategy asked for no action", m),
        _ => panic!("the round was to fail"),
    }
    assert_eq!(0, game.get_moves().len());
}
