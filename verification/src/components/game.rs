//! The game: players take turns, their actions are carried out one at a time,
//! and every action that was carried out is recorded in a log.

use crate::components::building::{not_enough_money_message, Bank, Barrack, NEW_MONEY_BATCH};
use crate::components::play_ground::{
    first_holding, identifiers_of, lemma_first_holding, moved, not_found_message, origin,
    Coordinate, Identifier, PlayGround, PlayGroundObserver, UnitHolderView,
};
use crate::components::unit_factory::{exhausted_message, fresh_unit};
use crate::entity::game_actions::{Action, MoveState, MoveStateView};
use crate::entity::player::{may_answer, Player, PlayerView, TurnStrategyRequester};
use crate::entity::unit::{Unit, UnitType, UnitView};
use crate::exceptions::{error_of, RtsException, RtsExceptionView};
use crate::text::{decimal, to_decimal};
use vstd::prelude::*;
use vstd::string::StringExecFns;

verus! {

/// How long the game rests between two rounds.
pub const TURN_DURATION_IN_SECONDS: u64 = 10;

/// Public hooks for clients to be update on game state.
pub trait GameStateObserver {
    fn update(&self, m: &MoveState);
}

/// Whether a game goes on.
#[derive(Debug, PartialEq, Eq, Clone, Copy)]
pub enum GameStatus {
    Running,
    /// The log holds the end of the game.
    Over,
}

/// A game as plain values.
pub struct GameView<Strategy> {
    /// The players, in the order in which they take their turns.
    pub players: Seq<PlayerView<Strategy>>,
    /// The log: what was carried out, oldest first.
    pub moves: Seq<MoveStateView>,
    /// The cells of the play ground.
    pub cells: Seq<UnitHolderView<UnitView>>,
    /// The last identifier that was given to a unit; zero before the first.
    pub issued: int,
    /// How many entries of the log the play ground and the observers have
    /// taken in.
    pub propagated: int,
}

/// The units that a log says were bought, oldest first.
pub open spec fn bought(moves: Seq<MoveStateView>) -> Seq<UnitView>
    decreases moves.len(),
{
    if moves.len() == 0 {
        Seq::empty()
    } else {
        match moves.last() {
            MoveStateView::BuyUnit(unit) => bought(moves.drop_last()).push(unit),
            _ => bought(moves.drop_last()),
        }
    }
}

/// Whether a log holds the end of the game.
pub open spec fn holds_end_game(moves: Seq<MoveStateView>) -> bool {
    exists|i: int| 0 <= i < moves.len() && moves[i] == MoveStateView::EndGame
}

/// What is reported when a player is asked for who does not exist.
pub open spec fn missing_player_message(index: int, action: Action) -> Seq<char> {
    "Failed to find player "@ + decimal(index) + " when executing action "@ + action.name()
}

/// Cells as plain values.
pub open spec fn plain_cells(cells: Seq<UnitHolderView<Unit>>) -> Seq<UnitHolderView<UnitView>> {
    Seq::new(
        cells.len(),
        |i: int|
            UnitHolderView {
                unit: match cells[i].unit {
                    Some(unit) => Some(unit@),
                    None => None,
                },
                coordinate: cells[i].coordinate,
            },
    )
}

/// What the cells hold: for every cell the identifier of its unit, or
/// nothing where the cell holds none.
pub open spec fn unit_identifiers(cells: Seq<UnitHolderView<UnitView>>) -> Seq<
    Option<Identifier>,
> {
    Seq::new(
        cells.len(),
        |i: int|
            match cells[i].unit {
                Some(unit) => Some(unit.identifier),
                None => None,
            },
    )
}

/// The cells on which units arrive: one for each, in their order, at the
/// origin.
pub open spec fn arrivals(units: Seq<UnitView>) -> Seq<UnitHolderView<UnitView>> {
    Seq::new(units.len(), |i: int| UnitHolderView { unit: Some(units[i]), coordinate: origin() })
}

impl<Strategy: TurnStrategyRequester> GameView<Strategy> {
    /// A game that has not begun: the log and the play ground are empty.
    pub open spec fn initial(players: Seq<PlayerView<Strategy>>) -> Self {
        GameView { players, moves: Seq::empty(), cells: Seq::empty(), issued: 0, propagated: 0 }
    }

    /// What holds of a game at all times. The identifiers of the units in the
    /// log are positive, none is greater than the last one given out, and
    /// they grow along the log: no two units share one. The play ground holds
    /// the units of that part of the log that it has taken in, in the order
    /// of the log.
    pub open spec fn wf(self) -> bool {
        &&& 0 <= self.issued <= i128::MAX
        &&& 0 <= self.propagated <= self.moves.len()
        &&& forall|i: int|
            0 <= i < bought(self.moves).len() ==> 1 <= (#[trigger] bought(self.moves)[i]).identifier
                <= self.issued
        &&& forall|i: int, j: int|
            0 <= i < j < bought(self.moves).len() ==> (#[trigger] bought(self.moves)[i]).identifier
                < (#[trigger] bought(self.moves)[j]).identifier
        &&& self.cells.len() == bought(self.moves.take(self.propagated)).len()
        &&& forall|i: int|
            0 <= i < self.cells.len() ==> (#[trigger] self.cells[i]).unit == Some(
                bought(self.moves.take(self.propagated))[i],
            )
    }

    /// The index of the first cell that holds the unit with the given
    /// identifier; the number of cells where none does.
    pub open spec fn cell_of(self, identifier: Identifier) -> int {
        first_holding(unit_identifiers(self.cells), identifier)
    }

    /// Whether the game goes on: it is over once the log holds its end.
    pub open spec fn status(self) -> GameStatus {
        if holds_end_game(self.moves) {
            GameStatus::Over
        } else {
            GameStatus::Running
        }
    }

    /// The game with another balance for one player.
    pub open spec fn with_balance(self, index: int, money: int) -> Self {
        GameView {
            players: self.players.update(index, PlayerView { money, ..self.players[index] }),
            ..self
        }
    }

    /// The game with one more entry in its log.
    pub open spec fn recorded(self, entry: MoveStateView) -> Self {
        GameView { moves: self.moves.push(entry), ..self }
    }

    /// Why an action of a player cannot be carried out, if it cannot.
    ///
    /// The player must exist. To buy a unit the wallet must hold the price
    /// and an identifier must be left. To move a unit it must stand on the
    /// play ground. To be paid a batch the wallet must be able to hold it.
    pub open spec fn refusal(self, index: int, action: Action) -> Option<RtsExceptionView> {
        if !(0 <= index < self.players.len()) {
            Some(RtsExceptionView::ExecuteActionException(missing_player_message(index, action)))
        } else {
            match action {
                Action::BuyUnit(unit_type) => {
                    if self.players[index].money < unit_type.cost() {
                        Some(
                            RtsExceptionView::BuyUnitException(
                                unit_type,
                                not_enough_money_message(self.players[index].name),
                            ),
                        )
                    } else if self.issued >= i128::MAX {
                        Some(RtsExceptionView::GeneralException(exhausted_message()))
                    } else {
                        None
                    }
                },
                Action::MoveUnit(identifier, _) => {
                    if self.cell_of(identifier) >= self.cells.len() {
                        Some(
                            RtsExceptionView::UpdatePlayGroundException(
                                not_found_message(identifier),
                            ),
                        )
                    } else {
                        None
                    }
                },
                Action::GiveMoneyBatch => {
                    if self.players[index].money + NEW_MONEY_BATCH > i32::MAX {
                        Some(RtsExceptionView::UpdatePlayerException("Give new money batch"@))
                    } else {
                        None
                    }
                },
                Action::EndGame => None,
            }
        }
    }

    /// The game after an action of a player was carried out: what the action
    /// changes, and one more entry in the log.
    pub open spec fn carried_out(self, index: int, action: Action) -> Self {
        match action {
            Action::BuyUnit(unit_type) => GameView {
                issued: self.issued + 1,
                ..self.with_balance(index, self.players[index].money - unit_type.cost())
            }.recorded(MoveStateView::BuyUnit(fresh_unit(unit_type, (self.issued + 1) as i128))),
            Action::MoveUnit(identifier, coordinate) => GameView {
                cells: moved(self.cells, self.cell_of(identifier), coordinate),
                ..self
            }.recorded(MoveStateView::MoveUnit),
            Action::GiveMoneyBatch => self.with_balance(
                index,
                self.players[index].money + NEW_MONEY_BATCH,
            ).recorded(MoveStateView::GiveMoneyBatch),
            Action::EndGame => self.recorded(MoveStateView::EndGame),
        }
    }

    /// Whether an entry can be the next of the log: a unit that was bought
    /// carries the last identifier given out, which no unit of the log has.
    pub open spec fn admits(self, entry: MoveStateView) -> bool {
        match entry {
            MoveStateView::BuyUnit(unit) => {
                &&& unit.identifier == self.issued
                &&& 1 <= self.issued
                &&& forall|i: int|
                    0 <= i < bought(self.moves).len() ==> (#[trigger] bought(
                        self.moves,
                    )[i]).identifier < self.issued
            },
            _ => true,
        }
    }

    /// The game after a player asked for an action: the action was carried
    /// out, or it was refused and nothing changed.
    pub open spec fn played(self, index: int, action: Action) -> Self {
        if self.refusal(index, action) is Some {
            self
        } else {
            self.carried_out(index, action)
        }
    }

    /// The game after a series of requests, each by the player at the index
    /// it names and for the action it names.
    pub open spec fn played_all(self, requests: Seq<(int, Action)>) -> Self
        decreases requests.len(),
    {
        if requests.len() == 0 {
            self
        } else {
            self.played_all(requests.drop_last()).played(requests.last().0, requests.last().1)
        }
    }
}

/// The index of the first player, from `from` on, whose wallet cannot hold one
/// more batch; the number of players where every wallet can.
pub open spec fn first_unpayable<Strategy>(players: Seq<PlayerView<Strategy>>, from: int) -> int
    decreases players.len() - from,
{
    if from < 0 || from >= players.len() {
        players.len() as int
    } else if players[from].money + NEW_MONEY_BATCH > i32::MAX {
        from
    } else {
        first_unpayable(players, from + 1)
    }
}

impl<Strategy: TurnStrategyRequester> GameView<Strategy> {
    /// The game after the first `count` players were each paid a batch.
    pub open spec fn paid_batches(self, count: int) -> Self {
        GameView {
            players: Seq::new(
                self.players.len(),
                |i: int|
                    if i < count {
                        PlayerView {
                            money: self.players[i].money + NEW_MONEY_BATCH,
                            ..self.players[i]
                        }
                    } else {
                        self.players[i]
                    },
            ),
            moves: self.moves + Seq::new(count as nat, |i: int| MoveStateView::GiveMoneyBatch),
            ..self
        }
    }

    /// The game after the first players asked, one after the other, each for
    /// the action that `actions` holds at the player's index.
    pub open spec fn round_of(self, actions: Seq<Action>) -> Self
        decreases actions.len(),
    {
        if actions.len() == 0 {
            self
        } else {
            self.round_of(actions.drop_last()).played(actions.len() - 1, actions.last())
        }
    }

    /// Whether each of these actions is carried out when the first players
    /// ask for them one after the other.
    pub open spec fn round_accepted(self, actions: Seq<Action>) -> bool
        decreases actions.len(),
    {
        actions.len() == 0 || (self.round_accepted(actions.drop_last()) && self.round_of(
            actions.drop_last(),
        ).refusal(actions.len() - 1, actions.last()) is None)
    }

    /// What it means that the players took their turns from `self` to
    /// `after` with the given actions and the given error, if there was one.
    ///
    /// Each action is what the strategy of its player answered. Every action
    /// but the last was carried out. Without an error the last one was
    /// carried out too, and every player had a turn. An error is either the
    /// refusal of the last action, or what the strategy of the next player
    /// failed with.
    pub open spec fn turns_taken(
        self,
        actions: Seq<Action>,
        after: Self,
        error: Option<RtsExceptionView>,
    ) -> bool {
        &&& actions.len() <= self.players.len()
        &&& forall|i: int|
            0 <= i < actions.len() ==> may_answer(
                self.players[i].strategy,
                Ok::<Action, RtsException>(#[trigger] actions[i]),
            )
        &&& after == self.round_of(actions)
        &&& match error {
            None => actions.len() == self.players.len() && self.round_accepted(actions),
            Some(e) => {
                ||| actions.len() < self.players.len() && self.round_accepted(actions)
                    && self.failed_with(actions.len() as int, e)
                ||| actions.len() > 0 && self.round_accepted(actions.drop_last()) && self.round_of(
                    actions.drop_last(),
                ).refusal(actions.len() - 1, actions.last()) == Some(e)
            },
        }
    }

    /// Whether the strategy of a player may fail with the given error.
    pub open spec fn failed_with(self, index: int, error: RtsExceptionView) -> bool {
        exists|failure: RtsException|
            failure@ == error && #[trigger] may_answer(
                self.players[index].strategy,
                Err::<Action, RtsException>(failure),
            )
    }

    /// What it means that a round led from `self` to `after`, the players
    /// asking for the given actions: every player was paid a batch, every
    /// player took a turn, and the play ground took in the log.
    pub open spec fn round_played(self, actions: Seq<Action>, after: Self) -> bool {
        let paid = self.paid_batches(self.players.len() as int);
        &&& first_unpayable(self.players, 0) == self.players.len()
        &&& paid.turns_taken(actions, paid.round_of(actions), None)
        &&& after == paid.round_of(actions).taken_in()
    }

    /// What it means that a round that began at `self` ended at `after`
    /// with an error: either a wallet could not hold one more batch, and
    /// the round ended there, or every player was paid and the turns ended
    /// with the error. The play ground took in nothing.
    pub open spec fn round_failed(
        self,
        actions: Seq<Action>,
        after: Self,
        error: RtsExceptionView,
    ) -> bool {
        let paid = self.paid_batches(first_unpayable(self.players, 0));
        if first_unpayable(self.players, 0) < self.players.len() {
            &&& after == paid
            &&& error == RtsExceptionView::UpdatePlayerException("Give new money batch"@)
        } else {
            paid.turns_taken(actions, after, Some(error))
        }
    }

    /// The game after the play ground took in the whole log: it has one more
    /// cell for every unit that the log holds beyond those it had taken in,
    /// in the order of the log, each at the origin. Nothing else differs.
    pub open spec fn taken_in(self) -> Self {
        GameView {
            cells: self.cells + arrivals(bought(self.moves).skip(self.cells.len() as int)),
            propagated: self.moves.len() as int,
            ..self
        }
    }
}

/// Adding an entry to a log adds its unit, if it has one, to the units bought.
pub proof fn lemma_bought_push(moves: Seq<MoveStateView>, entry: MoveStateView)
    ensures
        bought(moves.push(entry)) == (match entry {
            MoveStateView::BuyUnit(unit) => bought(moves).push(unit),
            _ => bought(moves),
        }),
{
    assert(moves.push(entry).drop_last() =~= moves);
}

/// The units bought in the first entries of a log are the first units bought
/// in the whole log.
pub proof fn lemma_bought_take(moves: Seq<MoveStateView>, count: int)
    requires
        0 <= count <= moves.len(),
    ensures
        bought(moves.take(count)).len() <= bought(moves).len(),
        bought(moves.take(count)) == bought(moves).take(bought(moves.take(count)).len() as int),
    decreases moves.len() - count,
{
    if count == moves.len() {
        assert(moves.take(count) =~= moves);
        assert(bought(moves).take(bought(moves).len() as int) =~= bought(moves));
    } else {
        lemma_bought_take(moves, count + 1);
        let longer = moves.take(count + 1);
        assert(longer.drop_last() =~= moves.take(count));
        let shorter = bought(moves.take(count));
        assert(shorter =~= bought(longer).take(shorter.len() as int));
        assert(bought(longer).take(shorter.len() as int) =~= bought(moves).take(
            shorter.len() as int,
        ));
    }
}

/// Whatever a player asks for, the players stay who they are: their number,
/// their names and their strategies do not change.
pub proof fn lemma_played_keeps_players<Strategy: TurnStrategyRequester>(
    game: GameView<Strategy>,
    index: int,
    action: Action,
)
    ensures
        game.played(index, action).players.len() == game.players.len(),
        forall|i: int|
            0 <= i < game.players.len() ==> (#[trigger] game.played(index, action).players[i]).name
                == game.players[i].name && game.played(index, action).players[i].strategy
                == game.players[i].strategy,
{
}

/// Whatever a player asks for, a game that is well formed stays so.
pub proof fn lemma_played_keeps_wf<Strategy: TurnStrategyRequester>(game: GameView<Strategy>, index: int, action: Action)
    requires
        game.wf(),
    ensures
        game.played(index, action).wf(),
{
    let after = game.played(index, action);
    if game.refusal(index, action) is None {
        assert(after.moves.take(after.propagated) =~= game.moves.take(game.propagated));
        match action {
            Action::BuyUnit(unit_type) => {
                lemma_bought_push(
                    game.moves,
                    MoveStateView::BuyUnit(fresh_unit(unit_type, (game.issued + 1) as i128)),
                );
            },
            Action::MoveUnit(identifier, coordinate) => {
                lemma_bought_push(game.moves, MoveStateView::MoveUnit);
            },
            Action::GiveMoneyBatch => {
                lemma_bought_push(game.moves, MoveStateView::GiveMoneyBatch);
            },
            Action::EndGame => {
                lemma_bought_push(game.moves, MoveStateView::EndGame);
            },
        }
    }
}

/// An action that is carried out adds exactly one entry to the log, an
/// action that is refused adds none, and no entry of the log ever changes.
pub proof fn lemma_played_extends_log<Strategy: TurnStrategyRequester>(
    game: GameView<Strategy>,
    index: int,
    action: Action,
)
    ensures
        game.refusal(index, action) is None ==> game.played(index, action).moves.len()
            == game.moves.len() + 1,
        game.refusal(index, action) is Some ==> game.played(index, action).moves == game.moves,
        game.played(index, action).moves.take(game.moves.len() as int) == game.moves,
{
    assert(game.played(index, action).moves.take(game.moves.len() as int) =~= game.moves);
}

/// A player whose wallet can hold one more batch is paid exactly one batch:
/// the balance grows by it, the log gains one entry that says so, and
/// nothing else changes.
pub proof fn lemma_batch_is_paid<Strategy: TurnStrategyRequester>(game: GameView<Strategy>, index: int)
    requires
        0 <= index < game.players.len(),
        game.players[index].money + NEW_MONEY_BATCH <= i32::MAX,
    ensures
        game.refusal(index, Action::GiveMoneyBatch) is None,
        game.played(index, Action::GiveMoneyBatch).players[index].money
            == game.players[index].money + NEW_MONEY_BATCH,
        game.played(index, Action::GiveMoneyBatch).moves == game.moves.push(
            MoveStateView::GiveMoneyBatch,
        ),
        game.played(index, Action::GiveMoneyBatch) == (GameView {
            players: game.players.update(
                index,
                PlayerView {
                    money: game.players[index].money + NEW_MONEY_BATCH,
                    ..game.players[index]
                },
            ),
            moves: game.moves.push(MoveStateView::GiveMoneyBatch),
            ..game
        }),
{
}

/// A player whose wallet holds the price of a unit gets the unit, as long as
/// an identifier is left: the balance falls by the price, the unit has every
/// resource at its maximum and an identifier that no unit of the game had
/// before, and the log gains one entry, which carries that unit.
pub proof fn lemma_unit_is_bought<Strategy: TurnStrategyRequester>(
    game: GameView<Strategy>,
    index: int,
    unit_type: UnitType,
)
    requires
        game.wf(),
        0 <= index < game.players.len(),
        game.players[index].money >= unit_type.cost(),
        game.issued < i128::MAX,
    ensures
        game.refusal(index, Action::BuyUnit(unit_type)) is None,
        game.played(index, Action::BuyUnit(unit_type)).players[index].money
            == game.players[index].money - unit_type.cost(),
        game.played(index, Action::BuyUnit(unit_type)).moves == game.moves.push(
            MoveStateView::BuyUnit(fresh_unit(unit_type, (game.issued + 1) as i128)),
        ),
        ({
            let unit = fresh_unit(unit_type, (game.issued + 1) as i128);
            &&& unit.health == unit.max_health
            &&& unit.mana == unit.max_mana
            &&& unit.armor == unit.max_armor
            &&& unit.range == unit.max_range
            &&& forall|i: int|
                0 <= i < bought(game.moves).len() ==> (#[trigger] bought(game.moves)[i]).identifier
                    != unit.identifier
            &&& forall|i: int|
                0 <= i < game.cells.len() ==> #[trigger] unit_identifiers(game.cells)[i] != Some(
                    unit.identifier,
                )
        }),
{
    lemma_bought_take(game.moves, game.propagated);
    let shown = bought(game.moves.take(game.propagated));
    assert forall|i: int| 0 <= i < game.cells.len() implies #[trigger] unit_identifiers(
        game.cells,
    )[i] != Some((game.issued + 1) as i128) by {
        assert(game.cells[i].unit == Some(shown[i]));
        assert(shown[i] == bought(game.moves)[i]);
    }
}

/// A player whose wallet does not hold the price of a unit gets no unit:
/// the purchase is refused for want of money, and the balance, the log and
/// all the rest stay as they were.
pub proof fn lemma_unit_is_not_sold<Strategy: TurnStrategyRequester>(
    game: GameView<Strategy>,
    index: int,
    unit_type: UnitType,
)
    requires
        0 <= index < game.players.len(),
        game.players[index].money < unit_type.cost(),
    ensures
        game.refusal(index, Action::BuyUnit(unit_type)) == Some(
            RtsExceptionView::BuyUnitException(
                unit_type,
                not_enough_money_message(game.players[index].name),
            ),
        ),
        game.played(index, Action::BuyUnit(unit_type)) == game,
{
}

/// No two units of a game share an identifier: not in the log, and not on
/// the play ground, where every cell holds a unit.
pub proof fn lemma_identifiers_differ<Strategy: TurnStrategyRequester>(game: GameView<Strategy>)
    requires
        game.wf(),
    ensures
        forall|i: int, j: int|
            0 <= i < bought(game.moves).len() && 0 <= j < bought(game.moves).len() && i != j ==> (
            #[trigger] bought(game.moves)[i]).identifier != (#[trigger] bought(
                game.moves,
            )[j]).identifier,
        forall|i: int, j: int|
            0 <= i < game.cells.len() && 0 <= j < game.cells.len() && i != j
                ==> #[trigger] unit_identifiers(game.cells)[i] != #[trigger] unit_identifiers(
                game.cells,
            )[j],
{
    let all = bought(game.moves);
    assert forall|i: int, j: int|
        0 <= i < all.len() && 0 <= j < all.len() && i != j implies (#[trigger] all[i]).identifier != (
    #[trigger] all[j]).identifier by {
        if i < j {
            assert(all[i].identifier < all[j].identifier);
        } else {
            assert(all[j].identifier < all[i].identifier);
        }
    }
    lemma_bought_take(game.moves, game.propagated);
    let shown = bought(game.moves.take(game.propagated));
    assert forall|i: int, j: int|
        0 <= i < game.cells.len() && 0 <= j < game.cells.len() && i
            != j implies #[trigger] unit_identifiers(game.cells)[i] != #[trigger] unit_identifiers(
        game.cells,
    )[j] by {
        assert(game.cells[i].unit == Some(shown[i]));
        assert(game.cells[j].unit == Some(shown[j]));
        assert(shown[i] == all[i]);
        assert(shown[j] == all[j]);
    }
}

/// However many units are bought, and whatever else the players ask for in
/// between, no two units of the game share an identifier.
pub proof fn lemma_identifiers_differ_after_any_series<Strategy: TurnStrategyRequester>(
    game: GameView<Strategy>,
    requests: Seq<(int, Action)>,
)
    requires
        game.wf(),
    ensures
        game.played_all(requests).wf(),
        forall|i: int, j: int|
            0 <= i < bought(game.played_all(requests).moves).len() && 0 <= j < bought(
                game.played_all(requests).moves,
            ).len() && i != j ==> (#[trigger] bought(
                game.played_all(requests).moves,
            )[i]).identifier != (#[trigger] bought(game.played_all(requests).moves)[j]).identifier,
    decreases requests.len(),
{
    if requests.len() > 0 {
        lemma_identifiers_differ_after_any_series(game, requests.drop_last());
        lemma_played_keeps_wf(
            game.played_all(requests.drop_last()),
            requests.last().0,
            requests.last().1,
        );
    }
    lemma_identifiers_differ(game.played_all(requests));
}

/// Moving a unit that stands on the play ground changes the place of its
/// cell and of no other: the cell that holds the unit gets the new place and
/// keeps the unit, every other cell stays as it was, and the log gains one
/// entry.
pub proof fn lemma_move_changes_one_cell<Strategy: TurnStrategyRequester>(
    game: GameView<Strategy>,
    index: int,
    identifier: Identifier,
    coordinate: Coordinate,
    at: int,
)
    requires
        game.wf(),
        0 <= index < game.players.len(),
        0 <= at < game.cells.len(),
        unit_identifiers(game.cells)[at] == Some(identifier),
    ensures
        game.refusal(index, Action::MoveUnit(identifier, coordinate)) is None,
        ({
            let after = game.played(index, Action::MoveUnit(identifier, coordinate));
            &&& after.cells.len() == game.cells.len()
            &&& after.cells[at] == (UnitHolderView { unit: game.cells[at].unit, coordinate })
            &&& forall|i: int|
                0 <= i < game.cells.len() && i != at ==> #[trigger] after.cells[i] == game.cells[i]
            &&& after.moves == game.moves.push(MoveStateView::MoveUnit)
            &&& after.players == game.players
        }),
{
    lemma_identifiers_differ(game);
    lemma_first_holding(unit_identifiers(game.cells), identifier);
    let first = game.cell_of(identifier);
    if first != at {
        assert(unit_identifiers(game.cells)[first] == Some(identifier));
    }
}

/// Moving a unit that does not stand on the play ground is refused, and
/// changes nothing.
pub proof fn lemma_move_of_absent_unit<Strategy: TurnStrategyRequester>(
    game: GameView<Strategy>,
    index: int,
    identifier: Identifier,
    coordinate: Coordinate,
)
    requires
        0 <= index < game.players.len(),
        forall|i: int|
            0 <= i < game.cells.len() ==> #[trigger] unit_identifiers(game.cells)[i] != Some(
                identifier,
            ),
    ensures
        game.refusal(index, Action::MoveUnit(identifier, coordinate)) == Some(
            RtsExceptionView::UpdatePlayGroundException(not_found_message(identifier)),
        ),
        game.played(index, Action::MoveUnit(identifier, coordinate)) == game,
{
    lemma_first_holding(unit_identifiers(game.cells), identifier);
}

/// The end of the game, once a player asked for it, is in the log, and the
/// game is over.
pub proof fn lemma_end_game_ends<Strategy: TurnStrategyRequester>(game: GameView<Strategy>, index: int)
    requires
        0 <= index < game.players.len(),
    ensures
        game.refusal(index, Action::EndGame) is None,
        game.played(index, Action::EndGame).moves == game.moves.push(MoveStateView::EndGame),
        game.played(index, Action::EndGame).status() == GameStatus::Over,
{
    let after = game.played(index, Action::EndGame);
    assert(after.moves[game.moves.len() as int] == MoveStateView::EndGame);
}

/// A game that is over stays over: the log only grows, so the end of the
/// game never leaves it.
pub proof fn lemma_over_stays_over(earlier: Seq<MoveStateView>, later: Seq<MoveStateView>)
    requires
        holds_end_game(earlier),
        earlier.len() <= later.len(),
        later.take(earlier.len() as int) == earlier,
    ensures
        holds_end_game(later),
{
    let i = choose|i: int| 0 <= i < earlier.len() && earlier[i] == MoveStateView::EndGame;
    assert(later.take(earlier.len() as int)[i] == later[i]);
}

/// Turns only add to the log: what the log held before the players took
/// their turns, it holds after, at the same places.
pub proof fn lemma_turns_extend_log<Strategy: TurnStrategyRequester>(game: GameView<Strategy>, actions: Seq<Action>)
    ensures
        game.moves.len() <= game.round_of(actions).moves.len(),
        game.round_of(actions).moves.take(game.moves.len() as int) == game.moves,
    decreases actions.len(),
{
    if actions.len() == 0 {
        assert(game.moves.take(game.moves.len() as int) =~= game.moves);
    } else {
        let before = game.round_of(actions.drop_last());
        lemma_turns_extend_log(game, actions.drop_last());
        lemma_played_extends_log(before, actions.len() - 1, actions.last());
        let after = before.played(actions.len() - 1, actions.last());
        assert(after.moves.take(game.moves.len() as int) =~= before.moves.take(
            game.moves.len() as int,
        )) by {
            assert(after.moves.take(before.moves.len() as int) == before.moves);
        }
    }
}

/// A round only adds to the log, whether it ends well or with an error. So
/// a game that is over when a round begins is over when the round ends: the
/// search for the end of the game that closes the round finds it.
pub proof fn lemma_round_extends_log<Strategy: TurnStrategyRequester>(
    before: GameView<Strategy>,
    actions: Seq<Action>,
    after: GameView<Strategy>,
)
    requires
        before.round_played(actions, after) || exists|e: RtsExceptionView|
            before.round_failed(actions, after, e),
    ensures
        before.moves.len() <= after.moves.len(),
        after.moves.take(before.moves.len() as int) == before.moves,
        before.status() == GameStatus::Over ==> after.status() == GameStatus::Over,
{
    let paid = before.paid_batches(first_unpayable(before.players, 0));
    assert(paid.moves.take(before.moves.len() as int) =~= before.moves);
    if before.round_played(actions, after) {
        lemma_turns_extend_log(paid, actions);
        let acted = paid.round_of(actions);
        assert(after.moves == acted.moves);
        assert(after.moves.take(before.moves.len() as int) =~= before.moves) by {
            assert(acted.moves.take(paid.moves.len() as int) == paid.moves);
        }
    } else {
        if first_unpayable(before.players, 0) >= before.players.len() {
            lemma_turns_extend_log(paid, actions);
            assert(after.moves.take(before.moves.len() as int) =~= before.moves) by {
                assert(after.moves.take(paid.moves.len() as int) == paid.moves);
            }
        }
    }
    if before.status() == GameStatus::Over {
        lemma_over_stays_over(before.moves, after.moves);
    }
}

/// Our RTS game is represented by this structure.
pub struct Game<Strategy, StateClient> where
    Strategy: TurnStrategyRequester,
    StateClient: GameStateObserver,
 {
    barrack: Barrack,
    players: Vec<Player<Strategy>>,
    moves: Vec<MoveState>,
    map: PlayGround<Unit>,
    /// External clients wanting notifications on game state
    game_state_observers: Vec<StateClient>,
    /// How many entries of the log the play ground and the clients have
    /// taken in.
    propagated: usize,
}

/// Players as plain values.
pub open spec fn player_views<Strategy: TurnStrategyRequester>(
    players: Seq<Player<Strategy>>,
) -> Seq<PlayerView<Strategy>> {
    Seq::new(players.len(), |i: int| players[i]@)
}

/// A log as plain values.
pub open spec fn move_views(moves: Seq<MoveState>) -> Seq<MoveStateView> {
    Seq::new(moves.len(), |i: int| moves[i]@)
}

impl<Strategy, StateClient> View for Game<Strategy, StateClient> where
    Strategy: TurnStrategyRequester,
    StateClient: GameStateObserver,
 {
    type V = GameView<Strategy>;

    closed spec fn view(&self) -> GameView<Strategy> {
        GameView {
            players: player_views(self.players@),
            moves: move_views(self.moves@),
            cells: plain_cells(self.map@),
            issued: self.barrack.issued(),
            propagated: self.propagated as int,
        }
    }
}

impl<Strategy, StateClient> Game<Strategy, StateClient> where
    Strategy: TurnStrategyRequester,
    StateClient: GameStateObserver,
 {
    /// The clients that are told of what happens in the game.
    pub closed spec fn observers(&self) -> Seq<StateClient> {
        self.game_state_observers@
    }

    /// Create a new game with the given players and clients wanting notifications
    pub fn new(players: Vec<Player<Strategy>>, game_state_observers: Vec<StateClient>) -> (game:
        Self)
        ensures
            game@ == GameView::initial(player_views(players@)),
            game@.wf(),
            game.observers() == game_state_observers@,
    {
        let game = Game {
            barrack: Barrack::default(),
            players,
            moves: Vec::new(),
            map: PlayGround::default(),
            game_state_observers,
            propagated: 0,
        };
        proof {
            assert(game@.moves =~= Seq::empty());
            assert(game@.cells =~= Seq::empty());
            assert(game@.moves.take(0) =~= Seq::empty());
        }
        game
    }

    /// The players, in the order in which they take their turns.
    pub fn get_players(&self) -> (players: &[Player<Strategy>])
        ensures
            player_views(players@) == self@.players,
    {
        self.players.as_slice()
    }

    /// The log: what was carried out so far, oldest first.
    pub fn get_moves(&self) -> (moves: &[MoveState])
        ensures
            move_views(moves@) == self@.moves,
    {
        self.moves.as_slice()
    }

    /// The play ground as it is now, to look at.
    pub fn snapshot_playground(&self) -> (play_ground: &PlayGround<Unit>)
        ensures
            plain_cells(play_ground@) == self@.cells,
    {
        &self.map
    }

    /// Carries out one action of one player and records it in the log.
    ///
    /// Where the action is refused the game stays as it was, and the error
    /// says why: the player does not exist, the wallet cannot pay or cannot
    /// hold more, no identifier is left, or the unit is not on the play
    /// ground.
    pub fn play(&mut self, index: usize, action: Action) -> (result: Result<(), RtsException>)
        requires
            old(self)@.wf(),
        ensures
            final(self)@.wf(),
            final(self)@ == old(self)@.played(index as int, action),
            final(self).observers() == old(self).observers(),
            match result {
                Ok(()) => old(self)@.refusal(index as int, action) is None,
                Err(e) => old(self)@.refusal(index as int, action) == Some(e@),
            },
    {
        if index >= self.players.len() {
            let mut message = String::from_str("Failed to find player ");
            message.append(to_decimal(index as i128).as_str());
            message.append(" when executing action ");
            message.append(action.get_name().as_str());
            Err(RtsException::ExecuteActionException(message))
        } else {
            match self.execute_action(index, action) {
                Ok(result) => self.update_moves_state(result),
                Err(e) => Err(e),
            }
        }
    }

    /// Pays every player a batch, in the order of the players, each payment
    /// with its entry in the log. Stops at the first player whose wallet
    /// cannot hold one more batch: the players before are paid, that player
    /// and the players after are not.
    pub fn execute_recurring_actions(&mut self) -> (result: Result<(), RtsException>)
        requires
            old(self)@.wf(),
        ensures
            final(self)@.wf(),
            final(self).observers() == old(self).observers(),
            final(self)@ == old(self)@.paid_batches(first_unpayable(old(self)@.players, 0)),
            match result {
                Ok(()) => first_unpayable(old(self)@.players, 0) == old(self)@.players.len(),
                Err(e) => {
                    &&& first_unpayable(old(self)@.players, 0) < old(self)@.players.len()
                    &&& e@ == RtsExceptionView::UpdatePlayerException("Give new money batch"@)
                },
            },
    {
        let mut i: usize = 0;
        proof {
            assert(self@.players =~= old(self)@.paid_batches(0).players);
            assert(self@.moves =~= old(self)@.paid_batches(0).moves);
        }
        while i < self.players.len()
            invariant
                self@.wf(),
                self.observers() == old(self).observers(),
                i <= self@.players.len(),
                self@.players.len() == old(self)@.players.len(),
                self@ == old(self)@.paid_batches(i as int),
                first_unpayable(old(self)@.players, 0) == first_unpayable(
                    old(self)@.players,
                    i as int,
                ),
            decreases self.players.len() - i,
        {
            match self.play(i, Action::GiveMoneyBatch) {
                Ok(()) => {
                    proof {
                        let start = old(self)@;
                        assert(self@.players =~= start.paid_batches(i + 1).players);
                        assert(self@.moves =~= start.paid_batches(i + 1).moves);
                    }
                },
                Err(e) => {
                    return Err(e);
                },
            }
            i += 1;
        }
        Ok(())
    }

    /// Asks every player, in the order of the players, for an action and
    /// carries it out. Stops at the first strategy that fails and at the
    /// first action that is refused.
    pub fn play_with_all_players(&mut self) -> (result: Result<(), RtsException>)
        requires
            old(self)@.wf(),
        ensures
            final(self)@.wf(),
            final(self).observers() == old(self).observers(),
            exists|actions: Seq<Action>| #[trigger]
                old(self)@.turns_taken(actions, final(self)@, error_of(result)),
    {
        let ghost mut actions: Seq<Action> = Seq::empty();
        let mut i: usize = 0;
        while i < self.players.len()
            invariant
                self@.wf(),
                self.observers() == old(self).observers(),
                i <= self@.players.len(),
                self@.players.len() == old(self)@.players.len(),
                actions.len() == i,
                self@ == old(self)@.round_of(actions),
                old(self)@.round_accepted(actions),
                forall|k: int|
                    0 <= k < self@.players.len() ==> (#[trigger] self@.players[k]).strategy == old(
                        self,
                    )@.players[k].strategy,
                forall|k: int|
                    0 <= k < i ==> may_answer(
                        old(self)@.players[k].strategy,
                        Ok::<Action, RtsException>(#[trigger] actions[k]),
                    ),
            decreases self.players.len() - i,
        {
            let answer = self.players[i].request();
            proof {
                assert(self@.players[i as int] == self.players@[i as int]@);
                assert(may_answer(old(self)@.players[i as int].strategy, answer));
            }
            let action = match answer {
                Ok(action) => action,
                Err(e) => {
                    proof {
                        assert(old(self)@.failed_with(i as int, e@));
                        assert(old(self)@.turns_taken(actions, self@, Some(e@)));
                    }
                    return Err(e);
                },
            };
            let ghost asked = actions.push(action);
            proof {
                assert(asked.drop_last() =~= actions);
            }
            match self.play(i, action) {
                Ok(()) => {},
                Err(e) => {
                    proof {
                        assert(old(self)@.turns_taken(asked, self@, Some(e@)));
                    }
                    return Err(e);
                },
            }
            proof {
                lemma_played_keeps_players(old(self)@.round_of(actions), i as int, action);
                actions = asked;
            }
            i += 1;
        }
        proof {
            assert(old(self)@.turns_taken(actions, self@, None));
        }
        Ok(())
    }

    /// Whether the log holds the end of the game.
    pub fn check_game_is_over(&self) -> (result: Result<bool, RtsException>)
        ensures
            result matches Ok(over) && over == holds_end_game(self@.moves),
    {
        let mut i: usize = 0;
        while i < self.moves.len()
            invariant
                i <= self.moves@.len(),
                forall|k: int| 0 <= k < i ==> self@.moves[k] != MoveStateView::EndGame,
            decreases self.moves.len() - i,
        {
            if matches!(self.moves[i], MoveState::EndGame) {
                assert(self@.moves[i as int] == MoveStateView::EndGame);
                return Ok(true);
            }
            i += 1;
        }
        Ok(false)
    }

    /// Lets the play ground and the clients take in what the log has
    /// gained: every unit that was bought gets a cell at the origin, and
    /// every client is told of every new entry, oldest first, each entry
    /// after the play ground has taken it in.
    pub fn update_observers(&mut self) -> (result: Result<(), RtsException>)
        requires
            old(self)@.wf(),
        ensures
            result is Ok,
            final(self)@.wf(),
            final(self).observers() == old(self).observers(),
            final(self)@ == old(self)@.taken_in(),
    {
        while self.propagated < self.moves.len()
            invariant
                self@.wf(),
                self.observers() == old(self).observers(),
                self@.players == old(self)@.players,
                self@.moves == old(self)@.moves,
                self@.issued == old(self)@.issued,
                old(self)@.cells.len() <= self@.cells.len(),
                forall|i: int|
                    0 <= i < old(self)@.cells.len() ==> #[trigger] self@.cells[i] == old(
                        self,
                    )@.cells[i],
                forall|i: int|
                    old(self)@.cells.len() <= i < self@.cells.len() ==> (
                    #[trigger] self@.cells[i]).coordinate == origin(),
            decreases self.moves.len() - self.propagated,
        {
            let at = self.propagated;
            let ghost before = self@;
            if let MoveState::BuyUnit(unit) = &self.moves[at] {
                let unit_clone = unit.clone();
                self.map.update(unit_clone);
            }
            self.propagated = at + 1;
            proof {
                let after = self@;
                let entry = before.moves[at as int];
                assert(entry == self.moves@[at as int]@);
                match entry {
                    MoveStateView::BuyUnit(unit) => {
                        assert(after.cells =~= before.cells.push(
                            UnitHolderView { unit: Some(unit), coordinate: origin() },
                        ));
                    },
                    _ => {
                        assert(after.cells =~= before.cells);
                    },
                }
                let shown = after.moves.take(at + 1);
                assert(shown.drop_last() =~= before.moves.take(at as int));
                assert(shown.last() == entry);
            }
            let mut k: usize = 0;
            while k < self.game_state_observers.len()
                invariant
                    at < self.moves@.len(),
                    k <= self.game_state_observers@.len(),
                decreases self.game_state_observers.len() - k,
            {
                self.game_state_observers[k].update(&self.moves[at]);
                k += 1;
            }
        }
        proof {
            assert(self@.moves.take(self@.propagated) =~= self@.moves);
            assert(self@.cells =~= old(self)@.taken_in().cells);
        }
        Ok(())
    }

    /// One round of the game: every player is paid a batch, every player
    /// takes a turn, the play ground and the clients take in what happened,
    /// and the log is searched for the end of the game. The answer says
    /// whether another round is to follow.
    ///
    /// The first error ends the round where it stands.
    pub fn play_round(&mut self) -> (result: Result<GameStatus, RtsException>)
        requires
            old(self)@.wf(),
        ensures
            final(self)@.wf(),
            final(self).observers() == old(self).observers(),
            match result {
                Ok(status) => {
                    &&& status == final(self)@.status()
                    &&& exists|actions: Seq<Action>| #[trigger]
                        old(self)@.round_played(actions, final(self)@)
                },
                Err(e) => exists|actions: Seq<Action>| #[trigger]
                    old(self)@.round_failed(actions, final(self)@, e@),
            },
    {
        match self.execute_recurring_actions() {
            Ok(()) => {},
            Err(e) => {
                proof {
                    assert(old(self)@.round_failed(Seq::empty(), self@, e@));
                }
                return Err(e);
            },
        }
        let ghost paid = self@;
        match self.play_with_all_players() {
            Ok(()) => {},
            Err(e) => {
                proof {
                    let actions = choose|actions: Seq<Action>| #[trigger]
                        paid.turns_taken(actions, self@, Some(e@));
                    assert(old(self)@.round_failed(actions, self@, e@));
                }
                return Err(e);
            },
        }
        let ghost acted = self@;
        let ghost actions = choose|actions: Seq<Action>| #[trigger]
            paid.turns_taken(actions, acted, None);
        match self.update_observers() {
            Ok(()) => {},
            Err(e) => {
                return Err(e);
            },
        }
        proof {
            assert(old(self)@.round_played(actions, self@));
        }
        match self.check_game_is_over() {
            Ok(true) => Ok(GameStatus::Over),
            Ok(false) => Ok(GameStatus::Running),
            Err(e) => Err(e),
        }
    }

    /// Adds an entry to the log.
    pub(crate) fn update_moves_state(&mut self, move_state: MoveState) -> (result: Result<(), RtsException>)
        requires
            old(self)@.wf(),
            old(self)@.admits(move_state@),
        ensures
            result is Ok,
            final(self)@ == old(self)@.recorded(move_state@),
            final(self)@.wf(),
            final(self).observers() == old(self).observers(),
    {
        self.moves.push(move_state);
        proof {
            let before = old(self)@;
            let after = self@;
            assert(after.moves =~= before.moves.push(move_state@));
            lemma_bought_push(before.moves, move_state@);
            assert(after.moves.take(after.propagated) =~= before.moves.take(before.propagated));
        }
        Ok(())
    }

    /// Carries out an action of the player at `index`, and returns what the
    /// log is to record of it.
    pub(crate) fn execute_action(&mut self, index: usize, action: Action) -> (result: Result<
        MoveState,
        RtsException,
    >)
        requires
            old(self)@.wf(),
            index < old(self)@.players.len(),
        ensures
            final(self)@.wf(),
            final(self).observers() == old(self).observers(),
            match result {
                Ok(entry) => {
                    &&& old(self)@.refusal(index as int, action) is None
                    &&& final(self)@.recorded(entry@) == old(self)@.carried_out(index as int, action)
                    &&& final(self)@.admits(entry@)
                },
                Err(e) => {
                    &&& old(self)@.refusal(index as int, action) == Some(e@)
                    &&& final(self)@ == old(self)@
                },
            },
    {
        match action {
            Action::BuyUnit(unit_type) => self.buy_unit(unit_type, index),
            Action::GiveMoneyBatch => self.give_money(index),
            Action::EndGame => Ok(MoveState::EndGame),
            Action::MoveUnit(i, c) => self.move_unit(i, c),
        }
    }

    /// Available actions to be executed on the game
    ///
    /// Moves the unit with the given identifier. The one cell that holds it
    /// gets the new place; every other cell, every wallet and the log stay
    /// as they were. Refused, with nothing changed, where no cell holds it.
    pub(crate) fn move_unit(&mut self, identifier: Identifier, coordinate: Coordinate) -> (result:
        Result<MoveState, RtsException>)
        requires
            old(self)@.wf(),
        ensures
            final(self)@.wf(),
            final(self).observers() == old(self).observers(),
            forall|at: int|
                0 <= at < old(self)@.cells.len() && #[trigger] unit_identifiers(
                    old(self)@.cells,
                )[at] == Some(identifier) ==> result is Ok && final(self)@.cells == old(
                    self,
                )@.cells.update(
                    at,
                    UnitHolderView { unit: old(self)@.cells[at].unit, coordinate },
                ),
            final(self)@ == (GameView {
                cells: moved(old(self)@.cells, old(self)@.cell_of(identifier), coordinate),
                ..old(self)@
            }),
            match result {
                Ok(entry) => {
                    &&& old(self)@.cell_of(identifier) < old(self)@.cells.len()
                    &&& entry@ == MoveStateView::MoveUnit
                },
                Err(e) => {
                    &&& old(self)@.cell_of(identifier) >= old(self)@.cells.len()
                    &&& e@ == RtsExceptionView::UpdatePlayGroundException(
                        not_found_message(identifier),
                    )
                },
            },
    {
        proof {
            assert(identifiers_of(self.map@) =~= unit_identifiers(self@.cells));
            lemma_first_holding(unit_identifiers(self@.cells), identifier);
            lemma_identifiers_differ(self@);
        }
        let result = self.map.update_cell(identifier, coordinate);
        proof {
            let at = old(self)@.cell_of(identifier);
            assert(self@.cells =~= moved(old(self)@.cells, at, coordinate));
        }
        match result {
            Ok(()) => Ok(MoveState::MoveUnit),
            Err(e) => Err(e),
        }
    }

    pub(crate) fn give_money(&mut self, index: usize) -> (result: Result<MoveState, RtsException>)
        requires
            old(self)@.wf(),
            index < old(self)@.players.len(),
        ensures
            final(self)@.wf(),
            final(self).observers() == old(self).observers(),
            match result {
                Ok(entry) => {
                    &&& old(self)@.refusal(index as int, Action::GiveMoneyBatch) is None
                    &&& final(self)@ == old(self)@.with_balance(
                        index as int,
                        old(self)@.players[index as int].money + NEW_MONEY_BATCH,
                    )
                    &&& entry@ == MoveStateView::GiveMoneyBatch
                },
                Err(e) => {
                    &&& old(self)@.refusal(index as int, Action::GiveMoneyBatch) == Some(e@)
                    &&& final(self)@ == old(self)@
                },
            },
    {
        let player = &mut self.players[index];
        let result = Bank::give_money(player);
        proof {
            let before = old(self)@;
            let after = self@;
            match result {
                Ok(()) => {
                    assert(after.players =~= before.with_balance(
                        index as int,
                        before.players[index as int].money + NEW_MONEY_BATCH,
                    ).players);
                },
                Err(_) => {
                    assert(after.players =~= before.players);
                },
            }
        }
        match result {
            Ok(()) => Ok(MoveState::GiveMoneyBatch),
            Err(e) => Err(e),
        }
    }

    pub(crate) fn buy_unit(&mut self, unit_type: UnitType, index: usize) -> (result: Result<
        MoveState,
        RtsException,
    >)
        requires
            old(self)@.wf(),
            index < old(self)@.players.len(),
        ensures
            final(self)@.wf(),
            final(self).observers() == old(self).observers(),
            match result {
                Ok(entry) => {
                    &&& old(self)@.refusal(index as int, Action::BuyUnit(unit_type)) is None
                    &&& final(self)@ == (GameView {
                        issued: old(self)@.issued + 1,
                        ..old(self)@.with_balance(
                            index as int,
                            old(self)@.players[index as int].money - unit_type.cost(),
                        )
                    })
                    &&& entry@ == MoveStateView::BuyUnit(
                        fresh_unit(unit_type, (old(self)@.issued + 1) as i128),
                    )
                    &&& final(self)@.admits(entry@)
                },
                Err(e) => {
                    &&& old(self)@.refusal(index as int, Action::BuyUnit(unit_type)) == Some(e@)
                    &&& final(self)@ == old(self)@
                },
            },
    {
        let player = &mut self.players[index];
        let result = self.barrack.buy_unit(unit_type, player);
        proof {
            let before = old(self)@;
            let after = self@;
            match result {
                Ok(_) => {
                    assert(after.players =~= before.with_balance(
                        index as int,
                        before.players[index as int].money - unit_type.cost(),
                    ).players);
                },
                Err(_) => {
                    assert(after.players =~= before.players);
                },
            }
        }
        match result {
            Ok(unit) => Ok(MoveState::BuyUnit(unit)),
            Err(e) => Err(e),
        }
    }
}

} // verus!
