//! The play ground: the units of a game and where each one stands.

use crate::entity::unit::Unit;
use crate::exceptions::{RtsException, RtsExceptionView};
use crate::text::{decimal, to_decimal};
use vstd::prelude::*;
use vstd::string::StringExecFns;

verus! {

/// What is told of every change to the set of units: a unit arrived, or a
/// unit moved.
pub trait PlayGroundObserver<T> where T: HasIdentifier {
    /// A unit arrived.
    fn update(&mut self, unit: T);

    /// The unit with the given identifier moved to the given place.
    fn update_cell(&mut self, identifier: Identifier, coordinate: Coordinate) -> Result<
        (),
        RtsException,
    >;
}

/// A place of the play ground with what stands on it.
pub type Cell<T> = UnitHolder<T>;

/// A position on the play ground.
pub type Coordinate = (i32, i32);

/// What tells one unit from every other unit of a game.
pub type Identifier = i128;

/// Something that carries an identifier.
pub trait HasIdentifier {
    /// The identifier this value carries. Every type says what it is for
    /// its values; of a type that does not, nothing is known.
    open spec fn identifier(&self) -> Identifier {
        arbitrary()
    }

    fn get_identifier(&self) -> (id: Identifier)
        ensures
            id == self.identifier(),
    ;

    /// Whether this value carries the given identifier.
    fn is(&self, identifier: &Identifier) -> (same: bool)
        ensures
            same == (self.identifier() == *identifier),
    ;
}

/// Hold the state of the game
pub struct PlayGround<T> where T: HasIdentifier {
    cells: Vec<Cell<T>>,
}

/// A unit, or nothing, and the place where it stands. The place can change;
/// what stands there cannot.
pub struct UnitHolder<T> where T: HasIdentifier {
    t: Option<T>,
    coordinate: Coordinate,
}

/// A cell as plain values.
pub struct UnitHolderView<T> {
    pub unit: Option<T>,
    pub coordinate: Coordinate,
}

impl<T> UnitHolderView<T> where T: HasIdentifier {
    /// Whether the cell holds the unit with the given identifier.
    pub open spec fn holds(self, identifier: Identifier) -> bool {
        match self.unit {
            Some(t) => t.identifier() == identifier,
            None => false,
        }
    }
}

impl<T> View for UnitHolder<T> where T: HasIdentifier {
    type V = UnitHolderView<T>;

    closed spec fn view(&self) -> UnitHolderView<T> {
        UnitHolderView { unit: self.t, coordinate: self.coordinate }
    }
}

impl<T> View for PlayGround<T> where T: HasIdentifier {
    type V = Seq<UnitHolderView<T>>;

    closed spec fn view(&self) -> Seq<UnitHolderView<T>> {
        Seq::new(self.cells@.len(), |i: int| self.cells@[i]@)
    }
}

/// Where the starting place of every unit is.
pub open spec fn origin() -> Coordinate {
    (0i32, 0i32)
}

/// What the cells hold: for every cell the identifier of its unit, or
/// nothing where the cell holds none.
pub open spec fn identifiers_of<T: HasIdentifier>(cells: Seq<UnitHolderView<T>>) -> Seq<
    Option<Identifier>,
> {
    Seq::new(
        cells.len(),
        |i: int|
            match cells[i].unit {
                Some(t) => Some(t.identifier()),
                None => None,
            },
    )
}

/// The index of the first cell that holds the given identifier; the number
/// of cells where none does.
pub open spec fn first_holding(held: Seq<Option<Identifier>>, identifier: Identifier) -> int
    decreases held.len(),
{
    if held.len() == 0 {
        0
    } else if held[0] == Some(identifier) {
        0
    } else {
        1 + first_holding(held.drop_first(), identifier)
    }
}

/// The cells after the cell at `at` moved to another place: that cell has
/// the new place, and nothing else differs. Where `at` is the index of no
/// cell, nothing differs at all.
pub open spec fn moved<T>(cells: Seq<UnitHolderView<T>>, at: int, coordinate: Coordinate) -> Seq<
    UnitHolderView<T>,
> {
    if 0 <= at < cells.len() {
        cells.update(at, UnitHolderView { unit: cells[at].unit, coordinate })
    } else {
        cells
    }
}

/// What is reported when no cell holds the unit that was to move.
pub open spec fn not_found_message(identifier: Identifier) -> Seq<char> {
    "Failed to find cell with identifier "@ + decimal(identifier as int)
}

/// `first_holding` is the least index of a cell that holds the identifier.
pub proof fn lemma_first_holding(held: Seq<Option<Identifier>>, identifier: Identifier)
    ensures
        0 <= first_holding(held, identifier) <= held.len(),
        first_holding(held, identifier) < held.len() ==> held[first_holding(held, identifier)]
            == Some(identifier),
        forall|i: int|
            0 <= i < first_holding(held, identifier) ==> #[trigger] held[i] != Some(identifier),
    decreases held.len(),
{
    if held.len() > 0 && held[0] != Some(identifier) {
        let rest = held.drop_first();
        lemma_first_holding(rest, identifier);
        assert forall|i: int| 0 <= i < first_holding(held, identifier) implies #[trigger] held[i]
            != Some(identifier) by {
            if i > 0 {
                assert(held[i] == rest[i - 1]);
            }
        }
    }
}

/// An index is `first_holding` when no cell before it holds the identifier
/// and it is either the number of cells or the index of a cell that does.
pub proof fn lemma_is_first_holding(held: Seq<Option<Identifier>>, identifier: Identifier, at: int)
    requires
        0 <= at <= held.len(),
        forall|i: int| 0 <= i < at ==> #[trigger] held[i] != Some(identifier),
        at < held.len() ==> held[at] == Some(identifier),
    ensures
        first_holding(held, identifier) == at,
{
    lemma_first_holding(held, identifier);
    let first = first_holding(held, identifier);
    if first < at {
        assert(held[first] != Some(identifier));
    }
}

impl<T> PlayGroundObserver<T> for PlayGround<T> where T: HasIdentifier {
    /// Puts the unit on a new cell, after all the others, at the origin.
    fn update(&mut self, unit: T)
        ensures
            final(self)@ == old(self)@.push(UnitHolderView { unit: Some(unit), coordinate: origin() }),
    {
        self.cells.push(UnitHolder::new(unit, (0, 0)));
        assert(self@ =~= old(self)@.push(UnitHolderView { unit: Some(unit), coordinate: origin() }));
    }

    /// Moves the unit with the given identifier: the first cell that holds
    /// it gets the new place, and no other cell changes. Refused, with every
    /// cell left as it was, where no cell holds that unit.
    fn update_cell(&mut self, identifier: Identifier, coordinate: Coordinate) -> (result: Result<
        (),
        RtsException,
    >)
        ensures
            final(self)@ == moved(
                old(self)@,
                first_holding(identifiers_of(old(self)@), identifier),
                coordinate,
            ),
            match result {
                Ok(()) => first_holding(identifiers_of(old(self)@), identifier) < old(self)@.len(),
                Err(e) => {
                    &&& first_holding(identifiers_of(old(self)@), identifier) == old(self)@.len()
                    &&& e@ == RtsExceptionView::UpdatePlayGroundException(
                        not_found_message(identifier),
                    )
                },
            },
    {
        let cell = self.find_cell_by(&identifier);
        if cell.is_none() {
            let mut message = String::from_str("Failed to find cell with identifier ");
            message.append(to_decimal(identifier).as_str());
            return Err(RtsException::UpdatePlayGroundException(message));
        }
        let at = cell.unwrap();
        let cell = &mut self.cells[at];
        cell.update(coordinate);
        assert(self@ =~= moved(old(self)@, at as int, coordinate));
        Ok(())
    }
}

impl<T> UnitHolder<T> where T: HasIdentifier {
    fn new(t: T, coordinate: Coordinate) -> (holder: Self)
        ensures
            holder@ == (UnitHolderView { unit: Some(t), coordinate }),
    {
        UnitHolder { t: Some(t), coordinate }
    }

    fn is(&self, identifier: &Identifier) -> (same: bool)
        ensures
            same == self@.holds(*identifier),
    {
        if let Some(t) = &self.t {
            t.is(identifier)
        } else {
            false
        }
    }
}

impl<T> UnitHolder<T> where T: HasIdentifier {
    /// Moves what the cell holds to another place.
    pub fn update(&mut self, coordinate: Coordinate)
        ensures
            final(self)@ == (UnitHolderView { unit: old(self)@.unit, coordinate }),
    {
        self.coordinate = coordinate;
    }

    /// What the cell holds.
    pub fn get_unit(&self) -> (unit: &Option<T>)
        ensures
            *unit == self@.unit,
    {
        &self.t
    }

    /// Where the cell is.
    pub fn get_coordinate(&self) -> (coordinate: Coordinate)
        ensures
            coordinate == self@.coordinate,
    {
        self.coordinate
    }
}

impl<T> Default for PlayGround<T> where T: HasIdentifier {
    fn default() -> (play_ground: Self)
        ensures
            play_ground@ == Seq::<UnitHolderView<T>>::empty(),
    {
        Self::new()
    }
}

impl<T> PlayGround<T> where T: HasIdentifier {
    /// A play ground without any cell.
    pub fn new() -> (play_ground: Self)
        ensures
            play_ground@ == Seq::<UnitHolderView<T>>::empty(),
    {
        let play_ground = Self { cells: Vec::new() };
        assert(play_ground@ =~= Seq::<UnitHolderView<T>>::empty());
        play_ground
    }

    /// Puts the unit on a new cell, after all the others, at the origin.
    /// Whether another cell holds a unit with the same identifier is not
    /// looked at.
    pub fn add_unit(&mut self, content: T)
        ensures
            final(self)@ == old(self)@.push(
                UnitHolderView { unit: Some(content), coordinate: origin() },
            ),
    {
        let holder = UnitHolder::new(content, (0, 0));
        self.cells.push(holder);
        assert(self@ =~= old(self)@.push(
            UnitHolderView { unit: Some(content), coordinate: origin() },
        ));
    }

    /// The cells, in the order in which their units arrived.
    pub fn get_cells(&self) -> (cells: &[Cell<T>])
        ensures
            cells@.len() == self@.len(),
            forall|i: int| 0 <= i < cells@.len() ==> (#[trigger] cells@[i])@ == self@[i],
    {
        self.cells.as_slice()
    }

    /// The index of the first cell that holds the unit with the given
    /// identifier.
    fn find_cell_by(&self, identifier: &Identifier) -> (found: Option<usize>)
        ensures
            match found {
                Some(at) => at < self@.len() && first_holding(identifiers_of(self@), *identifier)
                    == at,
                None => first_holding(identifiers_of(self@), *identifier) == self@.len(),
            },
    {
        let mut at: usize = 0;
        while at < self.cells.len()
            invariant
                at <= self.cells.len(),
                forall|i: int|
                    0 <= i < at ==> #[trigger] identifiers_of(self@)[i] != Some(*identifier),
            decreases self.cells.len() - at,
        {
            if self.cells[at].is(identifier) {
                proof {
                    lemma_is_first_holding(identifiers_of(self@), *identifier, at as int);
                }
                return Some(at);
            }
            at += 1;
        }
        proof {
            lemma_is_first_holding(identifiers_of(self@), *identifier, at as int);
        }
        None
    }
}

/// How a cell is printed: as its unit, or as `xx` where it holds none.
pub open spec fn cell_text(cell: UnitHolderView<Unit>) -> Seq<char> {
    match cell.unit {
        Some(unit) => unit@.text(),
        None => "xx"@,
    }
}

/// How a play ground is printed: every cell between bars, one after the other.
pub open spec fn cells_text(cells: Seq<UnitHolderView<Unit>>) -> Seq<char>
    decreases cells.len(),
{
    if cells.len() == 0 {
        Seq::empty()
    } else {
        cells_text(cells.drop_last()) + "| "@ + cell_text(cells.last()) + " |"@
    }
}

impl UnitHolder<Unit> {
    /// The cell as it is printed.
    pub fn to_string(&self) -> (text: String)
        ensures
            text@ == cell_text(self@),
    {
        match &self.t {
            Some(t) => t.to_string(),
            None => String::from_str("xx"),
        }
    }
}

impl PlayGround<Unit> {
    /// The play ground as it is printed.
    pub fn to_string(&self) -> (text: String)
        ensures
            text@ == cells_text(self@),
    {
        let mut text = String::new();
        let mut at: usize = 0;
        while at < self.cells.len()
            invariant
                at <= self.cells.len(),
                text@ == cells_text(self@.take(at as int)),
            decreases self.cells.len() - at,
        {
            text.append("| ");
            text.append(self.cells[at].to_string().as_str());
            text.append(" |");
            proof {
                let shown = self@.take(at + 1);
                assert(shown.drop_last() =~= self@.take(at as int));
                assert(shown.last() == self@[at as int]);
            }
            at += 1;
        }
        assert(self@.take(at as int) =~= self@);
        text
    }
}

} // verus!
