//! Conveyor belts: fixed-capacity cell arrays that move opaque items one
//! cell per tick threshold.  Each cell holds at most one item by
//! construction (`Option<BeltItem>`); the tail cell is the single extraction
//! point and the head cell the single insertion point.
use vstd::prelude::*;

use crate::arith::MAX_TIME_US;

verus! {

/// One item travelling on a belt: a movement clock, the per-cell movement
/// threshold in microseconds, and whether the item is currently moving.
#[derive(Clone, Copy)]
pub struct BeltItem {
    pub moveClockUs: u128,
    pub tickSpeedUs: u128,
    pub isMoving: bool,
}

impl BeltItem {
    pub open spec fn wf(self) -> bool {
        &&& self.tickSpeedUs <= MAX_TIME_US
        &&& self.isMoving ==> self.moveClockUs < self.tickSpeedUs
    }
}

pub open spec fn cellWf(c: Option<BeltItem>) -> bool {
    c matches Some(item) ==> item.wf()
}

/// How many cells of `cells` are occupied.
pub open spec fn specOccupied(cells: Seq<Option<BeltItem>>) -> int
    decreases cells.len(),
{
    if cells.len() == 0 {
        0
    } else {
        specOccupied(cells.drop_last()) + if cells.last() is Some {
            1int
        } else {
            0int
        }
    }
}

/// The occupied count of a belt is bounded by the number of cells.
pub proof fn lemmaOccupiedBounds(cells: Seq<Option<BeltItem>>)
    ensures
        0 <= specOccupied(cells) <= cells.len(),
    decreases cells.len(),
{
    if cells.len() == 0 {
    } else {
        lemmaOccupiedBounds(cells.drop_last());
    }
}

/// Well-formedness of a whole belt list.
pub open spec fn beltsWf(belts: Seq<ConveyorBelt>) -> bool {
    forall|i: int| 0 <= i < belts.len() ==> (#[trigger] belts[i]).wf()
}

/// The movement discipline of a belt's cells: an item only ever moves
/// toward a free cell, so a moving item always has an empty successor, and
/// the tail item is never moving (it has nowhere to go).
pub open spec fn movementWf(cells: Seq<Option<BeltItem>>) -> bool {
    &&& forall|i: int|
        0 <= i < cells.len() - 1 && ((#[trigger] cells[i]) matches Some(it) && it.isMoving)
            ==> cells[i + 1] is None
    &&& cells.len() > 0 ==> (cells[cells.len() - 1] matches Some(it) ==> !it.isMoving)
}

/// How one cell update changes the occupied count.
pub proof fn lemmaOccupiedUpdate(cells: Seq<Option<BeltItem>>, i: int, v: Option<BeltItem>)
    requires
        0 <= i < cells.len(),
    ensures
        specOccupied(cells.update(i, v)) == specOccupied(cells) - (if cells[i] is Some {
            1int
        } else {
            0int
        }) + (if v is Some {
            1int
        } else {
            0int
        }),
    decreases cells.len(),
{
    if i == cells.len() - 1 {
        assert(cells.update(i, v).drop_last() =~= cells.drop_last());
    } else {
        assert(cells.update(i, v).drop_last() =~= cells.drop_last().update(i, v));
        lemmaOccupiedUpdate(cells.drop_last(), i, v);
    }
}

/// One cell visit of the pass conserves the occupied count and keeps the
/// movement discipline.
pub proof fn lemmaCellStepConserves(cells: Seq<Option<BeltItem>>, dt: u128, i: int)
    requires
        0 <= i < cells.len() - 1,
        movementWf(cells),
    ensures
        specCellStep(cells, dt, i).len() == cells.len(),
        specOccupied(specCellStep(cells, dt, i)) == specOccupied(cells),
        movementWf(specCellStep(cells, dt, i)),
{
    let after = specCellStep(cells, dt, i);
    match cells[i] {
        None => {},
        Some(item0) => {
            let item = if !item0.isMoving && cells[i + 1] is None {
                BeltItem { moveClockUs: 0, isMoving: true, ..item0 }
            } else {
                item0
            };
            if !item.isMoving {
            } else {
                // a moving item always has a free successor: either it was
                // already moving (the discipline says so) or it just
                // started toward a checked-free cell
                assert(cells[i + 1] is None);
                let clock = item.moveClockUs + dt;
                if clock < item.tickSpeedUs {
                    lemmaOccupiedUpdate(cells, i, after[i]);
                } else {
                    let mid = cells.update(
                        i + 1,
                        Some(BeltItem { moveClockUs: clock as u128, isMoving: false, ..item }),
                    );
                    lemmaOccupiedUpdate(cells, i + 1, mid[i + 1]);
                    lemmaOccupiedUpdate(mid, i, None);
                }
            }
        },
    }
}

/// The whole pass conserves the occupied count and keeps the movement
/// discipline.
pub proof fn lemmaBeltPassConserves(cells: Seq<Option<BeltItem>>, dt: u128, i: int)
    requires
        movementWf(cells),
    ensures
        specBeltPass(cells, dt, i).len() == cells.len(),
        specOccupied(specBeltPass(cells, dt, i)) == specOccupied(cells),
        movementWf(specBeltPass(cells, dt, i)),
    decreases cells.len() - i,
{
    if i < 0 || i + 1 >= cells.len() {
    } else {
        lemmaCellStepConserves(cells, dt, i);
        lemmaBeltPassConserves(specCellStep(cells, dt, i), dt, i + 1);
    }
}

/// An ordered, fixed-capacity sequence of cells transporting items.  The
/// optional `inputID` is the position of the upstream belt in the driver's
/// belt list; when set, the head cell may be loaded from that belt's tail.
pub struct ConveyorBelt {
    pub id: String,
    pub capacity: usize,
    pub belt: Vec<Option<BeltItem>>,
    pub beltSpeedUs: u128,
    pub isInputIDSome: bool,
    pub inputID: Option<usize>,
}

/// Everything about a belt except the cell contents.
pub open spec fn sameShape(a: ConveyorBelt, b: ConveyorBelt) -> bool {
    &&& a.id == b.id
    &&& a.capacity == b.capacity
    &&& a.beltSpeedUs == b.beltSpeedUs
    &&& a.isInputIDSome == b.isInputIDSome
    &&& a.inputID == b.inputID
}

/// The item a push places into the head cell of belt `b`.
pub open spec fn freshItem(b: ConveyorBelt) -> BeltItem {
    BeltItem { moveClockUs: 0, tickSpeedUs: b.beltSpeedUs, isMoving: false }
}

/// One visit of cell `i` during a belt pass: start the item moving if the
/// next cell is free, advance its clock, and carry it forward once the clock
/// reaches the movement threshold.
pub open spec fn specCellStep(cells: Seq<Option<BeltItem>>, dt: u128, i: int) -> Seq<
    Option<BeltItem>,
>
    recommends
        0 <= i < cells.len() - 1,
{
    match cells[i] {
        None => cells,
        Some(item0) => {
            let item = if !item0.isMoving && cells[i + 1] is None {
                BeltItem { moveClockUs: 0, isMoving: true, ..item0 }
            } else {
                item0
            };
            if !item.isMoving {
                cells
            } else {
                let clock = item.moveClockUs + dt;
                if clock < item.tickSpeedUs {
                    cells.update(i, Some(BeltItem { moveClockUs: clock as u128, ..item }))
                } else {
                    cells.update(
                        i + 1,
                        Some(BeltItem { moveClockUs: clock as u128, isMoving: false, ..item }),
                    ).update(i, None)
                }
            }
        },
    }
}

/// The whole advancement pass: cells are visited in order from index `i` up
/// to the next-to-last cell, so a single pass can propagate moves forward.
pub open spec fn specBeltPass(cells: Seq<Option<BeltItem>>, dt: u128, i: int) -> Seq<
    Option<BeltItem>,
>
    decreases cells.len() - i,
{
    if i < 0 || i + 1 >= cells.len() {
        cells
    } else {
        specBeltPass(specCellStep(cells, dt, i), dt, i + 1)
    }
}

/// The tail cell (single extraction point) holds an item.
pub open spec fn tailOccupied(b: ConveyorBelt) -> bool {
    b.belt@[b.capacity - 1] is Some
}

/// The head cell (single insertion point) is free.
pub open spec fn headEmpty(b: ConveyorBelt) -> bool {
    b.belt@[0] is None
}

/// Pull the tail item of the belt at position `i` of the belt list.
pub fn pullAt(belts: &mut Vec<ConveyorBelt>, i: usize) -> (r: bool)
    requires
        beltsWf(old(belts)@),
        i < old(belts)@.len(),
    ensures
        beltsWf(final(belts)@),
        final(belts)@.len() == old(belts)@.len(),
        forall|k: int|
            0 <= k < old(belts)@.len() && k != i ==> final(belts)@[k] == old(belts)@[k],
        sameShape(old(belts)@[i as int], final(belts)@[i as int]),
        r == tailOccupied(old(belts)@[i as int]),
        r ==> final(belts)@[i as int].belt@ == old(belts)@[i as int].belt@.update(
            old(belts)@[i as int].capacity - 1,
            None,
        ),
        !r ==> final(belts)@[i as int].belt@ == old(belts)@[i as int].belt@,
{
    let mut b = belts.remove(i);
    let r = b.pullItem();
    let ghost bAfter = b;
    belts.insert(i, b);
    proof {
        assert(belts@ =~= old(belts)@.update(i as int, bAfter));
    }
    r
}

/// Push a fresh item onto the head of the belt at position `i`.
pub fn pushAt(belts: &mut Vec<ConveyorBelt>, i: usize) -> (r: bool)
    requires
        beltsWf(old(belts)@),
        i < old(belts)@.len(),
    ensures
        beltsWf(final(belts)@),
        final(belts)@.len() == old(belts)@.len(),
        forall|k: int|
            0 <= k < old(belts)@.len() && k != i ==> final(belts)@[k] == old(belts)@[k],
        sameShape(old(belts)@[i as int], final(belts)@[i as int]),
        r == headEmpty(old(belts)@[i as int]),
        r ==> final(belts)@[i as int].belt@ == old(belts)@[i as int].belt@.update(
            0,
            Some(freshItem(old(belts)@[i as int])),
        ),
        !r ==> final(belts)@[i as int].belt@ == old(belts)@[i as int].belt@,
{
    let mut b = belts.remove(i);
    let r = b.pushItem();
    let ghost bAfter = b;
    belts.insert(i, b);
    proof {
        assert(belts@ =~= old(belts)@.update(i as int, bAfter));
    }
    r
}

/// The upstream hand-off as the driver runs it on the belt list: move one
/// item from the tail of belt `j` to the head of belt `i` when the head is
/// free and the tail occupied.
#[verifier::rlimit(100)]
pub fn takeInputAt(belts: &mut Vec<ConveyorBelt>, i: usize, j: usize) -> (r: bool)
    requires
        beltsWf(old(belts)@),
        i < old(belts)@.len(),
        j < old(belts)@.len(),
        i != j,
    ensures
        beltsWf(final(belts)@),
        final(belts)@.len() == old(belts)@.len(),
        forall|k: int|
            0 <= k < old(belts)@.len() ==> sameShape(
                old(belts)@[k],
                #[trigger] final(belts)@[k],
            ),
        r == (headEmpty(old(belts)@[i as int]) && tailOccupied(old(belts)@[j as int])),
        r ==> final(belts)@[i as int].belt@ == old(belts)@[i as int].belt@.update(
            0,
            Some(freshItem(old(belts)@[i as int])),
        ),
        r ==> final(belts)@[j as int].belt@ == old(belts)@[j as int].belt@.update(
            old(belts)@[j as int].capacity - 1,
            None,
        ),
        forall|k: int|
            0 <= k < old(belts)@.len() && k != i && k != j ==> final(belts)@[k] == old(
                belts,
            )@[k],
        !r ==> final(belts)@ == old(belts)@,
        specOccupied(final(belts)@[i as int].belt@) + specOccupied(
            final(belts)@[j as int].belt@,
        ) == specOccupied(old(belts)@[i as int].belt@) + specOccupied(
            old(belts)@[j as int].belt@,
        ),
{
    let startSome = belts[i].isStartSome();
    let endSome = belts[j].isEndSome();
    if !startSome && endSome {
        pullAt(belts, j);
        pushAt(belts, i);
        proof {
            lemmaOccupiedUpdate(
                old(belts)@[j as int].belt@,
                old(belts)@[j as int].capacity - 1,
                None,
            );
            lemmaOccupiedUpdate(
                old(belts)@[i as int].belt@,
                0,
                Some(freshItem(old(belts)@[i as int])),
            );
        }
        true
    } else {
        false
    }
}

impl ConveyorBelt {
    pub open spec fn wf(self) -> bool {
        &&& self.capacity >= 1
        &&& self.belt@.len() == self.capacity
        &&& self.beltSpeedUs <= MAX_TIME_US
        &&& forall|i: int| 0 <= i < self.belt@.len() ==> cellWf(#[trigger] self.belt@[i])
        &&& movementWf(self.belt@)
        &&& self.isInputIDSome == (self.inputID is Some)
    }

    /// A belt never holds more items than its capacity.
    pub proof fn lemmaOccupiedLeCapacity(self)
        requires
            self.wf(),
        ensures
            0 <= specOccupied(self.belt@) <= self.capacity,
    {
        lemmaOccupiedBounds(self.belt@);
    }

    pub fn new(id: String, capacity: usize, beltSpeedUs: u128, inputID: Option<usize>) -> (r:
        ConveyorBelt)
        requires
            capacity >= 1,
            beltSpeedUs <= MAX_TIME_US,
        ensures
            r.wf(),
            r.id == id,
            r.capacity == capacity,
            r.beltSpeedUs == beltSpeedUs,
            r.inputID == inputID,
            forall|i: int| 0 <= i < r.belt@.len() ==> r.belt@[i] is None,
    {
        let belt: Vec<Option<BeltItem>> = vec![None; capacity];
        let isInputIDSome = inputID.is_some();
        ConveyorBelt { id, capacity, belt, beltSpeedUs, isInputIDSome, inputID }
    }

    pub fn isStartSome(&self) -> (r: bool)
        requires
            self.wf(),
        ensures
            r == (self.belt@[0] is Some),
    {
        self.belt[0].is_some()
    }

    pub fn isEndSome(&self) -> (r: bool)
        requires
            self.wf(),
        ensures
            r == (self.belt@[self.capacity - 1] is Some),
    {
        let len = self.belt.len();
        self.belt[len - 1].is_some()
    }

    /// Place a new item into the head cell if it is empty.
    pub fn pushItem(&mut self) -> (r: bool)
        requires
            old(self).wf(),
        ensures
            final(self).wf(),
            sameShape(*old(self), *final(self)),
            r == (old(self).belt@[0] is None),
            r ==> final(self).belt@ == old(self).belt@.update(0, Some(freshItem(*old(self)))),
            r ==> specOccupied(final(self).belt@) == specOccupied(old(self).belt@) + 1,
            !r ==> final(self).belt@ == old(self).belt@,
    {
        if !self.isStartSome() {
            let item = BeltItem { moveClockUs: 0, tickSpeedUs: self.beltSpeedUs, isMoving: false };
            self.belt.set(0, Some(item));
            proof {
                lemmaOccupiedUpdate(old(self).belt@, 0, Some(freshItem(*old(self))));
            }
            true
        } else {
            false
        }
    }

    /// Take the item out of the tail cell if one is there.
    pub fn pullItem(&mut self) -> (r: bool)
        requires
            old(self).wf(),
        ensures
            final(self).wf(),
            sameShape(*old(self), *final(self)),
            r == (old(self).belt@[old(self).capacity - 1] is Some),
            r ==> final(self).belt@ == old(self).belt@.update(old(self).capacity - 1, None),
            r ==> specOccupied(final(self).belt@) == specOccupied(old(self).belt@) - 1,
            !r ==> final(self).belt@ == old(self).belt@,
    {
        if self.isEndSome() {
            let len = self.belt.len();
            self.belt.set(len - 1, None);
            proof {
                lemmaOccupiedUpdate(old(self).belt@, old(self).capacity - 1, None);
            }
            true
        } else {
            false
        }
    }

    /// Hand-off from an upstream belt: when this belt's head cell is empty
    /// and the upstream tail cell is occupied, move one item across.
    pub fn takeInput(&mut self, inputConveyor: &mut ConveyorBelt) -> (r: bool)
        requires
            old(self).wf(),
            old(inputConveyor).wf(),
        ensures
            final(self).wf(),
            final(inputConveyor).wf(),
            sameShape(*old(self), *final(self)),
            sameShape(*old(inputConveyor), *final(inputConveyor)),
            r == (old(self).belt@[0] is None && old(inputConveyor).belt@[old(
                inputConveyor,
            ).capacity - 1] is Some),
            r ==> final(self).belt@ == old(self).belt@.update(0, Some(freshItem(*old(self)))),
            r ==> final(inputConveyor).belt@ == old(inputConveyor).belt@.update(
                old(inputConveyor).capacity - 1,
                None,
            ),
            !r ==> final(self).belt@ == old(self).belt@ && final(inputConveyor).belt@ == old(
                inputConveyor,
            ).belt@,
            specOccupied(final(self).belt@) + specOccupied(final(inputConveyor).belt@)
                == specOccupied(old(self).belt@) + specOccupied(old(inputConveyor).belt@),
    {
        if !self.isStartSome() && inputConveyor.isEndSome() {
            inputConveyor.pullItem();
            self.pushItem();
            true
        } else {
            false
        }
    }

    /// Advance the belt's own cells by `deltaTime` microseconds, visiting
    /// lower indices first.
    pub fn update(&mut self, deltaTime: u128)
        requires
            old(self).wf(),
            deltaTime <= MAX_TIME_US,
        ensures
            final(self).wf(),
            sameShape(*old(self), *final(self)),
            final(self).belt@ == specBeltPass(old(self).belt@, deltaTime, 0),
            specOccupied(final(self).belt@) == specOccupied(old(self).belt@),
    {
        proof {
            lemmaBeltPassConserves(old(self).belt@, deltaTime, 0);
        }
        let len = self.belt.len();
        let mut i: usize = 0;
        while i < len - 1
            invariant
                len == self.belt@.len(),
                i <= len,
                self.wf(),
                sameShape(*old(self), *self),
                deltaTime <= MAX_TIME_US,
                specBeltPass(old(self).belt@, deltaTime, 0) == specBeltPass(
                    self.belt@,
                    deltaTime,
                    i as int,
                ),
            decreases len - i,
        {
            let ghost cellsBefore = self.belt@;
            let cur = self.belt[i];
            if let Some(itemRead) = cur {
                let mut item = itemRead;
                let nextEmpty = self.belt[i + 1].is_none();
                if !item.isMoving && nextEmpty {
                    item.isMoving = true;
                    item.moveClockUs = 0;
                }
                if item.isMoving {
                    item.moveClockUs = item.moveClockUs + deltaTime;
                    if item.moveClockUs < item.tickSpeedUs {
                        self.belt.set(i, Some(item));
                    } else {
                        item.isMoving = false;
                        self.belt.set(i + 1, Some(item));
                        self.belt.set(i, None);
                    }
                }
            }
            proof {
                assert(self.belt@ =~= specCellStep(cellsBefore, deltaTime, i as int));
            }
            i = i + 1;
        }
    }
}

} // verus!
