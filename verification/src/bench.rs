//! The bench: one serial endpoint and the batteries known to sit in its
//! slots.
//!
//! A bench never holds two batteries with the same id and never more than
//! [`MAX_SLOTS`] of them. Batteries are only ever added, by a successful
//! identity assignment.

use vstd::prelude::*;

verus! {

/// The number of battery slots of a bench.
pub const MAX_SLOTS: usize = 4;

/// The power state that a battery can be commanded into.
#[derive(Debug, Clone, Copy, PartialEq, Eq, Structural)]
pub enum BatteryState {
    Standby,
    Charge,
    Discharge,
}

impl Default for BatteryState {
    /// A battery starts in standby.
    fn default() -> (state: BatteryState)
        ensures
            state == BatteryState::Standby,
    {
        BatteryState::Standby
    }
}

/// A battery in a slot of the bench.
#[derive(Debug, Clone, Copy, PartialEq, Eq, Structural)]
pub struct Battery {
    pub id: u8,
    pub state: BatteryState,
}

/// A bench as a mathematical value.
pub ghost struct BenchModel {
    pub port: Seq<char>,
    pub batteries: Seq<Battery>,
}

/// A bench: the name of its serial port and its batteries, in the order in
/// which they were assigned their ids.
#[derive(Debug)]
pub struct Bench {
    batteries: Vec<Battery>,
    port: String,
}

/// Whether one of `batteries` has the id `id`.
pub open spec fn holds_id(batteries: Seq<Battery>, id: u8) -> bool {
    exists|i: int| 0 <= i < batteries.len() && #[trigger] batteries[i].id == id
}

/// Whether no two of `batteries` share an id.
pub open spec fn distinct_ids(batteries: Seq<Battery>) -> bool {
    forall|i: int, j: int|
        0 <= i < j < batteries.len() ==> #[trigger] batteries[i].id != #[trigger] batteries[j].id
}

/// Whether `id` is the id to propose to the next new battery: the lowest id
/// from 1 upwards that none of `batteries` has. The id 0 is never proposed.
pub open spec fn is_lowest_free_id(batteries: Seq<Battery>, id: u8) -> bool {
    &&& id >= 1
    &&& !holds_id(batteries, id)
    &&& forall|lower: u8| 1 <= lower < id ==> #[trigger] holds_id(batteries, lower)
}

/// The id to propose to the next new battery, or `None` where every id from
/// 1 to 255 is taken.
pub open spec fn lowest_free_id(batteries: Seq<Battery>) -> Option<u8> {
    if exists|id: u8| is_lowest_free_id(batteries, id) {
        Some(choose|id: u8| is_lowest_free_id(batteries, id))
    } else {
        None
    }
}

/// What the batteries of a bench satisfy at all times: they fit the slots
/// and no two of them share an id.
pub open spec fn well_formed(batteries: Seq<Battery>) -> bool {
    &&& batteries.len() <= MAX_SLOTS
    &&& distinct_ids(batteries)
}

/// At most one id is the lowest free one.
pub proof fn lemma_lowest_free_id_unique(batteries: Seq<Battery>, a: u8, b: u8)
    requires
        is_lowest_free_id(batteries, a),
        is_lowest_free_id(batteries, b),
    ensures
        a == b,
{
}

/// Whether a battery of `batteries` has the id `id`.
pub fn contains_id(batteries: &[Battery], id: u8) -> (found: bool)
    ensures
        found == holds_id(batteries@, id),
{
    let mut index: usize = 0;
    while index < batteries.len()
        invariant
            index <= batteries@.len(),
            forall|i: int| 0 <= i < index ==> batteries@[i].id != id,
        decreases batteries@.len() - index,
    {
        if batteries[index].id == id {
            return true;
        }
        index += 1;
    }
    false
}

/// Scans the ids from 1 upwards for the first that no battery of `batteries`
/// has. The scan ends at 255: where every id is taken there is none to
/// propose.
pub fn find_free_id(batteries: &[Battery]) -> (candidate: Option<u8>)
    ensures
        candidate == lowest_free_id(batteries@),
        match candidate {
            Some(id) => is_lowest_free_id(batteries@, id),
            None => forall|id: u8| 1 <= id ==> #[trigger] holds_id(batteries@, id),
        },
{
    let mut candidate: u8 = 1;
    loop
        invariant
            candidate >= 1,
            forall|lower: u8| 1 <= lower < candidate ==> #[trigger] holds_id(batteries@, lower),
        decreases 255 - candidate,
    {
        if !contains_id(batteries, candidate) {
            proof {
                assert(is_lowest_free_id(batteries@, candidate));
                let chosen = choose|id: u8| is_lowest_free_id(batteries@, id);
                lemma_lowest_free_id_unique(batteries@, chosen, candidate);
            }
            return Some(candidate);
        }
        if candidate == 255 {
            return None;
        }
        candidate += 1;
    }
}

/// On a bench that is not over its slots some id from 1 to 5 is free, so
/// there is always an id to propose.
pub proof fn lemma_free_id_exists(batteries: Seq<Battery>)
    requires
        batteries.len() <= MAX_SLOTS,
    ensures
        lowest_free_id(batteries) is Some,
        lowest_free_id(batteries).unwrap() <= MAX_SLOTS + 1,
        is_lowest_free_id(batteries, lowest_free_id(batteries).unwrap()),
{
    let free: u8 = if !holds_id(batteries, 1) {
        1
    } else if !holds_id(batteries, 2) {
        2
    } else if !holds_id(batteries, 3) {
        3
    } else if !holds_id(batteries, 4) {
        4
    } else {
        5
    };
    assert(is_lowest_free_id(batteries, free));
    let chosen = choose|id: u8| is_lowest_free_id(batteries, id);
    lemma_lowest_free_id_unique(batteries, chosen, free);
}

impl View for Bench {
    type V = BenchModel;

    closed spec fn view(&self) -> BenchModel {
        BenchModel { port: self.port@, batteries: self.batteries@ }
    }
}

impl Clone for Bench {
    fn clone(&self) -> (copy: Bench)
        ensures
            copy@ == self@,
    {
        proof {
            use_type_invariant(self);
        }
        let batteries = self.batteries.clone();
        let port = self.port.clone();
        Bench { batteries, port }
    }
}

impl Bench {
    #[verifier::type_invariant]
    spec fn slots_respected(&self) -> bool {
        well_formed(self@.batteries)
    }

    /// A bench on the serial port `port`, with no battery known yet.
    pub fn new(port: String) -> (bench: Bench)
        ensures
            bench@.port == port@,
            bench@.batteries == Seq::<Battery>::empty(),
            well_formed(bench@.batteries),
    {
        Bench { batteries: Vec::new(), port }
    }

    /// The name of the serial port that the bench is attached to.
    pub fn port(&self) -> (port: &str)
        ensures
            port@ == self@.port,
    {
        self.port.as_str()
    }

    /// The batteries known to the bench, oldest first.
    pub fn batteries(&self) -> (batteries: &[Battery])
        ensures
            batteries@ == self@.batteries,
            well_formed(self@.batteries),
    {
        proof {
            use_type_invariant(self);
        }
        self.batteries.as_slice()
    }

    /// The state of the battery with the id `id`, if the bench has one.
    pub fn state_of(&self, id: u8) -> (state: Option<BatteryState>)
        ensures
            state is Some <==> holds_id(self@.batteries, id),
            forall|i: int|
                0 <= i < self@.batteries.len() && #[trigger] self@.batteries[i].id == id
                    ==> state == Some(self@.batteries[i].state),
    {
        proof {
            use_type_invariant(self);
        }
        let mut index: usize = 0;
        while index < self.batteries.len()
            invariant
                index <= self.batteries@.len(),
                distinct_ids(self@.batteries),
                forall|i: int| 0 <= i < index ==> self.batteries@[i].id != id,
            decreases self.batteries@.len() - index,
        {
            if self.batteries[index].id == id {
                return Some(self.batteries[index].state);
            }
            index += 1;
        }
        None
    }

    /// The id to propose to the next new battery: the lowest id from 1
    /// upwards that no battery of the bench has.
    pub fn next_free_id(&self) -> (id: u8)
        ensures
            is_lowest_free_id(self@.batteries, id),
            lowest_free_id(self@.batteries) == Some(id),
            id <= MAX_SLOTS + 1,
    {
        proof {
            use_type_invariant(self);
            lemma_free_id_exists(self@.batteries);
        }
        match find_free_id(self.batteries.as_slice()) {
            Some(id) => id,
            None => 1,
        }
    }

    /// Takes a battery with the id `id` into the bench, in standby, unless
    /// the bench has no slot left or already has a battery with that id.
    pub fn add_battery(&mut self, id: u8) -> (added: bool)
        ensures
            added == (old(self)@.batteries.len() < MAX_SLOTS && !holds_id(
                old(self)@.batteries,
                id,
            )),
            final(self)@.port == old(self)@.port,
            final(self)@.batteries == if added {
                old(self)@.batteries.push(Battery { id, state: BatteryState::Standby })
            } else {
                old(self)@.batteries
            },
            well_formed(final(self)@.batteries),
    {
        proof {
            use_type_invariant(&*self);
        }
        if self.batteries.len() >= MAX_SLOTS || contains_id(self.batteries.as_slice(), id) {
            return false;
        }
        let mut batteries = self.batteries.clone();
        batteries.push(Battery { id, state: BatteryState::Standby });
        self.batteries = batteries;
        true
    }
}

} // verus!
