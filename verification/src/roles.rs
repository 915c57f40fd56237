//! The role that a price movement asks for, and the mutations that bring an
//! identity's roles in line with it.

use vstd::prelude::*;

verus! {

/// Which way the price moved between the compared quotes: the sign of the
/// percent change.
#[derive(Clone, Copy, Debug, PartialEq, Eq, Structural)]
pub enum Direction {
    /// The change is above zero.
    Up,
    /// The change is zero.
    Flat,
    /// The change is below zero, or is no number at all.
    Down,
}

/// Encoding of the greatest binary64 value that is a number: positive
/// infinity. The positive numbers are encoded from 1 up to this value, in
/// ascending order; above it, and below the sign bit, lie encodings that
/// stand for no number.
pub const POSITIVE_INFINITY_BITS: u64 = 0x7FF0_0000_0000_0000;

/// Encoding of negative zero: the sign bit alone.
pub const NEGATIVE_ZERO_BITS: u64 = 0x8000_0000_0000_0000;

/// The direction of a percent change that is given by its IEEE 754 binary64
/// encoding: up if it is a number above zero, flat if it is zero of either
/// sign, down in every other case.
pub open spec fn direction_of_bits(bits: u64) -> Direction {
    if 0 < bits <= POSITIVE_INFINITY_BITS {
        Direction::Up
    } else if bits == 0 || bits == NEGATIVE_ZERO_BITS {
        Direction::Flat
    } else {
        Direction::Down
    }
}

impl Direction {
    /// The direction of a percent change, taken from the bits of the
    /// floating-point value that holds it. A change of positive infinity
    /// counts as a rise; a change that is not a number counts as a fall.
    pub fn from_bits(bits: u64) -> (direction: Direction)
        ensures
            direction == direction_of_bits(bits),
    {
        if 0 < bits && bits <= POSITIVE_INFINITY_BITS {
            Direction::Up
        } else if bits == 0 || bits == NEGATIVE_ZERO_BITS {
            Direction::Flat
        } else {
            Direction::Down
        }
    }
}

/// The two roles of which an identity holds one: one for a rising price, one
/// for a price that does not rise.
#[derive(Clone, Copy, Debug, PartialEq, Eq, Structural)]
pub struct RolePair {
    /// Role of an identity whose ticker rose.
    pub positive: u64,
    /// Role of an identity whose ticker fell or stood still.
    pub negative: u64,
}

impl RolePair {
    /// The two roles are different roles.
    pub open spec fn wf(&self) -> bool {
        self.positive != self.negative
    }

    /// The role that `direction` asks for. Only a rise selects the positive
    /// role: no change at all is grouped with a fall.
    pub open spec fn desired(&self, direction: Direction) -> u64 {
        if direction is Up {
            self.positive
        } else {
            self.negative
        }
    }

    /// The role of the pair that `direction` does not ask for.
    pub open spec fn opposite(&self, direction: Direction) -> u64 {
        if direction is Up {
            self.negative
        } else {
            self.positive
        }
    }

    /// Pairs two different roles; `None` when both are the same role.
    pub fn new(positive: u64, negative: u64) -> (pair: Option<RolePair>)
        ensures
            positive == negative ==> pair is None,
            positive != negative ==> pair == Some(RolePair { positive, negative }),
            pair matches Some(p) ==> p.wf(),
    {
        if positive == negative {
            None
        } else {
            Some(RolePair { positive, negative })
        }
    }

    /// The role that `direction` asks for.
    pub fn desired_role(&self, direction: Direction) -> (role: u64)
        ensures
            role == self.desired(direction),
            direction is Up ==> role == self.positive,
            direction is Flat || direction is Down ==> role == self.negative,
    {
        match direction {
            Direction::Up => self.positive,
            Direction::Flat => self.negative,
            Direction::Down => self.negative,
        }
    }

    /// The role of the pair that `direction` does not ask for.
    pub fn opposite_role(&self, direction: Direction) -> (role: u64)
        ensures
            role == self.opposite(direction),
    {
        match direction {
            Direction::Up => self.negative,
            Direction::Flat => self.positive,
            Direction::Down => self.positive,
        }
    }
}

/// The mutations one reconciliation issues: at most one role to add and at
/// most one to remove.
#[derive(Clone, Copy, Debug, PartialEq, Eq)]
pub struct RolePlan {
    /// Role to add to the identity, if any.
    pub add: Option<u64>,
    /// Role to remove from the identity, if any.
    pub remove: Option<u64>,
}

impl RolePlan {
    /// The plan issues no mutation.
    pub open spec fn is_empty(&self) -> bool {
        self.add is None && self.remove is None
    }

    /// Whether the plan issues no mutation.
    pub fn nothing_to_do(&self) -> (empty: bool)
        ensures
            empty == self.is_empty(),
    {
        self.add.is_none() && self.remove.is_none()
    }
}

/// The plan for an identity that holds the roles `held`: add the desired
/// role if it is absent, remove the other role of the pair if it is present.
pub open spec fn planned(pair: RolePair, direction: Direction, held: Set<u64>) -> RolePlan {
    RolePlan {
        add: if held.contains(pair.desired(direction)) {
            None
        } else {
            Some(pair.desired(direction))
        },
        remove: if held.contains(pair.opposite(direction)) {
            Some(pair.opposite(direction))
        } else {
            None
        },
    }
}

/// The roles held once the platform has carried out the mutations of `plan`
/// that succeeded. A mutation that failed leaves the roles as they were.
pub open spec fn applied(plan: RolePlan, held: Set<u64>, add_ok: bool, remove_ok: bool) -> Set<
    u64,
> {
    let added = match plan.add {
        Some(role) if add_ok => held.insert(role),
        _ => held,
    };
    match plan.remove {
        Some(role) if remove_ok => added.remove(role),
        _ => added,
    }
}

/// Whether `role` is among `held`.
pub fn holds(held: &Vec<u64>, role: u64) -> (found: bool)
    ensures
        found == held@.contains(role),
{
    let mut i: usize = 0;
    while i < held.len()
        invariant
            i <= held@.len(),
            forall|k: int| 0 <= k < i ==> held@[k] != role,
        decreases held@.len() - i,
    {
        if held[i] == role {
            return true;
        }
        i += 1;
    }
    false
}

/// Compares the role that `direction` asks for with the roles an identity
/// holds, and plans the least mutations that make it hold the desired role
/// and not the other one.
pub fn plan_roles(pair: &RolePair, direction: Direction, held: &Vec<u64>) -> (plan: RolePlan)
    ensures
        plan == planned(*pair, direction, held@.to_set()),
{
    let desired: u64 = pair.desired_role(direction);
    let other: u64 = pair.opposite_role(direction);
    let add = if holds(held, desired) {
        None
    } else {
        Some(desired)
    };
    let remove = if holds(held, other) {
        Some(other)
    } else {
        None
    };
    RolePlan { add, remove }
}

/// After the mutations of a plan have been carried out, the identity holds
/// the desired role and does not hold the other role of the pair: it never
/// holds both.
pub proof fn lemma_reconciled_roles_are_exclusive(
    pair: RolePair,
    direction: Direction,
    held: Set<u64>,
)
    requires
        pair.wf(),
    ensures
        ({
            let after = applied(planned(pair, direction, held), held, true, true);
            &&& after.contains(pair.desired(direction))
            &&& !after.contains(pair.opposite(direction))
            &&& !(after.contains(pair.positive) && after.contains(pair.negative))
        }),
{
}

/// Reconciling twice mutates once: with the same direction, and with the
/// roles as the first plan left them, the second plan is empty.
pub proof fn lemma_reconciliation_is_idempotent(
    pair: RolePair,
    direction: Direction,
    held: Set<u64>,
)
    requires
        pair.wf(),
    ensures
        planned(
            pair,
            direction,
            applied(planned(pair, direction, held), held, true, true),
        ).is_empty(),
{
}

/// A mutation that failed is the only one left for the next pass: with the
/// same direction, the plan made after a partly carried out plan holds
/// exactly the mutations of the first plan that did not succeed.
pub proof fn lemma_failed_mutations_are_planned_again(
    pair: RolePair,
    direction: Direction,
    held: Set<u64>,
    add_ok: bool,
    remove_ok: bool,
)
    requires
        pair.wf(),
    ensures
        ({
            let first = planned(pair, direction, held);
            let second = planned(pair, direction, applied(first, held, add_ok, remove_ok));
            &&& second.add == if add_ok { None } else { first.add }
            &&& second.remove == if remove_ok { None } else { first.remove }
        }),
{
}

/// A plan touches the roles of its pair only: every other role is held
/// afterwards exactly if it was held before.
pub proof fn lemma_other_roles_are_untouched(
    pair: RolePair,
    direction: Direction,
    held: Set<u64>,
    add_ok: bool,
    remove_ok: bool,
    role: u64,
)
    requires
        role != pair.positive,
        role != pair.negative,
    ensures
        applied(planned(pair, direction, held), held, add_ok, remove_ok).contains(role)
            == held.contains(role),
{
}

} // verus!
