//! Resource-exclusivity validation: no physical pin may be claimed by two
//! peripheral roles, whatever the peripheral classes involved. This check is
//! the single gate before planning begins.

use vstd::prelude::*;

use crate::error::Error;
use crate::stm32f1xx::{Pin, Port};

verus! {

/// Whether the pin at index `j` already occurs earlier in the sequence.
pub open spec fn spec_dup_at(pins: Seq<(Pin, Port)>, j: int) -> bool {
    exists|i: int| 0 <= i < j && #[trigger] pins[i] == pins[j]
}

/// Whether any pin occurs twice.
pub open spec fn spec_has_dup(pins: Seq<(Pin, Port)>) -> bool {
    exists|j: int| 0 <= j < pins.len() && #[trigger] spec_dup_at(pins, j)
}

/// The exclusivity verdict, scanning from index `j`: the first repeated
/// identity decides the error.
pub open spec fn spec_validate_from(pins: Seq<(Pin, Port)>, j: int) -> Result<(), Error>
    decreases pins.len() - j,
{
    if j < 0 || j >= pins.len() {
        Ok(())
    } else if spec_dup_at(pins, j) {
        Err(Error::DuplicatePinUse(pins[j].0, pins[j].1))
    } else {
        spec_validate_from(pins, j + 1)
    }
}

/// The exclusivity verdict of a claimed-pin sequence.
pub open spec fn spec_validate(pins: Seq<(Pin, Port)>) -> Result<(), Error> {
    spec_validate_from(pins, 0)
}

proof fn lemma_validate_from_ok(pins: Seq<(Pin, Port)>, j: int)
    requires
        0 <= j <= pins.len(),
        forall|jj: int| j <= jj < pins.len() ==> !spec_dup_at(pins, jj),
    ensures
        spec_validate_from(pins, j) == Ok::<(), Error>(()),
    decreases pins.len() - j,
{
    if j < pins.len() {
        lemma_validate_from_ok(pins, j + 1);
    }
}

proof fn lemma_validate_from_err(pins: Seq<(Pin, Port)>, j: int)
    requires
        0 <= j < pins.len(),
        spec_dup_at(pins, j),
        forall|jj: int| 0 <= jj < j ==> !spec_dup_at(pins, jj),
    ensures
        spec_validate(pins) == Err::<(), Error>(Error::DuplicatePinUse(pins[j].0, pins[j].1)),
{
    lemma_validate_from_err_rec(pins, 0, j);
}

proof fn lemma_validate_from_err_rec(pins: Seq<(Pin, Port)>, from: int, j: int)
    requires
        0 <= from <= j < pins.len(),
        spec_dup_at(pins, j),
        forall|jj: int| from <= jj < j ==> !spec_dup_at(pins, jj),
    ensures
        spec_validate_from(pins, from) == Err::<(), Error>(
            Error::DuplicatePinUse(pins[j].0, pins[j].1),
        ),
    decreases j - from,
{
    if from < j {
        lemma_validate_from_err_rec(pins, from + 1, j);
    }
}

/// Whether `p` occurs among the first `upto` entries.
fn contains_pin(pins: &Vec<(Pin, Port)>, upto: usize, p: (Pin, Port)) -> (r: bool)
    requires
        upto <= pins@.len(),
    ensures
        r == exists|i: int| 0 <= i < upto && #[trigger] pins@[i] == p,
{
    for i in 0..upto
        invariant
            upto <= pins@.len(),
            forall|k: int| 0 <= k < i ==> #[trigger] pins@[k] != p,
    {
        if pins[i].0 == p.0 && pins[i].1 == p.1 {
            return true;
        }
    }
    false
}

/// Checks that no pin identity is claimed twice across all peripheral
/// classes. Fails with `DuplicatePinUse` on the first identity that is seen
/// again, and succeeds exactly when all identities are distinct.
pub fn validate(pins: &Vec<(Pin, Port)>) -> (r: Result<(), Error>)
    ensures
        r == spec_validate(pins@),
        r is Ok <==> !spec_has_dup(pins@),
{
    for j in 0..pins.len()
        invariant
            forall|jj: int| 0 <= jj < j ==> !spec_dup_at(pins@, jj),
    {
        let p = pins[j];
        if contains_pin(pins, j, p) {
            proof {
                assert(spec_dup_at(pins@, j as int));
                lemma_validate_from_err(pins@, j as int);
            }
            return Err(Error::DuplicatePinUse(p.0, p.1));
        }
    }
    proof {
        lemma_validate_from_ok(pins@, 0);
    }
    Ok(())
}

/// The verdict of the planner's per-pin gate, scanning from index `j`: each
/// pin is first range-checked, then checked against the already-claimed
/// pool, in order.
pub open spec fn spec_check_pins_from(pins: Seq<(Pin, Port)>, j: int) -> Result<(), Error>
    decreases pins.len() - j,
{
    if j < 0 || j >= pins.len() {
        Ok(())
    } else if pins[j].0.0 > 15 {
        Err(Error::PinOutOfRange)
    } else if spec_dup_at(pins, j) {
        Err(Error::DuplicatePinUse(pins[j].0, pins[j].1))
    } else {
        spec_check_pins_from(pins, j + 1)
    }
}

/// The verdict of the planner's per-pin gate over a claimed-pin sequence.
pub open spec fn spec_check_pins(pins: Seq<(Pin, Port)>) -> Result<(), Error> {
    spec_check_pins_from(pins, 0)
}

proof fn lemma_check_pins_ok(pins: Seq<(Pin, Port)>, j: int)
    requires
        0 <= j <= pins.len(),
        forall|jj: int| j <= jj < pins.len() ==> !(#[trigger] spec_dup_at(pins, jj)),
        forall|jj: int| j <= jj < pins.len() ==> (#[trigger] pins[jj]).0.0 <= 15,
    ensures
        spec_check_pins_from(pins, j) == Ok::<(), Error>(()),
    decreases pins.len() - j,
{
    if j < pins.len() {
        lemma_check_pins_ok(pins, j + 1);
    }
}

proof fn lemma_check_pins_err(pins: Seq<(Pin, Port)>, from: int, j: int)
    requires
        0 <= from <= j < pins.len(),
        pins[j].0.0 > 15 || spec_dup_at(pins, j),
        forall|jj: int| from <= jj < j ==> !(#[trigger] spec_dup_at(pins, jj)),
        forall|jj: int| from <= jj < j ==> (#[trigger] pins[jj]).0.0 <= 15,
    ensures
        spec_check_pins_from(pins, from) == spec_check_pins_from(pins, j),
    decreases j - from,
{
    if from < j {
        lemma_check_pins_err(pins, from + 1, j);
    }
}

/// The planner's gate over every claimed pin: pins must be numbered 0 to 15
/// and no identity may be claimed twice. The first offending pin, in claim
/// order, decides the error.
pub fn check_pins(pins: &Vec<(Pin, Port)>) -> (r: Result<(), Error>)
    ensures
        r == spec_check_pins(pins@),
        r is Ok <==> !spec_has_dup(pins@) && (forall|i: int|
            0 <= i < pins@.len() ==> (#[trigger] pins@[i]).0.0 <= 15),
{
    for j in 0..pins.len()
        invariant
            forall|jj: int| 0 <= jj < j ==> !(#[trigger] spec_dup_at(pins@, jj)),
            forall|jj: int| 0 <= jj < j ==> (#[trigger] pins@[jj]).0.0 <= 15,
    {
        let p = pins[j];
        if p.0.0 > 15 {
            proof {
                lemma_check_pins_err(pins@, 0, j as int);
            }
            return Err(Error::PinOutOfRange);
        }
        if contains_pin(pins, j, p) {
            proof {
                assert(spec_dup_at(pins@, j as int));
                lemma_check_pins_err(pins@, 0, j as int);
            }
            return Err(Error::DuplicatePinUse(p.0, p.1));
        }
    }
    proof {
        lemma_check_pins_ok(pins@, 0);
    }
    Ok(())
}

} // verus!
