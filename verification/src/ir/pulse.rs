use vstd::prelude::*;

verus! {

/// The different types of pulses.  These refer only to the "on" pulse,
/// the "off" pulses are always the same duration.  The main pulse types
/// are "Short" and "Long" (around 500µs and 1500µs), which are used to
/// transmit binary encoded button IDs.
///
/// There are also other pulse lengths, typically orders of magnitude
/// larger, that encode things like the start of a transmission or a
/// button being held down.
#[derive(Clone, Copy, Debug, PartialEq, Eq, Structural)]
pub enum Pulse {
    Short,
    Long,
    Start,
    Unrecognized,
}

/// The pulse type of a pulse that lasted `micros` microseconds.
pub open spec fn pulse_of_micros(micros: u128) -> Pulse {
    if 0 < micros && micros < 1000 {
        Pulse::Short
    } else if 1000 < micros && micros < 2000 {
        Pulse::Long
    } else if 2000 < micros && micros < 5000 {
        Pulse::Start
    } else {
        Pulse::Unrecognized
    }
}

impl Pulse {
    /// Returns the appropriate pulse type for a pulse with a given
    /// duration in microseconds.
    pub fn from_micros(micros: u128) -> (p: Pulse)
        ensures
            p == pulse_of_micros(micros),
    {
        if 0 < micros && micros < 1000 {
            Pulse::Short
        } else if 1000 < micros && micros < 2000 {
            Pulse::Long
        } else if 2000 < micros && micros < 5000 {
            Pulse::Start
        } else {
            Pulse::Unrecognized
        }
    }
}

/// The bits that a pulse sequence carries: a short pulse is a 0, a long
/// pulse a 1, other pulses carry none.
pub open spec fn bits_of(seq: Seq<Pulse>) -> Seq<bool>
    decreases seq.len(),
{
    if seq.len() == 0 {
        seq![]
    } else {
        let rest = bits_of(seq.drop_last());
        match seq.last() {
            Pulse::Short => rest.push(false),
            Pulse::Long => rest.push(true),
            _ => rest,
        }
    }
}

/// The number that a sequence of bits spells, the first bit being the
/// most significant one.
pub open spec fn code_of(bits: Seq<bool>) -> nat
    decreases bits.len(),
{
    if bits.len() == 0 {
        0
    } else {
        2 * code_of(bits.drop_last()) + if bits.last() {
            1nat
        } else {
            0nat
        }
    }
}

pub open spec fn two_pow(n: nat) -> nat
    decreases n,
{
    if n == 0 {
        1
    } else {
        2 * two_pow((n - 1) as nat)
    }
}

/// A code of `n` bits is smaller than `2^n`.
pub proof fn lemma_code_bound(bits: Seq<bool>)
    ensures
        code_of(bits) < two_pow(bits.len()),
    decreases bits.len(),
{
    if bits.len() > 0 {
        lemma_code_bound(bits.drop_last());
    }
}

/// Powers of two grow with the exponent, and `2^32` is the first that
/// no longer fits 32 bits.
pub proof fn lemma_two_pow_32(n: nat)
    requires
        n <= 32,
    ensures
        two_pow(n) <= two_pow(32),
        two_pow(32) == 0x1_0000_0000,
    decreases 32 - n,
{
    reveal_with_fuel(two_pow, 33);
    if n < 32 {
        lemma_two_pow_32(n + 1);
    }
}

} // verus!
