//! The telemetry sample: a receive rate and a transmit rate.

use vstd::prelude::*;

verus! {

/// The weight of the lowest exponent bit of a binary64 number: two to the
/// power of 52, the width of the fraction below it.
pub const EXPONENT_UNIT: u64 = 0x10_0000_0000_0000;

/// The number of values of the eleven exponent bits.
pub const EXPONENT_RANGE: u64 = 0x800;

/// The exponent, all ones, that marks an infinity or a NaN.
pub const EXPONENT_NON_FINITE: u64 = 0x7FF;

/// A throughput in bytes per second, carried as the bit pattern of an
/// IEEE 754 binary64 number (what `f64::to_bits` gives and `f64::from_bits`
/// takes). No floating-point arithmetic is done on it here; the only thing
/// looked at is whether the bits stand for a finite number. Two rates are
/// equal when their bits are: `0.0` differs from `-0.0`.
#[derive(Clone, Copy, Debug, PartialEq, Eq, Structural)]
pub struct Rate {
    pub bits: u64,
}

impl Rate {
    /// The rate `0.0`, whose bit pattern is all zeroes.
    pub open spec fn zero() -> Rate {
        Rate { bits: 0 }
    }

    /// Whether the bits stand for a finite number: the exponent, which is
    /// the eleven bits above the fraction, is not all ones. What is left
    /// out are the two infinities and every NaN.
    pub open spec fn finite(self) -> bool {
        (self.bits / EXPONENT_UNIT) % EXPONENT_RANGE != EXPONENT_NON_FINITE
    }

    /// This rate if it is finite, zero otherwise.
    pub open spec fn finite_or_zero(self) -> Rate {
        if self.finite() {
            self
        } else {
            Rate::zero()
        }
    }

    /// What counts of a parsed rate field: the number, if there is one and
    /// it is finite. A field that parsed to an infinity or a NaN counts as a
    /// field that did not parse.
    pub open spec fn accepted(parsed: Option<Rate>) -> Option<Rate> {
        match parsed {
            Some(rate) => if rate.finite() {
                Some(rate)
            } else {
                None
            },
            None => None,
        }
    }

    /// What a rate field of a message stands for: the finite number it
    /// parsed to, or zero where it gave none.
    pub open spec fn or_zero(parsed: Option<Rate>) -> Rate {
        match Rate::accepted(parsed) {
            Some(rate) => rate,
            None => Rate::zero(),
        }
    }

    /// The rate with the given bit pattern.
    pub fn from_bits(bits: u64) -> (rate: Rate)
        ensures
            rate.bits == bits,
    {
        Rate { bits }
    }

    /// The bit pattern of this rate.
    pub fn to_bits(self) -> (bits: u64)
        ensures
            bits == self.bits,
    {
        self.bits
    }

    /// Whether this rate is a finite number.
    #[verifier::when_used_as_spec(finite)]
    pub fn is_finite(self) -> (finite: bool)
        ensures
            finite == self.finite(),
    {
        (self.bits / EXPONENT_UNIT) % EXPONENT_RANGE != EXPONENT_NON_FINITE
    }

    /// Keeps a parsed rate only if it is finite.
    pub fn accept(parsed: Option<Rate>) -> (kept: Option<Rate>)
        ensures
            kept == Rate::accepted(parsed),
    {
        match parsed {
            Some(rate) => if rate.is_finite() {
                Some(rate)
            } else {
                None
            },
            None => None,
        }
    }

    /// Zero is finite, and so is whatever `accepted`, `or_zero` and
    /// `finite_or_zero` let through.
    pub proof fn lemma_accepted_is_finite(parsed: Option<Rate>, rate: Rate)
        ensures
            Rate::zero().finite(),
            Rate::accepted(parsed) matches Some(kept) ==> kept.finite(),
            Rate::or_zero(parsed).finite(),
            rate.finite_or_zero().finite(),
    {
    }
}

/// The latest measurement: both rates of one message, kept together.
#[derive(Clone, Copy, Debug, PartialEq, Eq, Structural)]
pub struct TelemetrySample {
    pub receive_rate: Rate,
    pub transmit_rate: Rate,
}

impl TelemetrySample {
    /// The sample a store starts with: both rates zero.
    pub open spec fn zero() -> TelemetrySample {
        TelemetrySample { receive_rate: Rate::zero(), transmit_rate: Rate::zero() }
    }

    /// Whether both rates are finite numbers.
    pub open spec fn finite(self) -> bool {
        self.receive_rate.finite() && self.transmit_rate.finite()
    }

    /// This sample with zero in place of each rate that is not finite.
    pub open spec fn finite_or_zero(self) -> TelemetrySample {
        TelemetrySample {
            receive_rate: self.receive_rate.finite_or_zero(),
            transmit_rate: self.transmit_rate.finite_or_zero(),
        }
    }

    /// The sample that two parsed rate fields give: each rate is the finite
    /// number its field parsed to, or zero where the field gave none.
    pub open spec fn of_parsed(receive: Option<Rate>, transmit: Option<Rate>) -> TelemetrySample {
        TelemetrySample {
            receive_rate: Rate::or_zero(receive),
            transmit_rate: Rate::or_zero(transmit),
        }
    }

    /// The sample with the given rates, each as it is.
    pub fn new(receive_rate: Rate, transmit_rate: Rate) -> (sample: TelemetrySample)
        ensures
            sample == (TelemetrySample { receive_rate, transmit_rate }),
    {
        TelemetrySample { receive_rate, transmit_rate }
    }

    /// The all-zero sample.
    pub fn zeroed() -> (sample: TelemetrySample)
        ensures
            sample == TelemetrySample::zero(),
            sample.finite(),
    {
        TelemetrySample { receive_rate: Rate { bits: 0 }, transmit_rate: Rate { bits: 0 } }
    }

    /// Whether both rates are finite numbers.
    #[verifier::when_used_as_spec(finite)]
    pub fn is_finite(self) -> (finite: bool)
        ensures
            finite == self.finite(),
    {
        self.receive_rate.is_finite() && self.transmit_rate.is_finite()
    }

    /// Builds the sample from the outcome of parsing the two rate fields.
    /// A field that failed to parse, or parsed to an infinity or a NaN,
    /// counts as zero; the other is kept.
    pub fn from_parsed(receive: Option<Rate>, transmit: Option<Rate>) -> (sample: TelemetrySample)
        ensures
            sample == TelemetrySample::of_parsed(receive, transmit),
            sample.finite(),
            receive matches Some(rate) ==> sample.receive_rate == rate.finite_or_zero(),
            transmit matches Some(rate) ==> sample.transmit_rate == rate.finite_or_zero(),
            receive is None ==> sample.receive_rate == Rate::zero(),
            transmit is None ==> sample.transmit_rate == Rate::zero(),
    {
        let receive_rate = match Rate::accept(receive) {
            Some(rate) => rate,
            None => Rate { bits: 0 },
        };
        let transmit_rate = match Rate::accept(transmit) {
            Some(rate) => rate,
            None => Rate { bits: 0 },
        };
        TelemetrySample { receive_rate, transmit_rate }
    }

    /// Puts zero in place of each rate that is not finite.
    pub fn made_finite(self) -> (sample: TelemetrySample)
        ensures
            sample == self.finite_or_zero(),
            sample.finite(),
            self.finite() ==> sample == self,
    {
        TelemetrySample::from_parsed(Some(self.receive_rate), Some(self.transmit_rate))
    }
}

} // verus!
