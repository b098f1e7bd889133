//! Fees and their delayed changes.

use vstd::prelude::*;
use vstd::std_specs::convert::FromSpecImpl;
use vstd::string::StringExecFns;
use crate::error::StakePoolError;
use crate::math::{ceil_div, lemma_u64_product_bound};

verus! {

/// A fee rate as a ratio.
///
/// If either the numerator or the denominator is 0, the fee is 0.
#[derive(Clone, Copy, Debug, PartialEq, Eq, Structural)]
pub struct Fee {
    /// Denominator of the fee ratio
    pub denominator: u64,
    /// Numerator of the fee ratio
    pub numerator: u64,
}

impl Default for Fee {
    /// The zero fee, `0/0`.
    fn default() -> (r: Fee)
        ensures
            r == (Fee { denominator: 0, numerator: 0 }),
    {
        Fee { denominator: 0, numerator: 0 }
    }
}

/// The character of a decimal digit.
pub open spec fn spec_digit(d: int) -> char
    recommends
        0 <= d < 10,
{
    if d == 0 {
        '0'
    } else if d == 1 {
        '1'
    } else if d == 2 {
        '2'
    } else if d == 3 {
        '3'
    } else if d == 4 {
        '4'
    } else if d == 5 {
        '5'
    } else if d == 6 {
        '6'
    } else if d == 7 {
        '7'
    } else if d == 8 {
        '8'
    } else {
        '9'
    }
}

/// A number in decimal digits, without leading zeroes.
pub open spec fn spec_decimal(n: nat) -> Seq<char>
    decreases n,
{
    if n < 10 {
        seq![spec_digit(n as int)]
    } else {
        spec_decimal(n / 10).push(spec_digit((n % 10) as int))
    }
}

/// A decimal digit as a string.
fn digit(d: u64) -> (r: &'static str)
    requires
        d < 10,
    ensures
        r@ == seq![spec_digit(d as int)],
{
    proof {
        reveal_strlit("0");
        reveal_strlit("1");
        reveal_strlit("2");
        reveal_strlit("3");
        reveal_strlit("4");
        reveal_strlit("5");
        reveal_strlit("6");
        reveal_strlit("7");
        reveal_strlit("8");
        reveal_strlit("9");
    }
    let r = if d == 0 {
        "0"
    } else if d == 1 {
        "1"
    } else if d == 2 {
        "2"
    } else if d == 3 {
        "3"
    } else if d == 4 {
        "4"
    } else if d == 5 {
        "5"
    } else if d == 6 {
        "6"
    } else if d == 7 {
        "7"
    } else if d == 8 {
        "8"
    } else {
        "9"
    };
    assert(r@ =~= seq![spec_digit(d as int)]);
    r
}

/// Appends a number in decimal digits.
fn push_decimal(out: &mut String, n: u64)
    ensures
        final(out)@ == old(out)@ + spec_decimal(n as nat),
    decreases n,
{
    if n < 10 {
        out.append(digit(n));
    } else {
        push_decimal(out, n / 10);
        out.append(digit(n % 10));
        assert(out@ =~= old(out)@ + spec_decimal(n as nat));
    }
}

impl Fee {
    /// The fee in words: numerator, a slash, denominator; `none` for a fee
    /// of zero.
    pub open spec fn spec_to_string(&self) -> Seq<char> {
        if self.numerator > 0 && self.denominator > 0 {
            spec_decimal(self.numerator as nat) + seq!['/'] + spec_decimal(self.denominator as nat)
        } else {
            seq!['n', 'o', 'n', 'e']
        }
    }

    /// The fee in words: numerator, a slash, denominator; `none` for a fee
    /// of zero.
    pub fn to_string(&self) -> (r: String)
        ensures
            r@ == self.spec_to_string(),
    {
        proof {
            reveal_strlit("none");
            reveal_strlit("/");
        }
        if self.numerator > 0 && self.denominator > 0 {
            let mut out = String::new();
            push_decimal(&mut out, self.numerator);
            out.append("/");
            push_decimal(&mut out, self.denominator);
            assert(out@ =~= self.spec_to_string());
            out
        } else {
            let out = String::from_str("none");
            assert(out@ =~= self.spec_to_string());
            out
        }
    }

    /// The fee on `amt`: nothing when the denominator is 0, else
    /// `amt * numerator / denominator` rounded up.
    pub open spec fn spec_apply(&self, amt: u64) -> int {
        if self.denominator == 0 {
            0
        } else {
            ceil_div(amt * self.numerator, self.denominator as int)
        }
    }

    /// Whether the fee charges nothing, whatever the amount.
    pub open spec fn is_zero(&self) -> bool {
        self.numerator == 0 || self.denominator == 0
    }

    /// Whether the fee takes more than the whole amount.
    pub open spec fn exceeds_one(&self) -> bool {
        self.numerator > self.denominator
    }

    /// The fee on any amount fits in 128 bits.
    pub proof fn lemma_apply_fits(&self, amt: u64)
        ensures
            0 <= self.spec_apply(amt) <= u128::MAX,
    {
        if self.denominator != 0 {
            lemma_u64_product_bound(amt, self.numerator);
            let n = amt * self.numerator;
            let d = self.denominator as int;
            crate::math::lemma_div_bounds(n + d - 1, d);
            assert(((n + d - 1) / d) <= n + d - 1) by (nonlinear_arith)
                requires
                    ((n + d - 1) / d) * d <= n + d - 1,
                    d >= 1,
                    ((n + d - 1) / d) >= 0,
            ;
        }
    }

    /// A fee that does not exceed one never takes more than the amount.
    pub proof fn lemma_apply_at_most_amount(&self, amt: u64)
        requires
            !self.exceeds_one(),
        ensures
            self.spec_apply(amt) <= amt,
    {
        if self.denominator != 0 {
            let n = amt * self.numerator;
            let d = self.denominator as int;
            assert(0 <= n <= amt * d) by (nonlinear_arith)
                requires
                    n == amt * self.numerator,
                    self.numerator <= d,
            ;
            crate::math::lemma_ceil_div_is_least_cover(n, d);
            assert((amt as int) * d >= n);
        }
    }

    /// Applies the fee's rate to `amt`, returning the amount to be taken
    /// from it as fees: 0 if the denominator is 0, else
    /// `amt * numerator / denominator` rounded up. The result always fits,
    /// so it is always `Some`.
    pub fn apply(&self, amt: u64) -> (r: Option<u128>)
        ensures
            r == Some(self.spec_apply(amt) as u128),
            0 <= self.spec_apply(amt) <= u128::MAX,
    {
        proof {
            self.lemma_apply_fits(amt);
        }
        if self.denominator == 0 {
            return Some(0);
        }
        proof {
            lemma_u64_product_bound(amt, self.numerator);
        }
        let numerator: u128 = (amt as u128) * (self.numerator as u128);
        let denominator: u128 = self.denominator as u128;
        Some((numerator + denominator - 1) / denominator)
    }

    /// The fee that a proposed withdrawal fee is measured against: the fee
    /// it replaces, or 1/1000 if that fee is zero.
    pub open spec fn spec_withdrawal_baseline(old_withdrawal_fee: Fee) -> Fee {
        if old_withdrawal_fee.is_zero() {
            withdrawal_baseline_fee()
        } else {
            old_withdrawal_fee
        }
    }

    /// Whether a withdrawal fee may replace `old_withdrawal_fee`: the new
    /// rate must not exceed 3/2 of the old one, where an old rate of zero
    /// counts as 1/1000. The two rates are compared over a common
    /// denominator; a comparison that needs more than 128 bits fails.
    pub open spec fn spec_check_withdrawal(&self, old_withdrawal_fee: Fee) -> Result<
        (),
        StakePoolError,
    > {
        let base = Fee::spec_withdrawal_baseline(old_withdrawal_fee);
        let allowed = base.numerator * self.denominator * max_withdrawal_fee_increase().numerator;
        let proposed = self.numerator * base.denominator
            * max_withdrawal_fee_increase().denominator;
        if allowed > u128::MAX || proposed > u128::MAX {
            Err(StakePoolError::CalculationFailure)
        } else if allowed < proposed {
            Err(StakePoolError::FeeIncreaseTooHigh)
        } else {
            Ok(())
        }
    }

    /// Checks that a proposed withdrawal fee is no more than 3/2 of the fee
    /// it replaces; a fee of zero counts as 1/1000 for this purpose.
    pub fn check_withdrawal(&self, old_withdrawal_fee: &Fee) -> (r: Result<(), StakePoolError>)
        ensures
            r == self.spec_check_withdrawal(*old_withdrawal_fee),
    {
        let (old_num, old_denom): (u64, u64) = if old_withdrawal_fee.denominator == 0
            || old_withdrawal_fee.numerator == 0 {
            (withdrawal_baseline_fee().numerator, withdrawal_baseline_fee().denominator)
        } else {
            (old_withdrawal_fee.numerator, old_withdrawal_fee.denominator)
        };
        proof {
            lemma_u64_product_bound(old_num, self.denominator);
            lemma_u64_product_bound(self.numerator, old_denom);
        }
        let allowed_base: u128 = (old_num as u128) * (self.denominator as u128);
        let proposed_base: u128 = (self.numerator as u128) * (old_denom as u128);
        let allowed = allowed_base.checked_mul(max_withdrawal_fee_increase().numerator as u128);
        let proposed = proposed_base.checked_mul(max_withdrawal_fee_increase().denominator as u128);
        match (allowed, proposed) {
            (Some(a), Some(p)) => {
                if a < p {
                    Err(StakePoolError::FeeIncreaseTooHigh)
                } else {
                    Ok(())
                }
            },
            _ => Err(StakePoolError::CalculationFailure),
        }
    }
}

/// Largest factor by which a withdrawal fee may grow per change: 3/2.
pub open spec fn spec_max_withdrawal_fee_increase() -> Fee {
    Fee { numerator: 3, denominator: 2 }
}

/// What stands in for the present fee when that fee is zero and a
/// withdrawal fee increase is judged: 1/1000.
pub open spec fn spec_withdrawal_baseline_fee() -> Fee {
    Fee { numerator: 1, denominator: 1000 }
}

/// Largest factor by which a withdrawal fee may grow per change: 3/2.
#[verifier::when_used_as_spec(spec_max_withdrawal_fee_increase)]
pub fn max_withdrawal_fee_increase() -> (r: Fee)
    ensures
        r == spec_max_withdrawal_fee_increase(),
{
    Fee { numerator: 3, denominator: 2 }
}

/// What stands in for the present fee when that fee is zero and a
/// withdrawal fee increase is judged: 1/1000.
#[verifier::when_used_as_spec(spec_withdrawal_baseline_fee)]
pub fn withdrawal_baseline_fee() -> (r: Fee)
    ensures
        r == spec_withdrawal_baseline_fee(),
{
    Fee { numerator: 1, denominator: 1000 }
}

/// The fees that can be set on the stake pool.
#[derive(Clone, Copy, Debug, PartialEq, Eq, Structural)]
pub enum FeeType {
    /// Referral fees for SOL deposits
    SolReferral(u8),
    /// Referral fees for stake deposits
    StakeReferral(u8),
    /// Management fee paid per epoch
    Epoch(Fee),
    /// Stake withdrawal fee
    StakeWithdrawal(Fee),
    /// Deposit fee for SOL deposits
    SolDeposit(Fee),
    /// Deposit fee for stake deposits
    StakeDeposit(Fee),
    /// SOL withdrawal fee
    SolWithdrawal(Fee),
}

impl FeeType {
    /// A percentage is too high above 100, a ratio above one.
    pub open spec fn spec_is_too_high(&self) -> bool {
        match *self {
            FeeType::SolReferral(pct) => pct > 100,
            FeeType::StakeReferral(pct) => pct > 100,
            FeeType::Epoch(fee) => fee.exceeds_one(),
            FeeType::StakeWithdrawal(fee) => fee.exceeds_one(),
            FeeType::SolWithdrawal(fee) => fee.exceeds_one(),
            FeeType::SolDeposit(fee) => fee.exceeds_one(),
            FeeType::StakeDeposit(fee) => fee.exceeds_one(),
        }
    }

    /// The epoch fee and the two withdrawal fees take effect with a delay.
    pub open spec fn spec_can_only_change_next_epoch(&self) -> bool {
        *self is StakeWithdrawal || *self is SolWithdrawal || *self is Epoch
    }

    /// Checks if the provided fee is too high, returning true if so.
    pub fn is_too_high(&self) -> (r: bool)
        ensures
            r == self.spec_is_too_high(),
    {
        match self {
            FeeType::SolReferral(pct) => *pct > 100u8,
            FeeType::StakeReferral(pct) => *pct > 100u8,
            FeeType::Epoch(fee) => fee.numerator > fee.denominator,
            FeeType::StakeWithdrawal(fee) => fee.numerator > fee.denominator,
            FeeType::SolWithdrawal(fee) => fee.numerator > fee.denominator,
            FeeType::SolDeposit(fee) => fee.numerator > fee.denominator,
            FeeType::StakeDeposit(fee) => fee.numerator > fee.denominator,
        }
    }

    /// Returns if the contained fee can only be updated earliest on the next
    /// epoch.
    pub fn can_only_change_next_epoch(&self) -> (r: bool)
        ensures
            r == self.spec_can_only_change_next_epoch(),
    {
        match self {
            FeeType::StakeWithdrawal(_) => true,
            FeeType::SolWithdrawal(_) => true,
            FeeType::Epoch(_) => true,
            _ => false,
        }
    }
}

/// A value that "counts down" epochs before it becomes ready.
#[derive(Clone, Copy, Debug, PartialEq, Eq)]
pub enum FutureEpoch<T> {
    /// Nothing is set
    Unset,
    /// Value is ready after the next epoch boundary
    One(T),
    /// Value is ready after two epoch boundaries
    Two(T),
}

impl<T> Default for FutureEpoch<T> {
    fn default() -> (r: FutureEpoch<T>)
        ensures
            r is Unset,
    {
        FutureEpoch::Unset
    }
}

impl<T> FutureEpoch<T> {
    /// The state one epoch boundary later.
    pub open spec fn spec_update_epoch(self) -> FutureEpoch<T> {
        match self {
            FutureEpoch::Unset => FutureEpoch::Unset,
            FutureEpoch::One(_) => FutureEpoch::Unset,
            FutureEpoch::Two(v) => FutureEpoch::One(v),
        }
    }

    /// The value, if it is ready: only with one epoch remaining.
    pub open spec fn spec_get(self) -> Option<T> {
        match self {
            FutureEpoch::One(v) => Some(v),
            _ => None,
        }
    }

    /// Create a new value to be unlocked in two epochs
    pub fn new(value: T) -> (r: FutureEpoch<T>)
        ensures
            r == FutureEpoch::Two(value),
    {
        FutureEpoch::Two(value)
    }
}

impl<T: Clone> FutureEpoch<T> {
    /// Update the epoch, to be done after `get`ting the underlying value
    pub fn update_epoch(&mut self)
        ensures
            *final(self) == old(self).spec_update_epoch(),
    {
        let mut current = FutureEpoch::Unset;
        core::mem::swap(self, &mut current);
        *self = match current {
            FutureEpoch::Unset => FutureEpoch::Unset,
            FutureEpoch::One(_) => FutureEpoch::Unset,
            FutureEpoch::Two(v) => FutureEpoch::One(v),
        };
    }

    /// Get the value if it's ready, which is only at `One` epoch remaining
    pub fn get(&self) -> (r: Option<&T>)
        ensures
            match self.spec_get() {
                Some(v) => r == Some(&v),
                None => r is None,
            },
    {
        match self {
            FutureEpoch::Unset => None,
            FutureEpoch::Two(_) => None,
            FutureEpoch::One(v) => Some(v),
        }
    }
}

impl<T> From<FutureEpoch<T>> for Option<T> {
    fn from(v: FutureEpoch<T>) -> (r: Option<T>) {
        match v {
            FutureEpoch::Unset => None,
            FutureEpoch::One(inner) => Some(inner),
            FutureEpoch::Two(inner) => Some(inner),
        }
    }
}

impl<T> FromSpecImpl<FutureEpoch<T>> for Option<T> {
    open spec fn obeys_from_spec() -> bool {
        true
    }

    open spec fn from_spec(v: FutureEpoch<T>) -> Option<T> {
        match v {
            FutureEpoch::Unset => None,
            FutureEpoch::One(inner) => Some(inner),
            FutureEpoch::Two(inner) => Some(inner),
        }
    }
}

/// The countdown for a pending `Fee`, with the same three states as
/// `FutureEpoch<Fee>`.
#[derive(Clone, Copy, Debug, PartialEq, Eq, Structural)]
pub enum FutureEpochFee {
    /// Nothing is set
    Unset,
    /// Value is ready after the next epoch boundary
    One(Fee),
    /// Value is ready after two epoch boundaries
    Two(Fee),
}

impl Default for FutureEpochFee {
    fn default() -> (r: FutureEpochFee)
        ensures
            r == FutureEpochFee::Unset,
    {
        FutureEpochFee::Unset
    }
}

impl From<FutureEpoch<Fee>> for FutureEpochFee {
    fn from(value: FutureEpoch<Fee>) -> (r: FutureEpochFee) {
        match value {
            FutureEpoch::Unset => FutureEpochFee::Unset,
            FutureEpoch::One(fee) => FutureEpochFee::One(fee),
            FutureEpoch::Two(fee) => FutureEpochFee::Two(fee),
        }
    }
}

impl FromSpecImpl<FutureEpoch<Fee>> for FutureEpochFee {
    open spec fn obeys_from_spec() -> bool {
        true
    }

    open spec fn from_spec(value: FutureEpoch<Fee>) -> FutureEpochFee {
        match value {
            FutureEpoch::Unset => FutureEpochFee::Unset,
            FutureEpoch::One(fee) => FutureEpochFee::One(fee),
            FutureEpoch::Two(fee) => FutureEpochFee::Two(fee),
        }
    }
}

impl From<FutureEpochFee> for FutureEpoch<Fee> {
    fn from(value: FutureEpochFee) -> (r: FutureEpoch<Fee>) {
        match value {
            FutureEpochFee::Unset => FutureEpoch::Unset,
            FutureEpochFee::One(fee) => FutureEpoch::One(fee),
            FutureEpochFee::Two(fee) => FutureEpoch::Two(fee),
        }
    }
}

impl FromSpecImpl<FutureEpochFee> for FutureEpoch<Fee> {
    open spec fn obeys_from_spec() -> bool {
        true
    }

    open spec fn from_spec(value: FutureEpochFee) -> FutureEpoch<Fee> {
        match value {
            FutureEpochFee::Unset => FutureEpoch::Unset,
            FutureEpochFee::One(fee) => FutureEpoch::One(fee),
            FutureEpochFee::Two(fee) => FutureEpoch::Two(fee),
        }
    }
}

impl From<FutureEpochFee> for Option<Fee> {
    fn from(v: FutureEpochFee) -> (r: Option<Fee>) {
        match v {
            FutureEpochFee::Unset => None,
            FutureEpochFee::One(inner) => Some(inner),
            FutureEpochFee::Two(inner) => Some(inner),
        }
    }
}

impl FromSpecImpl<FutureEpochFee> for Option<Fee> {
    open spec fn obeys_from_spec() -> bool {
        true
    }

    open spec fn from_spec(v: FutureEpochFee) -> Option<Fee> {
        match v {
            FutureEpochFee::Unset => None,
            FutureEpochFee::One(inner) => Some(inner),
            FutureEpochFee::Two(inner) => Some(inner),
        }
    }
}

impl FutureEpochFee {
    /// The state one epoch boundary later.
    pub open spec fn spec_update_epoch(self) -> FutureEpochFee {
        match self {
            FutureEpochFee::Unset => FutureEpochFee::Unset,
            FutureEpochFee::One(_) => FutureEpochFee::Unset,
            FutureEpochFee::Two(v) => FutureEpochFee::One(v),
        }
    }

    /// The fee, if it is ready: only with one epoch remaining.
    pub open spec fn spec_get(self) -> Option<Fee> {
        match self {
            FutureEpochFee::One(v) => Some(v),
            _ => None,
        }
    }

    /// Create a new value to be unlocked in two epochs
    pub fn new(value: Fee) -> (r: FutureEpochFee)
        ensures
            r == FutureEpochFee::Two(value),
    {
        FutureEpochFee::Two(value)
    }

    /// Update the epoch, to be done after `get`ting the underlying value
    pub fn update_epoch(&mut self)
        ensures
            *final(self) == old(self).spec_update_epoch(),
    {
        match *self {
            FutureEpochFee::Unset => {},
            FutureEpochFee::One(_) => {
                *self = FutureEpochFee::Unset;
            },
            FutureEpochFee::Two(v) => {
                *self = FutureEpochFee::One(v);
            },
        }
    }

    /// Get the value if it's ready, which is only at `One` epoch remaining
    pub fn get(&self) -> (r: Option<&Fee>)
        ensures
            match self.spec_get() {
                Some(v) => r == Some(&v),
                None => r is None,
            },
    {
        match self {
            FutureEpochFee::Unset => None,
            FutureEpochFee::Two(_) => None,
            FutureEpochFee::One(v) => Some(v),
        }
    }
}

} // verus!
