//! Which validation checks the renderer emits for the facets of a simple type.
//!
//! The renderer turns the [`Constrains`] of a type into a `validate_str` function (checks on
//! the textual value) and a `validate_value` function (checks on the parsed value). This
//! module decides which checks these functions hold and with which values; the code itself is
//! written from these decisions.

use vstd::prelude::*;

use crate::models::meta::{Constrains, ValueBound};

verus! {

/// A check of one end of the value range.
#[derive(Debug)]
pub enum RangeCheck {
    /// Fails with `LessThan(bound)` if `value < bound`.
    LessThan(String),
    /// Fails with `LessEqualThan(bound)` if `value <= bound`.
    LessEqualThan(String),
    /// Fails with `GraterThan(bound)` if `value > bound`.
    GraterThan(String),
    /// Fails with `GraterEqualThan(bound)` if `value >= bound`.
    GraterEqualThan(String),
}

/// A check of the minimum length; the error reports the facet value `min`.
#[derive(Clone, Copy, Debug, PartialEq, Eq, Structural)]
pub enum MinLengthCheck {
    /// Fails with `MinLength(1)` if the value is empty.
    IsEmpty,
    /// Fails with `MinLength(min)` if `value.len() < min * factor`.
    LenLessThan { min: usize, factor: usize },
}

/// A check of the maximum length; the error reports the facet value `max`.
#[derive(Clone, Copy, Debug, PartialEq, Eq, Structural)]
pub enum MaxLengthCheck {
    /// Fails with `MaxLength(0)` if the value is not empty.
    NotEmpty,
    /// Fails with `MaxLength(max)` if `value.len() > max * factor`.
    LenGreaterThan { max: usize, factor: usize },
}

/// The checks of the rendered `validate_str` function.
#[derive(Debug)]
pub struct StrValidation {
    /// Each pattern with the anchored regular expression it is checked with.
    pub patterns: Vec<(String, String)>,
    /// Maximum number of total digits.
    pub total_digits: Option<usize>,
    /// Maximum number of fraction digits.
    pub fraction_digits: Option<usize>,
}

/// The checks of the rendered `validate_value` function, in the order they are made.
#[derive(Debug)]
pub struct ValueValidation {
    pub range_start: Option<RangeCheck>,
    pub range_end: Option<RangeCheck>,
    pub min_length: Option<MinLengthCheck>,
    pub max_length: Option<MaxLengthCheck>,
}

/// `true` if the textual value of a type with the constrains `c` has to be validated.
pub open spec fn need_string_validation(c: Constrains) -> bool {
    c.patterns@.len() > 0 || c.total_digits is Some || c.fraction_digits is Some
}

/// `true` if the parsed value of a type with the constrains `c` has to be validated.
pub open spec fn need_value_validation(c: Constrains) -> bool {
    !(c.range.start is Unbounded) || !(c.range.end is Unbounded) || c.min_length is Some
        || c.max_length is Some
}

/// The regular expression the pattern `p` is checked with: anchored at both ends, so that
/// a match of a part of the value does not count.
pub open spec fn anchored_pattern(p: Seq<char>) -> Seq<char> {
    "^(?:"@ + p + ")$"@
}

/// The factor the length facets are multiplied with: two characters for each byte of a
/// hexadecimal binary value.
pub open spec fn length_factor(c: Constrains) -> usize {
    if c.is_hex_binary {
        2
    } else {
        1
    }
}

/// The check of the minimum length `min` (none for a minimum of zero).
pub open spec fn spec_min_length_check(min: Option<usize>, factor: usize) -> Option<MinLengthCheck> {
    match min {
        None => None,
        Some(0) => None,
        Some(1) => Some(MinLengthCheck::IsEmpty),
        Some(x) => Some(MinLengthCheck::LenLessThan { min: x, factor: factor }),
    }
}

/// `true` if the rendered minimum-length check `check` refuses a value of length `len`.
pub open spec fn min_length_refuses(check: Option<MinLengthCheck>, len: nat) -> bool {
    match check {
        None => false,
        Some(MinLengthCheck::IsEmpty) => len == 0,
        Some(MinLengthCheck::LenLessThan { min, factor }) => len < min * factor,
    }
}

/// The facet value the error of the minimum-length check `check` reports.
pub open spec fn min_length_reported(check: MinLengthCheck) -> usize {
    match check {
        MinLengthCheck::IsEmpty => 1,
        MinLengthCheck::LenLessThan { min, .. } => min,
    }
}

/// `true` if the rendered maximum-length check `check` refuses a value of length `len`.
pub open spec fn max_length_refuses(check: Option<MaxLengthCheck>, len: nat) -> bool {
    match check {
        None => false,
        Some(MaxLengthCheck::NotEmpty) => len > 0,
        Some(MaxLengthCheck::LenGreaterThan { max, factor }) => len > max * factor,
    }
}

/// The facet value the error of the maximum-length check `check` reports.
pub open spec fn max_length_reported(check: MaxLengthCheck) -> usize {
    match check {
        MaxLengthCheck::NotEmpty => 0,
        MaxLengthCheck::LenGreaterThan { max, .. } => max,
    }
}

/// The planned minimum-length check refuses exactly the values that are too short: without
/// a minimum (or with a minimum of zero) nothing is refused; with a minimum `m` of at least
/// one the empty value is refused, a value is refused exactly when it is shorter than
/// `m * factor` (for a minimum of one: exactly when it is empty), and the error reports `m`.
pub proof fn law_min_length_check(min: Option<usize>, factor: usize, len: nat)
    requires
        factor >= 1,
    ensures
        (min is None || min == Some(0usize)) ==> !min_length_refuses(
            spec_min_length_check(min, factor),
            len,
        ),
        min is Some && min.unwrap() >= 1 ==> {
            let m = min.unwrap();
            let check = spec_min_length_check(min, factor);
            &&& min_length_refuses(check, 0)
            &&& check matches Some(k) && min_length_reported(k) == m
            &&& m >= 2 ==> (min_length_refuses(check, len) <==> len < m * factor)
            &&& m == 1 ==> (min_length_refuses(check, len) <==> len == 0)
        },
{
    if min is Some && min.unwrap() >= 2 {
        let m = min.unwrap();
        assert(m * factor >= m) by (nonlinear_arith)
            requires
                factor >= 1,
                m >= 2,
        ;
    }
}

/// The planned maximum-length check refuses exactly the values that are too long: with a
/// maximum of zero every non-empty value is refused, with a maximum `m` of at least one a
/// value is refused exactly when it is longer than `m * factor`, and the error reports the
/// maximum; without a maximum nothing is refused.
pub proof fn law_max_length_check(max: Option<usize>, factor: usize, len: nat)
    requires
        factor >= 1,
    ensures
        max is None ==> !max_length_refuses(spec_max_length_check(max, factor), len),
        max is Some ==> {
            let m = max.unwrap();
            let check = spec_max_length_check(max, factor);
            &&& check matches Some(k) && max_length_reported(k) == m
            &&& (max_length_refuses(check, len) <==> len > m * factor)
        },
{
}

/// The check of the maximum length `max`.
pub open spec fn spec_max_length_check(max: Option<usize>, factor: usize) -> Option<MaxLengthCheck> {
    match max {
        None => None,
        Some(0) => Some(MaxLengthCheck::NotEmpty),
        Some(x) => Some(MaxLengthCheck::LenGreaterThan { max: x, factor: factor }),
    }
}

/// `check` is the check of the lower end `b` of the range.
pub open spec fn is_range_start_check(b: ValueBound, check: Option<RangeCheck>) -> bool {
    match b {
        ValueBound::Unbounded => check is None,
        ValueBound::Included(x) => check matches Some(RangeCheck::LessThan(v)) && v@ == x@,
        ValueBound::Excluded(x) => check matches Some(RangeCheck::LessEqualThan(v)) && v@ == x@,
    }
}

/// `check` is the check of the upper end `b` of the range.
pub open spec fn is_range_end_check(b: ValueBound, check: Option<RangeCheck>) -> bool {
    match b {
        ValueBound::Unbounded => check is None,
        ValueBound::Included(x) => check matches Some(RangeCheck::GraterThan(v)) && v@ == x@,
        ValueBound::Excluded(x) => check matches Some(RangeCheck::GraterEqualThan(v)) && v@ == x@,
    }
}

/// `true` if the rendered range check `check` refuses a value that compares to the bound of
/// the check as `ord` says (negative: smaller, zero: equal, positive: greater).
pub open spec fn range_check_refuses(check: Option<RangeCheck>, ord: int) -> bool {
    match check {
        None => false,
        Some(RangeCheck::LessThan(_)) => ord < 0,
        Some(RangeCheck::LessEqualThan(_)) => ord <= 0,
        Some(RangeCheck::GraterThan(_)) => ord > 0,
        Some(RangeCheck::GraterEqualThan(_)) => ord >= 0,
    }
}

/// The bound the error of the range check `check` reports.
pub open spec fn range_check_bound(check: RangeCheck) -> String {
    match check {
        RangeCheck::LessThan(v) => v,
        RangeCheck::LessEqualThan(v) => v,
        RangeCheck::GraterThan(v) => v,
        RangeCheck::GraterEqualThan(v) => v,
    }
}

/// The range checks refuse exactly the values outside the range: below an included lower
/// bound, at or below an excluded one, above an included upper bound, at or above an
/// excluded one; an unbounded end refuses nothing, and the error reports the bound.
pub proof fn law_range_checks(
    start: ValueBound,
    end: ValueBound,
    start_check: Option<RangeCheck>,
    end_check: Option<RangeCheck>,
    ord: int,
)
    requires
        is_range_start_check(start, start_check),
        is_range_end_check(end, end_check),
    ensures
        start is Unbounded ==> !range_check_refuses(start_check, ord),
        start matches ValueBound::Included(x) ==> (range_check_refuses(start_check, ord) <==> ord < 0)
            && range_check_bound(start_check.unwrap())@ == x@,
        start matches ValueBound::Excluded(x) ==> (range_check_refuses(start_check, ord) <==> ord
            <= 0) && range_check_bound(start_check.unwrap())@ == x@,
        end is Unbounded ==> !range_check_refuses(end_check, ord),
        end matches ValueBound::Included(x) ==> (range_check_refuses(end_check, ord) <==> ord > 0)
            && range_check_bound(end_check.unwrap())@ == x@,
        end matches ValueBound::Excluded(x) ==> (range_check_refuses(end_check, ord) <==> ord >= 0)
            && range_check_bound(end_check.unwrap())@ == x@,
{
}

/// Returns the regular expression the pattern `p` is checked with: `^(?:p)$`.
pub fn make_anchored_pattern(p: &str) -> (r: String)
    ensures
        r@ == anchored_pattern(p@),
{
    let mut s = "^(?:".to_string();
    s.append(p);
    s.append(")$");
    s
}

/// Returns the check of the minimum length.
pub fn min_length_check(min: Option<usize>, factor: usize) -> (r: Option<MinLengthCheck>)
    ensures
        r == spec_min_length_check(min, factor),
{
    match min {
        None => None,
        Some(x) => if x == 0 {
            None
        } else if x == 1 {
            Some(MinLengthCheck::IsEmpty)
        } else {
            Some(MinLengthCheck::LenLessThan { min: x, factor })
        },
    }
}

/// Returns the check of the maximum length.
pub fn max_length_check(max: Option<usize>, factor: usize) -> (r: Option<MaxLengthCheck>)
    ensures
        r == spec_max_length_check(max, factor),
{
    match max {
        None => None,
        Some(x) => if x == 0 {
            Some(MaxLengthCheck::NotEmpty)
        } else {
            Some(MaxLengthCheck::LenGreaterThan { max: x, factor })
        },
    }
}

/// Returns the check of the lower end of the range.
pub fn range_start_check(b: &ValueBound) -> (r: Option<RangeCheck>)
    ensures
        is_range_start_check(*b, r),
{
    match b {
        ValueBound::Unbounded => None,
        ValueBound::Included(x) => Some(RangeCheck::LessThan(x.clone())),
        ValueBound::Excluded(x) => Some(RangeCheck::LessEqualThan(x.clone())),
    }
}

/// Returns the check of the upper end of the range.
pub fn range_end_check(b: &ValueBound) -> (r: Option<RangeCheck>)
    ensures
        is_range_end_check(*b, r),
{
    match b {
        ValueBound::Unbounded => None,
        ValueBound::Included(x) => Some(RangeCheck::GraterThan(x.clone())),
        ValueBound::Excluded(x) => Some(RangeCheck::GraterEqualThan(x.clone())),
    }
}

/// Returns the checks of the rendered `validate_str` function, or `None` if the type needs
/// no such function.
pub fn plan_validate_str(c: &Constrains) -> (r: Option<StrValidation>)
    ensures
        need_string_validation(*c) <==> r is Some,
        r matches Some(v) ==> {
            &&& v.total_digits == c.total_digits
            &&& v.fraction_digits == c.fraction_digits
            &&& v.patterns@.len() == c.patterns@.len()
            &&& forall|i: int|
                0 <= i < c.patterns@.len() ==> (#[trigger] v.patterns@[i]).0@ == c.patterns@[i]@
                    && v.patterns@[i].1@ == anchored_pattern(c.patterns@[i]@)
        },
{
    if c.patterns.len() == 0 && c.total_digits.is_none() && c.fraction_digits.is_none() {
        return None;
    }
    let mut patterns: Vec<(String, String)> = Vec::new();
    let mut i: usize = 0;
    while i < c.patterns.len()
        invariant
            i <= c.patterns@.len(),
            patterns@.len() == i,
            forall|j: int|
                0 <= j < i ==> (#[trigger] patterns@[j]).0@ == c.patterns@[j]@ && patterns@[j].1@
                    == anchored_pattern(c.patterns@[j]@),
        decreases c.patterns@.len() - i,
    {
        let p = &c.patterns[i];
        patterns.push((p.clone(), make_anchored_pattern(p.as_str())));
        i = i + 1;
    }
    Some(
        StrValidation {
            patterns,
            total_digits: c.total_digits,
            fraction_digits: c.fraction_digits,
        },
    )
}

/// Returns the checks of the rendered `validate_value` function, or `None` if the type
/// needs no such function.
pub fn plan_validate_value(c: &Constrains) -> (r: Option<ValueValidation>)
    ensures
        need_value_validation(*c) <==> r is Some,
        r matches Some(v) ==> {
            &&& is_range_start_check(c.range.start, v.range_start)
            &&& is_range_end_check(c.range.end, v.range_end)
            &&& v.min_length == spec_min_length_check(c.min_length, length_factor(*c))
            &&& v.max_length == spec_max_length_check(c.max_length, length_factor(*c))
        },
{
    let bounded_start = match &c.range.start {
        ValueBound::Unbounded => false,
        _ => true,
    };
    let bounded_end = match &c.range.end {
        ValueBound::Unbounded => false,
        _ => true,
    };
    if !bounded_start && !bounded_end && c.min_length.is_none() && c.max_length.is_none() {
        return None;
    }
    let factor: usize = if c.is_hex_binary {
        2
    } else {
        1
    };
    Some(
        ValueValidation {
            range_start: range_start_check(&c.range.start),
            range_end: range_end_check(&c.range.end),
            min_length: min_length_check(c.min_length, factor),
            max_length: max_length_check(c.max_length, factor),
        },
    )
}

} // verus!
