//! Where the file of a region lies.
//!
//! The file of the region at `(x, z)` is `region/r.<x>.<z>.mca` below the
//! directory of the world, with both coordinates in decimal.

use crate::header::RegionPosition;
use vstd::prelude::*;
use vstd::string::StringExecFns;

verus! {

/// The character of a decimal digit.
pub open spec fn digit_char(digit: nat) -> char {
    ((48 + digit) as u8) as char
}

/// The decimal digits of a number, the highest first.
pub open spec fn decimal_digits(n: nat) -> Seq<char>
    decreases n,
{
    if n < 10 {
        seq![digit_char(n)]
    } else {
        decimal_digits(n / 10).push(digit_char(n % 10))
    }
}

/// The decimal form of an integer: a minus sign where it is negative, then
/// its digits.
pub open spec fn decimal(v: int) -> Seq<char> {
    if v < 0 {
        seq!['-'] + decimal_digits((-v) as nat)
    } else {
        decimal_digits(v as nat)
    }
}

/// The path of the file of the region at `pos`, from the directory of the
/// world.
pub open spec fn spec_region_file_path(pos: RegionPosition) -> Seq<char> {
    "region/r."@ + decimal(pos.x as int) + "."@ + decimal(pos.z as int) + ".mca"@
}

/// `String::push`: appends one character to the string.
#[verifier::external_body]
pub(crate) fn push_char(s: &mut String, c: char)
    ensures
        final(s)@ == old(s)@.push(c),
{
    s.push(c);
}

/// Appends the decimal digits of `n` to `s`.
pub fn push_digits(s: &mut String, n: u64)
    ensures
        final(s)@ == old(s)@ + decimal_digits(n as nat),
    decreases n,
{
    if n >= 10 {
        push_digits(s, n / 10);
    }
    let digit = (n % 10) as u8;
    push_char(s, (48 + digit) as char);
    proof {
        assert(s@ =~= old(s)@ + decimal_digits(n as nat));
    }
}

/// Appends the decimal form of `v` to `s`.
pub fn push_decimal(s: &mut String, v: i32)
    ensures
        final(s)@ == old(s)@ + decimal(v as int),
{
    if v < 0 {
        push_char(s, '-');
        push_digits(s, (-(v as i64)) as u64);
        proof {
            assert(s@ =~= old(s)@ + decimal(v as int));
        }
    } else {
        push_digits(s, v as u64);
    }
}

/// The path of the file of the region at `pos`, from the directory of the
/// world.
pub fn region_file_path(pos: RegionPosition) -> (r: String)
    ensures
        r@ == spec_region_file_path(pos),
{
    let mut path = String::from_str("region/r.");
    push_decimal(&mut path, pos.x);
    path.append(".");
    push_decimal(&mut path, pos.z);
    path.append(".mca");
    path
}

} // verus!
