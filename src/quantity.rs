use vstd::prelude::*;
use vstd::string::StringExecFns;

use crate::error::FillError;
use crate::sizing::{filler_outcome, filler_size};

verus! {

/// The byte count that a human-readable quantity ("10MiB", "1000") reads as,
/// or `None` where it does not read as one.
pub uninterp spec fn parsed_byte_size(s: Seq<char>) -> Option<u64>;

/// The human-readable (binary-unit) rendering of a byte count.
pub uninterp spec fn byte_size_text(b: u64) -> Seq<char>;

/// Relies on bytesize's `FromStr for ByteSize`: the byte count of a quantity
/// with an optional unit, or an error for text it cannot read.
#[verifier::external_body]
fn parse_byte_size(s: &str) -> (r: Option<u64>)
    ensures
        r == parsed_byte_size(s@),
{
    match s.parse::<bytesize::ByteSize>() {
        Ok(b) => Some(b.as_u64()),
        Err(_) => None,
    }
}

/// Relies on bytesize's `ByteSize::display`: renders a byte count with
/// binary units.
#[verifier::external_body]
fn display_byte_size(b: u64) -> (r: String)
    ensures
        r@ == byte_size_text(b),
{
    bytesize::ByteSize::b(b).display().to_string()
}

/// Reads a human-readable byte quantity; `None` where the text is not one.
pub fn read_quantity(s: &str) -> (r: Option<u64>)
    ensures
        r == parsed_byte_size(s@),
{
    parse_byte_size(s)
}

/// The outcome for a typed-in quantity once it has been read.
pub open spec fn parsed_filler_outcome(parsed: Option<u64>, current_free: u64) -> Result<u64, FillError> {
    match parsed {
        None => Err(FillError::UserInput),
        Some(desired) => filler_outcome(current_free, desired),
    }
}

/// Turns an already read quantity into the filler size: an unreadable quantity
/// is a `UserInput` error, an out-of-bounds one an `InvalidSize` error.
pub fn filler_size_from_parsed(parsed: Option<u64>, current_free: u64) -> (r: Result<u64, FillError>)
    ensures
        r == parsed_filler_outcome(parsed, current_free),
{
    match parsed {
        None => Err(FillError::UserInput),
        Some(desired) => filler_size(current_free, desired),
    }
}

/// Reads the desired remaining free space typed by the user and returns the
/// size of the filler that leaves it on a pool with `current_free` bytes free.
pub fn filler_size_from_input(input: &str, current_free: u64) -> (r: Result<u64, FillError>)
    ensures
        r == parsed_filler_outcome(parsed_byte_size(input@), current_free),
{
    let parsed = read_quantity(input);
    filler_size_from_parsed(parsed, current_free)
}

/// Renders a byte count for the user.
pub fn format_byte_size(b: u64) -> (r: String)
    ensures
        r@ == byte_size_text(b),
{
    display_byte_size(b)
}

/// The line reported once the device has been filled.
pub open spec fn success_text(free: u64) -> Seq<char> {
    "Successfully filled MTP storage, remaining free space is: "@ + byte_size_text(free)
}

/// The success report for the free space read back from the device.
pub fn success_message(free: u64) -> (r: String)
    ensures
        r@ == success_text(free),
{
    let head = String::from_str("Successfully filled MTP storage, remaining free space is: ");
    let size = display_byte_size(free);
    head.concat(size.as_str())
}

} // verus!
