//! The two request payloads the demonstration driver writes: the label
//! carrying the fetched creation timestamp, rendered in decimal, and the
//! annotation carrying a snapshot's unique id.

use vstd::prelude::*;
use crate::messages::KeyValue;

verus! {

pub open spec fn dec_char(d: int) -> char {
    if d == 0 {
        '0'
    } else if d == 1 {
        '1'
    } else if d == 2 {
        '2'
    } else if d == 3 {
        '3'
    } else if d == 4 {
        '4'
    } else if d == 5 {
        '5'
    } else if d == 6 {
        '6'
    } else if d == 7 {
        '7'
    } else if d == 8 {
        '8'
    } else {
        '9'
    }
}

/// The decimal rendering of a number: its digits, most significant first,
/// with no leading zero except for the number zero itself.
pub open spec fn spec_decimal(n: nat) -> Seq<char>
    decreases n,
{
    if n < 10 {
        seq![dec_char(n as int)]
    } else {
        spec_decimal(n / 10).push(dec_char((n % 10) as int))
    }
}

/// Relies on the standard library's `Display` for `u64`: an unsigned
/// integer formats as its decimal digits, nothing else.
#[verifier::external_body]
fn decimal_string(n: u64) -> (r: String)
    ensures
        r@ == spec_decimal(n as nat),
{
    n.to_string()
}

/// The label the foreground sequence writes: the key is fixed, the value is
/// the creation timestamp in decimal.
pub fn creation_label(creation_timestamp: u64) -> (kv: KeyValue)
    ensures
        kv@.key == "test-label"@,
        kv@.value == spec_decimal(creation_timestamp as nat),
{
    KeyValue { key: "test-label".to_owned(), value: decimal_string(creation_timestamp) }
}

/// The annotation the watch loop writes once: the key is fixed, the value
/// is the snapshot's unique id, unchanged.
pub fn uid_annotation(uid: &String) -> (kv: KeyValue)
    ensures
        kv@.key == "test-annotation"@,
        kv@.value == uid@,
{
    KeyValue { key: "test-annotation".to_owned(), value: uid.clone() }
}

} // verus!
