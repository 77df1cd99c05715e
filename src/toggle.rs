//! The two payloads that switch the peripheral's feature off and on.

use vstd::prelude::*;

verus! {

/// Milliseconds to wait before each write after the first.
pub const TOGGLE_INTERVAL_MS: u64 = 1000;

/// The bytes that switch the feature off.
pub open spec fn off_bytes() -> Seq<u8> {
    seq![0x01u8, 0x00u8, 0x02u8, 0x06u8, 0x09u8, 0x00u8, 0x03u8]
}

/// The bytes that switch the feature on.
pub open spec fn on_bytes() -> Seq<u8> {
    seq![0x01u8, 0x00u8, 0x02u8, 0x06u8, 0x09u8, 0x02u8, 0x05u8, 0x03u8]
}

/// The payload of the `n`-th write, counting from zero: off, on, off, ...
pub open spec fn payload_at(n: nat) -> Seq<u8> {
    if n % 2 == 0 {
        off_bytes()
    } else {
        on_bytes()
    }
}

/// The payload that switches the feature off.
pub fn payload_off() -> (r: Vec<u8>)
    ensures
        r@ == off_bytes(),
{
    let r: Vec<u8> = vec![0x01u8, 0x00u8, 0x02u8, 0x06u8, 0x09u8, 0x00u8, 0x03u8];
    assert(r@ =~= off_bytes());
    r
}

/// The payload that switches the feature on.
pub fn payload_on() -> (r: Vec<u8>)
    ensures
        r@ == on_bytes(),
{
    let r: Vec<u8> = vec![0x01u8, 0x00u8, 0x02u8, 0x06u8, 0x09u8, 0x02u8, 0x05u8, 0x03u8];
    assert(r@ =~= on_bytes());
    r
}

/// The payload for a write: the "on" payload when `on` holds, else the
/// "off" one.
pub fn payload(on: bool) -> (r: Vec<u8>)
    ensures
        r@ == (if on { on_bytes() } else { off_bytes() }),
{
    if on {
        payload_on()
    } else {
        payload_off()
    }
}

} // verus!
