//! Big-endian fields at fixed offsets of a byte sequence.
//!
//! The spec functions say what a field is. The executable readers take the
//! bounds as a precondition, so every caller proves that the field lies
//! within the slice before it is read.

use vstd::prelude::*;

verus! {

/// The 16-bit number held by the two bytes at `at` and `at + 1`, most
/// significant byte first.
pub open spec fn be16(bytes: Seq<u8>, at: int) -> u16
    recommends
        0 <= at,
        at + 2 <= bytes.len(),
{
    (bytes[at] as int * 256 + bytes[at + 1] as int) as u16
}

/// The two bytes that hold `value`, most significant byte first.
pub open spec fn be16_bytes(value: u16) -> Seq<u8> {
    seq![(value / 256) as u8, (value % 256) as u8]
}

/// Reading a 16-bit value back from its two bytes gives the value, wherever
/// in a longer sequence the two bytes stand.
pub proof fn lemma_be16_of_bytes(bytes: Seq<u8>, at: int, value: u16)
    requires
        0 <= at,
        at + 2 <= bytes.len(),
        bytes[at] == (value / 256) as u8,
        bytes[at + 1] == (value % 256) as u8,
    ensures
        be16(bytes, at) == value,
{
}

/// The length of a byte sequence as a machine number. Every slice is short
/// enough for the two to agree.
pub open spec fn length_of(bytes: Seq<u8>) -> usize {
    bytes.len() as usize
}

/// The data bytes taken two by two as big-endian 16-bit registers: register
/// `k` is made of the bytes `2k` and `2k + 1`. An odd last byte belongs to no
/// register.
pub open spec fn register_values(data: Seq<u8>) -> Seq<u16> {
    Seq::new((data.len() / 2) as nat, |k: int| be16(data, 2 * k))
}

/// The byte at `at`.
pub(crate) fn u8_at(packet: &[u8], at: usize) -> (field: u8)
    requires
        at < packet@.len(),
    ensures
        field == packet@[at as int],
{
    packet[at]
}

/// The big-endian 16-bit field at `at`.
pub(crate) fn u16_at(packet: &[u8], at: usize) -> (field: u16)
    requires
        at + 2 <= packet@.len(),
    ensures
        field == be16(packet@, at as int),
{
    let high: u16 = packet[at] as u16;
    let low: u16 = packet[at + 1] as u16;
    high * 256 + low
}

/// A copy of the bytes from `from` up to, not including, `to`.
pub(crate) fn bytes_between(packet: &[u8], from: usize, to: usize) -> (field: Vec<u8>)
    requires
        from <= to <= packet@.len(),
    ensures
        field@ == packet@.subrange(from as int, to as int),
{
    let mut bytes: Vec<u8> = Vec::new();
    let mut at: usize = from;
    while at < to
        invariant
            from <= at <= to <= packet@.len(),
            bytes@ == packet@.subrange(from as int, at as int),
        decreases to - at,
    {
        bytes.push(packet[at]);
        at = at + 1;
    }
    bytes
}

/// The registers that `data` holds, in order. No data gives no register.
pub fn registers(data: &[u8]) -> (values: Vec<u16>)
    ensures
        values@ == register_values(data@),
{
    let count: usize = data.len() / 2;
    let mut values: Vec<u16> = Vec::new();
    let mut k: usize = 0;
    while k < count
        invariant
            count == data@.len() / 2,
            data@.len() <= usize::MAX,
            k <= count,
            values@.len() == k,
            forall|j: int| 0 <= j < k ==> values@[j] == be16(data@, 2 * j),
        decreases count - k,
    {
        values.push(u16_at(data, 2 * k));
        k = k + 1;
    }
    assert(values@ =~= register_values(data@));
    values
}

} // verus!
