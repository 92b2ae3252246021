use vstd::prelude::*;

verus! {

/// The address reached from `from` with `key`: each octet of `from` plus the octet of `key`
/// at its place, modulo 256.
pub fn dest_octets(from: [u8; 4], key: [u8; 4]) -> (r: [u8; 4])
    ensures
        forall|i: int| 0 <= i < 4 ==> r@[i] as int == (from@[i] + key@[i]) % 256,
{
    let mut r: [u8; 4] = [0, 0, 0, 0];
    let mut i: usize = 0;
    while i < 4
        invariant
            0 <= i <= 4,
            forall|j: int| 0 <= j < i ==> r@[j] as int == (from@[j] + key@[j]) % 256,
        decreases 4 - i,
    {
        r[i] = from[i].wrapping_add(key[i]);
        i += 1;
    }
    r
}

/// The key that leads from `from` to `to`: each octet of `to` less the octet of `from` at its
/// place, modulo 256.
pub fn key_octets(from: [u8; 4], to: [u8; 4]) -> (r: [u8; 4])
    ensures
        forall|i: int| 0 <= i < 4 ==> r@[i] as int == (to@[i] - from@[i]) % 256,
{
    let mut r: [u8; 4] = [0, 0, 0, 0];
    let mut i: usize = 0;
    while i < 4
        invariant
            0 <= i <= 4,
            forall|j: int| 0 <= j < i ==> r@[j] as int == (to@[j] - from@[j]) % 256,
        decreases 4 - i,
    {
        r[i] = to[i].wrapping_sub(from[i]);
        i += 1;
    }
    r
}

/// The octets of two IPv6 addresses, combined by exclusive or; it leads from an address to its
/// destination with a key, and from an address and its destination back to the key.
pub fn xor_octets(a: [u8; 16], b: [u8; 16]) -> (r: [u8; 16])
    ensures
        forall|i: int| 0 <= i < 16 ==> r@[i] == a@[i] ^ b@[i],
{
    let mut r: [u8; 16] = [0, 0, 0, 0, 0, 0, 0, 0, 0, 0, 0, 0, 0, 0, 0, 0];
    let mut i: usize = 0;
    while i < 16
        invariant
            0 <= i <= 16,
            forall|j: int| 0 <= j < i ==> r@[j] == a@[j] ^ b@[j],
        decreases 16 - i,
    {
        r[i] = a[i] ^ b[i];
        i += 1;
    }
    r
}

} // verus!
