use vstd::prelude::*;

verus! {

/// Little-endian 16-bit value of the two bytes at `i`.
pub open spec fn le16(b: Seq<u8>, i: int) -> int {
    b[i] + b[i + 1] * 256
}

/// Little-endian 32-bit value of the four bytes at `i`.
pub open spec fn le32(b: Seq<u8>, i: int) -> int {
    b[i] + b[i + 1] * 256 + b[i + 2] * 65536 + b[i + 3] * 16777216
}

/// Big-endian 16-bit value of the two bytes at `i`.
pub open spec fn be16(b: Seq<u8>, i: int) -> int {
    b[i] * 256 + b[i + 1]
}

/// Big-endian 32-bit value of the four bytes at `i`.
pub open spec fn be32(b: Seq<u8>, i: int) -> int {
    b[i] * 16777216 + b[i + 1] * 65536 + b[i + 2] * 256 + b[i + 3]
}

/// The little-endian encoding of `v`.
pub open spec fn le16_bytes(v: u16) -> Seq<u8> {
    seq![(v % 256) as u8, (v / 256) as u8]
}

/// The big-endian encoding of `v`.
pub open spec fn be16_bytes(v: u16) -> Seq<u8> {
    seq![(v / 256) as u8, (v % 256) as u8]
}

/// The little-endian encoding of `v`.
pub open spec fn le32_bytes(v: u32) -> Seq<u8> {
    seq![
        (v % 256) as u8,
        ((v / 256) % 256) as u8,
        ((v / 65536) % 256) as u8,
        (v / 16777216) as u8,
    ]
}

/// `s` with the bytes of `t` written over it from position `i` on.
pub open spec fn overwrite(s: Seq<u8>, i: int, t: Seq<u8>) -> Seq<u8> {
    Seq::new(s.len(), |j: int| if i <= j < i + t.len() { t[j - i] } else { s[j] })
}

/// The signed value of a 16-bit two's complement pattern.
pub open spec fn as_i16(v: int) -> int {
    if v >= 32768 { v - 65536 } else { v }
}

/// The signed value of a 32-bit two's complement pattern.
pub open spec fn as_i32(v: int) -> int {
    if v >= 2147483648 { v - 4294967296 } else { v }
}

/// Reading back the little-endian word just written gives the word.
pub proof fn lemma_le32_roundtrip(s: Seq<u8>, i: int, v: u32)
    requires
        0 <= i,
        i + 4 <= s.len(),
    ensures
        le32(overwrite(s, i, le32_bytes(v)), i) == v,
        overwrite(s, i, le32_bytes(v)).len() == s.len(),
{
    let t = overwrite(s, i, le32_bytes(v));
    assert(t[i] == (v % 256) as u8);
    assert(t[i + 1] == ((v / 256) % 256) as u8);
    assert(t[i + 2] == ((v / 65536) % 256) as u8);
    assert(t[i + 3] == (v / 16777216) as u8);
}

/// Reading back the little-endian half-word just written gives the half-word.
pub proof fn lemma_le16_roundtrip(s: Seq<u8>, i: int, v: u16)
    requires
        0 <= i,
        i + 2 <= s.len(),
    ensures
        le16(overwrite(s, i, le16_bytes(v)), i) == v,
{
    let t = overwrite(s, i, le16_bytes(v));
    assert(t[i] == (v % 256) as u8);
    assert(t[i + 1] == (v / 256) as u8);
}

pub fn get_le16(b: &Vec<u8>, i: usize) -> (r: u16)
    requires
        i + 2 <= b.len(),
    ensures
        r == le16(b@, i as int),
{
    b[i] as u16 + (b[i + 1] as u16) * 256
}

pub fn get_le32(b: &Vec<u8>, i: usize) -> (r: u32)
    requires
        i + 4 <= b.len(),
    ensures
        r == le32(b@, i as int),
{
    b[i] as u32 + (b[i + 1] as u32) * 256 + (b[i + 2] as u32) * 65536 + (b[i + 3] as u32)
        * 16777216
}

pub fn get_be32(b: &Vec<u8>, i: usize) -> (r: u32)
    requires
        i + 4 <= b.len(),
    ensures
        r == be32(b@, i as int),
{
    (b[i] as u32) * 16777216 + (b[i + 1] as u32) * 65536 + (b[i + 2] as u32) * 256 + b[i
        + 3] as u32
}

pub fn put_bytes(b: &mut Vec<u8>, i: usize, t: &[u8])
    requires
        i + t@.len() <= old(b).len(),
    ensures
        final(b)@ == overwrite(old(b)@, i as int, t@),
{
    let mut k: usize = 0;
    while k < t.len()
        invariant
            i + t@.len() <= b.len(),
            b.len() == old(b).len(),
            k <= t@.len(),
            forall|j: int|
                0 <= j < b.len() ==> #[trigger] b@[j] == (if i <= j < i + k {
                    t@[j - i]
                } else {
                    old(b)@[j]
                }),
        decreases t@.len() - k,
    {
        b.set(i + k, t[k]);
        k = k + 1;
    }
    assert(b@ =~= overwrite(old(b)@, i as int, t@));
}

pub fn put_le16(b: &mut Vec<u8>, i: usize, v: u16)
    requires
        i + 2 <= old(b).len(),
    ensures
        final(b)@ == overwrite(old(b)@, i as int, le16_bytes(v)),
{
    b.set(i, (v % 256) as u8);
    b.set(i + 1, (v / 256) as u8);
    assert(b@ =~= overwrite(old(b)@, i as int, le16_bytes(v)));
}

pub fn put_le32(b: &mut Vec<u8>, i: usize, v: u32)
    requires
        i + 4 <= old(b).len(),
    ensures
        final(b)@ == overwrite(old(b)@, i as int, le32_bytes(v)),
{
    b.set(i, (v % 256) as u8);
    b.set(i + 1, ((v / 256) % 256) as u8);
    b.set(i + 2, ((v / 65536) % 256) as u8);
    b.set(i + 3, (v / 16777216) as u8);
    assert(b@ =~= overwrite(old(b)@, i as int, le32_bytes(v)));
}

/// Sets `n` bytes from position `i` on to `value`.
pub fn fill_bytes(b: &mut Vec<u8>, i: usize, n: usize, value: u8)
    requires
        i + n <= old(b).len(),
    ensures
        final(b)@ == overwrite(old(b)@, i as int, Seq::new(n as nat, |j: int| value)),
{
    let mut k: usize = 0;
    while k < n
        invariant
            i + n <= b.len(),
            b.len() == old(b).len(),
            k <= n,
            forall|j: int|
                0 <= j < b.len() ==> #[trigger] b@[j] == (if i <= j < i + k {
                    value
                } else {
                    old(b)@[j]
                }),
        decreases n - k,
    {
        b.set(i + k, value);
        k = k + 1;
    }
    assert(b@ =~= overwrite(old(b)@, i as int, Seq::new(n as nat, |j: int| value)));
}

} // verus!
