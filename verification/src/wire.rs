//! Byte images of 16-bit and 32-bit values, in the order the device reads.
//!
//! The device reads every value least significant byte first. The host's own
//! image of a slice is obtained from `bytemuck`; where the host stores the
//! most significant byte first, the bytes of each value are put about.

use vstd::prelude::*;

verus! {

/// Byte `j` of a value, counted from its least significant byte.
pub open spec fn unit_byte(v: u32, j: int) -> u8 {
    if j == 0 {
        (v % 256) as u8
    } else if j == 1 {
        (v / 256 % 256) as u8
    } else if j == 2 {
        (v / 65536 % 256) as u8
    } else {
        (v / 16777216) as u8
    }
}

/// The image of `vals`, each taking `width` bytes, least significant byte
/// first.
pub open spec fn le_image(vals: Seq<u32>, width: int) -> Seq<u8> {
    Seq::new((vals.len() * width) as nat, |i: int| unit_byte(vals[i / width], i % width))
}

/// The image of `vals`, each taking `width` bytes, most significant byte
/// first.
pub open spec fn be_image(vals: Seq<u32>, width: int) -> Seq<u8> {
    Seq::new(
        (vals.len() * width) as nat,
        |i: int| unit_byte(vals[i / width], width - 1 - i % width),
    )
}

/// The same bytes with every group of `width` reversed.
pub open spec fn groups_reversed(bytes: Seq<u8>, width: int) -> Seq<u8> {
    Seq::new(bytes.len(), |i: int| bytes[i / width * width + (width - 1 - i % width)])
}

/// 16-bit values widened to 32 bits.
pub open spec fn widened(halves: Seq<u16>) -> Seq<u32> {
    Seq::new(halves.len(), |i: int| halves[i] as u32)
}

/// The 32-bit value whose four bytes, least significant first, start at
/// `offset`.
pub open spec fn word_at(bytes: Seq<u8>, offset: int) -> int {
    bytes[offset] as int + 256 * (bytes[offset + 1] as int) + 65536 * (bytes[offset + 2] as int)
        + 16777216 * (bytes[offset + 3] as int)
}

/// The 16-bit value whose two bytes, least significant first, start at
/// `offset`.
pub open spec fn half_at(bytes: Seq<u8>, offset: int) -> int {
    bytes[offset] as int + 256 * (bytes[offset + 1] as int)
}

/// `bytemuck::cast_slice` from `u32` to `u8`, copied into a vector: the
/// memory of the slice read as bytes. Each word gives four bytes, in the
/// host's order, which is one of the two orders for the whole slice. To
/// bytes the cast cannot fail: they need no alignment and leave no
/// remainder.
#[verifier::external_body]
fn host_image_of_words(words: &[u32]) -> (bytes: Vec<u8>)
    ensures
        bytes@ == le_image(words@, 4) || bytes@ == be_image(words@, 4),
{
    bytemuck::cast_slice::<u32, u8>(words).to_vec()
}

/// `bytemuck::cast_slice` from `u16` to `u8`, copied into a vector: the
/// memory of the slice read as bytes. Each value gives two bytes, in the
/// host's order, which is one of the two orders for the whole slice.
#[verifier::external_body]
fn host_image_of_halves(halves: &[u16]) -> (bytes: Vec<u8>)
    ensures
        bytes@ == le_image(widened(halves@), 2) || bytes@ == be_image(widened(halves@), 2),
{
    bytemuck::cast_slice::<u16, u8>(halves).to_vec()
}

/// Byte `j` of `v`, for `j` below four.
fn byte_of(v: u32, j: usize) -> (b: u8)
    requires
        j < 4,
    ensures
        b == unit_byte(v, j as int),
{
    if j == 0 {
        assert(v & 0xff == v % 256) by (bit_vector);
        (v & 0xff) as u8
    } else if j == 1 {
        assert((v >> 8) & 0xff == v / 256 % 256) by (bit_vector);
        ((v >> 8) & 0xff) as u8
    } else if j == 2 {
        assert((v >> 16) & 0xff == v / 65536 % 256) by (bit_vector);
        ((v >> 16) & 0xff) as u8
    } else {
        assert(v >> 24 == v / 16777216) by (bit_vector);
        assert(v >> 24 < 256) by (bit_vector);
        (v >> 24) as u8
    }
}

/// Index arithmetic of a byte within its group.
proof fn lemma_group_index(k: int, j: int, width: int)
    requires
        0 <= k,
        0 <= j < width,
        width == 2 || width == 4,
    ensures
        (k * width + j) / width == k,
        (k * width + j) % width == j,
        (k * width + j) / width * width == k * width,
{
    if width == 2 {
        assert((k * 2 + j) / 2 == k);
        assert((k * 2 + j) % 2 == j);
    } else {
        assert((k * 4 + j) / 4 == k);
        assert((k * 4 + j) % 4 == j);
    }
}

/// Reversing the groups of the image that has the most significant byte
/// first gives the image that has the least significant byte first.
pub proof fn lemma_reversed_be_is_le(vals: Seq<u32>, width: int)
    requires
        width == 2 || width == 4,
    ensures
        groups_reversed(be_image(vals, width), width) =~= le_image(vals, width),
{
    let be = be_image(vals, width);
    let le = le_image(vals, width);
    let rev = groups_reversed(be, width);
    assert(rev.len() == le.len());
    assert forall|i: int| 0 <= i < rev.len() implies rev[i] == le[i] by {
        let k = i / width;
        let j = i % width;
        assert(i == k * width + j && 0 <= j < width && 0 <= k) by {
            if width == 2 {
                assert(i == (i / 2) * 2 + i % 2);
            } else {
                assert(i == (i / 4) * 4 + i % 4);
            }
        }
        assert(k < vals.len()) by {
            if width == 2 {
                assert(i < vals.len() * 2);
            } else {
                assert(i < vals.len() * 4);
            }
        }
        let m = k * width + (width - 1 - j);
        lemma_group_index(k, width - 1 - j, width);
        assert(0 <= m < be.len()) by {
            if width == 2 {
                assert(m < vals.len() * 2);
            } else {
                assert(m < vals.len() * 4);
            }
        }
        assert(rev[i] == be[m]);
        assert(be[m] == unit_byte(vals[k], width - 1 - (width - 1 - j)));
    }
}

/// Whether `bytes` is the image of `vals` with the least significant byte
/// first.
fn is_le_image(bytes: &Vec<u8>, vals: &Vec<u32>, width: usize) -> (r: bool)
    requires
        width == 2 || width == 4,
        bytes@.len() == vals@.len() * width,
    ensures
        r == (bytes@ == le_image(vals@, width as int)),
{
    let n: usize = vals.len();
    let total: usize = bytes.len();
    let mut k: usize = 0;
    while k < n
        invariant
            n == vals@.len(),
            total == bytes@.len(),
            k <= n,
            width == 2 || width == 4,
            bytes@.len() == vals@.len() * width,
            forall|i: int| 0 <= i < k * width ==> bytes@[i] == le_image(vals@, width as int)[i],
        decreases n - k,
    {
        let mut j: usize = 0;
        while j < width
            invariant
                n == vals@.len(),
                total == bytes@.len(),
                k < n,
                j <= width,
                width == 2 || width == 4,
                bytes@.len() == vals@.len() * width,
                forall|i: int|
                    0 <= i < k * width + j ==> bytes@[i] == le_image(vals@, width as int)[i],
            decreases width - j,
        {
            proof {
                lemma_group_index(k as int, j as int, width as int);
                assert(0 <= k * width && k * width + j < n * width) by (nonlinear_arith)
                    requires
                        0 <= k < n,
                        0 <= j < width,
                ;
                assert(n * width == total);
            }
            let at: usize = k * width + j;
            if bytes[at] != byte_of(vals[k], j) {
                assert(bytes@[at as int] != le_image(vals@, width as int)[at as int]);
                return false;
            }
            j = j + 1;
        }
        assert((k + 1) * width == k * width + width) by (nonlinear_arith);
        k = k + 1;
    }
    assert(bytes@ =~= le_image(vals@, width as int));
    true
}

/// Reverses every group of `width` bytes.
fn reverse_groups(bytes: &Vec<u8>, width: usize) -> (out: Vec<u8>)
    requires
        width == 2 || width == 4,
        bytes@.len() % (width as nat) == 0,
    ensures
        out@ == groups_reversed(bytes@, width as int),
{
    let n: usize = bytes.len();
    let mut out: Vec<u8> = Vec::new();
    let mut i: usize = 0;
    while i < n
        invariant
            n == bytes@.len(),
            i <= n,
            width == 2 || width == 4,
            n % width == 0,
            out@.len() == i,
            forall|p: int| 0 <= p < i ==> out@[p] == groups_reversed(bytes@, width as int)[p],
        decreases n - i,
    {
        let start: usize = i / width * width;
        let back: usize = width - 1 - i % width;
        assert(start + back < n) by {
            if width == 2 {
                assert(i / 2 * 2 + 1 < n);
            } else {
                assert(i / 4 * 4 + 3 < n);
            }
        }
        out.push(bytes[start + back]);
        i = i + 1;
    }
    assert(out@ =~= groups_reversed(bytes@, width as int));
    out
}

/// The image of `words` as the device reads it: four bytes for each word,
/// least significant first.
pub fn word_bytes(words: &Vec<u32>) -> (bytes: Vec<u8>)
    ensures
        bytes@ == le_image(words@, 4),
{
    let host = host_image_of_words(words.as_slice());
    if is_le_image(&host, words, 4) {
        host
    } else {
        proof {
            lemma_reversed_be_is_le(words@, 4);
        }
        reverse_groups(&host, 4)
    }
}

/// The image of 16-bit values as the device reads it: two bytes for each,
/// least significant first.
pub fn half_bytes(halves: &Vec<u16>) -> (bytes: Vec<u8>)
    ensures
        bytes@ == le_image(widened(halves@), 2),
{
    let host = host_image_of_halves(halves.as_slice());
    let mut wide: Vec<u32> = Vec::new();
    let mut i: usize = 0;
    while i < halves.len()
        invariant
            i <= halves@.len(),
            wide@.len() == i,
            forall|p: int| 0 <= p < i ==> wide@[p] == halves@[p] as u32,
        decreases halves@.len() - i,
    {
        wide.push(halves[i] as u32);
        i = i + 1;
    }
    assert(wide@ =~= widened(halves@));
    if is_le_image(&host, &wide, 2) {
        host
    } else {
        proof {
            lemma_reversed_be_is_le(wide@, 2);
        }
        reverse_groups(&host, 2)
    }
}

/// Reading a word back from the image gives the word that was written
/// there.
pub proof fn lemma_word_at(words: Seq<u32>, k: int)
    requires
        0 <= k < words.len(),
    ensures
        word_at(le_image(words, 4), 4 * k) == words[k],
{
    let image = le_image(words, 4);
    let w = words[k];
    lemma_group_index(k, 0, 4);
    lemma_group_index(k, 1, 4);
    lemma_group_index(k, 2, 4);
    lemma_group_index(k, 3, 4);
    assert(image[4 * k] == unit_byte(w, 0));
    assert(image[4 * k + 1] == unit_byte(w, 1));
    assert(image[4 * k + 2] == unit_byte(w, 2));
    assert(image[4 * k + 3] == unit_byte(w, 3));
    assert(w % 256 + 256 * (w / 256 % 256) + 65536 * (w / 65536 % 256) + 16777216 * (w
        / 16777216) == w);
}

/// Reading a 16-bit value back from the image gives the value that was
/// written there.
pub proof fn lemma_half_at(halves: Seq<u16>, k: int)
    requires
        0 <= k < halves.len(),
    ensures
        half_at(le_image(widened(halves), 2), 2 * k) == halves[k],
{
    let image = le_image(widened(halves), 2);
    let h = halves[k];
    lemma_group_index(k, 0, 2);
    lemma_group_index(k, 1, 2);
    assert(image[2 * k] == unit_byte(h as u32, 0));
    assert(image[2 * k + 1] == unit_byte(h as u32, 1));
}

} // verus!
