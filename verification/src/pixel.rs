//! Channel reordering of raw pixel buffers.

use vstd::prelude::*;

verus! {

/// The byte at position `i` of a buffer of four-byte pixels once the first and
/// third channel of every pixel have changed places.
pub open spec fn swapped_byte(s: Seq<u8>, i: int) -> u8 {
    if i % 4 == 0 {
        s[i + 2]
    } else if i % 4 == 2 {
        s[i - 2]
    } else {
        s[i]
    }
}

/// A BGRA buffer rewritten in RGBA order.
pub open spec fn rgba_of_bgra(s: Seq<u8>) -> Seq<u8> {
    Seq::new(s.len(), |i: int| swapped_byte(s, i))
}

/// Exchanges the first and third byte of the pixel that starts at `base`.
fn swap_pixel(data: &mut [u8], base: usize)
    requires
        base + 4 <= old(data)@.len(),
    ensures
        final(data)@ == old(data)@.update(base as int, old(data)@[base + 2]).update(
            base + 2,
            old(data)@[base as int],
        ),
{
    let len: usize = data.len();
    assert(base + 4 <= len);
    let blue: u8 = data[base];
    let red: u8 = data[base + 2];
    data[base] = red;
    data[base + 2] = blue;
}

/// Rewrites a BGRA buffer in place to RGBA order: in every pixel bytes 0 and 2
/// change places, bytes 1 and 3 stay. Whole windows of four pixels are handled
/// first, the remaining pixels one at a time.
pub fn bgra_to_rgba(data: &mut [u8])
    requires
        old(data)@.len() % 4 == 0,
    ensures
        final(data)@ == rgba_of_bgra(old(data)@),
{
    let n: usize = data.len();
    let mut i: usize = 0;
    while n - i >= 16
        invariant
            i % 4 == 0,
            i <= n,
            n % 4 == 0,
            n == data@.len(),
            n == old(data)@.len(),
            forall|j: int| 0 <= j < i ==> data@[j] == swapped_byte(old(data)@, j),
            forall|j: int| i <= j < n ==> data@[j] == old(data)@[j],
        decreases n - i,
    {
        swap_pixel(data, i);
        swap_pixel(data, i + 4);
        swap_pixel(data, i + 8);
        swap_pixel(data, i + 12);
        i += 16;
    }
    while i < n
        invariant
            i % 4 == 0,
            i <= n,
            n % 4 == 0,
            n == data@.len(),
            n == old(data)@.len(),
            forall|j: int| 0 <= j < i ==> data@[j] == swapped_byte(old(data)@, j),
            forall|j: int| i <= j < n ==> data@[j] == old(data)@[j],
        decreases n - i,
    {
        swap_pixel(data, i);
        i += 4;
    }
    assert(data@ =~= rgba_of_bgra(old(data)@));
}

/// Conversion stated pixel by pixel: in pixel `k` the outer colour channels
/// have changed places, green and alpha are as they were.
pub proof fn lemma_rgba_of_bgra_pixels(s: Seq<u8>, k: int)
    requires
        s.len() % 4 == 0,
        0 <= k < s.len() / 4,
    ensures
        rgba_of_bgra(s).len() == s.len(),
        rgba_of_bgra(s)[4 * k] == s[4 * k + 2],
        rgba_of_bgra(s)[4 * k + 1] == s[4 * k + 1],
        rgba_of_bgra(s)[4 * k + 2] == s[4 * k],
        rgba_of_bgra(s)[4 * k + 3] == s[4 * k + 3],
{
}

/// Converting twice gives the buffer back.
pub proof fn lemma_rgba_of_bgra_involution(s: Seq<u8>)
    requires
        s.len() % 4 == 0,
    ensures
        rgba_of_bgra(rgba_of_bgra(s)) == s,
{
    assert(rgba_of_bgra(rgba_of_bgra(s)) =~= s);
}

} // verus!
