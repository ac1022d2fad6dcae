use vstd::arithmetic::div_mod::{lemma_mod_self_0, lemma_small_mod};
use vstd::prelude::*;

verus! {

/// The number of channels two pixels have in common.
pub open spec fn shared_len(a: Seq<u8>, b: Seq<u8>) -> nat {
    if a.len() <= b.len() {
        a.len()
    } else {
        b.len()
    }
}

/// Sum, over the first `n` channels, of the products of the two pixels' channel values.
pub open spec fn channel_product_sum(a: Seq<u8>, b: Seq<u8>, n: nat) -> int
    decreases n,
{
    if n == 0 {
        0
    } else {
        channel_product_sum(a, b, (n - 1) as nat) + a[n - 1] * b[n - 1]
    }
}

/// The tone of a pair of pixels: the sum of the products of their channel
/// values, over the channels that both have.
pub open spec fn pixel_product(a: Seq<u8>, b: Seq<u8>) -> int {
    channel_product_sum(a, b, shared_len(a, b))
}

/// The pixels of an image as sequences of channel values.
pub open spec fn pixel_seqs(c: Seq<Vec<u8>>) -> Seq<Seq<u8>> {
    c.map_values(|p: Vec<u8>| p@)
}

/// Entry `k` of the precomputed tone table: pixel `k` with pixel `k + 1`, and
/// for the last pixel, the first pixel with the last one.
pub open spec fn table_frequency(c: Seq<Seq<u8>>, k: int) -> int {
    if k + 1 < c.len() {
        pixel_product(c[k], c[k + 1])
    } else {
        pixel_product(c[0], c[c.len() - 1])
    }
}

/// The tone of segment `i` computed on the fly: pixel `i` with the pixel
/// before it, and for the first segment, the first pixel with the last one.
pub open spec fn lookback_frequency(c: Seq<Seq<u8>>, i: int) -> int {
    if i == 0 {
        pixel_product(c[0], c[c.len() - 1])
    } else {
        pixel_product(c[i], c[i - 1])
    }
}

/// The tone of segment `i` when channel products are taken in a byte: segment
/// 0 is silent, every other segment is pixel `i` with the pixel before it.
pub open spec fn byte_frequency(c: Seq<Seq<u8>>, i: int) -> int {
    if i == 0 {
        0
    } else {
        pixel_product(c[i], c[i - 1])
    }
}

/// Every channel product of the two pixels fits in a byte.
pub open spec fn byte_products_fit(a: Seq<u8>, b: Seq<u8>) -> bool {
    forall|j: int| 0 <= j < shared_len(a, b) ==> #[trigger] (a[j] * b[j]) <= 255
}

/// The segment index actually used for a computed index: indices past the
/// last pixel fall back to the last pixel.
pub open spec fn clamped_index(change_i: int, n_changes: int) -> int {
    if change_i < n_changes {
        change_i
    } else {
        n_changes - 1
    }
}

proof fn lemma_byte_product_bound(x: int, y: int)
    requires
        0 <= x <= 255,
        0 <= y <= 255,
    ensures
        0 <= x * y <= 65025,
{
    assert(0 <= x * y <= 65025) by (nonlinear_arith)
        requires
            0 <= x <= 255,
            0 <= y <= 255,
    ;
}

/// The sum of products does not depend on the order of the two pixels.
pub proof fn lemma_channel_product_sum_symmetric(a: Seq<u8>, b: Seq<u8>, n: nat)
    ensures
        channel_product_sum(a, b, n) == channel_product_sum(b, a, n),
    decreases n,
{
    if n > 0 {
        lemma_channel_product_sum_symmetric(a, b, (n - 1) as nat);
        assert(a[n - 1] * b[n - 1] == b[n - 1] * a[n - 1]) by (nonlinear_arith);
    }
}

/// The tone of a pair of pixels does not depend on their order.
pub proof fn lemma_pixel_product_symmetric(a: Seq<u8>, b: Seq<u8>)
    ensures
        pixel_product(a, b) == pixel_product(b, a),
{
    lemma_channel_product_sum_symmetric(a, b, shared_len(a, b));
}

proof fn lemma_channel_product_sum_bounds(a: Seq<u8>, b: Seq<u8>, n: nat)
    requires
        n <= a.len(),
        n <= b.len(),
    ensures
        0 <= channel_product_sum(a, b, n) <= 65025 * n,
    decreases n,
{
    if n > 0 {
        lemma_channel_product_sum_bounds(a, b, (n - 1) as nat);
        lemma_byte_product_bound(a[n - 1] as int, b[n - 1] as int);
    }
}

/// A tone is never negative and at most 65025 per channel the two pixels share.
pub proof fn lemma_pixel_product_bounds(a: Seq<u8>, b: Seq<u8>)
    ensures
        0 <= pixel_product(a, b) <= 65025 * shared_len(a, b),
{
    lemma_channel_product_sum_bounds(a, b, shared_len(a, b));
}

/// Past the first segment, the tone with byte-sized products is the tone
/// computed on the fly; the first segment differs, being silent.
pub proof fn lemma_byte_frequency_is_lookback(c: Seq<Seq<u8>>, i: int)
    requires
        0 < i < c.len(),
    ensures
        byte_frequency(c, i) == lookback_frequency(c, i),
{
}

/// The precomputed tone table is the on-the-fly tone sequence moved one
/// segment back: table entry `k` is the tone computed on the fly for segment
/// `k + 1`, and the last entry is the tone of segment 0.
pub proof fn lemma_table_is_rotated_lookback(c: Seq<Seq<u8>>, k: int)
    requires
        0 <= k < c.len(),
    ensures
        table_frequency(c, k) == lookback_frequency(c, (k + 1) % (c.len() as int)),
{
    if k + 1 < c.len() {
        lemma_small_mod((k + 1) as nat, c.len());
        lemma_pixel_product_symmetric(c[k], c[k + 1]);
    } else {
        lemma_mod_self_0(c.len() as int);
    }
}

/// The sum over the first `n` channels depends only on those channels.
proof fn lemma_channel_product_sum_prefix(a: Seq<u8>, b: Seq<u8>, a2: Seq<u8>, b2: Seq<u8>, n: nat)
    requires
        n <= a.len(),
        n <= b.len(),
        n <= a2.len(),
        n <= b2.len(),
        forall|j: int| 0 <= j < n ==> a[j] == a2[j] && b[j] == b2[j],
    ensures
        channel_product_sum(a, b, n) == channel_product_sum(a2, b2, n),
    decreases n,
{
    if n > 0 {
        lemma_channel_product_sum_prefix(a, b, a2, b2, (n - 1) as nat);
    }
}

/// Two pixels without a shared channel are silent.
pub proof fn lemma_pixel_product_empty(a: Seq<u8>)
    ensures
        pixel_product(a, Seq::<u8>::empty()) == 0,
        pixel_product(Seq::<u8>::empty(), a) == 0,
{
}

/// The tone of two one-channel pixels is the product of their values.
pub proof fn lemma_pixel_product_single(x: u8, y: u8)
    ensures
        pixel_product(seq![x], seq![y]) == x * y,
{
    reveal_with_fuel(channel_product_sum, 2);
}

/// Adding one channel to two pixels of equal length adds the product of the
/// new channel values to their tone.
pub proof fn lemma_pixel_product_push(a: Seq<u8>, b: Seq<u8>, x: u8, y: u8)
    requires
        a.len() == b.len(),
    ensures
        pixel_product(a.push(x), b.push(y)) == pixel_product(a, b) + x * y,
{
    let n: nat = a.len();
    lemma_channel_product_sum_prefix(a.push(x), b.push(y), a, b, n);
    assert(a.push(x)[n as int] == x);
    assert(b.push(y)[n as int] == y);
}

/// Channels beyond those the two pixels share do not change their tone.
pub proof fn lemma_pixel_product_ignores_extra_channels(a: Seq<u8>, b: Seq<u8>)
    ensures
        pixel_product(a, b) == pixel_product(
            a.take(shared_len(a, b) as int),
            b.take(shared_len(a, b) as int),
        ),
{
    let m: nat = shared_len(a, b);
    let a2 = a.take(m as int);
    let b2 = b.take(m as int);
    assert(shared_len(a2, b2) == m);
    lemma_channel_product_sum_prefix(a, b, a2, b2, m);
}

/// The entries of the tone table: entry `k` is pixel `k` with pixel `k + 1`,
/// and the last entry is the first pixel with the last one.
pub proof fn lemma_table_entries(c: Seq<Seq<u8>>, k: int)
    requires
        0 <= k < c.len(),
    ensures
        k < c.len() - 1 ==> table_frequency(c, k) == pixel_product(c[k], c[k + 1]),
        k == c.len() - 1 ==> table_frequency(c, k) == pixel_product(c[0], c[c.len() - 1]),
{
}

/// The on-the-fly tone of a segment: segment 0 is the first pixel with the
/// last one, any other segment is its pixel with the one before it.
pub proof fn lemma_lookback_entries(c: Seq<Seq<u8>>, i: int)
    requires
        0 <= i < c.len(),
    ensures
        i == 0 ==> lookback_frequency(c, i) == pixel_product(c[0], c[c.len() - 1]),
        i > 0 ==> lookback_frequency(c, i) == pixel_product(c[i], c[i - 1]),
{
}

/// With byte-sized products the first segment is silent, whatever the image;
/// any other segment is its pixel with the one before it.
pub proof fn lemma_byte_frequency_entries(c: Seq<Seq<u8>>, i: int)
    requires
        0 <= i < c.len(),
    ensures
        i == 0 ==> byte_frequency(c, i) == 0,
        i > 0 ==> byte_frequency(c, i) == pixel_product(c[i], c[i - 1]),
{
}

/// A computed segment index within the image is kept; one at or past the end
/// falls back to the last pixel.
pub proof fn lemma_clamped_index(change_i: int, n_changes: int)
    requires
        0 <= change_i,
        0 < n_changes,
    ensures
        change_i < n_changes ==> clamped_index(change_i, n_changes) == change_i,
        change_i >= n_changes ==> clamped_index(change_i, n_changes) == n_changes - 1,
        0 <= clamped_index(change_i, n_changes) < n_changes,
{
}

/// The tone of two pixels: the sum of the products of their channel values,
/// over the channels both have (each product taken in 16 bits, as no product
/// of two bytes exceeds 65025).
pub fn pixel_product_sum(a: &Vec<u8>, b: &Vec<u8>) -> (s: u128)
    ensures
        s == pixel_product(a@, b@),
{
    let n: usize = if a.len() <= b.len() {
        a.len()
    } else {
        b.len()
    };
    let mut acc: u128 = 0;
    let mut i: usize = 0;
    while i < n
        invariant
            n == shared_len(a@, b@),
            n <= a.len(),
            n <= b.len(),
            i <= n,
            acc == channel_product_sum(a@, b@, i as nat),
            acc <= 65025 * i,
        decreases n - i,
    {
        let x: u16 = a[i] as u16;
        let y: u16 = b[i] as u16;
        proof {
            lemma_byte_product_bound(x as int, y as int);
        }
        let p: u16 = x * y;
        acc = acc + p as u128;
        i = i + 1;
    }
    acc
}

/// The precomputed tone table of the threaded generator: entry `k` is the
/// tone of pixel `k` with pixel `k + 1`, and the last entry is the tone of the
/// first pixel with the last one. The table has one entry per pixel.
pub fn precompute_frequencies(changes: &Vec<Vec<u8>>) -> (freqs: Vec<u128>)
    requires
        changes.len() > 0,
    ensures
        freqs.len() == changes.len(),
        forall|k: int|
            0 <= k < freqs.len() ==> #[trigger] freqs[k] == table_frequency(
                pixel_seqs(changes@),
                k,
            ),
        forall|k: int|
            0 <= k < freqs.len() - 1 ==> #[trigger] freqs[k] == pixel_product(
                changes@[k]@,
                changes@[k + 1]@,
            ),
        freqs[freqs.len() - 1] == pixel_product(changes@[0]@, changes@[changes.len() - 1]@),
{
    let n: usize = changes.len();
    let ghost c = pixel_seqs(changes@);
    let mut freqs: Vec<u128> = Vec::new();
    let mut k: usize = 0;
    while k + 1 < n
        invariant
            n == changes.len(),
            n > 0,
            c == pixel_seqs(changes@),
            k + 1 <= n,
            freqs.len() == k,
            forall|j: int| 0 <= j < k ==> #[trigger] freqs[j] == table_frequency(c, j),
            forall|j: int|
                0 <= j < k ==> #[trigger] freqs[j] == pixel_product(
                    changes@[j]@,
                    changes@[j + 1]@,
                ),
        decreases n - k,
    {
        let f: u128 = pixel_product_sum(&changes[k], &changes[k + 1]);
        freqs.push(f);
        k = k + 1;
    }
    let last: u128 = pixel_product_sum(&changes[0], &changes[n - 1]);
    freqs.push(last);
    freqs
}

/// The tone of segment `change_i` as the single-image generator computes it
/// on the fly: pixel `change_i` with the pixel before it, and for segment 0,
/// the first pixel with the last one.
pub fn lookback_segment_frequency(changes: &Vec<Vec<u8>>, change_i: usize) -> (f: u128)
    requires
        change_i < changes.len(),
    ensures
        f == lookback_frequency(pixel_seqs(changes@), change_i as int),
        change_i == 0 ==> f == pixel_product(changes@[0]@, changes@[changes.len() - 1]@),
        change_i > 0 ==> f == pixel_product(changes@[change_i as int]@, changes@[change_i - 1]@),
{
    if change_i == 0 {
        pixel_product_sum(&changes[0], &changes[changes.len() - 1])
    } else {
        pixel_product_sum(&changes[change_i], &changes[change_i - 1])
    }
}

/// The tone of segment `change_i` as the first generator computes it, with
/// every channel product taken in a byte: segment 0 is silent (its pixel is
/// paired with zeros), every other segment is pixel `change_i` with the pixel
/// before it. A product that does not fit in a byte is an overflow, so the
/// channel products of those two pixels must fit.
pub fn byte_segment_frequency(changes: &Vec<Vec<u8>>, change_i: usize) -> (f: u128)
    requires
        change_i < changes.len(),
        change_i > 0 ==> byte_products_fit(changes@[change_i as int]@, changes@[change_i - 1]@),
    ensures
        f == byte_frequency(pixel_seqs(changes@), change_i as int),
        change_i == 0 ==> f == 0,
        change_i > 0 ==> f == pixel_product(changes@[change_i as int]@, changes@[change_i - 1]@),
{
    if change_i == 0 {
        return 0;
    }
    let a: &Vec<u8> = &changes[change_i];
    let b: &Vec<u8> = &changes[change_i - 1];
    let n: usize = if a.len() <= b.len() {
        a.len()
    } else {
        b.len()
    };
    let mut acc: u128 = 0;
    let mut i: usize = 0;
    while i < n
        invariant
            n == shared_len(a@, b@),
            n <= a.len(),
            n <= b.len(),
            byte_products_fit(a@, b@),
            i <= n,
            acc == channel_product_sum(a@, b@, i as nat),
            acc <= 255 * i,
        decreases n - i,
    {
        let x: u8 = a[i];
        let y: u8 = b[i];
        assert(x * y <= 255);
        let p: u8 = x * y;
        acc = acc + p as u128;
        i = i + 1;
    }
    acc
}

/// The segment index used for a computed index: one past the last pixel or
/// beyond falls back to the last pixel.
pub fn clamp_change_index(change_i: usize, n_changes: usize) -> (ci: usize)
    requires
        n_changes > 0,
    ensures
        ci == clamped_index(change_i as int, n_changes as int),
        ci < n_changes,
        change_i < n_changes ==> ci == change_i,
        change_i >= n_changes ==> ci == n_changes - 1,
{
    let mut ci: usize = change_i;
    if ci >= n_changes {
        let last: usize = n_changes - 1;
        ci = if ci <= last {
            ci
        } else {
            last
        };
    }
    ci
}

/// The tone the threaded generator plays for a computed segment index: the
/// table entry at that index, clamped to the last one.
pub fn frequency_at(freqs: &Vec<u128>, change_i: usize) -> (f: u128)
    requires
        freqs.len() > 0,
    ensures
        f == freqs[clamped_index(change_i as int, freqs.len() as int)],
        change_i < freqs.len() ==> f == freqs[change_i as int],
        change_i >= freqs.len() ==> f == freqs[freqs.len() - 1],
{
    let ci: usize = clamp_change_index(change_i, freqs.len());
    freqs[ci]
}

} // verus!
