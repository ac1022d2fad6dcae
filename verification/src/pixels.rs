use vstd::arithmetic::div_mod::lemma_fundamental_div_mod_converse;
use vstd::prelude::*;

verus! {

/// Groups raw image bytes into pixels of `channels` bytes each, in order;
/// trailing bytes that do not make a whole pixel are dropped.
pub fn split_pixels(raw: &Vec<u8>, channels: usize) -> (pixels: Vec<Vec<u8>>)
    requires
        channels > 0,
    ensures
        pixels.len() == raw.len() / channels,
        forall|i: int|
            0 <= i < pixels.len() ==> #[trigger] pixels[i]@ == raw@.subrange(
                i * channels,
                i * channels + channels,
            ),
{
    let mut pixels: Vec<Vec<u8>> = Vec::new();
    let mut offset: usize = 0;
    assert(0 * channels == 0) by (nonlinear_arith);
    while channels <= raw.len() - offset
        invariant
            channels > 0,
            offset <= raw.len(),
            offset == pixels.len() * channels,
            forall|i: int|
                0 <= i < pixels.len() ==> #[trigger] pixels[i]@ == raw@.subrange(
                    i * channels,
                    i * channels + channels,
                ),
        decreases raw.len() - offset,
    {
        let mut pixel: Vec<u8> = Vec::new();
        let mut j: usize = 0;
        while j < channels
            invariant
                offset + channels <= raw.len(),
                j <= channels,
                pixel@ == raw@.subrange(offset as int, offset + j),
            decreases channels - j,
        {
            pixel.push(raw[offset + j]);
            j = j + 1;
        }
        let ghost k: int = pixels.len() as int;
        pixels.push(pixel);
        offset = offset + channels;
        assert((k + 1) * channels == k * channels + channels) by (nonlinear_arith);
    }
    proof {
        lemma_fundamental_div_mod_converse(
            raw.len() as int,
            channels as int,
            pixels.len() as int,
            raw.len() - offset,
        );
    }
    pixels
}

} // verus!
