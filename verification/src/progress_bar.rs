use vstd::prelude::*;

verus! {

/// Font size of the gauge's large caption for a caption of `len` bytes: 56
/// up to three bytes, then 4 less for each byte of the caption, never below
/// 16.
pub open spec fn spec_large_font_size(len: int) -> int {
    if len <= 3 {
        56
    } else if 56 - 4 * len >= 16 {
        56 - 4 * len
    } else {
        16
    }
}

/// Font size of the gauge's large caption for a caption of `text_len` bytes.
pub fn large_font_size(text_len: usize) -> (size: u32)
    ensures
        size == spec_large_font_size(text_len as int),
{
    if text_len <= 3 {
        56
    } else if text_len <= 10 {
        (56 - 4 * text_len) as u32
    } else {
        16
    }
}

/// The caption's font size lies between 16 and 56, and never grows as the
/// caption gets longer.
pub proof fn lemma_large_font_size_bounded_and_shrinking(a: int, b: int)
    requires
        0 <= a <= b,
    ensures
        16 <= spec_large_font_size(a) <= 56,
        spec_large_font_size(b) <= spec_large_font_size(a),
{
}

} // verus!
