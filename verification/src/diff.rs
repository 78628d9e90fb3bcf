//! The diff highlighter: a strict positional (index-aligned) comparison of
//! the new output against the previously displayed one, with every changed
//! or appended byte wrapped in terminal highlight markers (red background,
//! black text). No insertion/deletion alignment is attempted: a byte shifted
//! by one position counts as changed. That is a deliberate limitation.

use crate::text::{text_of, ByteOrString};
use vstd::prelude::*;
use vstd::utf8::is_leading_byte_width_1;

verus! {

/// The escape bytes that open a highlight: `ESC [ 4 1 m ESC [ 3 0 m`
/// (red background, then black foreground).
pub open spec fn mark_start() -> Seq<u8> {
    seq![0x1bu8, 0x5bu8, 0x34u8, 0x31u8, 0x6du8, 0x1bu8, 0x5bu8, 0x33u8, 0x30u8, 0x6du8]
}

/// The escape bytes that close a highlight: `ESC [ 0 m` (attribute reset).
pub open spec fn mark_end() -> Seq<u8> {
    seq![0x1bu8, 0x5bu8, 0x30u8, 0x6du8]
}

/// A changed byte, wrapped in the highlight markers. A byte that is not
/// valid text on its own (anything outside the ASCII range) cannot be
/// re-encoded as one highlighted character and is dropped instead.
pub open spec fn highlighted(b: u8) -> Seq<u8> {
    if is_leading_byte_width_1(b) {
        mark_start() + seq![b] + mark_end()
    } else {
        Seq::<u8>::empty()
    }
}

/// What position `i` of the new output contributes to the diffed output:
/// the byte itself where the previous output has the same byte there, and
/// the highlighted byte where it differs or lies beyond the previous output.
pub open spec fn diff_piece(prev: Seq<u8>, next: Seq<u8>, i: int) -> Seq<u8>
    recommends
        0 <= i < next.len(),
{
    if 0 <= i < prev.len() && next[i] == prev[i] {
        seq![next[i]]
    } else {
        highlighted(next[i])
    }
}

/// The contributions of positions `lo..hi` of the new output, in order.
pub open spec fn diffed_range(prev: Seq<u8>, next: Seq<u8>, lo: int, hi: int) -> Seq<u8>
    recommends
        0 <= lo <= hi <= next.len(),
    decreases hi - lo,
{
    if lo >= hi {
        Seq::<u8>::empty()
    } else {
        diffed_range(prev, next, lo, hi - 1) + diff_piece(prev, next, hi - 1)
    }
}

/// The diffed output for a non-empty previous output: every position's
/// contribution, in positional order.
pub open spec fn diffed_bytes(prev: Seq<u8>, next: Seq<u8>) -> Seq<u8> {
    diffed_range(prev, next, 0, next.len() as int)
}

/// The bytes the highlighter displays: on the first run (empty previous
/// output) the new output as it is, with no markers; afterwards the
/// positional diff.
pub open spec fn diffed_display(prev: Seq<u8>, next: Seq<u8>) -> Seq<u8> {
    if prev.len() == 0 {
        next
    } else {
        diffed_bytes(prev, next)
    }
}

/// Appends a changed byte to the diffed output, wrapped in the highlight
/// markers; a byte outside the ASCII range is not one valid character, so
/// it is dropped and the output is left as it was.
pub fn insert_modified_character(output: &mut Vec<u8>, character: u8)
    ensures
        final(output)@ == old(output)@ + highlighted(character),
{
    if character >= 0x80 {
        proof {
            assert(old(output)@ + highlighted(character) =~= old(output)@);
        }
        return ;
    }
    output.push(0x1b);
    output.push(0x5b);
    output.push(0x34);
    output.push(0x31);
    output.push(0x6d);
    output.push(0x1b);
    output.push(0x5b);
    output.push(0x33);
    output.push(0x30);
    output.push(0x6d);
    output.push(character);
    output.push(0x1b);
    output.push(0x5b);
    output.push(0x30);
    output.push(0x6d);
    proof {
        assert(output@ =~= old(output)@ + highlighted(character));
    }
}

/// The display text for a new output against the previously displayed one.
/// On the first run (empty previous output) the new output is shown as it
/// is; afterwards every changed or appended byte is wrapped in the highlight
/// markers. Diffed bytes that are no longer valid UTF-8 (markers can split a
/// multi-byte character) degrade to empty text.
pub fn get_diffed_output(current_output: &ByteOrString, old_output: &ByteOrString) -> (r: String)
    ensures
        r@ == text_of(diffed_display(old_output@, current_output@)),
{
    let ghost prev = old_output@;
    let ghost next = current_output@;
    let old_bytes = old_output.as_bytes();
    if old_bytes.len() == 0 {
        return current_output.as_string();
    }
    let current_bytes = current_output.as_bytes();
    let mut diffed_output: Vec<u8> = Vec::new();
    let mut i: usize = 0;
    while i < current_bytes.len()
        invariant
            i <= current_bytes.len(),
            current_bytes@ == next,
            old_bytes@ == prev,
            diffed_output@ == diffed_range(prev, next, 0, i as int),
        decreases current_bytes.len() - i,
    {
        let current_char = current_bytes[i];
        if i < old_bytes.len() {
            let old_char = old_bytes[i];
            if current_char != old_char {
                insert_modified_character(&mut diffed_output, current_char);
            } else {
                diffed_output.push(current_char);
            }
        } else {
            insert_modified_character(&mut diffed_output, current_char);
        }
        proof {
            assert(diffed_output@ =~= diffed_range(prev, next, 0, i + 1));
        }
        i = i + 1;
    }
    let result = ByteOrString::Bytes(diffed_output);
    result.as_string()
}

/// Splitting the diffed output: the contributions of positions `lo..hi`
/// are those of `lo..mid` followed by those of `mid..hi`.
pub proof fn lemma_diffed_range_split(prev: Seq<u8>, next: Seq<u8>, lo: int, mid: int, hi: int)
    requires
        0 <= lo <= mid <= hi <= next.len(),
    ensures
        diffed_range(prev, next, lo, hi) == diffed_range(prev, next, lo, mid) + diffed_range(
            prev,
            next,
            mid,
            hi,
        ),
    decreases hi - mid,
{
    if hi == mid {
        assert(diffed_range(prev, next, lo, mid) + diffed_range(prev, next, mid, hi)
            =~= diffed_range(prev, next, lo, hi));
    } else {
        lemma_diffed_range_split(prev, next, lo, mid, hi - 1);
        assert(diffed_range(prev, next, lo, mid) + diffed_range(prev, next, mid, hi)
            =~= diffed_range(prev, next, lo, hi));
    }
}

proof fn lemma_matching_prefix(prev: Seq<u8>, next: Seq<u8>, hi: int)
    requires
        0 <= hi <= next.len(),
        hi <= prev.len(),
        forall|i: int| 0 <= i < hi ==> prev[i] == next[i],
    ensures
        diffed_range(prev, next, 0, hi) == next.subrange(0, hi),
    decreases hi,
{
    if hi == 0 {
        assert(diffed_range(prev, next, 0, 0) =~= next.subrange(0, 0));
    } else {
        lemma_matching_prefix(prev, next, hi - 1);
        assert(diffed_range(prev, next, 0, hi) =~= next.subrange(0, hi));
    }
}

/// Where the new output has the same length as the previous one and no byte
/// differs, the highlighter emits the new output unchanged: no highlight
/// markers appear anywhere.
pub proof fn lemma_equal_outputs_unchanged(prev: Seq<u8>, next: Seq<u8>)
    requires
        prev.len() == next.len(),
        forall|i: int| 0 <= i < next.len() ==> prev[i] == next[i],
    ensures
        diffed_bytes(prev, next) == next,
{
    lemma_matching_prefix(prev, next, next.len() as int);
    assert(next.subrange(0, next.len() as int) =~= next);
}

/// The diffed output is the positions' contributions in order: position `i`
/// contributes its byte wrapped in the highlight markers where that byte
/// differs from the previous output (or lies beyond it), and the bare byte,
/// unchanged, where it matches.
pub proof fn lemma_changed_byte_highlighted(prev: Seq<u8>, next: Seq<u8>, i: int)
    requires
        0 <= i < next.len(),
    ensures
        diffed_bytes(prev, next) == diffed_range(prev, next, 0, i) + diff_piece(prev, next, i)
            + diffed_range(prev, next, i + 1, next.len() as int),
        i < prev.len() && next[i] == prev[i] ==> diff_piece(prev, next, i) == seq![next[i]],
        !(i < prev.len() && next[i] == prev[i]) ==> diff_piece(prev, next, i) == highlighted(
            next[i],
        ),
{
    let hi = next.len() as int;
    lemma_diffed_range_split(prev, next, 0, i, hi);
    lemma_diffed_range_split(prev, next, i, i + 1, hi);
    assert(diffed_range(prev, next, i, i) =~= Seq::<u8>::empty());
    assert(diffed_range(prev, next, i, i + 1) == diffed_range(prev, next, i, i) + diff_piece(
        prev,
        next,
        i,
    ));
    assert(diffed_range(prev, next, i, i + 1) =~= diff_piece(prev, next, i));
    assert(diffed_bytes(prev, next) =~= diffed_range(prev, next, 0, i) + diff_piece(prev, next, i)
        + diffed_range(prev, next, i + 1, hi));
}

/// Where the new output is strictly longer than the previous one, every
/// byte beyond the previous length contributes its highlighted form,
/// whatever its value; the bytes before that point are diffed as usual.
pub proof fn lemma_appended_bytes_highlighted(prev: Seq<u8>, next: Seq<u8>)
    requires
        next.len() > prev.len(),
    ensures
        diffed_bytes(prev, next) == diffed_range(prev, next, 0, prev.len() as int) + diffed_range(
            prev,
            next,
            prev.len() as int,
            next.len() as int,
        ),
        forall|i: int|
            prev.len() <= i < next.len() ==> diff_piece(prev, next, i) == highlighted(next[i]),
{
    lemma_diffed_range_split(prev, next, 0, prev.len() as int, next.len() as int);
}

/// On the first run there is nothing to diff against: with an empty
/// previous output the display is the new output itself, with no markers.
pub proof fn lemma_empty_previous_unhighlighted(prev: Seq<u8>, next: Seq<u8>)
    requires
        prev.len() == 0,
    ensures
        diffed_display(prev, next) == next,
{
}

} // verus!
