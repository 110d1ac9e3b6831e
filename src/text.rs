//! Text fields of monitor descriptors.
use vstd::prelude::*;
use crate::cp437::{cp437_char, forward};

verus! {

/// Bytes whose character in the code page is white space: tab to carriage
/// return, space, and the no-break space at 0xFF.
pub open spec fn is_space_byte(b: u8) -> bool {
    (9 <= b && b <= 13) || b == 32 || b == 0xFF
}

/// `s` without its line feeds.
pub open spec fn drop_line_feeds(s: Seq<u8>) -> Seq<u8>
    decreases s.len(),
{
    if s.len() == 0 {
        seq![]
    } else if s.last() == 0x0A {
        drop_line_feeds(s.drop_last())
    } else {
        drop_line_feeds(s.drop_last()).push(s.last())
    }
}

/// `s` without its leading white space.
pub open spec fn trim_start(s: Seq<u8>) -> Seq<u8>
    decreases s.len(),
{
    if s.len() > 0 && is_space_byte(s[0]) {
        trim_start(s.drop_first())
    } else {
        s
    }
}

/// `s` without its trailing white space.
pub open spec fn trim_end(s: Seq<u8>) -> Seq<u8>
    decreases s.len(),
{
    if s.len() > 0 && is_space_byte(s.last()) {
        trim_end(s.drop_last())
    } else {
        s
    }
}

/// The text a descriptor's payload stands for: line feeds dropped, surrounding
/// white space trimmed, each byte read through the code page.
pub open spec fn descriptor_text(s: Seq<u8>) -> Seq<char> {
    trim_end(trim_start(drop_line_feeds(s))).map_values(|b: u8| cp437_char(b))
}

/// Relies on String::push: appends one character at the end.
#[verifier::external_body]
fn push_char(s: &mut String, c: char)
    ensures
        final(s)@ == old(s)@.push(c),
{
    s.push(c)
}

proof fn lemma_trim_start_step(k: Seq<u8>, lo: int)
    requires
        0 <= lo < k.len(),
        is_space_byte(k[lo]),
    ensures
        trim_start(k.subrange(lo, k.len() as int)) == trim_start(k.subrange(lo + 1, k.len() as int)),
{
    assert(k.subrange(lo, k.len() as int).drop_first() =~= k.subrange(lo + 1, k.len() as int));
}

proof fn lemma_trim_end_step(k: Seq<u8>, lo: int, hi: int)
    requires
        0 <= lo < hi <= k.len(),
        is_space_byte(k[hi - 1]),
    ensures
        trim_end(k.subrange(lo, hi)) == trim_end(k.subrange(lo, hi - 1)),
{
    assert(k.subrange(lo, hi).drop_last() =~= k.subrange(lo, hi - 1));
}

/// Decodes the text of a monitor descriptor from its payload bytes.
pub fn parse_descriptor_text(bytes: &[u8]) -> (r: String)
    ensures
        r@ == descriptor_text(bytes@),
{
    let mut kept: Vec<u8> = Vec::new();
    let mut i: usize = 0;
    while i < bytes.len()
        invariant
            i <= bytes@.len(),
            kept@ == drop_line_feeds(bytes@.subrange(0, i as int)),
        decreases bytes@.len() - i,
    {
        assert(bytes@.subrange(0, i as int + 1).drop_last() =~= bytes@.subrange(0, i as int));
        if bytes[i] != 0x0Au8 {
            kept.push(bytes[i]);
        }
        i = i + 1;
    }
    assert(bytes@.subrange(0, bytes@.len() as int) =~= bytes@);
    let n = kept.len();
    let mut lo: usize = 0;
    assert(kept@.subrange(0, n as int) =~= kept@);
    while lo < n && (kept[lo] >= 9u8 && kept[lo] <= 13u8 || kept[lo] == 32u8 || kept[lo] == 0xFFu8)
        invariant
            lo <= n == kept@.len(),
            trim_start(kept@) == trim_start(kept@.subrange(lo as int, n as int)),
        decreases n - lo,
    {
        proof {
            lemma_trim_start_step(kept@, lo as int);
        }
        lo = lo + 1;
    }
    let mut hi: usize = n;
    while hi > lo && (kept[hi - 1] >= 9u8 && kept[hi - 1] <= 13u8 || kept[hi - 1] == 32u8
        || kept[hi - 1] == 0xFFu8)
        invariant
            lo <= hi <= n == kept@.len(),
            trim_end(trim_start(kept@)) == trim_end(kept@.subrange(lo as int, hi as int)),
        decreases hi - lo,
    {
        proof {
            lemma_trim_end_step(kept@, lo as int, hi as int);
        }
        hi = hi - 1;
    }
    let ghost core = kept@.subrange(lo as int, hi as int);
    assert(trim_end(core) == core);
    let mut out = String::new();
    let mut j: usize = lo;
    while j < hi
        invariant
            lo <= j <= hi <= kept@.len(),
            core == kept@.subrange(lo as int, hi as int),
            out@ =~= kept@.subrange(lo as int, j as int).map_values(|b: u8| cp437_char(b)),
        decreases hi - j,
    {
        let c = forward(kept[j]);
        push_char(&mut out, c);
        j = j + 1;
        assert(out@ =~= kept@.subrange(lo as int, j as int).map_values(|b: u8| cp437_char(b)));
    }
    out
}

} // verus!
