//! Decoding of fixed-width foreign text fields.
//!
//! A foreign record presents text as a fixed-capacity byte buffer whose
//! meaningful content is the run of bytes before the first zero byte.  A pure
//! ASCII run decodes directly; anything else is treated as GB18030, with
//! unmappable sequences replaced rather than rejected, so decoding never
//! fails whatever the buffer holds.

use vstd::prelude::*;

verus! {

/// The run of bytes before the first zero byte (the whole sequence when no
/// zero byte occurs); bytes after the first zero are padding.
pub open spec fn nul_index(bytes: Seq<u8>) -> int
    decreases bytes.len(),
{
    if bytes.len() == 0 {
        0
    } else if bytes[0] == 0 {
        0
    } else {
        1 + nul_index(bytes.skip(1))
    }
}

pub open spec fn text_run(bytes: Seq<u8>) -> Seq<u8> {
    bytes.take(nul_index(bytes))
}

pub open spec fn all_ascii(bytes: Seq<u8>) -> bool {
    forall|i: int| 0 <= i < bytes.len() ==> bytes[i] < 128
}

pub open spec fn ascii_chars(bytes: Seq<u8>) -> Seq<char> {
    bytes.map_values(|b: u8| b as char)
}

/// What the GB18030 decoder yields for a byte sequence, with each unmappable
/// sequence replaced; a function of the bytes alone.
pub uninterp spec fn gb18030_of(bytes: Seq<u8>) -> Seq<char>;

/// The text a fixed-width buffer denotes: its run before the first zero byte,
/// decoded as ASCII when it is ASCII, as GB18030 otherwise.
pub open spec fn decoded_bytes(bytes: Seq<u8>) -> Seq<char> {
    let run = text_run(bytes);
    if all_ascii(run) {
        ascii_chars(run)
    } else {
        gb18030_of(run)
    }
}

pub open spec fn bytes_of_i8(v: Seq<i8>) -> Seq<u8> {
    v.map_values(|x: i8| x as u8)
}

pub open spec fn decoded_i8(v: Seq<i8>) -> Seq<char> {
    decoded_bytes(bytes_of_i8(v))
}

/// The first zero byte's position determines `nul_index` uniquely.
proof fn lemma_nul_index_at(bytes: Seq<u8>, i: int)
    requires
        0 <= i <= bytes.len(),
        forall|j: int| 0 <= j < i ==> bytes[j] != 0,
        i < bytes.len() ==> bytes[i] == 0,
    ensures
        nul_index(bytes) == i,
    decreases bytes.len(),
{
    if bytes.len() == 0 {
    } else if bytes[0] == 0 {
        assert(i == 0);
    } else {
        assert(i >= 1);
        assert forall|j: int| 0 <= j < i - 1 implies bytes.skip(1)[j] != 0 by {
            assert(bytes[j + 1] != 0);
        }
        if i - 1 < bytes.skip(1).len() {
            assert(bytes.skip(1)[i - 1] == bytes[i]);
        }
        lemma_nul_index_at(bytes.skip(1), i - 1);
    }
}

/// Relies on `encoding`'s GB18030 decoder with the replacing trap, which
/// yields a string for every input, substituting for unmappable sequences;
/// the result depends on the bytes alone.
#[verifier::external_body]
fn gb18030_decode(bytes: &[u8]) -> (r: String)
    ensures
        r@ == gb18030_of(bytes@),
{
    match encoding::Encoding::decode(
        encoding::all::GB18030,
        bytes,
        encoding::DecoderTrap::Replace,
    ) {
        Ok(s) => s,
        Err(e) => e.into_owned(),
    }
}

/// Relies on `String::push`: appends one character to the string.
#[verifier::external_body]
pub(crate) fn push_char(s: &mut String, c: char)
    ensures
        final(s)@ == old(s)@.push(c),
{
    s.push(c)
}

/// Decode a fixed-width foreign byte buffer: take the run before the first
/// zero byte, decode it as ASCII when pure ASCII, as GB18030 otherwise.
/// Never fails, whatever the buffer holds.
pub fn zh_cstr_to_str(v: &[u8]) -> (r: String)
    ensures
        r@ == decoded_bytes(v@),
{
    let mut run: Vec<u8> = Vec::new();
    let mut i: usize = 0;
    while i < v.len() && v[i] != 0
        invariant
            0 <= i <= v@.len(),
            run@ == v@.take(i as int),
            forall|j: int| 0 <= j < i ==> v@[j] != 0,
        decreases v@.len() - i,
    {
        run.push(v[i]);
        i += 1;
        assert(run@ =~= v@.take(i as int));
    }
    proof {
        lemma_nul_index_at(v@, i as int);
        assert(run@ == text_run(v@));
    }
    let mut ascii = true;
    let mut k: usize = 0;
    while k < run.len()
        invariant
            0 <= k <= run@.len(),
            ascii ==> all_ascii(run@.take(k as int)),
            !ascii ==> !all_ascii(run@),
        decreases run@.len() - k,
    {
        if run[k] >= 128 {
            ascii = false;
            assert(!all_ascii(run@)) by {
                assert(run@[k as int] >= 128);
            }
        }
        k += 1;
        assert(run@.take(k as int) =~= run@.take(k as int - 1).push(run@[k - 1]));
    }
    assert(run@.take(run@.len() as int) =~= run@);
    if ascii {
        let mut s = String::new();
        let mut k: usize = 0;
        while k < run.len()
            invariant
                0 <= k <= run@.len(),
                all_ascii(run@),
                s@ == ascii_chars(run@.take(k as int)),
            decreases run@.len() - k,
        {
            push_char(&mut s, run[k] as char);
            k += 1;
            assert(run@.take(k as int) =~= run@.take(k as int - 1).push(run@[k - 1]));
            assert(s@ =~= ascii_chars(run@.take(k as int)));
        }
        assert(s@ =~= ascii_chars(run@));
        s
    } else {
        gb18030_decode(run.as_slice())
    }
}

/// Decode a fixed-width foreign text attribute given as signed bytes, as the
/// foreign records declare their text fields.
pub fn slice_to_string(v: &[i8]) -> (r: String)
    ensures
        r@ == decoded_i8(v@),
{
    let mut bytes: Vec<u8> = Vec::new();
    let mut i: usize = 0;
    while i < v.len()
        invariant
            0 <= i <= v@.len(),
            bytes@ == bytes_of_i8(v@.take(i as int)),
        decreases v@.len() - i,
    {
        bytes.push(v[i] as u8);
        i += 1;
        assert(bytes@ =~= bytes_of_i8(v@.take(i as int)));
    }
    assert(v@.take(v@.len() as int) =~= v@);
    zh_cstr_to_str(bytes.as_slice())
}

} // verus!
