//! Laws that relate the buffer's operations to one another.
//!
//! Each proof function here states a guarantee of the library over the
//! same spec functions that the operations' contracts use, so a caller can
//! chain several calls and know the combined outcome.

use vstd::prelude::*;
use vstd::utf8::{decode_utf8, decode_utf8_encode_utf8, encode_utf8, valid_utf8};

use crate::ascii::{ascii_lossy, lossy_char};
use crate::buffer::{append_fits, spec_append, spec_truncate};

verus! {

/// Law: a source that fits within the capacity is kept whole by
/// construction, and when it is valid UTF-8 the strict decode of the
/// constructed buffer returns exactly the source bytes.
pub proof fn lemma_construct_fits_round_trip(source: Seq<u8>, cap: int)
    requires
        source.len() <= cap,
        valid_utf8(source),
    ensures
        spec_truncate(source, cap) == source,
        encode_utf8(decode_utf8(spec_truncate(source, cap))) == source,
{
    decode_utf8_encode_utf8(source);
}

/// Law: over a run of appends, each one is checked against the remaining
/// space on its own. When two fragments fit but a third would overflow,
/// the first two are appended, the third is rejected, and the buffer holds
/// exactly the first two fragments after its starting content.
pub proof fn lemma_sequential_appends(
    content: Seq<u8>,
    f1: Seq<u8>,
    f2: Seq<u8>,
    f3: Seq<u8>,
    cap: int,
)
    requires
        content.len() + f1.len() + f2.len() <= cap,
        content.len() + f1.len() + f2.len() + f3.len() > cap,
    ensures
        append_fits(content, f1, cap),
        append_fits(spec_append(content, f1, cap), f2, cap),
        !append_fits(spec_append(spec_append(content, f1, cap), f2, cap), f3, cap),
        spec_append(spec_append(spec_append(content, f1, cap), f2, cap), f3, cap) == content + f1
            + f2,
{
}

/// Law: the lossy ASCII conversion is total. For every byte sequence it
/// yields one character per byte, in order: the byte's own ASCII character
/// below the ASCII bound, and `~` from the bound upward.
pub proof fn lemma_ascii_lossy_total(bytes: Seq<u8>)
    ensures
        ascii_lossy(bytes).len() == bytes.len(),
        forall|i: int| 0 <= i < bytes.len() ==> ascii_lossy(bytes)[i] == lossy_char(bytes[i]),
{
}

/// Law: the strict decode is a function of the buffer's bytes alone, so
/// two reads without an intervening write agree: any two results that meet
/// the decode contract on the same bytes succeed together and carry the
/// same text.
pub proof fn lemma_strict_decode_idempotent(
    bytes: Seq<u8>,
    r1: Result<&str, ()>,
    r2: Result<&str, ()>,
)
    requires
        r1 is Ok <==> valid_utf8(bytes),
        r1 is Ok ==> r1->Ok_0@ == decode_utf8(bytes),
        r2 is Ok <==> valid_utf8(bytes),
        r2 is Ok ==> r2->Ok_0@ == decode_utf8(bytes),
    ensures
        r1 is Ok <==> r2 is Ok,
        r1 is Ok ==> r1->Ok_0@ == r2->Ok_0@,
{
}

} // verus!
