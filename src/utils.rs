//! Text that the driver writes into a byte buffer.
use vstd::prelude::*;
use vstd::slice::slice_subrange;

verus! {

/// What `String::from_utf8_lossy` makes of the bytes `bytes`.
pub uninterp spec fn lossy_text(bytes: Seq<u8>) -> Seq<char>;

/// Whether every byte is an ASCII code.
pub open spec fn is_ascii_bytes(bytes: Seq<u8>) -> bool {
    forall|i: int| 0 <= i < bytes.len() ==> #[trigger] bytes[i] < 128
}

/// The characters of ASCII bytes, one for each.
pub open spec fn ascii_chars(bytes: Seq<u8>) -> Seq<char> {
    bytes.map_values(|b: u8| b as char)
}

/// Number of bytes before the first zero byte, or all of them if there is none.
pub open spec fn c_len(buf: Seq<u8>) -> nat
    decreases buf.len(),
{
    if buf.len() == 0 || buf[0] == 0 {
        0
    } else {
        1 + c_len(buf.drop_first())
    }
}

/// The zero-terminated text at the start of `buf`, without its terminator.
pub open spec fn c_text(buf: Seq<u8>) -> Seq<u8> {
    buf.subrange(0, c_len(buf) as int)
}

/// The text that a zero-terminated buffer holds.
pub open spec fn buffer_text(buf: Seq<u8>) -> Seq<char> {
    lossy_text(c_text(buf))
}

proof fn lemma_c_len_bound(buf: Seq<u8>)
    ensures
        c_len(buf) <= buf.len(),
    decreases buf.len(),
{
    if buf.len() > 0 && buf[0] != 0 {
        lemma_c_len_bound(buf.drop_first());
    }
}

/// Relies on `String::from_utf8_lossy`: it decodes UTF-8, so ASCII bytes come
/// back as the same characters, and no bytes as no characters.
#[verifier::external_body]
fn text_from_bytes(bytes: &[u8]) -> (r: String)
    ensures
        r@ == lossy_text(bytes@),
        is_ascii_bytes(bytes@) ==> r@ == ascii_chars(bytes@),
{
    String::from_utf8_lossy(bytes).into_owned()
}

/// Position of the first zero byte of `buf`, or its length if it has none.
pub fn c_text_len(buf: &[u8]) -> (n: usize)
    ensures
        n == c_len(buf@),
{
    let mut i: usize = 0;
    assert(buf@.subrange(0, buf@.len() as int) =~= buf@);
    while i < buf.len() && buf[i] != 0
        invariant
            i <= buf@.len(),
            c_len(buf@) == i + c_len(buf@.subrange(i as int, buf@.len() as int)),
        decreases buf@.len() - i,
    {
        let ghost rest = buf@.subrange(i as int, buf@.len() as int);
        assert(rest.drop_first() =~= buf@.subrange(i + 1, buf@.len() as int));
        i = i + 1;
    }
    proof {
        let rest = buf@.subrange(i as int, buf@.len() as int);
        if i < buf@.len() {
            assert(rest[0] == buf@[i as int]);
        }
    }
    i
}

/// Converts a zero-terminated byte buffer, as the driver fills one with a log
/// or a name, into an owned string.
pub fn charbuf_to_str(buf: &[u8]) -> (r: String)
    ensures
        r@ == buffer_text(buf@),
        is_ascii_bytes(c_text(buf@)) ==> r@ == ascii_chars(c_text(buf@)),
{
    let n = c_text_len(buf);
    proof {
        lemma_c_len_bound(buf@);
    }
    let text = slice_subrange(buf, 0, n);
    assert(text@ =~= c_text(buf@));
    text_from_bytes(text)
}

} // verus!
