use vstd::prelude::*;
use vstd::string::StringSliceAdditionalSpecFns;
use vstd::utf8::{is_char_boundary, pop_first_scalar, valid_utf8};

verus! {

/// The UTF-8 bytes of `s` with a leading `0x` removed, when there is one.
pub open spec fn strip_0x(b: Seq<u8>) -> Seq<u8> {
    if b.len() >= 2 && b[0] == 0x30u8 && b[1] == 0x78u8 {
        b.subrange(2, b.len() as int)
    } else {
        b
    }
}

/// Two leading one-byte characters end on a character boundary.
proof fn lemma_boundary_after_two_ascii(b: Seq<u8>)
    requires
        valid_utf8(b),
        b.len() >= 2,
        b[0] < 0x80u8,
        b[1] < 0x80u8,
    ensures
        is_char_boundary(b, 2),
{
    reveal_with_fuel(valid_utf8, 3);
    let t = pop_first_scalar(b);
    assert(t =~= b.subrange(1, b.len() as int));
    assert(valid_utf8(t));
    assert(t[0] == b[1]);
    let u = pop_first_scalar(t);
    assert(valid_utf8(u));
    assert(is_char_boundary(u, 0));
    assert(is_char_boundary(t, 1));
}

/// Drops a leading `0x` from a hexadecimal string; any other string is
/// returned as it is.
pub fn clean_0x(s: &str) -> (r: &str)
    ensures
        r.spec_bytes() == strip_0x(s.spec_bytes()),
{
    let b = s.as_bytes();
    if b.len() >= 2 && b[0] == 0x30u8 && b[1] == 0x78u8 {
        proof {
            vstd::utf8::encode_utf8_valid_utf8(s@);
            lemma_boundary_after_two_ascii(s.spec_bytes());
        }
        let (_, rest) = s.split_at(2);
        rest
    } else {
        s
    }
}

} // verus!
