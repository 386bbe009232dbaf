//! Decoding of the inbound webhook request body.
//!
//! A webhook delivery arrives form-encoded: the bytes are percent-encoded
//! and carry a `payload=` form key in front of the JSON text. The body is
//! percent-decoded, every occurrence of the form key is removed, and the
//! rest is parsed as JSON.

use vstd::prelude::*;

use crate::json::{json_parse, parse_json, Json, JsonV};

verus! {

/// Whether `b` is the code of an ASCII hexadecimal digit.
pub open spec fn is_hex_digit(b: u8) -> bool {
    (48 <= b && b <= 57) || (65 <= b && b <= 70) || (97 <= b && b <= 102)
}

/// The numeric value of an ASCII hexadecimal digit.
pub open spec fn hex_val(b: u8) -> u8
    recommends
        is_hex_digit(b),
{
    if 48 <= b && b <= 57 {
        (b - 48) as u8
    } else if 65 <= b && b <= 70 {
        (b - 55) as u8
    } else {
        (b - 87) as u8
    }
}

/// `b` with every `%XX` escape (two hexadecimal digits after a `%`)
/// replaced by the byte it denotes; malformed escapes pass through.
pub open spec fn percent_decoded(b: Seq<u8>) -> Seq<u8>
    decreases b.len(),
{
    if b.len() == 0 {
        Seq::<u8>::empty()
    } else if b[0] == 37 && b.len() >= 3 && is_hex_digit(b[1]) && is_hex_digit(b[2]) {
        seq![((16 * hex_val(b[1]) + hex_val(b[2])) as u8)] + percent_decoded(b.skip(3))
    } else {
        seq![b[0]] + percent_decoded(b.skip(1))
    }
}

/// The bytes of the form key `payload=`.
pub open spec fn form_key() -> Seq<u8> {
    seq![112u8, 97u8, 121u8, 108u8, 111u8, 97u8, 100u8, 61u8]
}

/// `b` with every occurrence of the form key removed, scanning left to
/// right and never rescanning what an earlier removal brought together.
pub open spec fn form_key_stripped(b: Seq<u8>) -> Seq<u8>
    decreases b.len(),
{
    if b.len() == 0 {
        Seq::<u8>::empty()
    } else if b.len() >= 8 && b.subrange(0, 8) == form_key() {
        form_key_stripped(b.skip(8))
    } else {
        seq![b[0]] + form_key_stripped(b.skip(1))
    }
}

/// The JSON value carried by a webhook request body, if it is well-formed.
pub open spec fn decoded_body(b: Seq<u8>) -> Option<JsonV> {
    json_parse(form_key_stripped(percent_decoded(b)))
}

fn is_hex(b: u8) -> (r: bool)
    ensures
        r == is_hex_digit(b),
{
    (48 <= b && b <= 57) || (65 <= b && b <= 70) || (97 <= b && b <= 102)
}

fn hex_value(b: u8) -> (r: u8)
    requires
        is_hex_digit(b),
    ensures
        r == hex_val(b),
        r <= 15,
{
    if 48 <= b && b <= 57 {
        b - 48
    } else if 65 <= b && b <= 70 {
        b - 55
    } else {
        b - 87
    }
}

/// Percent-decodes `b`.
pub fn percent_decode(b: &[u8]) -> (r: Vec<u8>)
    ensures
        r@ == percent_decoded(b@),
{
    let n = b.len();
    let mut out: Vec<u8> = Vec::new();
    let mut i: usize = 0;
    proof {
        assert(b@.skip(0) =~= b@);
    }
    while i < n
        invariant
            n == b@.len(),
            i <= n,
            out@ + percent_decoded(b@.skip(i as int)) == percent_decoded(b@),
        decreases n - i,
    {
        let ghost rest = b@.skip(i as int);
        proof {
            assert(rest[0] == b@[i as int]);
        }
        if b[i] == 37 && n - i > 2 && is_hex(b[i + 1]) && is_hex(b[i + 2]) {
            proof {
                assert(rest[1] == b@[i as int + 1]);
                assert(rest[2] == b@[i as int + 2]);
            }
            let v = 16 * hex_value(b[i + 1]) + hex_value(b[i + 2]);
            out.push(v);
            proof {
                assert(rest.skip(3) =~= b@.skip(i as int + 3));
                assert(out@ + percent_decoded(b@.skip(i as int + 3)) =~= percent_decoded(b@));
            }
            i = i + 3;
        } else {
            out.push(b[i]);
            proof {
                assert(rest.skip(1) =~= b@.skip(i as int + 1));
                assert(out@ + percent_decoded(b@.skip(i as int + 1)) =~= percent_decoded(b@));
            }
            i = i + 1;
        }
    }
    proof {
        assert(b@.skip(n as int) =~= Seq::<u8>::empty());
        assert(out@ =~= percent_decoded(b@));
    }
    out
}

fn matches_form_key(b: &[u8], i: usize) -> (r: bool)
    requires
        i + 8 <= b@.len(),
    ensures
        r == (b@.subrange(i as int, i as int + 8) == form_key()),
{
    let ghost sub = b@.subrange(i as int, i as int + 8);
    let r = b[i] == 112 && b[i + 1] == 97 && b[i + 2] == 121 && b[i + 3] == 108 && b[i + 4]
        == 111 && b[i + 5] == 97 && b[i + 6] == 100 && b[i + 7] == 61;
    proof {
        if r {
            assert(sub =~= form_key());
        } else {
            if sub == form_key() {
                assert(b@[i as int] == sub[0]);
                assert(b@[i as int + 1] == sub[1]);
                assert(b@[i as int + 2] == sub[2]);
                assert(b@[i as int + 3] == sub[3]);
                assert(b@[i as int + 4] == sub[4]);
                assert(b@[i as int + 5] == sub[5]);
                assert(b@[i as int + 6] == sub[6]);
                assert(b@[i as int + 7] == sub[7]);
            }
        }
    }
    r
}

/// Removes every occurrence of the form key `payload=` from `b`.
pub fn strip_form_key(b: &[u8]) -> (r: Vec<u8>)
    ensures
        r@ == form_key_stripped(b@),
{
    let n = b.len();
    let mut out: Vec<u8> = Vec::new();
    let mut i: usize = 0;
    proof {
        assert(b@.skip(0) =~= b@);
    }
    while i < n
        invariant
            n == b@.len(),
            i <= n,
            out@ + form_key_stripped(b@.skip(i as int)) == form_key_stripped(b@),
        decreases n - i,
    {
        let ghost rest = b@.skip(i as int);
        proof {
            assert(rest[0] == b@[i as int]);
        }
        if n - i >= 8 && matches_form_key(b, i) {
            proof {
                assert(rest.subrange(0, 8) =~= b@.subrange(i as int, i as int + 8));
                assert(rest.skip(8) =~= b@.skip(i as int + 8));
                assert(out@ + form_key_stripped(b@.skip(i as int + 8)) =~= form_key_stripped(b@));
            }
            i = i + 8;
        } else {
            proof {
                if rest.len() >= 8 {
                    assert(rest.subrange(0, 8) =~= b@.subrange(i as int, i as int + 8));
                }
                assert(!(rest.len() >= 8 && rest.subrange(0, 8) == form_key()));
            }
            out.push(b[i]);
            proof {
                assert(rest.skip(1) =~= b@.skip(i as int + 1));
                assert(out@ + form_key_stripped(b@.skip(i as int + 1)) =~= form_key_stripped(b@));
            }
            i = i + 1;
        }
    }
    proof {
        assert(b@.skip(n as int) =~= Seq::<u8>::empty());
        assert(out@ =~= form_key_stripped(b@));
    }
    out
}

/// Decodes a webhook request body into the JSON value it carries:
/// percent-decodes the bytes, removes the `payload=` form key, and parses
/// the rest as JSON. `None` on anything that is not well-formed.
pub fn decode_body(b: &[u8]) -> (r: Option<Json>)
    ensures
        match r {
            Some(j) => decoded_body(b@) == Some(j@),
            None => decoded_body(b@) is None,
        },
{
    let d = percent_decode(b);
    let s = strip_form_key(d.as_slice());
    parse_json(s.as_slice())
}

} // verus!
