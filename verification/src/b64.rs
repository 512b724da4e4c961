//! Base64 encoding of media byte payloads for the wire.
//!
//! Media items travel with their bytes encoded as base64 text.  The encoder
//! is written out here and proved against its recursive definition.

use vstd::prelude::*;

verus! {

/// The base64 alphabet: the byte encoding a 6-bit group.
pub open spec fn spec_b64_char(x: int) -> u8
    recommends
        0 <= x < 64,
{
    if x < 26 {
        (65 + x) as u8  // 'A'..'Z'

    } else if x < 52 {
        (97 + (x - 26)) as u8  // 'a'..'z'

    } else if x < 62 {
        (48 + (x - 52)) as u8  // '0'..'9'

    } else if x == 62 {
        43u8  // '+'

    } else {
        47u8  // '/'

    }
}

/// Base64 of a byte sequence: chunks of three bytes become four alphabet
/// bytes; a short final chunk is padded with `=`.
pub open spec fn spec_base64(s: Seq<u8>) -> Seq<u8>
    decreases s.len(),
{
    if s.len() == 0 {
        Seq::empty()
    } else if s.len() == 1 {
        let b0 = s[0] as int;
        seq![spec_b64_char(b0 / 4), spec_b64_char((b0 % 4) * 16), 61u8, 61u8]
    } else if s.len() == 2 {
        let b0 = s[0] as int;
        let b1 = s[1] as int;
        seq![
            spec_b64_char(b0 / 4),
            spec_b64_char((b0 % 4) * 16 + b1 / 16),
            spec_b64_char((b1 % 16) * 4),
            61u8,
        ]
    } else {
        let b0 = s[0] as int;
        let b1 = s[1] as int;
        let b2 = s[2] as int;
        seq![
            spec_b64_char(b0 / 4),
            spec_b64_char((b0 % 4) * 16 + b1 / 16),
            spec_b64_char((b1 % 16) * 4 + b2 / 64),
            spec_b64_char(b2 % 64),
        ] + spec_base64(s.skip(3))
    }
}

/// The base64 text of a byte sequence, character for character.
pub open spec fn spec_base64_chars(s: Seq<u8>) -> Seq<char> {
    spec_base64(s).map(|i: int, b: u8| b as char)
}

/// The alphabet byte of a 6-bit group.
fn b64_char_of(x: u8) -> (r: u8)
    requires
        x < 64,
    ensures
        r == spec_b64_char(x as int),
{
    if x < 26 {
        65 + x
    } else if x < 52 {
        97 + (x - 26)
    } else if x < 62 {
        48 + (x - 52)
    } else if x == 62 {
        43
    } else {
        47
    }
}

/// Every byte that base64 emits is ASCII.
pub proof fn lemma_base64_ascii(s: Seq<u8>)
    ensures
        forall|i: int| 0 <= i < spec_base64(s).len() ==> spec_base64(s)[i] < 128,
    decreases s.len(),
{
    if s.len() == 0 {
    } else if s.len() == 1 {
        let b0 = s[0] as int;
        assert(0 <= b0 / 4 < 64);
        assert(0 <= (b0 % 4) * 16 < 64);
    } else if s.len() == 2 {
        let b0 = s[0] as int;
        let b1 = s[1] as int;
        assert(0 <= b0 / 4 < 64);
        assert(0 <= (b0 % 4) * 16 + b1 / 16 < 64);
        assert(0 <= (b1 % 16) * 4 < 64);
    } else {
        let b0 = s[0] as int;
        let b1 = s[1] as int;
        let b2 = s[2] as int;
        assert(0 <= b0 / 4 < 64);
        assert(0 <= (b0 % 4) * 16 + b1 / 16 < 64);
        assert(0 <= (b1 % 16) * 4 + b2 / 64 < 64);
        assert(0 <= b2 % 64 < 64);
        lemma_base64_ascii(s.skip(3));
        assert forall|i: int| 0 <= i < spec_base64(s).len() implies spec_base64(s)[i]
            < 128 by {
            if i >= 4 {
                assert(spec_base64(s)[i] == spec_base64(s.skip(3))[i - 4]);
            }
        }
    }
}

/// Encodes bytes as base64 alphabet bytes.
pub fn base64_bytes(data: &Vec<u8>) -> (r: Vec<u8>)
    ensures
        r@ == spec_base64(data@),
{
    let ghost all = data@;
    proof {
        assert(all.skip(0) =~= all);
    }
    let mut out: Vec<u8> = Vec::new();
    let mut i: usize = 0;
    while data.len() - i >= 3
        invariant
            i <= data@.len(),
            all == data@,
            spec_base64(all) == out@ + spec_base64(all.skip(i as int)),
        decreases data@.len() - i as int,
    {
        let b0 = data[i];
        let b1 = data[i + 1];
        let b2 = data[i + 2];
        proof {
            assert(all.skip(i as int)[0] == all[i as int]);
            assert(all.skip(i as int)[1] == all[i as int + 1]);
            assert(all.skip(i as int)[2] == all[i as int + 2]);
            assert(all.skip(i as int).skip(3) =~= all.skip(i as int + 3));
        }
        out.push(b64_char_of(b0 / 4));
        out.push(b64_char_of((b0 % 4) * 16 + b1 / 16));
        out.push(b64_char_of((b1 % 16) * 4 + b2 / 64));
        out.push(b64_char_of(b2 % 64));
        proof {
            assert(spec_base64(all) =~= out@ + spec_base64(all.skip(i as int + 3)));
        }
        i = i + 3;
    }
    if data.len() - i == 1 {
        let b0 = data[i];
        proof {
            assert(all.skip(i as int)[0] == all[i as int]);
            assert(all.skip(i as int).len() == 1);
        }
        out.push(b64_char_of(b0 / 4));
        out.push(b64_char_of((b0 % 4) * 16));
        out.push(61);
        out.push(61);
        proof {
            assert(spec_base64(all) =~= out@);
        }
    } else if data.len() - i == 2 {
        let b0 = data[i];
        let b1 = data[i + 1];
        proof {
            assert(all.skip(i as int)[0] == all[i as int]);
            assert(all.skip(i as int)[1] == all[i as int + 1]);
            assert(all.skip(i as int).len() == 2);
        }
        out.push(b64_char_of(b0 / 4));
        out.push(b64_char_of((b0 % 4) * 16 + b1 / 16));
        out.push(b64_char_of((b1 % 16) * 4));
        out.push(61);
        proof {
            assert(spec_base64(all) =~= out@);
        }
    } else {
        proof {
            assert(all.skip(i as int).len() == 0);
            assert(spec_base64(all) =~= out@);
        }
    }
    out
}

/// Relies on `String::from_utf8`: a vector of ASCII bytes becomes the
/// string holding those characters.
#[verifier::external_body]
fn ascii_string(bytes: Vec<u8>) -> (r: String)
    requires
        forall|i: int| 0 <= i < bytes@.len() ==> bytes@[i] < 128,
    ensures
        r@.len() == bytes@.len(),
        forall|i: int| 0 <= i < r@.len() ==> r@[i] == bytes@[i] as char,
{
    String::from_utf8(bytes).unwrap()
}

/// Encodes bytes as base64 text.
pub fn base64_string(data: &Vec<u8>) -> (r: String)
    ensures
        r@ == spec_base64_chars(data@),
{
    let encoded = base64_bytes(data);
    proof {
        lemma_base64_ascii(data@);
    }
    let r = ascii_string(encoded);
    proof {
        assert(r@ =~= spec_base64_chars(data@));
    }
    r
}

} // verus!
