//! Content digests: a deterministic content address for a byte payload,
//! rendered as `sha256:` followed by the lowercase hex digits of the hash.

use vstd::prelude::*;

verus! {

/// The SHA-256 hash of a byte payload, as computed by the `sha2` crate.
/// The hash is a pure function of the payload, so it is only given a name
/// here; nothing else is assumed about its value.
pub uninterp spec fn sha256_of(payload: Seq<u8>) -> Seq<u8>;

/// Relies on `sha2::Sha256` (through `digest::Digest::digest`): the SHA-256
/// hash of the payload, 32 bytes, a function of the payload bytes alone.
#[verifier::external_body]
fn sha256(data: &[u8]) -> (r: Vec<u8>)
    ensures
        r@ == sha256_of(data@),
        r@.len() == 32,
{
    let h = <sha2::Sha256 as sha2::Digest>::digest(data);
    h.to_vec()
}

/// The lowercase hex character for one value below sixteen.
pub open spec fn hex_char(v: u8) -> char
    recommends
        v < 16,
{
    if v == 0 {
        '0'
    } else if v == 1 {
        '1'
    } else if v == 2 {
        '2'
    } else if v == 3 {
        '3'
    } else if v == 4 {
        '4'
    } else if v == 5 {
        '5'
    } else if v == 6 {
        '6'
    } else if v == 7 {
        '7'
    } else if v == 8 {
        '8'
    } else if v == 9 {
        '9'
    } else if v == 10 {
        'a'
    } else if v == 11 {
        'b'
    } else if v == 12 {
        'c'
    } else if v == 13 {
        'd'
    } else if v == 14 {
        'e'
    } else {
        'f'
    }
}

/// The lowercase hex rendering of a byte sequence, two characters per byte,
/// high nibble first.
pub open spec fn hex_of(bytes: Seq<u8>) -> Seq<char>
    decreases bytes.len(),
{
    if bytes.len() == 0 {
        Seq::empty()
    } else {
        hex_of(bytes.drop_last()) + seq![
            hex_char(bytes.last() / 16),
            hex_char(bytes.last() % 16),
        ]
    }
}

pub proof fn lemma_hex_of_len(bytes: Seq<u8>)
    ensures
        hex_of(bytes).len() == 2 * bytes.len(),
    decreases bytes.len(),
{
    if bytes.len() > 0 {
        lemma_hex_of_len(bytes.drop_last());
    }
}

/// What `compute_digest` returns: the fixed algorithm prefix followed by the
/// hex rendering of the payload's SHA-256 hash.
pub open spec fn digest_spec(payload: Seq<u8>) -> Seq<char> {
    "sha256:"@ + hex_of(sha256_of(payload))
}

pub(crate) fn hex_char_str(v: u8) -> (r: &'static str)
    requires
        v < 16,
    ensures
        r@ == seq![hex_char(v)],
{
    if v == 0 {
        proof { reveal_strlit("0"); assert("0"@ =~= seq![hex_char(v)]); }
        "0"
    } else if v == 1 {
        proof { reveal_strlit("1"); assert("1"@ =~= seq![hex_char(v)]); }
        "1"
    } else if v == 2 {
        proof { reveal_strlit("2"); assert("2"@ =~= seq![hex_char(v)]); }
        "2"
    } else if v == 3 {
        proof { reveal_strlit("3"); assert("3"@ =~= seq![hex_char(v)]); }
        "3"
    } else if v == 4 {
        proof { reveal_strlit("4"); assert("4"@ =~= seq![hex_char(v)]); }
        "4"
    } else if v == 5 {
        proof { reveal_strlit("5"); assert("5"@ =~= seq![hex_char(v)]); }
        "5"
    } else if v == 6 {
        proof { reveal_strlit("6"); assert("6"@ =~= seq![hex_char(v)]); }
        "6"
    } else if v == 7 {
        proof { reveal_strlit("7"); assert("7"@ =~= seq![hex_char(v)]); }
        "7"
    } else if v == 8 {
        proof { reveal_strlit("8"); assert("8"@ =~= seq![hex_char(v)]); }
        "8"
    } else if v == 9 {
        proof { reveal_strlit("9"); assert("9"@ =~= seq![hex_char(v)]); }
        "9"
    } else if v == 10 {
        proof { reveal_strlit("a"); assert("a"@ =~= seq![hex_char(v)]); }
        "a"
    } else if v == 11 {
        proof { reveal_strlit("b"); assert("b"@ =~= seq![hex_char(v)]); }
        "b"
    } else if v == 12 {
        proof { reveal_strlit("c"); assert("c"@ =~= seq![hex_char(v)]); }
        "c"
    } else if v == 13 {
        proof { reveal_strlit("d"); assert("d"@ =~= seq![hex_char(v)]); }
        "d"
    } else if v == 14 {
        proof { reveal_strlit("e"); assert("e"@ =~= seq![hex_char(v)]); }
        "e"
    } else {
        proof { reveal_strlit("f"); assert("f"@ =~= seq![hex_char(v)]); }
        "f"
    }
}

/// Appends the lowercase hex rendering of `bytes` to `out`.
fn append_hex(out: &mut String, bytes: &Vec<u8>)
    ensures
        final(out)@ == old(out)@ + hex_of(bytes@),
{
    let mut i: usize = 0;
    while i < bytes.len()
        invariant
            i <= bytes.len(),
            out@ == old(out)@ + hex_of(bytes@.take(i as int)),
        decreases bytes.len() - i,
    {
        let b = bytes[i];
        out.append(hex_char_str(b / 16));
        out.append(hex_char_str(b % 16));
        i = i + 1;
        proof {
            let taken = bytes@.take(i as int);
            assert(taken.drop_last() =~= bytes@.take(i - 1));
            assert(out@ =~= old(out)@ + hex_of(taken));
        }
    }
    proof {
        assert(bytes@.take(bytes@.len() as int) =~= bytes@);
    }
}

/// The content digest of a payload: `sha256:` followed by 64 lowercase hex
/// digits, identical for identical payloads.
pub fn compute_digest(data: &[u8]) -> (r: String)
    ensures
        r@ == digest_spec(data@),
        r@.len() == 71,
{
    let hash = sha256(data);
    let mut out = "sha256:".to_owned();
    append_hex(&mut out, &hash);
    proof {
        reveal_strlit("sha256:");
        lemma_hex_of_len(hash@);
    }
    out
}

/// Law: the digest is a pure function of the payload. Two payloads with
/// equal bytes have equal digests.
pub proof fn lemma_digest_deterministic(p1: Seq<u8>, p2: Seq<u8>)
    requires
        p1 == p2,
    ensures
        digest_spec(p1) == digest_spec(p2),
{
}

/// Law: every digest begins with the algorithm prefix `sha256:`.
pub proof fn lemma_digest_prefix(payload: Seq<u8>)
    ensures
        digest_spec(payload).len() >= 7,
        digest_spec(payload).take(7) == "sha256:"@,
{
    reveal_strlit("sha256:");
    assert(digest_spec(payload).take(7) =~= "sha256:"@);
}

} // verus!
