use vstd::prelude::*;
use crate::canon::{canonical_of, canonical_payload, same_content, RecordContent};
use crate::model::Summary;

verus! {

/// The SHA-256 digest of the UTF-8 encoding of a character sequence.
/// The digest is a function of the characters alone, the same in every
/// process and on every machine.
pub uninterp spec fn sha256_of(s: Seq<char>) -> Seq<u8>;

/// Relies on sha2::Sha256 (through digest's `Digest::digest`): the
/// SHA-256 digest of the UTF-8 bytes of `s`, always 32 bytes long and
/// depending on `s` alone.
#[verifier::external_body]
fn sha256_chars(s: &str) -> (r: Vec<u8>)
    ensures
        r@ == sha256_of(s@),
        r@.len() == 32,
{
    let out = <sha2::Sha256 as sha2::Digest>::digest(s.as_bytes());
    out.as_slice().to_vec()
}

/// The hex character for one value below sixteen: the original digest
/// rendering uses lower case.
pub open spec fn hex_digit(n: u8) -> char
    recommends
        n < 16,
{
    if n == 0 {
        '0'
    } else if n == 1 {
        '1'
    } else if n == 2 {
        '2'
    } else if n == 3 {
        '3'
    } else if n == 4 {
        '4'
    } else if n == 5 {
        '5'
    } else if n == 6 {
        '6'
    } else if n == 7 {
        '7'
    } else if n == 8 {
        '8'
    } else if n == 9 {
        '9'
    } else if n == 10 {
        'a'
    } else if n == 11 {
        'b'
    } else if n == 12 {
        'c'
    } else if n == 13 {
        'd'
    } else if n == 14 {
        'e'
    } else {
        'f'
    }
}

/// Two lower-case hex characters for every byte, high nibble first.
pub open spec fn hex_of(bytes: Seq<u8>) -> Seq<char>
    decreases bytes.len(),
{
    if bytes.len() == 0 {
        Seq::empty()
    } else {
        seq![hex_digit(bytes[0] / 16), hex_digit(bytes[0] % 16)] + hex_of(bytes.drop_first())
    }
}

pub proof fn lemma_hex_of_len(bytes: Seq<u8>)
    ensures
        hex_of(bytes).len() == 2 * bytes.len(),
    decreases bytes.len(),
{
    if bytes.len() > 0 {
        lemma_hex_of_len(bytes.drop_first());
    }
}

/// Hex digits are plain characters: never a quote, never a backslash.
/// This is what lets a digest ride inside a quoted message field
/// untouched.
pub proof fn lemma_hex_of_plain(bytes: Seq<u8>)
    ensures
        forall|i: int| 0 <= i < hex_of(bytes).len() ==> hex_of(bytes)[i] != '"' && hex_of(
            bytes,
        )[i] != '\\',
    decreases bytes.len(),
{
    if bytes.len() > 0 {
        lemma_hex_of_plain(bytes.drop_first());
        assert forall|i: int|
            0 <= i < hex_of(bytes).len() implies hex_of(bytes)[i] != '"' && hex_of(bytes)[i]
            != '\\' by {
            if i >= 2 {
                assert(hex_of(bytes)[i] == hex_of(bytes.drop_first())[i - 2]);
            }
        }
    }
}

fn hex_digit_exec(n: u8) -> (c: char)
    requires
        n < 16,
    ensures
        c == hex_digit(n),
{
    let table = ['0', '1', '2', '3', '4', '5', '6', '7', '8', '9', 'a', 'b', 'c', 'd', 'e', 'f'];
    table[n as usize]
}

/// Renders bytes as lower-case hex, two characters per byte.
fn to_hex(bytes: &Vec<u8>) -> (out: String)
    ensures
        out@ == hex_of(bytes@),
{
    let mut out = String::new();
    proof {
        assert(bytes@.skip(0) =~= bytes@);
        assert(Seq::<char>::empty() + hex_of(bytes@) =~= hex_of(bytes@));
    }
    let mut i: usize = 0;
    while i < bytes.len()
        invariant
            i <= bytes@.len(),
            hex_of(bytes@) == out@ + hex_of(bytes@.skip(i as int)),
        decreases bytes@.len() - i,
    {
        let b = bytes[i];
        proof {
            assert(bytes@.skip(i as int)[0] == bytes@[i as int]);
            assert(bytes@.skip(i as int).drop_first() =~= bytes@.skip(i + 1 as int));
            assert(out@ + (seq![
                hex_digit(b / 16),
                hex_digit(b % 16),
            ] + hex_of(bytes@.skip(i + 1 as int))) =~= (out@ + seq![
                hex_digit(b / 16),
                hex_digit(b % 16),
            ]) + hex_of(bytes@.skip(i + 1 as int)));
        }
        out.push(hex_digit_exec(b / 16));
        out.push(hex_digit_exec(b % 16));
        i += 1;
    }
    proof {
        assert(bytes@.skip(bytes@.len() as int) =~= Seq::<u8>::empty());
        assert(out@ + Seq::<char>::empty() =~= out@);
    }
    out
}

/// The content hash of a record: lower-case hex of the SHA-256 digest of
/// the canonical serialization. A pure function of the record's content.
pub open spec fn digest_of(c: RecordContent) -> Seq<char> {
    hex_of(sha256_of(canonical_of(c)))
}

/// Computes the content hash of a summary. The result is 64 hex
/// characters and depends only on the summary's content.
pub fn digest(s: &Summary) -> (out: String)
    ensures
        out@ == digest_of(s.content()),
        out@.len() == 64,
{
    let payload = canonical_payload(s);
    let bytes = sha256_chars(payload.as_str());
    let out = to_hex(&bytes);
    proof {
        lemma_hex_of_len(sha256_of(canonical_of(s.content())));
    }
    out
}

/// A content hash never holds a quote or a backslash, so it survives
/// quoting in the anchor message unchanged.
pub proof fn lemma_digest_plain(c: RecordContent)
    ensures
        forall|i: int| 0 <= i < digest_of(c).len() ==> digest_of(c)[i] != '"' && digest_of(
            c,
        )[i] != '\\',
{
    lemma_hex_of_plain(sha256_of(canonical_of(c)));
}

/// Contents that agree field by field hash identically.
pub proof fn lemma_same_content_same_digest(a: RecordContent, b: RecordContent)
    requires
        same_content(a, b),
    ensures
        digest_of(a) == digest_of(b),
{
    assert(a =~= b);
}

/// An anchor message built over a record's digest hands that digest
/// back to the verification-side scan: hex digests hold no quote and no
/// backslash, so the quoted field keeps them untouched.
pub proof fn lemma_anchor_carries_digest(
    c: RecordContent,
    cpc: Seq<char>,
    wallet: Seq<char>,
    created_at: Seq<char>,
)
    ensures
        crate::canon::extracted_hash(
            crate::canon::anchor_message_of(digest_of(c), cpc, wallet, created_at),
        ) == Some(digest_of(c)),
{
    lemma_digest_plain(c);
    crate::canon::lemma_anchor_message_roundtrip(digest_of(c), cpc, wallet, created_at);
}

/// Law: the content hash depends on the record's content alone. Two
/// stored records that agree on title, problem, solution, claims and
/// classification code hash identically, whatever their identifiers and
/// timestamps, whichever process computes them.
pub proof fn lemma_digest_content_only(a: Summary, b: Summary)
    requires
        a.title@ == b.title@,
        a.problem@ == b.problem@,
        a.solution@ == b.solution@,
        a.claims@.len() == b.claims@.len(),
        forall|i: int| 0 <= i < a.claims@.len() ==> a.claims@[i]@ == b.claims@[i]@,
        a.cpc_code@ == b.cpc_code@,
    ensures
        digest_of(a.content()) == digest_of(b.content()),
{
    assert(a.content().claims =~= b.content().claims);
    assert(a.content() =~= b.content());
}

} // verus!
