use vstd::prelude::*;
use vstd::string::StrSliceExecFns;
use vstd::string::StringExecFns;
use crate::model::{AiResponse, Summary};

verus! {

// `String::push` appends the given character at the end of the string.
pub assume_specification[ String::push ](s: &mut String, ch: char)
    ensures
        final(s)@ == old(s)@.push(ch),
;

/// The hashed content of a record: exactly the fields that identify the
/// structured idea. Identifiers, timestamps and the novelty score are
/// deliberately absent, so independently stored copies of one record
/// hash alike.
#[verifier::ext_equal]
pub struct RecordContent {
    pub title: Seq<char>,
    pub problem: Seq<char>,
    pub solution: Seq<char>,
    pub claims: Seq<Seq<char>>,
    pub cpc_code: Seq<char>,
}

pub open spec fn claim_views(claims: Seq<String>) -> Seq<Seq<char>> {
    claims.map_values(|c: String| c@)
}

impl Summary {
    /// The canonical content of this record, the only input to its hash.
    pub open spec fn content(self) -> RecordContent {
        RecordContent {
            title: self.title@,
            problem: self.problem@,
            solution: self.solution@,
            claims: claim_views(self.claims@),
            cpc_code: self.cpc_code@,
        }
    }
}

impl AiResponse {
    /// The content a summary persisted from this response will carry.
    pub open spec fn content(self) -> RecordContent {
        RecordContent {
            title: self.title@,
            problem: self.problem@,
            solution: self.solution@,
            claims: claim_views(self.claims@),
            cpc_code: self.cpc_code@,
        }
    }
}

/// Two contents that serialize alike: equal field by field. Identifiers
/// and timestamps play no part.
pub open spec fn same_content(a: RecordContent, b: RecordContent) -> bool {
    a.title == b.title && a.problem == b.problem && a.solution == b.solution && a.claims == b.claims
        && a.cpc_code == b.cpc_code
}

/// How one character appears inside a quoted field: quotes and
/// backslashes get a backslash in front, everything else stands as is.
pub open spec fn escaped_char(c: char) -> Seq<char> {
    if c == '"' || c == '\\' {
        seq!['\\', c]
    } else {
        seq![c]
    }
}

/// A whole field, escaped character by character.
pub open spec fn escaped(s: Seq<char>) -> Seq<char>
    decreases s.len(),
{
    if s.len() == 0 {
        Seq::empty()
    } else {
        escaped_char(s[0]) + escaped(s.drop_first())
    }
}

/// A field in its serialized place: escaped and wrapped in quotes.
pub open spec fn quoted(s: Seq<char>) -> Seq<char> {
    seq!['"'] + escaped(s) + seq!['"']
}

/// The claims as a serialized array: each claim quoted, commas between.
pub open spec fn claims_canon(cs: Seq<Seq<char>>) -> Seq<char>
    decreases cs.len(),
{
    if cs.len() == 0 {
        Seq::empty()
    } else if cs.len() == 1 {
        quoted(cs[0])
    } else {
        quoted(cs[0]) + seq![','] + claims_canon(cs.drop_first())
    }
}

/// The canonical serialization of a record's content: a fixed field
/// order and a fixed text form, so any two computations over the same
/// content yield the same characters. Both the anchoring path and the
/// verification path hash exactly this.
pub open spec fn canonical_of(c: RecordContent) -> Seq<char> {
    "{\"title\":\""@ + escaped(c.title) + "\",\"problem\":\""@ + escaped(c.problem)
        + "\",\"solution\":\""@ + escaped(c.solution) + "\",\"claims\":["@ + claims_canon(c.claims)
        + "],\"cpc_code\":\""@ + escaped(c.cpc_code) + "\"}"@
}

/// The canonical ledger message: the content hash first, then the
/// classification, the owner identity and the anchoring time.
pub open spec fn anchor_message_of(
    hash: Seq<char>,
    cpc: Seq<char>,
    wallet: Seq<char>,
    created_at: Seq<char>,
) -> Seq<char> {
    "{\"hash\":\""@ + escaped(hash) + "\",\"cpc_code\":\""@ + escaped(cpc)
        + "\",\"user_wallet\":\""@ + escaped(wallet) + "\",\"created_at\":\""@
        + escaped(created_at) + "\"}"@
}

pub proof fn lemma_escaped_push(s: Seq<char>, c: char)
    ensures
        escaped(s.push(c)) == escaped(s) + escaped_char(c),
    decreases s.len(),
{
    if s.len() == 0 {
        assert(s.push(c) =~= seq![c]);
        assert(seq![c].drop_first() =~= Seq::<char>::empty());
        assert(escaped(Seq::<char>::empty()) =~= Seq::<char>::empty());
        assert(seq![c][0] == c);
        assert(escaped(seq![c]) == escaped_char(c) + escaped(Seq::<char>::empty()));
        assert(escaped_char(c) + Seq::<char>::empty() =~= escaped_char(c));
        assert(escaped(s) =~= Seq::<char>::empty());
        assert(escaped(s) + escaped_char(c) =~= escaped_char(c));
    } else {
        lemma_escaped_push(s.drop_first(), c);
        assert(s.push(c).drop_first() =~= s.drop_first().push(c));
        assert(s.push(c)[0] == s[0]);
        assert(escaped_char(s[0]) + (escaped(s.drop_first()) + escaped_char(c)) =~= (escaped_char(
            s[0],
        ) + escaped(s.drop_first())) + escaped_char(c));
    }
}

/// Escaping changes nothing in a field that holds no quote and no
/// backslash; a hex digest is such a field.
pub proof fn lemma_escaped_plain(s: Seq<char>)
    requires
        forall|i: int| 0 <= i < s.len() ==> s[i] != '"' && s[i] != '\\',
    ensures
        escaped(s) == s,
    decreases s.len(),
{
    if s.len() == 0 {
        assert(escaped(s) =~= s);
    } else {
        assert(forall|i: int|
            0 <= i < s.drop_first().len() ==> s.drop_first()[i] != '"' && s.drop_first()[i]
                != '\\');
        lemma_escaped_plain(s.drop_first());
        assert(escaped_char(s[0]) =~= seq![s[0]]);
        assert(seq![s[0]] + s.drop_first() =~= s);
    }
}

pub proof fn lemma_claims_canon_push(cs: Seq<Seq<char>>, x: Seq<char>)
    ensures
        claims_canon(cs.push(x)) == if cs.len() == 0 {
            quoted(x)
        } else {
            claims_canon(cs) + seq![','] + quoted(x)
        },
    decreases cs.len(),
{
    if cs.len() == 0 {
        assert(cs.push(x) =~= seq![x]);
        assert(seq![x][0] == x);
    } else if cs.len() == 1 {
        assert(cs.push(x).len() == 2);
        assert(cs.push(x)[0] == cs[0]);
        assert(cs.push(x).drop_first() =~= seq![x]);
        assert(claims_canon(seq![x]) == quoted(x));
    } else {
        lemma_claims_canon_push(cs.drop_first(), x);
        assert(cs.push(x).drop_first() =~= cs.drop_first().push(x));
        assert(cs.push(x)[0] == cs[0]);
        assert(quoted(cs[0]) + seq![','] + (claims_canon(cs.drop_first()) + seq![','] + quoted(x))
            =~= (quoted(cs[0]) + seq![','] + claims_canon(cs.drop_first())) + seq![','] + quoted(
            x,
        ));
    }
}

/// An escaped field never opens with a bare quote: a quote in the field
/// hides behind a backslash.
pub proof fn lemma_escaped_never_opens_with_quote(x: Seq<char>)
    requires
        escaped(x).len() > 0,
    ensures
        escaped(x)[0] != '"',
{
    if x.len() > 0 {
        assert(escaped(x)[0] == escaped_char(x[0])[0]);
    }
}

/// Escaping loses nothing: two escaped fields followed by their closing
/// quotes can only read alike if the fields and what follows them were
/// alike. This is what makes the canonical serialization injective.
pub proof fn lemma_escaped_extension(x: Seq<char>, y: Seq<char>, rx: Seq<char>, ry: Seq<char>)
    requires
        escaped(x) + rx == escaped(y) + ry,
        rx.len() > 0,
        rx[0] == '"',
        ry.len() > 0,
        ry[0] == '"',
    ensures
        x == y,
        rx == ry,
    decreases x.len() + y.len(),
{
    let sx = escaped(x) + rx;
    let sy = escaped(y) + ry;
    if x.len() == 0 && y.len() == 0 {
        assert(escaped(x) =~= Seq::<char>::empty());
        assert(escaped(y) =~= Seq::<char>::empty());
        assert(x =~= y);
        assert(rx =~= sx);
        assert(ry =~= sy);
    } else if x.len() == 0 {
        assert(sx[0] == rx[0]);
        lemma_escaped_never_opens_with_quote(y);
        assert(sy[0] == escaped(y)[0]);
        assert(false);
    } else if y.len() == 0 {
        assert(sy[0] == ry[0]);
        lemma_escaped_never_opens_with_quote(x);
        assert(sx[0] == escaped(x)[0]);
        assert(false);
    } else {
        let xe = escaped_char(x[0]);
        let ye = escaped_char(y[0]);
        let xt = escaped(x.drop_first());
        let yt = escaped(y.drop_first());
        assert(sx =~= xe + (xt + rx));
        assert(sy =~= ye + (yt + ry));
        if x[0] == '"' || x[0] == '\\' {
            // x opens escaped; so must y, else the backslash would
            // stand where a plain character stands.
            assert(sx[0] == '\\');
            if !(y[0] == '"' || y[0] == '\\') {
                assert(sy[0] == y[0]);
                assert(false);
            }
            assert(sx[1] == x[0]);
            assert(sy[1] == y[0]);
            assert(xt + rx =~= sx.skip(2));
            assert(yt + ry =~= sy.skip(2));
            lemma_escaped_extension(x.drop_first(), y.drop_first(), rx, ry);
            assert(x =~= seq![x[0]] + x.drop_first());
            assert(y =~= seq![y[0]] + y.drop_first());
        } else {
            assert(sx[0] == x[0]);
            if y[0] == '"' || y[0] == '\\' {
                assert(sy[0] == '\\');
                assert(false);
            }
            assert(sy[0] == y[0]);
            assert(xt + rx =~= sx.skip(1));
            assert(yt + ry =~= sy.skip(1));
            lemma_escaped_extension(x.drop_first(), y.drop_first(), rx, ry);
            assert(x =~= seq![x[0]] + x.drop_first());
            assert(y =~= seq![y[0]] + y.drop_first());
        }
    }
}

/// The serialized claims array loses nothing either: two arrays
/// followed by their closing brackets can only read alike if the
/// claims and what follows them were alike.
pub proof fn lemma_claims_extension(
    a: Seq<Seq<char>>,
    b: Seq<Seq<char>>,
    ra: Seq<char>,
    rb: Seq<char>,
)
    requires
        claims_canon(a) + ra == claims_canon(b) + rb,
        ra.len() > 0,
        ra[0] == ']',
        rb.len() > 0,
        rb[0] == ']',
    ensures
        a == b,
        ra == rb,
    decreases a.len() + b.len(),
{
    let sa = claims_canon(a) + ra;
    let sb = claims_canon(b) + rb;
    if a.len() == 0 && b.len() == 0 {
        assert(claims_canon(a) =~= Seq::<char>::empty());
        assert(claims_canon(b) =~= Seq::<char>::empty());
        assert(a =~= b);
        assert(ra =~= sa);
        assert(rb =~= sb);
    } else if a.len() == 0 {
        assert(sa[0] == ra[0]);
        assert(claims_canon(b)[0] == '"');
        assert(sb[0] == claims_canon(b)[0]);
        assert(false);
    } else if b.len() == 0 {
        assert(sb[0] == rb[0]);
        assert(claims_canon(a)[0] == '"');
        assert(sa[0] == claims_canon(a)[0]);
        assert(false);
    } else {
        let ta = if a.len() == 1 {
            ra
        } else {
            seq![','] + claims_canon(a.drop_first()) + ra
        };
        let tb = if b.len() == 1 {
            rb
        } else {
            seq![','] + claims_canon(b.drop_first()) + rb
        };
        assert(sa =~= seq!['"'] + (escaped(a[0]) + (seq!['"'] + ta)));
        assert(sb =~= seq!['"'] + (escaped(b[0]) + (seq!['"'] + tb)));
        assert(escaped(a[0]) + (seq!['"'] + ta) =~= sa.skip(1));
        assert(escaped(b[0]) + (seq!['"'] + tb) =~= sb.skip(1));
        lemma_escaped_extension(a[0], b[0], seq!['"'] + ta, seq!['"'] + tb);
        assert(ta =~= (seq!['"'] + ta).skip(1));
        assert(tb =~= (seq!['"'] + tb).skip(1));
        if a.len() == 1 && b.len() == 1 {
            assert(a =~= b);
        } else if a.len() == 1 {
            assert(ta[0] == ']');
            assert(tb[0] == ',');
            assert(false);
        } else if b.len() == 1 {
            assert(tb[0] == ']');
            assert(ta[0] == ',');
            assert(false);
        } else {
            assert(claims_canon(a.drop_first()) + ra =~= ta.skip(1));
            assert(claims_canon(b.drop_first()) + rb =~= tb.skip(1));
            lemma_claims_extension(a.drop_first(), b.drop_first(), ra, rb);
            assert(a =~= seq![a[0]] + a.drop_first());
            assert(b =~= seq![b[0]] + b.drop_first());
        }
    }
}

/// Law: the canonical serialization is injective. Records that differ
/// in any hashed field — title, problem, solution, any claim, the
/// claim order or count, or the classification code — feed different
/// bytes to the digest, so only a collision of the hash function
/// itself could ever make their digests agree.
#[verifier::rlimit(100)]
pub proof fn lemma_canonical_injective(a: RecordContent, b: RecordContent)
    requires
        canonical_of(a) == canonical_of(b),
    ensures
        same_content(a, b),
{
    reveal_strlit("{\"title\":\"");
    reveal_strlit("\",\"problem\":\"");
    reveal_strlit("\",\"solution\":\"");
    reveal_strlit("\",\"claims\":[");
    reveal_strlit("],\"cpc_code\":\"");
    reveal_strlit("\"}");
    let l1 = "{\"title\":\""@;
    let l2 = "\",\"problem\":\""@;
    let l3 = "\",\"solution\":\""@;
    let l4 = "\",\"claims\":["@;
    let l5 = "],\"cpc_code\":\""@;
    let l6 = "\"}"@;
    let ta4 = l5 + escaped(a.cpc_code) + l6;
    let ta3 = l4 + claims_canon(a.claims) + ta4;
    let ta2 = l3 + escaped(a.solution) + ta3;
    let ta1 = l2 + escaped(a.problem) + ta2;
    let tb4 = l5 + escaped(b.cpc_code) + l6;
    let tb3 = l4 + claims_canon(b.claims) + tb4;
    let tb2 = l3 + escaped(b.solution) + tb3;
    let tb1 = l2 + escaped(b.problem) + tb2;

    assert(canonical_of(a) =~= l1 + (escaped(a.title) + ta1));
    assert(canonical_of(b) =~= l1 + (escaped(b.title) + tb1));
    assert(escaped(a.title) + ta1 =~= canonical_of(a).skip(l1.len() as int));
    assert(escaped(b.title) + tb1 =~= canonical_of(b).skip(l1.len() as int));
    assert(ta1[0] == l2[0]);
    assert(tb1[0] == l2[0]);
    lemma_escaped_extension(a.title, b.title, ta1, tb1);

    assert(escaped(a.problem) + ta2 =~= ta1.skip(l2.len() as int));
    assert(escaped(b.problem) + tb2 =~= tb1.skip(l2.len() as int));
    assert(ta2[0] == l3[0]);
    assert(tb2[0] == l3[0]);
    lemma_escaped_extension(a.problem, b.problem, ta2, tb2);

    assert(escaped(a.solution) + ta3 =~= ta2.skip(l3.len() as int));
    assert(escaped(b.solution) + tb3 =~= tb2.skip(l3.len() as int));
    assert(ta3[0] == l4[0]);
    assert(tb3[0] == l4[0]);
    lemma_escaped_extension(a.solution, b.solution, ta3, tb3);

    assert(claims_canon(a.claims) + ta4 =~= ta3.skip(l4.len() as int));
    assert(claims_canon(b.claims) + tb4 =~= tb3.skip(l4.len() as int));
    assert(ta4[0] == l5[0]);
    assert(tb4[0] == l5[0]);
    lemma_claims_extension(a.claims, b.claims, ta4, tb4);

    assert(escaped(a.cpc_code) + l6 =~= ta4.skip(l5.len() as int));
    assert(escaped(b.cpc_code) + l6 =~= tb4.skip(l5.len() as int));
    assert(l6[0] == '"');
    lemma_escaped_extension(a.cpc_code, b.cpc_code, l6, l6);
}

/// Appends `escaped(piece@)` to `out`.
fn append_escaped(out: &mut String, piece: &str)
    ensures
        final(out)@ == old(out)@ + escaped(piece@),
{
    let ghost out0: Seq<char> = out@;
    let n = piece.unicode_len();
    let mut i: usize = 0;
    while i < n
        invariant
            n == piece@.len(),
            i <= n,
            out@ == out0 + escaped(piece@.subrange(0, i as int)),
        decreases n - i,
    {
        let c = piece.get_char(i);
        if c == '"' || c == '\\' {
            out.push('\\');
        }
        out.push(c);
        proof {
            lemma_escaped_push(piece@.subrange(0, i as int), piece@[i as int]);
            assert(piece@.subrange(0, i as int).push(piece@[i as int]) =~= piece@.subrange(
                0,
                i + 1 as int,
            ));
            assert(out0 + (escaped(piece@.subrange(0, i as int)) + escaped_char(
                piece@[i as int],
            )) =~= (out0 + escaped(piece@.subrange(0, i as int))) + escaped_char(
                piece@[i as int],
            ));
            assert(out@ =~= out0 + escaped(piece@.subrange(0, i + 1 as int)));
        }
        i += 1;
    }
    proof {
        assert(piece@.subrange(0, n as int) =~= piece@);
    }
}

/// Builds the canonical serialization of this summary's content.
pub fn canonical_payload(s: &Summary) -> (out: String)
    ensures
        out@ == canonical_of(s.content()),
{
    let mut out = String::new();
    out.append("{\"title\":\"");
    append_escaped(&mut out, s.title.as_str());
    out.append("\",\"problem\":\"");
    append_escaped(&mut out, s.problem.as_str());
    out.append("\",\"solution\":\"");
    append_escaped(&mut out, s.solution.as_str());
    out.append("\",\"claims\":[");
    let ghost head: Seq<char> = out@;
    let mut i: usize = 0;
    while i < s.claims.len()
        invariant
            i <= s.claims@.len(),
            out@ == head + claims_canon(claim_views(s.claims@).subrange(0, i as int)),
        decreases s.claims@.len() - i,
    {
        let ghost done: Seq<Seq<char>> = claim_views(s.claims@).subrange(0, i as int);
        if i > 0 {
            out.append(",");
        }
        out.append("\"");
        append_escaped(&mut out, s.claims[i].as_str());
        out.append("\"");
        proof {
            reveal_strlit(",");
            reveal_strlit("\"");
            let cv = claim_views(s.claims@);
            assert(cv[i as int] == s.claims@[i as int]@);
            lemma_claims_canon_push(done, cv[i as int]);
            assert(done.push(cv[i as int]) =~= cv.subrange(0, i + 1 as int));
            assert(","@ =~= seq![',']);
            assert("\""@ =~= seq!['"']);
            if i == 0 {
                assert(claims_canon(done) =~= Seq::<char>::empty());
            }
            assert(out@ =~= head + claims_canon(cv.subrange(0, i + 1 as int)));
        }
        i += 1;
    }
    proof {
        assert(claim_views(s.claims@).subrange(0, s.claims@.len() as int) =~= claim_views(
            s.claims@,
        ));
    }
    out.append("],\"cpc_code\":\"");
    append_escaped(&mut out, s.cpc_code.as_str());
    out.append("\"}");
    proof {
        assert(out@ =~= canonical_of(s.content()));
    }
    out
}

/// Builds the canonical ledger message for an anchoring submission.
pub fn anchor_message(hash: &str, cpc: &str, wallet: &str, created_at: &str) -> (out: String)
    ensures
        out@ == anchor_message_of(hash@, cpc@, wallet@, created_at@),
{
    let mut out = String::new();
    out.append("{\"hash\":\"");
    append_escaped(&mut out, hash);
    out.append("\",\"cpc_code\":\"");
    append_escaped(&mut out, cpc);
    out.append("\",\"user_wallet\":\"");
    append_escaped(&mut out, wallet);
    out.append("\",\"created_at\":\"");
    append_escaped(&mut out, created_at);
    out.append("\"}");
    proof {
        assert(out@ =~= anchor_message_of(hash@, cpc@, wallet@, created_at@));
    }
    out
}

/// The characters between the opening of a message's hash field and the
/// next quote, or nothing if no quote follows.
pub open spec fn up_to_quote(s: Seq<char>) -> Option<Seq<char>>
    decreases s.len(),
{
    if s.len() == 0 {
        None
    } else if s[0] == '"' {
        Some(Seq::empty())
    } else {
        match up_to_quote(s.drop_first()) {
            Some(r) => Some(seq![s[0]] + r),
            None => None,
        }
    }
}

/// The hash a ledger message carries: what stands between the canonical
/// `hash` field opening and the next quote. A message that does not open
/// that way carries none.
pub open spec fn extracted_hash(m: Seq<char>) -> Option<Seq<char>> {
    if m.len() >= 9 && m.subrange(0, 9) == "{\"hash\":\""@ {
        up_to_quote(m.skip(9))
    } else {
        None
    }
}

pub open spec fn opt_prepend(p: Seq<char>, o: Option<Seq<char>>) -> Option<Seq<char>> {
    match o {
        Some(r) => Some(p + r),
        None => None,
    }
}

/// Reads the hash field out of a ledger message, if the message opens
/// with the canonical hash field.
pub fn extract_hash(message: &str) -> (r: Option<String>)
    ensures
        match r {
            Some(h) => extracted_hash(message@) == Some(h@),
            None => extracted_hash(message@) is None,
        },
{
    proof {
        reveal_strlit("{\"hash\":\"");
    }
    let n = message.unicode_len();
    if n < 9 {
        return None;
    }
    let prefix = "{\"hash\":\"";
    let mut j: usize = 0;
    while j < 9
        invariant
            j <= 9,
            n == message@.len(),
            n >= 9,
            prefix@ == "{\"hash\":\""@,
            prefix@.len() == 9,
            forall|k: int| 0 <= k < j ==> message@[k] == prefix@[k],
        decreases 9 - j,
    {
        if message.get_char(j) != prefix.get_char(j) {
            proof {
                assert(message@.subrange(0, 9)[j as int] != "{\"hash\":\""@[j as int]);
            }
            return None;
        }
        j += 1;
    }
    proof {
        assert(message@.subrange(0, 9) =~= "{\"hash\":\""@);
    }
    let mut out = String::new();
    let mut i: usize = 9;
    while i < n
        invariant
            9 <= i <= n,
            n == message@.len(),
            up_to_quote(message@.skip(9)) == opt_prepend(out@, up_to_quote(message@.skip(i as int))),
            message@.subrange(0, 9) == "{\"hash\":\""@,
        decreases n - i,
    {
        let c = message.get_char(i);
        proof {
            assert(message@.skip(i as int)[0] == message@[i as int]);
            assert(message@.skip(i as int).drop_first() =~= message@.skip(i + 1 as int));
        }
        if c == '"' {
            proof {
                assert(up_to_quote(message@.skip(i as int)) == Some(Seq::<char>::empty()));
                assert(out@ + Seq::<char>::empty() =~= out@);
            }
            return Some(out);
        }
        out.push(c);
        proof {
            let tail = up_to_quote(message@.skip(i + 1 as int));
            if tail is Some {
                assert(out@.subrange(0, out@.len() - 1) + (seq![c] + tail.unwrap()) =~= out@
                    + tail.unwrap());
            }
        }
        i += 1;
    }
    proof {
        assert(message@.skip(n as int) =~= Seq::<char>::empty());
    }
    None
}

/// When the hash holds no quote and the rest opens with one, the scan
/// recovers the hash exactly.
pub proof fn lemma_up_to_quote_of_plain_prefix(h: Seq<char>, rest: Seq<char>)
    requires
        forall|i: int| 0 <= i < h.len() ==> h[i] != '"',
        rest.len() > 0,
        rest[0] == '"',
    ensures
        up_to_quote(h + rest) == Some(h),
    decreases h.len(),
{
    if h.len() == 0 {
        assert(h + rest =~= rest);
        assert(Seq::<char>::empty() =~= h);
    } else {
        assert(forall|i: int| 0 <= i < h.drop_first().len() ==> h.drop_first()[i] != '"');
        lemma_up_to_quote_of_plain_prefix(h.drop_first(), rest);
        assert((h + rest).drop_first() =~= h.drop_first() + rest);
        assert((h + rest)[0] == h[0]);
        assert(seq![h[0]] + h.drop_first() =~= h);
    }
}

/// Law: the hash written into a canonical anchor message is read back
/// exactly by the verification-side scan, whatever the other fields
/// hold. This ties the anchoring path and the verification path to one
/// payload definition.
pub proof fn lemma_anchor_message_roundtrip(
    hash: Seq<char>,
    cpc: Seq<char>,
    wallet: Seq<char>,
    created_at: Seq<char>,
)
    requires
        forall|i: int| 0 <= i < hash.len() ==> hash[i] != '"' && hash[i] != '\\',
    ensures
        extracted_hash(anchor_message_of(hash, cpc, wallet, created_at)) == Some(hash),
{
    reveal_strlit("{\"hash\":\"");
    reveal_strlit("\",\"cpc_code\":\"");
    let m = anchor_message_of(hash, cpc, wallet, created_at);
    let p = "{\"hash\":\""@;
    let rest = "\",\"cpc_code\":\""@ + escaped(cpc) + "\",\"user_wallet\":\""@ + escaped(wallet)
        + "\",\"created_at\":\""@ + escaped(created_at) + "\"}"@;
    lemma_escaped_plain(hash);
    assert(p.len() == 9);
    assert(m =~= p + (hash + rest));
    assert(m.skip(9) =~= hash + rest);
    assert(m.subrange(0, 9) =~= p);
    assert(rest[0] == '"');
    lemma_up_to_quote_of_plain_prefix(hash, rest);
}

} // verus!
