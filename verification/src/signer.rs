//! Signing layer: hex encoding, the HMAC-SHA256 digest, and the assembly of
//! a signed query from the canonical string.

use vstd::prelude::*;
use hmac::Mac;
use crate::util::{
    build_signed_request_with_timestamp, pair_views, spec_canonical_query, spec_keep_named,
    spec_signed_entries, string_push,
};

verus! {

/// The lower-case hex character for a value below sixteen.
pub open spec fn spec_hex_char(d: int) -> char {
    if d == 0 { '0' }
    else if d == 1 { '1' }
    else if d == 2 { '2' }
    else if d == 3 { '3' }
    else if d == 4 { '4' }
    else if d == 5 { '5' }
    else if d == 6 { '6' }
    else if d == 7 { '7' }
    else if d == 8 { '8' }
    else if d == 9 { '9' }
    else if d == 10 { 'a' }
    else if d == 11 { 'b' }
    else if d == 12 { 'c' }
    else if d == 13 { 'd' }
    else if d == 14 { 'e' }
    else { 'f' }
}

/// The lower-case hex rendering of a byte sequence, two characters per byte.
pub open spec fn spec_hex(data: Seq<u8>) -> Seq<char>
    decreases data.len(),
{
    if data.len() == 0 {
        Seq::empty()
    } else {
        spec_hex(data.drop_last()) + seq![
            spec_hex_char((data.last() / 16) as int),
            spec_hex_char((data.last() % 16) as int),
        ]
    }
}

fn hex_char(d: u8) -> (c: char)
    requires
        d < 16,
    ensures
        c == spec_hex_char(d as int),
{
    match d {
        0 => '0',
        1 => '1',
        2 => '2',
        3 => '3',
        4 => '4',
        5 => '5',
        6 => '6',
        7 => '7',
        8 => '8',
        9 => '9',
        10 => 'a',
        11 => 'b',
        12 => 'c',
        13 => 'd',
        14 => 'e',
        _ => 'f',
    }
}

/// Hex-encodes a byte string in lower case, two digits per byte.
pub fn hex_string(data: &Vec<u8>) -> (s: String)
    ensures
        s@ == spec_hex(data@),
{
    let mut s = String::new();
    let mut i: usize = 0;
    proof {
        assert(data@.take(0) =~= Seq::<u8>::empty());
    }
    while i < data.len()
        invariant
            i <= data@.len(),
            s@ == spec_hex(data@.take(i as int)),
        decreases data@.len() - i,
    {
        let b = data[i];
        string_push(&mut s, hex_char(b / 16));
        string_push(&mut s, hex_char(b % 16));
        proof {
            assert(data@.take(i + 1).drop_last() =~= data@.take(i as int));
            assert(data@.take(i + 1).last() == data@[i as int]);
            assert(s@ =~= spec_hex(data@.take(i + 1)));
        }
        i = i + 1;
    }
    proof {
        assert(data@.take(data@.len() as int) =~= data@);
    }
    s
}

/// The HMAC-SHA256 digest of a message under a key, both given as text.
/// The digest is a function of key and message alone; its bytes are not
/// written out here, only named.
pub uninterp spec fn hmac_sha256_of(key: Seq<char>, msg: Seq<char>) -> Seq<u8>;

/// Relies on the `hmac` crate's `Hmac<Sha256>`: the digest is a function of
/// the key and message bytes alone and is 32 bytes long (SHA-256 output
/// size); `new_from_slice` accepts keys of every length for an HMAC, so the
/// call cannot fail.
#[verifier::external_body]
fn hmac_sha256(key: &str, msg: &str) -> (r: Vec<u8>)
    ensures
        r@ == hmac_sha256_of(key@, msg@),
        r@.len() == 32,
{
    let mut mac = match <hmac::Hmac<sha2::Sha256> as Mac>::new_from_slice(key.as_bytes()) {
        Ok(m) => m,
        Err(_) => return Vec::new(),
    };
    mac.update(msg.as_bytes());
    mac.finalize().into_bytes().to_vec()
}

/// The hex-encoded signature of a canonical query under a secret key.
pub open spec fn spec_signature(secret: Seq<char>, query: Seq<char>) -> Seq<char> {
    spec_hex(hmac_sha256_of(secret, query))
}

/// Signs the canonical query string: hex(HMAC-SHA256(secret, query)).
pub fn sign_query(secret: &str, query: &str) -> (r: String)
    ensures
        r@ == spec_signature(secret@, query@),
{
    let digest = hmac_sha256(secret, query);
    hex_string(&digest)
}

/// The full signed query: the canonical string with `&signature=<hex>`
/// appended. The signature never covers itself.
pub open spec fn spec_signed_query(secret: Seq<char>, query: Seq<char>) -> Seq<char> {
    query + "&signature="@ + spec_signature(secret, query)
}

/// Appends the signature parameter to an already-canonical query.
pub fn append_signature(secret: &str, query: String) -> (r: String)
    ensures
        r@ == spec_signed_query(secret@, query@),
{
    let sig = sign_query(secret, query.as_str());
    let mut r = query;
    r.append("&signature=");
    r.append(sig.as_str());
    r
}

/// Builds and signs the canonical query for the given parameters, window,
/// timestamp and secret.
pub fn sign_request(
    parameters: &Vec<(String, String)>,
    recv_window: u64,
    timestamp: u64,
    secret: &str,
) -> (r: String)
    ensures
        r@ == spec_signed_query(
            secret@,
            spec_canonical_query(pair_views(parameters@), recv_window, timestamp),
        ),
{
    let canonical = build_signed_request_with_timestamp(parameters, recv_window, timestamp);
    append_signature(secret, canonical)
}

/// Law: signing is deterministic. Two requests built from equal parameter
/// lists, receive windows, timestamps and secrets carry the same canonical
/// string and the same signature.
pub proof fn lemma_sign_deterministic(
    p1: Seq<(Seq<char>, Seq<char>)>,
    p2: Seq<(Seq<char>, Seq<char>)>,
    w1: u64,
    w2: u64,
    t1: u64,
    t2: u64,
    s1: Seq<char>,
    s2: Seq<char>,
)
    requires
        p1 == p2,
        w1 == w2,
        t1 == t2,
        s1 == s2,
    ensures
        spec_canonical_query(p1, w1, t1) == spec_canonical_query(p2, w2, t2),
        spec_signed_query(s1, spec_canonical_query(p1, w1, t1)) == spec_signed_query(
            s2,
            spec_canonical_query(p2, w2, t2),
        ),
{
}

/// Law: the signed entry list carries a `recvWindow` entry exactly when the
/// window is positive. Stated for parameter lists that do not themselves
/// carry a `recvWindow` key, which the callers of this library never emit.
pub proof fn lemma_recv_window_presence(
    ps: Seq<(Seq<char>, Seq<char>)>,
    recv_window: u64,
    timestamp: u64,
)
    requires
        forall|i: int| 0 <= i < ps.len() ==> #[trigger] ps[i].0 != "recvWindow"@,
    ensures
        (recv_window > 0) <==> exists|i: int|
            0 <= i < spec_signed_entries(ps, recv_window, timestamp).len()
                && #[trigger] spec_signed_entries(ps, recv_window, timestamp)[i].0
                == "recvWindow"@,
{
    reveal_strlit("recvWindow");
    reveal_strlit("timestamp");
    assert("timestamp"@.len() == 9);
    assert("recvWindow"@.len() == 10);
    let entries = spec_signed_entries(ps, recv_window, timestamp);
    lemma_keep_named_entries(ps);
    if recv_window > 0 {
        assert(entries[0].0 == "recvWindow"@);
    } else {
        assert forall|i: int| 0 <= i < entries.len() implies #[trigger] entries[i].0
            != "recvWindow"@ by {
            if i == 0 {
                assert(entries[0].0 == "timestamp"@);
            } else {
                let kept = spec_keep_named(ps);
                assert(entries[i] == kept[i - 1]);
            }
        }
    }
}

/// A joined query starts with its first entry's `key=value` token.
proof fn lemma_query_first_entry(entries: Seq<(Seq<char>, Seq<char>)>)
    requires
        entries.len() >= 1,
    ensures
        exists|rest: Seq<char>|
            crate::util::spec_query(entries) == crate::util::spec_pair_str(entries[0].0, entries[0].1) + rest,
    decreases entries.len(),
{
    let pair0 = crate::util::spec_pair_str(entries[0].0, entries[0].1);
    if entries.len() == 1 {
        assert(crate::util::spec_query(entries) =~= pair0 + Seq::<char>::empty());
    } else {
        lemma_query_first_entry(entries.drop_last());
        assert(entries.drop_last()[0] == entries[0]);
        let rest0 = choose|rest0: Seq<char>|
            crate::util::spec_query(entries.drop_last()) == pair0 + rest0;
        let tail = rest0 + seq!['&'] + crate::util::spec_pair_str(
            entries.last().0,
            entries.last().1,
        );
        assert(crate::util::spec_query(entries) =~= pair0 + tail);
    }
}

/// Law: a positive window puts `recvWindow=` at the very front of the
/// canonical string; a zero window puts `timestamp=` there instead.
pub proof fn lemma_window_prefix(ps: Seq<(Seq<char>, Seq<char>)>, recv_window: u64, timestamp: u64)
    ensures
        recv_window > 0 ==> spec_canonical_query(ps, recv_window, timestamp).take(11)
            == "recvWindow="@,
        recv_window == 0 ==> spec_canonical_query(ps, recv_window, timestamp).take(10)
            == "timestamp="@,
{
    reveal_strlit("recvWindow");
    reveal_strlit("recvWindow=");
    reveal_strlit("timestamp");
    reveal_strlit("timestamp=");
    let entries = spec_signed_entries(ps, recv_window, timestamp);
    lemma_query_first_entry(entries);
    let rest = choose|rest: Seq<char>|
        crate::util::spec_query(entries) == crate::util::spec_pair_str(entries[0].0, entries[0].1) + rest;
    if recv_window > 0 {
        assert(entries[0].0 == "recvWindow"@);
        assert(spec_canonical_query(ps, recv_window, timestamp).take(11) =~= "recvWindow="@);
    } else {
        assert(entries[0].0 == "timestamp"@);
        assert(spec_canonical_query(ps, recv_window, timestamp).take(10) =~= "timestamp="@);
    }
}

/// Every entry that survives the empty-key filter comes from the original
/// parameter list.
proof fn lemma_keep_named_entries(ps: Seq<(Seq<char>, Seq<char>)>)
    ensures
        forall|j: int| 0 <= j < spec_keep_named(ps).len() ==> exists|i: int|
            0 <= i < ps.len() && ps[i] == #[trigger] spec_keep_named(ps)[j],
    decreases ps.len(),
{
    if ps.len() > 0 {
        lemma_keep_named_entries(ps.drop_last());
        let kept = spec_keep_named(ps);
        let prev = spec_keep_named(ps.drop_last());
        assert forall|j: int| 0 <= j < kept.len() implies exists|i: int|
            0 <= i < ps.len() && ps[i] == #[trigger] kept[j] by {
            if j < prev.len() {
                assert(kept[j] == prev[j]);
                let i = choose|i: int| 0 <= i < ps.drop_last().len() && ps.drop_last()[i] == prev[j];
                assert(ps[i] == kept[j]);
            } else {
                assert(kept[j] == ps.last());
                assert(ps[ps.len() - 1] == kept[j]);
            }
        }
    }
}

} // verus!
