//! Query-string assembly: decimal rendering, `key=value` joining, and the
//! canonical parameter ordering that signed requests are built over.

use vstd::prelude::*;
use chrono::Utc;

verus! {

/// The decimal digit character for a value below ten.
pub open spec fn spec_digit_char(d: int) -> char {
    if d == 0 { '0' }
    else if d == 1 { '1' }
    else if d == 2 { '2' }
    else if d == 3 { '3' }
    else if d == 4 { '4' }
    else if d == 5 { '5' }
    else if d == 6 { '6' }
    else if d == 7 { '7' }
    else if d == 8 { '8' }
    else { '9' }
}

/// The decimal rendering of a natural number, most significant digit first,
/// with no leading zeros (zero itself renders as "0").
pub open spec fn spec_u64_string(n: nat) -> Seq<char>
    decreases n,
{
    if n < 10 {
        seq![spec_digit_char(n as int)]
    } else {
        spec_u64_string(n / 10) + seq![spec_digit_char((n % 10) as int)]
    }
}

/// The numeric value of a decimal digit character; zero for anything else.
pub open spec fn spec_digit_value(c: char) -> nat {
    if c == '0' { 0 }
    else if c == '1' { 1 }
    else if c == '2' { 2 }
    else if c == '3' { 3 }
    else if c == '4' { 4 }
    else if c == '5' { 5 }
    else if c == '6' { 6 }
    else if c == '7' { 7 }
    else if c == '8' { 8 }
    else if c == '9' { 9 }
    else { 0 }
}

/// The number a sequence of decimal digit characters denotes.
pub open spec fn spec_parse_u64(s: Seq<char>) -> nat
    decreases s.len(),
{
    if s.len() == 0 {
        0
    } else {
        spec_parse_u64(s.drop_last()) * 10 + spec_digit_value(s.last())
    }
}

/// Law: the decimal rendering is faithful — reading its digits back yields
/// the number that was rendered.
pub proof fn lemma_u64_string_round_trip(n: nat)
    ensures
        spec_parse_u64(spec_u64_string(n)) == n,
    decreases n,
{
    if n < 10 {
        let s = spec_u64_string(n);
        assert(s.drop_last() =~= Seq::<char>::empty());
        assert(spec_parse_u64(Seq::<char>::empty()) == 0);
        assert(spec_digit_value(s.last()) == n);
        assert(spec_parse_u64(s) == 0 * 10 + n);
    } else {
        lemma_u64_string_round_trip(n / 10);
        let s = spec_u64_string(n);
        assert(s.drop_last() =~= spec_u64_string(n / 10));
        assert(s.last() == spec_digit_char((n % 10) as int));
        assert(spec_digit_value(s.last()) == n % 10);
        assert(spec_parse_u64(s) == (n / 10) * 10 + (n % 10));
        assert((n / 10) * 10 + (n % 10) == n) by (nonlinear_arith);
    }
}

/// Relies on `str`'s `PartialEq`: two string slices are equal exactly when
/// their character sequences are equal.
#[verifier::external_body]
pub(crate) fn str_eq(a: &str, b: &str) -> (r: bool)
    ensures
        r == (a@ == b@),
{
    a == b
}

/// Relies on `String::push`: appends one character at the end of the string.
#[verifier::external_body]
pub(crate) fn string_push(s: &mut String, c: char)
    ensures
        final(s)@ == old(s)@ + seq![c],
{
    s.push(c);
}

fn digit_char(d: u64) -> (c: char)
    requires
        d < 10,
    ensures
        c == spec_digit_char(d as int),
{
    match d {
        0 => '0',
        1 => '1',
        2 => '2',
        3 => '3',
        4 => '4',
        5 => '5',
        6 => '6',
        7 => '7',
        8 => '8',
        _ => '9',
    }
}

/// Renders an unsigned number in decimal, exactly as the canonical query
/// string carries numeric parameter values.
pub fn u64_string(n: u64) -> (s: String)
    ensures
        s@ == spec_u64_string(n as nat),
    decreases n,
{
    if n < 10 {
        let mut s = String::new();
        string_push(&mut s, digit_char(n));
        proof {
            assert(s@ =~= spec_u64_string(n as nat));
        }
        s
    } else {
        let mut s = u64_string(n / 10);
        string_push(&mut s, digit_char(n % 10));
        proof {
            assert(s@ =~= spec_u64_string(n as nat));
        }
        s
    }
}

/// One `key=value` token.
pub open spec fn spec_pair_str(k: Seq<char>, v: Seq<char>) -> Seq<char> {
    k + seq!['='] + v
}

/// `key=value` pairs joined with `&`, in the order given.
pub open spec fn spec_query(ps: Seq<(Seq<char>, Seq<char>)>) -> Seq<char>
    decreases ps.len(),
{
    if ps.len() == 0 {
        Seq::empty()
    } else if ps.len() == 1 {
        spec_pair_str(ps[0].0, ps[0].1)
    } else {
        spec_query(ps.drop_last()) + seq!['&'] + spec_pair_str(ps.last().0, ps.last().1)
    }
}

/// The views of a list of owned parameter pairs.
pub open spec fn pair_views(ps: Seq<(String, String)>) -> Seq<(Seq<char>, Seq<char>)> {
    ps.map_values(|p: (String, String)| (p.0@, p.1@))
}

/// Joins the parameters into a `k=v&k=v` query string, in the order given.
/// Entries whose key is empty are dropped; every other entry is kept
/// unrewritten.
pub fn build_request(parameters: &Vec<(String, String)>) -> (r: String)
    ensures
        r@ == spec_query(spec_keep_named(pair_views(parameters@))),
{
    let ghost views = pair_views(parameters@);
    let mut entries: Vec<(String, String)> = Vec::new();
    let mut i: usize = 0;
    proof {
        assert(spec_keep_named(views.take(0)) =~= Seq::<(Seq<char>, Seq<char>)>::empty());
    }
    while i < parameters.len()
        invariant
            i <= parameters.len(),
            views == pair_views(parameters@),
            views.len() == parameters@.len(),
            pair_views(entries@) =~= spec_keep_named(views.take(i as int)),
        decreases parameters.len() - i,
    {
        let ghost before = entries@;
        if !parameters[i].0.as_str().is_empty() {
            let k = parameters[i].0.clone();
            let v = parameters[i].1.clone();
            entries.push((k, v));
        }
        proof {
            assert(views.take(i + 1).drop_last() =~= views.take(i as int));
            assert(views.take(i + 1).last() == views[i as int]);
            if parameters@[i as int].0@.len() > 0 {
                assert(pair_views(entries@) =~= pair_views(before) + seq![views[i as int]]);
            } else {
                assert(entries@ == before);
            }
        }
        i = i + 1;
    }
    proof {
        assert(views.take(parameters@.len() as int) =~= views);
    }
    join_pairs(&entries)
}

/// Law: a parameter list without empty-named entries passes the empty-key
/// filter unchanged.
pub proof fn lemma_keep_named_identity(ps: Seq<(Seq<char>, Seq<char>)>)
    requires
        forall|i: int| 0 <= i < ps.len() ==> #[trigger] ps[i].0.len() > 0,
    ensures
        spec_keep_named(ps) == ps,
    decreases ps.len(),
{
    if ps.len() > 0 {
        lemma_keep_named_identity(ps.drop_last());
        assert(spec_keep_named(ps) =~= ps);
    } else {
        assert(spec_keep_named(ps) =~= ps);
    }
}

/// Joins entries into a `k=v&k=v` string, keeping every entry as given.
fn join_pairs(parameters: &Vec<(String, String)>) -> (r: String)
    ensures
        r@ == spec_query(pair_views(parameters@)),
{
    let ghost views = pair_views(parameters@);
    let mut r = String::new();
    let mut i: usize = 0;
    proof {
        assert(views.take(0) =~= Seq::<(Seq<char>, Seq<char>)>::empty());
    }
    while i < parameters.len()
        invariant
            i <= parameters.len(),
            views == pair_views(parameters@),
            views.len() == parameters@.len(),
            r@ == spec_query(views.take(i as int)),
        decreases parameters.len() - i,
    {
        if i > 0 {
            string_push(&mut r, '&');
        }
        r.append(parameters[i].0.as_str());
        string_push(&mut r, '=');
        r.append(parameters[i].1.as_str());
        proof {
            assert(views.take(i + 1).drop_last() =~= views.take(i as int));
            assert(views.take(i + 1).last() == views[i as int]);
            assert(r@ =~= spec_query(views.take(i + 1)));
        }
        i = i + 1;
    }
    proof {
        assert(views.take(parameters@.len() as int) =~= views);
    }
    r
}

/// The caller-supplied entries that survive into a signed query: pairs with
/// an empty key are dropped, everything else keeps its order.
pub open spec fn spec_keep_named(ps: Seq<(Seq<char>, Seq<char>)>) -> Seq<(Seq<char>, Seq<char>)>
    decreases ps.len(),
{
    if ps.len() == 0 {
        Seq::empty()
    } else if ps.last().0.len() == 0 {
        spec_keep_named(ps.drop_last())
    } else {
        spec_keep_named(ps.drop_last()) + seq![ps.last()]
    }
}

/// The full ordered entry list of a signed request: `recvWindow` first when
/// the window is positive, then `timestamp`, then the named caller entries.
pub open spec fn spec_signed_entries(
    ps: Seq<(Seq<char>, Seq<char>)>,
    recv_window: u64,
    timestamp: u64,
) -> Seq<(Seq<char>, Seq<char>)> {
    let head: Seq<(Seq<char>, Seq<char>)> = if recv_window > 0 {
        seq![("recvWindow"@, spec_u64_string(recv_window as nat))]
    } else {
        Seq::empty()
    };
    head + seq![("timestamp"@, spec_u64_string(timestamp as nat))] + spec_keep_named(ps)
}

/// The canonical query string that is signed.
pub open spec fn spec_canonical_query(
    ps: Seq<(Seq<char>, Seq<char>)>,
    recv_window: u64,
    timestamp: u64,
) -> Seq<char> {
    spec_query(spec_signed_entries(ps, recv_window, timestamp))
}

/// Builds the canonical query for the given timestamp: `recvWindow` is
/// emitted first and only when the window is positive, `timestamp` always
/// follows, and the caller parameters come last in their given order with
/// empty-named entries dropped.
pub fn build_signed_request_with_timestamp(
    parameters: &Vec<(String, String)>,
    recv_window: u64,
    timestamp: u64,
) -> (r: String)
    ensures
        r@ == spec_canonical_query(pair_views(parameters@), recv_window, timestamp),
{
    let ghost views = pair_views(parameters@);
    let mut entries: Vec<(String, String)> = Vec::new();
    if recv_window > 0 {
        entries.push((String::from_str("recvWindow"), u64_string(recv_window)));
    }
    entries.push((String::from_str("timestamp"), u64_string(timestamp)));
    let ghost head = entries@;
    proof {
        assert(spec_keep_named(views.take(0)) =~= Seq::<(Seq<char>, Seq<char>)>::empty());
        assert(pair_views(head) =~= spec_signed_entries(views, recv_window, timestamp).take(
            head.len() as int,
        ));
    }
    let mut i: usize = 0;
    while i < parameters.len()
        invariant
            i <= parameters.len(),
            views == pair_views(parameters@),
            views.len() == parameters@.len(),
            pair_views(entries@) =~= pair_views(head) + spec_keep_named(views.take(i as int)),
        decreases parameters.len() - i,
    {
        let ghost before = entries@;
        if !parameters[i].0.as_str().is_empty() {
            let k = parameters[i].0.clone();
            let v = parameters[i].1.clone();
            entries.push((k, v));
        }
        proof {
            assert(views.take(i + 1).drop_last() =~= views.take(i as int));
            assert(views.take(i + 1).last() == views[i as int]);
            if parameters@[i as int].0@.len() > 0 {
                assert(pair_views(entries@) =~= pair_views(before) + seq![views[i as int]]);
            } else {
                assert(entries@ == before);
            }
        }
        i = i + 1;
    }
    proof {
        assert(views.take(parameters@.len() as int) =~= views);
        assert(pair_views(entries@) =~= spec_signed_entries(views, recv_window, timestamp));
    }
    join_pairs(&entries)
}

/// Appends one `key=value` entry to a parameter list.
pub fn push_param(entries: &mut Vec<(String, String)>, key: &str, value: String)
    ensures
        pair_views(final(entries)@) == pair_views(old(entries)@).push((key@, value@)),
{
    entries.push((key.to_owned(), value));
    proof {
        assert(pair_views(entries@) =~= pair_views(old(entries)@).push((key@, value@)));
    }
}

/// Appends a `key=value` entry when the optional value is set, and nothing
/// otherwise.
pub fn push_opt_param(entries: &mut Vec<(String, String)>, key: &str, value: &Option<String>)
    ensures
        pair_views(final(entries)@) == pair_views(old(entries)@) + (if value is Some {
            seq![(key@, value->Some_0@)]
        } else {
            Seq::empty()
        }),
{
    match value {
        Some(v) => {
            push_param(entries, key, v.clone());
            proof {
                assert(pair_views(entries@) =~= pair_views(old(entries)@) + seq![
                    (key@, value->Some_0@),
                ]);
            }
        },
        None => {
            proof {
                assert(pair_views(entries@) =~= pair_views(entries@) + Seq::<
                    (Seq<char>, Seq<char>),
                >::empty());
            }
        },
    }
}

/// Appends a `key=value` entry with the decimal rendering of the optional
/// number when it is set, and nothing otherwise.
pub fn push_opt_u64(entries: &mut Vec<(String, String)>, key: &str, value: Option<u64>)
    ensures
        pair_views(final(entries)@) == pair_views(old(entries)@) + (if value is Some {
            seq![(key@, spec_u64_string(value->Some_0 as nat))]
        } else {
            Seq::empty()
        }),
{
    match value {
        Some(v) => {
            push_param(entries, key, u64_string(v));
            proof {
                assert(pair_views(entries@) =~= pair_views(old(entries)@) + seq![
                    (key@, spec_u64_string(value->Some_0 as nat)),
                ]);
            }
        },
        None => {
            proof {
                assert(pair_views(entries@) =~= pair_views(entries@) + Seq::<
                    (Seq<char>, Seq<char>),
                >::empty());
            }
        },
    }
}

/// The uppercase form of a string. Unicode case mapping is a function of the
/// characters alone; it is only named here.
pub uninterp spec fn upper_of(s: Seq<char>) -> Seq<char>;

/// Relies on `str::to_uppercase`: the Unicode uppercase form of the text.
#[verifier::external_body]
pub(crate) fn to_uppercase(s: &str) -> (r: String)
    ensures
        r@ == upper_of(s@),
{
    s.to_uppercase()
}

/// Relies on chrono's `Utc::now`: the current wall-clock time, taken as
/// milliseconds since the Unix epoch. The value depends on the clock, so
/// nothing is stated of it.
#[verifier::external_body]
pub fn get_timestamp() -> u64 {
    Utc::now().timestamp_millis() as u64
}

/// Builds the canonical query for a timestamp read from the wall clock.
pub fn build_signed_request(parameters: &Vec<(String, String)>, recv_window: u64) -> (r: String)
    ensures
        exists|ts: u64|
            r@ == spec_canonical_query(pair_views(parameters@), recv_window, ts),
{
    let ts = get_timestamp();
    let r = build_signed_request_with_timestamp(parameters, recv_window, ts);
    proof {
        assert(r@ == spec_canonical_query(pair_views(parameters@), recv_window, ts));
    }
    r
}

/// The number of milliseconds in the given number of days.
pub fn days_millis(days: i64) -> (r: i64)
    requires
        -106751991167 <= days <= 106751991167,
    ensures
        r == days * 86400000,
{
    days * 86400000
}

/// The lower-case rendering of a boolean parameter value.
pub open spec fn spec_bool_param(b: bool) -> Seq<char> {
    if b {
        "true"@
    } else {
        "false"@
    }
}

/// Renders a boolean parameter value in lower case.
pub fn bool_param(b: bool) -> (r: String)
    ensures
        r@ == spec_bool_param(b),
{
    if b {
        String::from_str("true")
    } else {
        String::from_str("false")
    }
}

/// The upper-case rendering of a boolean parameter value.
pub open spec fn spec_bool_param_upper(b: bool) -> Seq<char> {
    if b {
        "TRUE"@
    } else {
        "FALSE"@
    }
}

/// Renders a flag the way the remote API expects boolean parameters.
pub fn bool_to_string(b: bool) -> (r: String)
    ensures
        b ==> r@ == "TRUE"@,
        !b ==> r@ == "FALSE"@,
{
    if b {
        String::from_str("TRUE")
    } else {
        String::from_str("FALSE")
    }
}

/// The rendered flag, wrapped for optional-parameter plumbing.
pub fn bool_to_string_some(b: bool) -> (r: Option<String>)
    ensures
        r is Some,
        b ==> r->Some_0@ == "TRUE"@,
        !b ==> r->Some_0@ == "FALSE"@,
{
    Some(bool_to_string(b))
}

} // verus!
