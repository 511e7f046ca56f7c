//! Removal of hop-by-hop header fields.
use rama::http::headers::{Connection, Header};
use rama::http::{HeaderName, HeaderValue};
use vstd::prelude::*;
use vstd::string::is_ascii;

verus! {

/// One header field: its name and its raw value, both as bytes.
pub struct HeaderField {
    pub name: Vec<u8>,
    pub value: Vec<u8>,
}

impl View for HeaderField {
    type V = (Seq<u8>, Seq<u8>);

    open spec fn view(&self) -> (Seq<u8>, Seq<u8>) {
        (self.name@, self.value@)
    }
}

/// The abstract value of a header list: its fields in order.
pub open spec fn fields_view(hs: Seq<HeaderField>) -> Seq<(Seq<u8>, Seq<u8>)> {
    hs.map_values(|f: HeaderField| f@)
}

/// ASCII lower case of one byte (`A` to `Z` are 65 to 90).
pub open spec fn lower_byte(b: u8) -> u8 {
    if 65 <= b && b <= 90 {
        (b + 32) as u8
    } else {
        b
    }
}

/// ASCII lower case of a byte string; header names compare through it.
pub open spec fn lower(s: Seq<u8>) -> Seq<u8> {
    s.map_values(|b: u8| lower_byte(b))
}

/// The bytes of an ASCII text.
pub open spec fn ascii(s: Seq<char>) -> Seq<u8> {
    s.map_values(|c: char| c as u8)
}

pub open spec fn connection_name() -> Seq<u8> {
    ascii("connection"@)
}

/// The names that are hop-by-hop whatever the message holds (lower case).
pub open spec fn is_fixed_hop(n: Seq<u8>) -> bool {
    ||| n == connection_name()
    ||| n == ascii("keep-alive"@)
    ||| n == ascii("proxy-authenticate"@)
    ||| n == ascii("proxy-authorization"@)
    ||| n == ascii("te"@)
    ||| n == ascii("trailer"@)
    ||| n == ascii("transfer-encoding"@)
    ||| n == ascii("upgrade"@)
}

/// Whether the `Connection` header value `value` names `name` as a
/// connection option.
pub uninterp spec fn connection_lists(value: Seq<u8>, name: Seq<u8>) -> bool;

/// Whether some `Connection` field of `hs` names `n`.
pub open spec fn is_listed(hs: Seq<(Seq<u8>, Seq<u8>)>, n: Seq<u8>) -> bool {
    exists|i: int|
        0 <= i < hs.len() && lower(#[trigger] hs[i].0) == connection_name() && connection_lists(
            hs[i].1,
            n,
        )
}

/// Whether a field named `n` is hop-by-hop in the message with fields `hs`.
pub open spec fn is_hop_by_hop(hs: Seq<(Seq<u8>, Seq<u8>)>, n: Seq<u8>) -> bool {
    is_fixed_hop(lower(n)) || is_listed(hs, n)
}

/// The fields of `hs` that survive sanitising, in their order.
pub open spec fn sanitized(hs: Seq<(Seq<u8>, Seq<u8>)>) -> Seq<(Seq<u8>, Seq<u8>)> {
    hs.filter(kept_in(hs))
}

/// Whether a field stays when the message with fields `hs` is sanitised.
pub open spec fn kept_in(hs: Seq<(Seq<u8>, Seq<u8>)>) -> spec_fn((Seq<u8>, Seq<u8>)) -> bool {
    |f: (Seq<u8>, Seq<u8>)| !is_hop_by_hop(hs, f.0)
}


/// Whether `n` is the ASCII text `lit`.
pub(crate) fn is_name(n: &[u8], lit: &str) -> (r: bool)
    requires
        is_ascii(lit),
    ensures
        r == (n@ == ascii(lit@)),
{
    broadcast use vstd::string::is_ascii_spec_bytes;
    let l = lit.as_bytes();
    assert(l@ =~= ascii(lit@));
    if n.len() != l.len() {
        return false;
    }
    let mut i: usize = 0;
    while i < n.len()
        invariant
            i <= n@.len(),
            n@.len() == l@.len(),
            l@ == ascii(lit@),
            forall|k: int| 0 <= k < i ==> n@[k] == l@[k],
        decreases n@.len() - i,
    {
        if n[i] != l[i] {
            assert(n@[i as int] != l@[i as int]);
            return false;
        }
        i = i + 1;
    }
    assert(n@ =~= l@);
    true
}

fn is_connection_name(n: &[u8]) -> (r: bool)
    ensures
        r == (n@ == connection_name()),
{
    proof {
        reveal_strlit("connection");
    }
    is_name(n, "connection")
}

fn is_fixed_hop_name(n: &[u8]) -> (r: bool)
    ensures
        r == is_fixed_hop(n@),
{
    proof {
        reveal_strlit("connection");
        reveal_strlit("keep-alive");
        reveal_strlit("proxy-authenticate");
        reveal_strlit("proxy-authorization");
        reveal_strlit("te");
        reveal_strlit("trailer");
        reveal_strlit("transfer-encoding");
        reveal_strlit("upgrade");
    }
    is_name(n, "connection") || is_name(n, "keep-alive") || is_name(n, "proxy-authenticate")
        || is_name(n, "proxy-authorization") || is_name(n, "te") || is_name(n, "trailer")
        || is_name(n, "transfer-encoding") || is_name(n, "upgrade")
}

/// Relies on rama's typed `Connection` header: `Header::decode` of one value,
/// then `Connection::contains`, which compares the options ignoring ASCII case.
/// A value or a name that is not a valid header value or name lists nothing.
#[verifier::external_body]
fn connection_value_lists(value: &[u8], name: &[u8]) -> (r: bool)
    ensures
        r == connection_lists(value@, name@),
{
    let (Ok(v), Ok(n)) = (HeaderValue::from_bytes(value), HeaderName::from_bytes(name)) else {
        return false;
    };
    match Connection::decode(&mut std::iter::once(&v)) {
        Ok(c) => c.contains(n),
        Err(_) => false,
    }
}

/// ASCII lower case of a name.
pub fn lower_bytes(s: &[u8]) -> (r: Vec<u8>)
    ensures
        r@ == lower(s@),
{
    let mut r: Vec<u8> = Vec::new();
    let mut i: usize = 0;
    while i < s.len()
        invariant
            i <= s@.len(),
            r@ == lower(s@.take(i as int)),
        decreases s@.len() - i,
    {
        let b = s[i];
        let c: u8 = if 65 <= b && b <= 90 { b + 32 } else { b };
        r.push(c);
        assert(s@.take(i + 1) == s@.take(i as int).push(b));
        i = i + 1;
    }
    assert(s@.take(s@.len() as int) == s@);
    r
}

/// Whether some `Connection` field of `headers` names `name`.
pub fn is_connection_listed(headers: &Vec<HeaderField>, name: &[u8]) -> (r: bool)
    ensures
        r == is_listed(fields_view(headers@), name@),
{
    let ghost hs = fields_view(headers@);
    let mut i: usize = 0;
    while i < headers.len()
        invariant
            i <= headers@.len(),
            hs == fields_view(headers@),
            forall|k: int|
                0 <= k < i ==> !(lower(#[trigger] hs[k].0) == connection_name()
                    && connection_lists(hs[k].1, name@)),
        decreases headers@.len() - i,
    {
        let f = &headers[i];
        let l = lower_bytes(f.name.as_slice());
        if is_connection_name(l.as_slice()) && connection_value_lists(f.value.as_slice(), name) {
            assert(hs[i as int] == f@);
            assert(lower(hs[i as int].0) == connection_name() && connection_lists(
                hs[i as int].1,
                name@,
            ));
            return true;
        }
        i = i + 1;
    }
    false
}

/// Of the fields `hs`, those with no fixed hop-by-hop name whose flag in
/// `listed` is off, in their order.
pub open spec fn kept_given(hs: Seq<(Seq<u8>, Seq<u8>)>, listed: Seq<bool>) -> Seq<
    (Seq<u8>, Seq<u8>),
>
    decreases hs.len(),
{
    if hs.len() == 0 {
        seq![]
    } else {
        let prev = kept_given(hs.drop_last(), listed.drop_last());
        if !is_fixed_hop(lower(hs.last().0)) && !listed.last() {
            prev.push(hs.last())
        } else {
            prev
        }
    }
}

/// For each field of `hs`, whether a `Connection` field of `hs` names it.
pub open spec fn listed_flags(hs: Seq<(Seq<u8>, Seq<u8>)>) -> Seq<bool> {
    Seq::new(hs.len(), |k: int| is_listed(hs, hs[k].0))
}

/// Takes out of `headers` every field with a fixed hop-by-hop name and every
/// field whose flag in `listed` is on (the fields that a `Connection` field
/// names). The other fields keep their order.
pub fn drop_hop_by_hop(headers: &Vec<HeaderField>, listed: &Vec<bool>) -> (r: Vec<HeaderField>)
    requires
        listed@.len() == headers@.len(),
    ensures
        fields_view(r@) == kept_given(fields_view(headers@), listed@),
{
    let ghost hs = fields_view(headers@);
    let mut r: Vec<HeaderField> = Vec::new();
    let mut i: usize = 0;
    while i < headers.len()
        invariant
            i <= headers@.len(),
            listed@.len() == headers@.len(),
            hs == fields_view(headers@),
            fields_view(r@) == kept_given(hs.take(i as int), listed@.take(i as int)),
        decreases headers@.len() - i,
    {
        let f = &headers[i];
        let l = lower_bytes(f.name.as_slice());
        let fixed = is_fixed_hop_name(l.as_slice());
        proof {
            assert(hs.take(i + 1).drop_last() == hs.take(i as int));
            assert(listed@.take(i + 1).drop_last() == listed@.take(i as int));
            assert(hs.take(i + 1).last() == f@);
        }
        if !fixed && !listed[i] {
            let ghost before = r@;
            r.push(HeaderField { name: f.name.clone(), value: f.value.clone() });
            assert(fields_view(r@) =~= fields_view(before).push(f@));
        }
        i = i + 1;
    }
    assert(hs.take(hs.len() as int) == hs);
    assert(listed@.take(hs.len() as int) == listed@);
    r
}

/// For each field of `headers`, whether a `Connection` field names it.
pub fn connection_listed_flags(headers: &Vec<HeaderField>) -> (r: Vec<bool>)
    ensures
        r@ == listed_flags(fields_view(headers@)),
{
    let ghost hs = fields_view(headers@);
    let mut r: Vec<bool> = Vec::new();
    let mut i: usize = 0;
    while i < headers.len()
        invariant
            i <= headers@.len(),
            hs == fields_view(headers@),
            r@ == listed_flags(hs).take(i as int),
        decreases headers@.len() - i,
    {
        let b = is_connection_listed(headers, headers[i].name.as_slice());
        r.push(b);
        assert(r@ =~= listed_flags(hs).take(i + 1));
        i = i + 1;
    }
    assert(r@ =~= listed_flags(hs));
    r
}

proof fn lemma_filter_is_kept_given(hs: Seq<(Seq<u8>, Seq<u8>)>, i: int)
    requires
        0 <= i <= hs.len(),
    ensures
        hs.take(i).filter(kept_in(hs)) == kept_given(hs.take(i), listed_flags(hs).take(i)),
    decreases i,
{
    reveal_with_fuel(Seq::filter, 1);
    if i > 0 {
        lemma_filter_is_kept_given(hs, i - 1);
        assert(hs.take(i).drop_last() == hs.take(i - 1));
        assert(listed_flags(hs).take(i).drop_last() == listed_flags(hs).take(i - 1));
    } else {
        assert(hs.take(0) =~= seq![]);
    }
}

/// The header list with every hop-by-hop field taken out: the fixed set
/// (`Connection`, `Keep-Alive`, `Proxy-Authenticate`, `Proxy-Authorization`,
/// `TE`, `Trailer`, `Transfer-Encoding`, `Upgrade`, in any case) and every
/// field that a `Connection` field names. The other fields keep their order.
pub fn sanitize(headers: &Vec<HeaderField>) -> (r: Vec<HeaderField>)
    ensures
        fields_view(r@) == sanitized(fields_view(headers@)),
        forall|k: int|
            0 <= k < r@.len() ==> !is_hop_by_hop(fields_view(headers@), #[trigger] r@[k].name@),
{
    let ghost hs = fields_view(headers@);
    let listed = connection_listed_flags(headers);
    let r = drop_hop_by_hop(headers, &listed);
    proof {
        lemma_filter_is_kept_given(hs, hs.len() as int);
        assert(hs.take(hs.len() as int) == hs);
        assert(listed_flags(hs).take(hs.len() as int) == listed_flags(hs));
        lemma_sanitized_has_no_hop_by_hop(hs);
        assert forall|k: int| 0 <= k < r@.len() implies !is_hop_by_hop(
            hs,
            #[trigger] r@[k].name@,
        ) by {
            assert(fields_view(r@)[k] == r@[k]@);
        }
    }
    r
}

/// No field that survives sanitising is hop-by-hop in the message it came
/// from: none has a name of the fixed set, none is named by a `Connection`
/// field.
pub proof fn lemma_sanitized_has_no_hop_by_hop(hs: Seq<(Seq<u8>, Seq<u8>)>)
    ensures
        forall|k: int|
            0 <= k < sanitized(hs).len() ==> !is_hop_by_hop(hs, #[trigger] sanitized(hs)[k].0),
{
    broadcast use vstd::seq_lib::group_filter_ensures;

}

proof fn lemma_filter_keeps_all<A>(s: Seq<A>, p: spec_fn(A) -> bool)
    requires
        forall|i: int| 0 <= i < s.len() ==> p(#[trigger] s[i]),
    ensures
        s.filter(p) == s,
    decreases s.len(),
{
    reveal_with_fuel(Seq::filter, 1);
    if s.len() > 0 {
        lemma_filter_keeps_all(s.drop_last(), p);
        assert(s.drop_last().push(s.last()) =~= s);
    }
}

/// A message that holds no `Connection` field lists no name.
proof fn lemma_no_connection_field_lists_nothing(hs: Seq<(Seq<u8>, Seq<u8>)>, n: Seq<u8>)
    requires
        forall|k: int| 0 <= k < hs.len() ==> lower(#[trigger] hs[k].0) != connection_name(),
    ensures
        !is_listed(hs, n),
{
}

/// Sanitising is idempotent: a sanitised header list comes back unchanged.
pub proof fn lemma_sanitize_idempotent(hs: Seq<(Seq<u8>, Seq<u8>)>)
    ensures
        sanitized(sanitized(hs)) == sanitized(hs),
{
    let s = sanitized(hs);
    lemma_sanitized_has_no_hop_by_hop(hs);
    assert forall|k: int| 0 <= k < s.len() implies lower(#[trigger] s[k].0) != connection_name() by {
        assert(!is_hop_by_hop(hs, s[k].0));
    }
    assert forall|k: int| 0 <= k < s.len() implies #[trigger] kept_in(s)(s[k]) by {
        assert(!is_hop_by_hop(hs, s[k].0));
        lemma_no_connection_field_lists_nothing(s, s[k].0);
    }
    lemma_filter_keeps_all(s, kept_in(s));
}

} // verus!
