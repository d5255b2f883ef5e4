//! The heads of requests and responses as plain values, and what the proxy
//! does to their header fields.

use vstd::prelude::*;

verus! {

/// The status of an answer that is passed on or rewritten.
pub const OK: u16 = 200;

/// The status that tells the caller that the upstream could not be reached.
pub const BAD_GATEWAY: u16 = 502;

/// The status for a file that is not served.
pub const NOT_FOUND: u16 = 404;

/// The head of a request: its method, its path and query, and its header
/// fields, each a pair of name and value, in the order in which they came.
#[derive(Clone, Debug, PartialEq, Eq)]
pub struct RequestHead {
    pub method: Vec<u8>,
    pub target: Vec<u8>,
    pub headers: Vec<(Vec<u8>, Vec<u8>)>,
}

/// A request head as a mathematical value.
pub struct RequestHeadView {
    pub method: Seq<u8>,
    pub target: Seq<u8>,
    pub headers: Seq<(Seq<u8>, Seq<u8>)>,
}

impl View for RequestHead {
    type V = RequestHeadView;

    open spec fn view(&self) -> RequestHeadView {
        RequestHeadView {
            method: self.method@,
            target: self.target@,
            headers: self.headers.deep_view(),
        }
    }
}

/// The head of a response: its status and its header fields.
#[derive(Clone, Debug, PartialEq, Eq)]
pub struct ResponseHead {
    pub status: u16,
    pub headers: Vec<(Vec<u8>, Vec<u8>)>,
}

/// A response head as a mathematical value.
pub struct ResponseHeadView {
    pub status: u16,
    pub headers: Seq<(Seq<u8>, Seq<u8>)>,
}

impl View for ResponseHead {
    type V = ResponseHeadView;

    open spec fn view(&self) -> ResponseHeadView {
        ResponseHeadView { status: self.status, headers: self.headers.deep_view() }
    }
}

/// The name `content-length`.
pub open spec fn content_length_name() -> Seq<u8> {
    seq![
        'c' as u8,
        'o' as u8,
        'n' as u8,
        't' as u8,
        'e' as u8,
        'n' as u8,
        't' as u8,
        '-' as u8,
        'l' as u8,
        'e' as u8,
        'n' as u8,
        'g' as u8,
        't' as u8,
        'h' as u8,
    ]
}

/// The lower-case form of an ASCII letter; any other byte is itself.
pub open spec fn lower(b: u8) -> u8 {
    if 'A' as u8 <= b <= 'Z' as u8 {
        (b + 0x20) as u8
    } else {
        b
    }
}

/// Two header names are the same name: they differ at most in the case of
/// their ASCII letters.
pub open spec fn same_name(a: Seq<u8>, b: Seq<u8>) -> bool {
    &&& a.len() == b.len()
    &&& forall|i: int| 0 <= i < a.len() ==> lower(#[trigger] a[i]) == lower(b[i])
}

/// The fields of `headers` whose name is not `name`, in their order.
pub open spec fn without_header(headers: Seq<(Seq<u8>, Seq<u8>)>, name: Seq<u8>) -> Seq<
    (Seq<u8>, Seq<u8>),
> {
    headers.filter(|field: (Seq<u8>, Seq<u8>)| !same_name(field.0, name))
}

/// `headers` with the one field `name: value` in place of every field of that
/// name: the other fields stay, in their order, and the new field is the last.
pub open spec fn with_header(headers: Seq<(Seq<u8>, Seq<u8>)>, name: Seq<u8>, value: Seq<u8>) -> Seq<
    (Seq<u8>, Seq<u8>),
> {
    without_header(headers, name).push((name, value))
}

/// The decimal numeral of `n`, in ASCII digits.
pub open spec fn decimal(n: nat) -> Seq<u8>
    decreases n,
{
    if n < 10 {
        seq![('0' as u8 + n) as u8]
    } else {
        decimal(n / 10).push(('0' as u8 + n % 10) as u8)
    }
}

/// The fields of `headers` whose name is `name`, in their order.
pub open spec fn fields_named(headers: Seq<(Seq<u8>, Seq<u8>)>, name: Seq<u8>) -> Seq<
    (Seq<u8>, Seq<u8>),
> {
    headers.filter(|field: (Seq<u8>, Seq<u8>)| same_name(field.0, name))
}

/// The number that the string of ASCII digits `digits` stands for.
pub open spec fn numeral_value(digits: Seq<u8>) -> nat
    decreases digits.len(),
{
    if digits.len() == 0 {
        0
    } else {
        (numeral_value(digits.drop_last()) * 10 + (digits.last() - '0' as u8)) as nat
    }
}

/// The decimal numeral of a number is a string of ASCII digits, not empty,
/// that stands for that number.
pub proof fn lemma_decimal_reads_back(n: nat)
    ensures
        decimal(n).len() > 0,
        forall|i: int| 0 <= i < decimal(n).len() ==> '0' as u8 <= #[trigger] decimal(n)[i] <= '9' as u8,
        numeral_value(decimal(n)) == n,
    decreases n,
{
    if n < 10 {
        assert(numeral_value(decimal(n).drop_last()) == 0);
    } else {
        lemma_decimal_reads_back(n / 10);
        assert(decimal(n).drop_last() =~= decimal(n / 10));
    }
}

/// After a header field was set, it is the one field of its name, with the
/// value that was set, and the fields of every other name are as before.
pub proof fn lemma_set_header(headers: Seq<(Seq<u8>, Seq<u8>)>, name: Seq<u8>, value: Seq<u8>)
    ensures
        fields_named(with_header(headers, name, value), name) == seq![(name, value)],
        without_header(with_header(headers, name, value), name) == without_header(headers, name),
{
    let named = |field: (Seq<u8>, Seq<u8>)| same_name(field.0, name);
    let other = |field: (Seq<u8>, Seq<u8>)| !same_name(field.0, name);
    let kept = headers.filter(other);
    let set = kept.push((name, value));
    assert forall|i: int| 0 <= i < kept.len() implies other(#[trigger] kept[i]) by {
        headers.lemma_filter_pred(other, i);
    }
    assert(set.drop_last() == kept);
    assert(kept.filter(named).len() == 0) by {
        kept.lemma_all_neg_filter_empty(named);
    }
    assert(kept.filter(other) == kept) by {
        lemma_filter_all(kept, other);
    }
    reveal(Seq::filter);
}

/// A sequence whose elements all meet a predicate is its own filter.
proof fn lemma_filter_all(s: Seq<(Seq<u8>, Seq<u8>)>, pred: spec_fn((Seq<u8>, Seq<u8>)) -> bool)
    requires
        forall|i: int| 0 <= i < s.len() ==> pred(#[trigger] s[i]),
    ensures
        s.filter(pred) == s,
    decreases s.len(),
{
    reveal(Seq::filter);
    if s.len() > 0 {
        lemma_filter_all(s.drop_last(), pred);
    }
}

/// Whether `a` and `b` are the same header name.
pub fn names_match(a: &[u8], b: &[u8]) -> (r: bool)
    ensures
        r == same_name(a@, b@),
{
    if a.len() != b.len() {
        return false;
    }
    let mut i: usize = 0;
    while i < a.len()
        invariant
            i <= a.len(),
            a.len() == b.len(),
            forall|j: int| 0 <= j < i ==> lower(#[trigger] a@[j]) == lower(b@[j]),
        decreases a.len() - i,
    {
        if to_lower(a[i]) != to_lower(b[i]) {
            return false;
        }
        i += 1;
    }
    true
}

/// The lower-case form of an ASCII letter; any other byte is itself.
pub fn to_lower(b: u8) -> (r: u8)
    ensures
        r == lower(b),
{
    if 'A' as u8 <= b && b <= 'Z' as u8 {
        b + 0x20
    } else {
        b
    }
}

/// Appends the decimal numeral of `n` to `out`.
pub fn push_decimal(out: &mut Vec<u8>, n: usize)
    ensures
        final(out)@ == old(out)@ + decimal(n as nat),
    decreases n,
{
    if n >= 10 {
        push_decimal(out, n / 10);
    }
    out.push('0' as u8 + (n % 10) as u8);
}

/// Sets the header field `name` to `value`: every field of that name leaves,
/// the others stay in their order, and `name: value` becomes the last field.
pub fn set_header(headers: Vec<(Vec<u8>, Vec<u8>)>, name: Vec<u8>, value: Vec<u8>) -> (r: Vec<
    (Vec<u8>, Vec<u8>),
>)
    ensures
        r.deep_view() == with_header(headers.deep_view(), name@, value@),
{
    let ghost all = headers.deep_view();
    let mut kept: Vec<(Vec<u8>, Vec<u8>)> = Vec::new();
    for field in it: headers
        invariant
            it.seq().len() == all.len(),
            forall|j: int| 0 <= j < all.len() ==> (#[trigger] it.seq()[j]).deep_view() == all[j],
            kept.deep_view() == without_header(all.take(it.index() as int), name@),
    {
        let ghost at = it.index() as int;
        assert(field.0.deep_view() =~= field.0@);
        let matches = names_match(field.0.as_slice(), name.as_slice());
        if !matches {
            kept.push(field);
        }
        proof {
            assert(all.take(at + 1).drop_last() == all.take(at));
            reveal(Seq::filter);
        }
    }
    assert(all.take(all.len() as int) == all);
    assert(name.deep_view() =~= name@ && value.deep_view() =~= value@);
    kept.push((name, value));
    kept
}

} // verus!
