use vstd::prelude::*;

use crate::bytes::bytes_eq;
use crate::config::{claims_view, BundleModel, Claim, ClaimView, ConfigBundle};
use crate::engine::TrustPolicy;

verus! {

// A target answers with a list of claims. Each claim is framed as one byte
// giving the name's length, the name, two bytes (big endian) giving the
// value's length, and the value. An empty answer is an empty list.

/// The claims framed in `s`, or `None` where `s` is no valid framing.
pub open spec fn parse_claims_spec(s: Seq<u8>) -> Option<Seq<ClaimView>>
    decreases s.len(),
{
    if s.len() == 0 {
        Some(Seq::empty())
    } else {
        let n = s[0] as int;
        if s.len() < n + 3 {
            None
        } else {
            let m = s[n + 1] as int * 256 + s[n + 2] as int;
            let end = n + 3 + m;
            if s.len() < end {
                None
            } else {
                match parse_claims_spec(s.subrange(end, s.len() as int)) {
                    None => None,
                    Some(rest) => Some(
                        seq![(s.subrange(1, n + 1), s.subrange(n + 3, end))] + rest,
                    ),
                }
            }
        }
    }
}

pub open spec fn prepend(a: Seq<ClaimView>, o: Option<Seq<ClaimView>>) -> Option<Seq<ClaimView>> {
    match o {
        None => None,
        Some(r) => Some(a + r),
    }
}

fn copy_range(b: &Vec<u8>, start: usize, end: usize) -> (r: Vec<u8>)
    requires
        start <= end <= b@.len(),
    ensures
        r@ == b@.subrange(start as int, end as int),
{
    let mut r: Vec<u8> = Vec::new();
    let mut i: usize = start;
    while i < end
        invariant
            start <= i <= end <= b@.len(),
            r@ == b@.subrange(start as int, i as int),
        decreases end - i,
    {
        r.push(b[i]);
        assert(b@.subrange(start as int, i + 1) == b@.subrange(start as int, i as int).push(
            b@[i as int],
        ));
        i += 1;
    }
    r
}

/// Reads the claims framed in a target's answer.
pub fn parse_claims(b: &Vec<u8>) -> (r: Option<Vec<Claim>>)
    ensures
        match r {
            None => parse_claims_spec(b@) is None,
            Some(v) => parse_claims_spec(b@) == Some(claims_view(v@)),
        },
{
    let ghost s = b@;
    let len = b.len();
    let mut out: Vec<Claim> = Vec::new();
    let mut pos: usize = 0;
    assert(s.subrange(0, len as int) =~= s);
    assert(claims_view(out@) =~= Seq::<ClaimView>::empty());
    proof {
        if let Some(r) = parse_claims_spec(s) {
            assert(Seq::<ClaimView>::empty() + r =~= r);
        }
    }
    while pos < len
        invariant
            s == b@,
            len == b@.len(),
            0 <= pos <= len,
            parse_claims_spec(s) == prepend(
                claims_view(out@),
                parse_claims_spec(s.subrange(pos as int, len as int)),
            ),
        decreases len - pos,
    {
        let ghost t = s.subrange(pos as int, len as int);
        let n = b[pos] as usize;
        if len - pos < n + 3 {
            return None;
        }
        let m = (b[pos + n + 1] as usize) * 256 + b[pos + n + 2] as usize;
        if len - pos - n - 3 < m {
            return None;
        }
        let end = pos + n + 3 + m;
        let name = copy_range(b, pos + 1, pos + n + 1);
        let value = copy_range(b, pos + n + 3, end);
        let c = Claim { name, value };
        proof {
            let tn = n as int;
            let tend = (end - pos) as int;
            assert(t[0] == s[pos as int]);
            assert(t[tn + 1] == s[pos + tn + 1]);
            assert(t[tn + 2] == s[pos + tn + 2]);
            assert(t.subrange(1, tn + 1) =~= c@.0);
            assert(t.subrange(tn + 3, tend) =~= c@.1);
            assert(t.subrange(tend, t.len() as int) =~= s.subrange(end as int, len as int));
        }
        let ghost prev = out@;
        out.push(c);
        proof {
            assert(claims_view(out@) =~= claims_view(prev).push(c@));
            let rest = parse_claims_spec(s.subrange(end as int, len as int));
            if let Some(r) = rest {
                assert(claims_view(prev) + (seq![c@] + r) =~= claims_view(out@) + r);
            }
        }
        pos = end;
    }
    assert(s.subrange(len as int, len as int) =~= Seq::<u8>::empty());
    assert(claims_view(out@) + Seq::<ClaimView>::empty() =~= claims_view(out@));
    Some(out)
}

/// The target presents claim `c`: same name, same value.
pub open spec fn claim_presented(c: ClaimView, presented: Seq<ClaimView>) -> bool {
    exists|k: int| 0 <= k < presented.len() && presented[k] == c
}

/// Every expected claim is presented with its exact value. There is no
/// partial credit.
pub open spec fn satisfies(expected: Seq<ClaimView>, presented: Seq<ClaimView>) -> bool {
    forall|i: int| 0 <= i < expected.len() ==> claim_presented(expected[i], presented)
}

fn is_presented(c: &Claim, presented: &Vec<Claim>) -> (r: bool)
    ensures
        r == claim_presented(c@, claims_view(presented@)),
{
    let ghost p = claims_view(presented@);
    let mut k: usize = 0;
    while k < presented.len()
        invariant
            p == claims_view(presented@),
            0 <= k <= presented@.len(),
            forall|j: int| 0 <= j < k ==> p[j] != c@,
        decreases presented@.len() - k,
    {
        if bytes_eq(&presented[k].name, &c.name) && bytes_eq(&presented[k].value, &c.value) {
            assert(p[k as int] == c@);
            return true;
        }
        k += 1;
    }
    false
}

/// Decides whether the presented claims meet every expected one.
pub fn check_claims(expected: &Vec<Claim>, presented: &Vec<Claim>) -> (r: bool)
    ensures
        r == satisfies(claims_view(expected@), claims_view(presented@)),
{
    let ghost e = claims_view(expected@);
    let ghost p = claims_view(presented@);
    let mut i: usize = 0;
    while i < expected.len()
        invariant
            e == claims_view(expected@),
            p == claims_view(presented@),
            0 <= i <= expected@.len(),
            forall|j: int| 0 <= j < i ==> claim_presented(e[j], p),
        decreases expected@.len() - i,
    {
        if !is_presented(&expected[i], presented) {
            assert(!claim_presented(e[i as int], p));
            return false;
        }
        i += 1;
    }
    true
}

/// A trust policy by claim matching: each file of the trusted material is an
/// expected claim (its name and exact value), and the target's answer is the
/// framed list of claims it presents. An answer that is no valid framing
/// meets no predicate.
#[derive(Clone, Copy, Debug, PartialEq, Eq, Structural)]
pub struct ClaimMatch {}

impl TrustPolicy for ClaimMatch {
    open spec fn material_ok(&self, files: Seq<ClaimView>) -> bool {
        true
    }

    open spec fn accepts(&self, bundle: BundleModel, answer: Seq<u8>) -> bool {
        match parse_claims_spec(answer) {
            None => false,
            Some(p) => satisfies(bundle.expected, p),
        }
    }

    fn check_material(&self, files: &Vec<Claim>) -> (r: bool) {
        true
    }

    fn evaluate(&self, bundle: &ConfigBundle, answer: &Vec<u8>) -> (r: bool) {
        match parse_claims(answer) {
            None => false,
            Some(p) => check_claims(bundle.expected(), &p),
        }
    }
}

/// Under claim matching, a target that fails any single expected claim is
/// not accepted.
pub proof fn lemma_one_failed_claim_rejects(
    m: ClaimMatch,
    b: BundleModel,
    answer: Seq<u8>,
    i: int,
)
    requires
        0 <= i < b.expected.len(),
        (parse_claims_spec(answer) matches Some(p) && !claim_presented(b.expected[i], p)),
    ensures
        !m.accepts(b, answer),
{
}

} // verus!
