use vstd::prelude::*;
use vstd::string::StringSliceAdditionalSpecFns;

verus! {

broadcast use vstd::string::is_ascii_spec_bytes;

/// `caller` is a direct child account of `parent`: it is `label.parent`
/// where `label` is not empty and holds no dot. Account names are ASCII;
/// any other text is no child of anything.
pub open spec fn is_direct_sub_account(caller: Seq<char>, parent: Seq<char>) -> bool {
    let k = caller.len() - parent.len() - 1;
    &&& vstd::utf8::is_ascii_chars(caller)
    &&& vstd::utf8::is_ascii_chars(parent)
    &&& caller.len() > parent.len() + 1
    &&& caller.subrange(k + 1, caller.len() as int) == parent
    &&& caller[k] == '.'
    &&& forall|i: int| 0 <= i < k ==> caller[i] != '.'
}

/// Decides whether `caller` is a direct child account of `parent`.
pub fn is_sub_account_of(caller: &str, parent: &str) -> (r: bool)
    ensures
        r == is_direct_sub_account(caller@, parent@),
{
    if !caller.is_ascii() || !parent.is_ascii() {
        return false;
    }
    let cb = caller.as_bytes();
    let pb = parent.as_bytes();
    proof {
        vstd::utf8::is_ascii_chars_nat_bound(caller@);
        vstd::utf8::is_ascii_chars_nat_bound(parent@);
    }
    assert(cb@ =~= Seq::new(caller@.len(), |i| caller@.index(i) as u8));
    assert(pb@ =~= Seq::new(parent@.len(), |i| parent@.index(i) as u8));
    let cn = cb.len();
    let pn = pb.len();
    assert(cn == caller@.len() && pn == parent@.len());
    if cn == 0 || cn - 1 <= pn {
        return false;
    }
    let k: usize = cn - pn - 1;
    if cb[k] != 46u8 {
        return false;
    }
    let mut j: usize = 0;
    while j < pn
        invariant
            cn == caller@.len(),
            pn == parent@.len(),
            k == cn - pn - 1,
            cb@ =~= Seq::new(caller@.len(), |i| caller@.index(i) as u8),
            pb@ =~= Seq::new(parent@.len(), |i| parent@.index(i) as u8),
            vstd::utf8::is_ascii_chars(caller@),
            vstd::utf8::is_ascii_chars(parent@),
            j <= pn,
            forall|i: int| 0 <= i < j ==> caller@[k + 1 + i] == parent@[i],
        decreases pn - j,
    {
        if cb[k + 1 + j] != pb[j] {
            assert(caller@.subrange(k + 1, cn as int)[j as int] != parent@[j as int]);
            return false;
        }
        j = j + 1;
    }
    assert(caller@.subrange(k + 1, cn as int) =~= parent@);
    let mut i: usize = 0;
    while i < k
        invariant
            cn == caller@.len(),
            k < cn,
            cb@ =~= Seq::new(caller@.len(), |i| caller@.index(i) as u8),
            vstd::utf8::is_ascii_chars(caller@),
            i <= k,
            forall|m: int| 0 <= m < i ==> caller@[m] != '.',
            pn == parent@.len(),
            k == cn - pn - 1,
        decreases k - i,
    {
        if cb[i] == 46u8 {
            assert((caller@[i as int] as nat) < 128);
            assert(caller@[i as int] == '.');
            return false;
        }
        i = i + 1;
    }
    true
}

} // verus!
