//! Case-insensitive keyword matching and text joining.
use vstd::prelude::*;

verus! {

/// `c` is the keyword letter `k`, or its ASCII upper-case form.
pub open spec fn folds_to(c: char, k: char) -> bool {
    c == k || ('A' <= c && c <= 'Z' && c as u32 + 32 == k as u32)
}

/// `s` spells the lower-case keyword `kw`, ignoring ASCII case.
pub open spec fn keyword_matches(s: Seq<char>, kw: Seq<char>) -> bool {
    s.len() == kw.len() && forall|i: int| 0 <= i < s.len() ==> folds_to(#[trigger] s[i], kw[i])
}

/// Whether `s` spells the lower-case keyword `kw`, ignoring ASCII case.
pub fn matches_keyword(s: &str, kw: &str) -> (r: bool)
    ensures
        r == keyword_matches(s@, kw@),
{
    let n = s.unicode_len();
    if n != kw.unicode_len() {
        return false;
    }
    let mut i: usize = 0;
    while i < n
        invariant
            n == s@.len(),
            n == kw@.len(),
            i <= n,
            forall|j: int| 0 <= j < i ==> folds_to(#[trigger] s@[j], kw@[j]),
        decreases n - i,
    {
        let c = s.get_char(i);
        let k = kw.get_char(i);
        let same = c == k || ('A' <= c && c <= 'Z' && c as u32 + 32 == k as u32);
        if !same {
            return false;
        }
        i = i + 1;
    }
    true
}

/// The items of `items`, separated by `", "`.
pub open spec fn joined(items: Seq<String>) -> Seq<char>
    decreases items.len(),
{
    if items.len() == 0 {
        Seq::empty()
    } else if items.len() == 1 {
        items[0]@
    } else {
        joined(items.drop_last()) + ", "@ + items.last()@
    }
}

/// Appends the items of `items` to `out`, separated by `", "`.
pub fn append_joined(out: &mut String, items: &Vec<String>)
    ensures
        final(out)@ == old(out)@ + joined(items@),
{
    let ghost start = out@;
    let mut i: usize = 0;
    while i < items.len()
        invariant
            i <= items@.len(),
            out@ == start + joined(items@.subrange(0, i as int)),
        decreases items@.len() - i,
    {
        proof {
            let pre = items@.subrange(0, i as int);
            let next = items@.subrange(0, i + 1);
            assert(next.drop_last() =~= pre);
            assert(next.last() == items@[i as int]);
        }
        if i != 0 {
            out.append(", ");
        }
        out.append(items[i].as_str());
        proof {
            reveal_strlit(", ");
        }
        i = i + 1;
    }
    assert(items@.subrange(0, items@.len() as int) =~= items@);
}

} // verus!
