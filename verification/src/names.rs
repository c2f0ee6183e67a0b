//! Sorted, duplicate-free lists of names.
use vstd::prelude::*;
use crate::text::lex_order;

verus! {

/// The views of a sequence of strings.
pub open spec fn string_views(v: Seq<String>) -> Seq<Seq<char>> {
    v.map_values(|s: String| s@)
}

/// Every name comes strictly before the names after it.
pub open spec fn strictly_sorted(names: Seq<Seq<char>>) -> bool {
    forall|i: int, j: int| 0 <= i < j < names.len() ==> lex_order(names[i], names[j]) < 0
}

/// Inserts `x` into a strictly sorted vector unless it is there already.
pub fn insert_sorted_unique(v: &mut Vec<String>, x: String)
    requires
        strictly_sorted(string_views(old(v)@)),
    ensures
        strictly_sorted(string_views(final(v)@)),
        string_views(final(v)@).to_set() == string_views(old(v)@).to_set().insert(x@),
{
    let ghost old_views = string_views(v@);
    let xc = crate::text::chars_of(x.as_str());
    let mut k: usize = 0;
    let mut stop = false;
    while !stop && k < v.len()
        invariant
            k <= v@.len(),
            string_views(v@) == old_views,
            xc@ == x@,
            stop ==> k < v@.len() && lex_order(old_views[k as int], x@) >= 0,
            forall|j: int| 0 <= j < k ==> lex_order(#[trigger] old_views[j], x@) < 0,
        decreases v@.len() - k + (if stop { 0int } else { 1int }),
    {
        let vc = crate::text::chars_of(v[k].as_str());
        let o = crate::text::lex_order_chars(vc.as_slice(), xc.as_slice());
        assert(old_views[k as int] == v@[k as int]@);
        if o >= 0 {
            stop = true;
        } else {
            k = k + 1;
        }
    }
    if k < v.len() {
        let vc = crate::text::chars_of(v[k].as_str());
        if crate::text::chars_eq(vc.as_slice(), xc.as_slice()) {
            proof {
                assert(old_views[k as int] == x@);
                assert(old_views.to_set().insert(x@) =~= old_views.to_set());
            }
            return;
        }
    }
    proof {
        if k < v@.len() {
            assert(old_views[k as int] == v@[k as int]@);
            crate::text::lemma_lex_order_antisym(old_views[k as int], x@);
        }
    }
    v.insert(k, x);
    proof {
        let nv = string_views(v@);
        assert(nv =~= old_views.insert(k as int, x@));
        assert forall|i: int, j: int| 0 <= i < j < nv.len() implies lex_order(nv[i], nv[j]) < 0 by {
            if j < k {
                assert(nv[i] == old_views[i] && nv[j] == old_views[j]);
            } else if j == k {
                assert(nv[i] == old_views[i]);
            } else if i == k {
                assert(nv[j] == old_views[j - 1]);
                if j - 1 > k {
                    crate::text::lemma_lex_order_antisym(old_views[k as int], x@);
                    crate::text::lemma_lex_order_trans(x@, old_views[k as int], old_views[j - 1]);
                }
            } else if i < k {
                assert(nv[i] == old_views[i] && nv[j] == old_views[j - 1]);
                crate::text::lemma_lex_order_antisym(old_views[k as int], x@);
                if j - 1 > k {
                    crate::text::lemma_lex_order_trans(x@, old_views[k as int], old_views[j - 1]);
                }
                crate::text::lemma_lex_order_trans(old_views[i], x@, old_views[j - 1]);
            } else {
                assert(nv[i] == old_views[i - 1] && nv[j] == old_views[j - 1]);
            }
        }
        assert forall|s: Seq<char>| #[trigger] nv.to_set().contains(s) <==> old_views.to_set().insert(
            x@,
        ).contains(s) by {
            if nv.to_set().contains(s) {
                let i = choose|i: int| 0 <= i < nv.len() && nv[i] == s;
                if i < k {
                    assert(old_views[i] == s);
                } else if i > k {
                    assert(old_views[i - 1] == s);
                }
            }
            if old_views.to_set().contains(s) {
                let i = choose|i: int| 0 <= i < old_views.len() && old_views[i] == s;
                if i < k {
                    assert(nv[i] == s);
                } else {
                    assert(nv[i + 1] == s);
                }
            }
            if s == x@ {
                assert(nv[k as int] == s);
            }
        }
        assert(nv.to_set() =~= old_views.to_set().insert(x@));
    }
}

/// Appends copies of `src` to `dst`.
pub fn append_copies(dst: &mut Vec<String>, src: &[String])
    ensures
        string_views(final(dst)@) == string_views(old(dst)@) + string_views(src@),
{
    let ghost old_dst = dst@;
    let mut i: usize = 0;
    while i < src.len()
        invariant
            i <= src@.len(),
            dst@.len() == old_dst.len() + i,
            forall|k: int| 0 <= k < old_dst.len() ==> #[trigger] dst@[k] == old_dst[k],
            forall|k: int| 0 <= k < i ==> #[trigger] dst@[old_dst.len() + k]@ == src@[k]@,
        decreases src.len() - i,
    {
        dst.push(src[i].clone());
        i = i + 1;
    }
    proof {
        let lhs = string_views(dst@);
        let rhs = string_views(old_dst) + string_views(src@);
        assert forall|k: int| 0 <= k < lhs.len() implies lhs[k] == rhs[k] by {
            if k < old_dst.len() {
                assert(dst@[k] == old_dst[k]);
            } else {
                assert(dst@[old_dst.len() + (k - old_dst.len())]@ == src@[k - old_dst.len()]@);
            }
        }
        assert(lhs =~= rhs);
    }
}

/// The names in `names`, sorted and without duplicates.
pub fn sorted_unique(names: &[String]) -> (r: Vec<String>)
    ensures
        strictly_sorted(string_views(r@)),
        string_views(r@).to_set() == string_views(names@).to_set(),
{
    let mut r: Vec<String> = Vec::new();
    let mut i: usize = 0;
    proof {
        assert(string_views(r@).to_set() =~= string_views(names@).take(0).to_set());
    }
    while i < names.len()
        invariant
            i <= names@.len(),
            strictly_sorted(string_views(r@)),
            string_views(r@).to_set() == string_views(names@).take(i as int).to_set(),
        decreases names.len() - i,
    {
        let ghost before = string_views(names@).take(i as int);
        let name = names[i].clone();
        insert_sorted_unique(&mut r, name);
        proof {
            assert(string_views(names@).take(i + 1) =~= before.push(names@[i as int]@));
            before.lemma_push_to_set_commute(names@[i as int]@);
        }
        i = i + 1;
    }
    proof {
        assert(string_views(names@).take(i as int) =~= string_views(names@));
    }
    r
}

} // verus!
