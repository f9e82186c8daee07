//! Choosing which entries of the working directory to remove.

use vstd::prelude::*;

verus! {

/// The names of a sequence of strings.
pub open spec fn names(v: Seq<String>) -> Seq<Seq<char>> {
    v.map_values(|s: String| s@)
}

/// The entries of `ns` other than `keep`, in their order.
pub open spec fn others(ns: Seq<Seq<char>>, keep: Seq<char>) -> Seq<Seq<char>>
    decreases ns.len(),
{
    if ns.len() == 0 {
        Seq::empty()
    } else {
        let rest = others(ns.drop_last(), keep);
        if ns.last() == keep {
            rest
        } else {
            rest.push(ns.last())
        }
    }
}

/// The entries to remove so that only `keep` is left: every entry whose name
/// differs from `keep`, in the order given.
pub fn prune_plan(entries: &Vec<String>, keep: &String) -> (r: Vec<String>)
    ensures
        names(r@) == others(names(entries@), keep@),
{
    let mut r: Vec<String> = Vec::new();
    let mut i: usize = 0;
    while i < entries.len()
        invariant
            i <= entries@.len(),
            names(r@) == others(names(entries@).take(i as int), keep@),
        decreases entries@.len() - i,
    {
        let ghost ns = names(entries@);
        assert(ns.take(i + 1).drop_last() =~= ns.take(i as int));
        if entries[i] != *keep {
            r.push(entries[i].clone());
            assert(names(r@) =~= names(r@).drop_last().push(entries@[i as int]@));
        }
        i = i + 1;
    }
    assert(names(entries@).take(entries@.len() as int) =~= names(entries@));
    r
}

proof fn lemma_others_contains(ns: Seq<Seq<char>>, keep: Seq<char>, n: Seq<char>)
    ensures
        others(ns, keep).contains(n) <==> (ns.contains(n) && n != keep),
    decreases ns.len(),
{
    if ns.len() > 0 {
        let init = ns.drop_last();
        let rest = others(init, keep);
        lemma_others_contains(init, keep, n);
        assert(ns =~= init.push(ns.last()));
        if ns.contains(n) && n != ns.last() {
            let k = choose|k: int| 0 <= k < ns.len() && ns[k] == n;
            assert(init[k] == n);
        }
        if init.contains(n) {
            let k = choose|k: int| 0 <= k < init.len() && init[k] == n;
            assert(ns[k] == n);
        }
        if ns.last() != keep {
            let p = rest.push(ns.last());
            assert(p[rest.len() as int] == ns.last());
            if rest.contains(n) {
                let k = choose|k: int| 0 <= k < rest.len() && rest[k] == n;
                assert(p[k] == n);
            }
            if p.contains(n) && n != ns.last() {
                let k = choose|k: int| 0 <= k < p.len() && p[k] == n;
                assert(rest[k] == n);
            }
        }
        assert(ns[ns.len() - 1] == ns.last());
    }
}

/// After every planned entry is removed, exactly the kept entry is left: an
/// entry stays if and only if its name is `keep`.
pub proof fn lemma_prune_leaves_only_kept(entries: Seq<Seq<char>>, keep: Seq<char>)
    ensures
        forall|n: Seq<char>|
            entries.contains(n) && !#[trigger] others(entries, keep).contains(n) <==> (entries.contains(n) && n
                == keep),
{
    assert forall|n: Seq<char>|
        entries.contains(n) && !#[trigger] others(entries, keep).contains(n) <==> (entries.contains(n) && n
            == keep) by {
        lemma_others_contains(entries, keep, n);
    }
}

} // verus!
