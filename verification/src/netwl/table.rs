//! Lookup tables kept as lists of pairs. A key stands in a table at most
//! once, at the place where it was first entered; entering it again replaces
//! its value.
use vstd::prelude::*;
use crate::types::Mac;
use super::ip_addr::{IpAddr, NetworkPart};

verus! {

/// The value that `s` holds for `k`: that of the first pair with this key.
pub open spec fn assoc_find<K, V>(s: Seq<(K, V)>, k: K) -> Option<V>
    decreases s.len(),
{
    if s.len() == 0 {
        None
    } else if s[0].0 == k {
        Some(s[0].1)
    } else {
        assoc_find(s.drop_first(), k)
    }
}

/// The table `s` after `v` was entered for `k`: the first pair with this key
/// gets the new value, or a new pair is added at the end.
pub open spec fn assoc_put<K, V>(s: Seq<(K, V)>, k: K, v: V) -> Seq<(K, V)>
    decreases s.len(),
{
    if s.len() == 0 {
        seq![(k, v)]
    } else if s[0].0 == k {
        s.update(0, (k, v))
    } else {
        seq![s[0]] + assoc_put(s.drop_first(), k, v)
    }
}

/// Entering a value for a key that stands first at `i` changes the pair at
/// `i` and nothing else.
pub proof fn lemma_put_at<K, V>(s: Seq<(K, V)>, k: K, v: V, i: int)
    requires
        0 <= i < s.len(),
        s[i].0 == k,
        forall|j: int| 0 <= j < i ==> s[j].0 != k,
    ensures
        assoc_put(s, k, v) == s.update(i, (k, v)),
    decreases s.len(),
{
    if i == 0 {
    } else {
        let rest = s.drop_first();
        assert forall|j: int| 0 <= j < i - 1 implies rest[j].0 != k by {
            assert(rest[j] == s[j + 1]);
        }
        lemma_put_at(rest, k, v, i - 1);
        assert(seq![s[0]] + rest.update(i - 1, (k, v)) =~= s.update(i, (k, v)));
    }
}

/// Entering a value for a key that the table lacks adds a pair at the end.
pub proof fn lemma_put_absent<K, V>(s: Seq<(K, V)>, k: K, v: V)
    requires
        forall|j: int| 0 <= j < s.len() ==> s[j].0 != k,
    ensures
        assoc_put(s, k, v) == s.push((k, v)),
    decreases s.len(),
{
    if s.len() == 0 {
        assert(seq![(k, v)] =~= s.push((k, v)));
    } else {
        let rest = s.drop_first();
        assert forall|j: int| 0 <= j < rest.len() implies rest[j].0 != k by {
            assert(rest[j] == s[j + 1]);
        }
        lemma_put_absent(rest, k, v);
        assert(seq![s[0]] + rest.push((k, v)) =~= s.push((k, v)));
    }
}

/// After a value was entered for a key, the table holds that value for the
/// key and its old values for every other key.
pub proof fn lemma_find_after_put<K, V>(s: Seq<(K, V)>, k: K, v: V, other: K)
    ensures
        assoc_find(assoc_put(s, k, v), k) == Some(v),
        other != k ==> assoc_find(assoc_put(s, k, v), other) == assoc_find(s, other),
    decreases s.len(),
{
    let put = assoc_put(s, k, v);
    if s.len() == 0 {
        assert(put.drop_first() =~= Seq::<(K, V)>::empty());
        assert(put[0] == (k, v));
        assert(assoc_find(put.drop_first(), other) == None::<V>);
    } else if s[0].0 == k {
        assert(put.drop_first() =~= s.drop_first());
        assert(put[0] == (k, v));
    } else {
        lemma_find_after_put(s.drop_first(), k, v, other);
        assert(put.drop_first() =~= assoc_put(s.drop_first(), k, v));
        assert(put[0] == s[0]);
    }
}

/// The hardware address that `table` holds for `ip`.
pub fn arp_find(table: &Vec<(IpAddr, Mac)>, ip: IpAddr) -> (r: Option<Mac>)
    ensures
        r == assoc_find(table@, ip),
{
    let mut i: usize = 0;
    proof {
        assert(table@.subrange(0, table@.len() as int) =~= table@);
    }
    while i < table.len()
        invariant
            i <= table.len(),
            assoc_find(table@, ip) == assoc_find(table@.subrange(i as int, table@.len() as int), ip),
        decreases table.len() - i,
    {
        if table[i].0 == ip {
            return Some(table[i].1);
        }
        proof {
            assert(table@.subrange(i as int, table@.len() as int).drop_first() =~= table@.subrange(
                i + 1,
                table@.len() as int,
            ));
        }
        i = i + 1;
    }
    None
}

/// Enters `mac` for `ip` in `table`.
pub fn arp_put(table: &mut Vec<(IpAddr, Mac)>, ip: IpAddr, mac: Mac)
    ensures
        final(table)@ == assoc_put(old(table)@, ip, mac),
{
    let mut i: usize = 0;
    while i < table.len()
        invariant
            i <= table.len(),
            table@ == old(table)@,
            forall|j: int| 0 <= j < i ==> table@[j].0 != ip,
        decreases table.len() - i,
    {
        if table[i].0 == ip {
            proof {
                lemma_put_at(table@, ip, mac, i as int);
            }
            table[i] = (ip, mac);
            return ;
        }
        i = i + 1;
    }
    proof {
        lemma_put_absent(table@, ip, mac);
    }
    table.push((ip, mac));
}

/// The next hop that `table` holds for the network `nw`.
pub fn route_find(table: &Vec<(NetworkPart, IpAddr)>, nw: NetworkPart) -> (r: Option<IpAddr>)
    ensures
        r == assoc_find(table@, nw),
{
    let mut i: usize = 0;
    proof {
        assert(table@.subrange(0, table@.len() as int) =~= table@);
    }
    while i < table.len()
        invariant
            i <= table.len(),
            assoc_find(table@, nw) == assoc_find(table@.subrange(i as int, table@.len() as int), nw),
        decreases table.len() - i,
    {
        if table[i].0 == nw {
            return Some(table[i].1);
        }
        proof {
            assert(table@.subrange(i as int, table@.len() as int).drop_first() =~= table@.subrange(
                i + 1,
                table@.len() as int,
            ));
        }
        i = i + 1;
    }
    None
}

/// Enters the next hop `next` for the network `nw` in `table`.
pub fn route_put(table: &mut Vec<(NetworkPart, IpAddr)>, nw: NetworkPart, next: IpAddr)
    ensures
        final(table)@ == assoc_put(old(table)@, nw, next),
{
    let mut i: usize = 0;
    while i < table.len()
        invariant
            i <= table.len(),
            table@ == old(table)@,
            forall|j: int| 0 <= j < i ==> table@[j].0 != nw,
        decreases table.len() - i,
    {
        if table[i].0 == nw {
            proof {
                lemma_put_at(table@, nw, next, i as int);
            }
            table[i] = (nw, next);
            return ;
        }
        i = i + 1;
    }
    proof {
        lemma_put_absent(table@, nw, next);
    }
    table.push((nw, next));
}

} // verus!
