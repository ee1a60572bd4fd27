//! String-keyed association lists with unique keys, viewed abstractly as a
//! map.  Element attributes and form data both store their entries this
//! way; inserting under an existing key replaces the value, as a map does.

use vstd::prelude::*;

verus! {

/// One keyed entry.
pub struct Entry<V> {
    pub key: String,
    pub value: V,
}

/// The abstract map an entry list denotes.
pub open spec fn entries_map<V>(s: Seq<Entry<V>>) -> Map<Seq<char>, V>
    decreases s.len(),
{
    if s.len() == 0 {
        Map::empty()
    } else {
        entries_map(s.drop_last()).insert(s.last().key@, s.last().value)
    }
}

/// Well-formed entry list: no key occurs twice.
pub open spec fn entries_wf<V>(s: Seq<Entry<V>>) -> bool {
    forall|i: int, j: int|
        0 <= i < j < s.len() ==> (#[trigger] s[i].key@) != (#[trigger] s[j].key@)
}

proof fn lemma_entries_update<V>(s: Seq<Entry<V>>, i: int, e: Entry<V>)
    requires
        entries_wf(s),
        0 <= i < s.len(),
        e.key@ == s[i].key@,
    ensures
        entries_map(s.update(i, e)) =~= entries_map(s).insert(e.key@, e.value),
    decreases s.len(),
{
    if i == s.len() - 1 {
        assert(s.update(i, e).drop_last() =~= s.drop_last());
        assert(s.update(i, e).last() == e);
    } else {
        assert(s.update(i, e).drop_last() =~= s.drop_last().update(i, e));
        assert(entries_wf(s.drop_last())) by {
            assert(forall|p: int, q: int|
                0 <= p < q < s.len() - 1 ==> s.drop_last()[p] == s[p] && s.drop_last()[q] == s[q]);
        }
        lemma_entries_update(s.drop_last(), i, e);
        assert(s.last().key@ != e.key@);
    }
}

proof fn lemma_entries_index<V>(s: Seq<Entry<V>>, i: int)
    requires
        entries_wf(s),
        0 <= i < s.len(),
    ensures
        entries_map(s).contains_key(s[i].key@),
        entries_map(s)[s[i].key@] == s[i].value,
    decreases s.len(),
{
    if i < s.len() - 1 {
        assert(entries_wf(s.drop_last())) by {
            assert(forall|p: int, q: int|
                0 <= p < q < s.len() - 1 ==> s.drop_last()[p] == s[p] && s.drop_last()[q] == s[q]);
        }
        lemma_entries_index(s.drop_last(), i);
        assert(s.last().key@ != s[i].key@);
    }
}

proof fn lemma_entries_absent<V>(s: Seq<Entry<V>>, k: Seq<char>)
    requires
        forall|j: int| 0 <= j < s.len() ==> (#[trigger] s[j].key@) != k,
    ensures
        !entries_map(s).contains_key(k),
    decreases s.len(),
{
    if s.len() > 0 {
        assert(forall|j: int|
            0 <= j < s.len() - 1 ==> (#[trigger] s.drop_last()[j].key@) == s[j].key@);
        lemma_entries_absent(s.drop_last(), k);
    }
}

/// Inserts under `key`: replaces the value of an existing entry, else
/// appends a new one.  Abstractly, a map insert.
pub fn entries_insert<V>(list: &mut Vec<Entry<V>>, key: String, value: V)
    requires
        entries_wf(old(list)@),
    ensures
        entries_wf(final(list)@),
        entries_map(final(list)@) == entries_map(old(list)@).insert(key@, value),
        final(list)@.len() <= old(list)@.len() + 1,
{
    let n: usize = list.len();
    let mut i: usize = 0;
    while i < n
        invariant
            n == list.len(),
            0 <= i <= n,
            *list == *old(list),
            entries_wf(list@),
            forall|j: int| 0 <= j < i ==> (#[trigger] list@[j].key@) != key@,
        decreases n - i,
    {
        if list[i].key == key {
            let slot = &mut list[i];
            *slot = Entry { key, value };
            proof {
                lemma_entries_update(old(list)@, i as int, list@[i as int]);
                assert(entries_wf(list@)) by {
                    assert(forall|p: int|
                        0 <= p < list@.len() ==> (#[trigger] list@[p].key@) == old(list)@[p].key@);
                }
            }
            return ;
        }
        i = i + 1;
    }
    list.push(Entry { key, value });
    proof {
        assert(list@.drop_last() =~= old(list)@);
        assert(entries_wf(list@)) by {
            assert(forall|p: int| 0 <= p < list@.len() - 1 ==> list@[p] == old(list)@[p]);
        }
    }
}

/// Looks a key up, yielding a reference to its value.
pub fn entries_get<'a, V>(list: &'a Vec<Entry<V>>, key: &String) -> (r: Option<&'a V>)
    requires
        entries_wf(list@),
    ensures
        match r {
            Some(v) => entries_map(list@).contains_key(key@) && *v == entries_map(list@)[key@],
            None => !entries_map(list@).contains_key(key@),
        },
{
    let n: usize = list.len();
    let mut i: usize = 0;
    while i < n
        invariant
            n == list.len(),
            0 <= i <= n,
            entries_wf(list@),
            forall|j: int| 0 <= j < i ==> (#[trigger] list@[j].key@) != key@,
        decreases n - i,
    {
        if list[i].key == *key {
            proof {
                lemma_entries_index(list@, i as int);
            }
            return Some(&list[i].value);
        }
        i = i + 1;
    }
    proof {
        lemma_entries_absent(list@, key@);
    }
    None
}

} // verus!
