//! The map from reference to entry.
use crate::entry::{Entry, EntryView};
use crate::key::{key, key_is_injective, key_keeps_order, key_of, precedes};
use crate::text::uppercase;
use crate::token::{fits, Reference};
use std::collections::BTreeMap;
use vstd::std_specs::btree::increasing_seq;
use vstd::std_specs::cmp::OrdSpec;
use vstd::prelude::*;
use vstd::set_lib::lemma_map_size;

verus! {

/// The entries of a directory, each under its reference in capitals. The
/// entries are kept in the order of their references, byte by byte.
#[derive(Debug)]
pub struct WwffMap {
    map: BTreeMap<u128, Entry>,
}

impl View for WwffMap {
    type V = Map<Seq<char>, EntryView>;

    closed spec fn view(&self) -> Map<Seq<char>, EntryView> {
        Map::new(
            |t: Seq<char>|
                fits(t, 12) && self.map@.contains_key(key_of(t)) && t == uppercase(
                    self.map@[key_of(t)].reference@,
                ),
            |t: Seq<char>| self.map@[key_of(t)]@,
        )
    }
}

impl WwffMap {
    /// Every entry stands under the key of its own reference in capitals.
    #[verifier::type_invariant]
    spec fn well_formed(self) -> bool {
        forall|k: u128| #[trigger]
            self.map@.contains_key(k) ==> fits(uppercase(self.map@[k].reference@), 12) && k
                == key_of(uppercase(self.map@[k].reference@))
    }

    /// Every key of the directory is the reference of its entry in capitals,
    /// and fits a reference.
    pub proof fn keys_are_references(self)
        ensures
            forall|k: Seq<char>| #[trigger]
                self@.contains_key(k) ==> fits(k, 12) && k == uppercase(self@[k].reference),
    {
    }

    /// A directory without entries.
    pub fn new() -> (r: Self)
        ensures
            r@ == Map::<Seq<char>, EntryView>::empty(),
    {
        let r = WwffMap { map: BTreeMap::new() };
        assert(r@ =~= Map::<Seq<char>, EntryView>::empty());
        r
    }

    /// Puts an entry under its reference in capitals, in place of the entry
    /// that stood there, if any.
    pub fn insert(self, entry: Entry) -> (r: Self)
        ensures
            r@ == self@.insert(uppercase(entry.reference@), entry@),
    {
        proof {
            use_type_invariant(&self);
        }
        let reference = entry.reference.to_ascii_uppercase();
        let k: u128 = key(&reference);
        let ghost u = uppercase(entry.reference@);
        let mut map = self.map;
        map.insert(k, entry);
        let r = WwffMap { map };
        proof {
            assert forall|t: Seq<char>| fits(t, 12) && key_of(t) == k implies t == u by {
                key_is_injective(t, u);
            }
            assert(r@ =~= self@.insert(u, entry@));
        }
        r
    }

    /// The entry under a reference, which is taken as it is written: capitals
    /// and small letters differ.
    pub fn get(&self, reference: &Reference) -> (r: Option<&Entry>)
        ensures
            match r {
                Some(e) => self@.contains_key(reference@) && self@[reference@] == e@
                    && reference@ == uppercase(e.reference@),
                None => !self@.contains_key(reference@),
            },
    {
        let k: u128 = key(reference);
        let r = self.map.get(&k);
        proof {
            use_type_invariant(self);
            match r {
                Some(e) => {
                    key_is_injective(reference@, uppercase(e.reference@));
                },
                None => {},
            }
        }
        r
    }

    /// The map holds one entry for each key.
    proof fn sizes_agree(self)
        requires
            self.well_formed(),
        ensures
            self@.dom().finite(),
            self@.len() == self.map@.len(),
    {
        let keys = self.map@.dom();
        let f = |k: u128| uppercase(self.map@[k].reference@);
        assert forall|t: Seq<char>| self@.dom().contains(t) implies keys.map(f).contains(t) by {
            let k = key_of(t);
            key_is_injective(t, f(k));
            assert(keys.contains(k) && f(k) == t);
        }
        assert(keys.map(f) =~= self@.dom());
        lemma_map_size(keys, self@.dom(), f);
    }

    /// The number of entries.
    pub fn len(&self) -> (n: usize)
        ensures
            n == self@.len(),
            self@.dom().finite(),
    {
        proof {
            use_type_invariant(self);
            self.sizes_agree();
        }
        self.map.len()
    }

    /// Every entry once, in the order of the references in capitals, byte by
    /// byte.
    pub fn entries(&self) -> (r: Vec<&Entry>)
        ensures
            r@.len() == self@.len(),
            forall|i: int|
                0 <= i < r@.len() ==> self@.contains_key(#[trigger] uppercase(r@[i].reference@))
                    && self@[uppercase(r@[i].reference@)] == r@[i]@,
            forall|i: int, j: int|
                0 <= i < j < r@.len() ==> precedes(
                    #[trigger] uppercase(r@[i].reference@),
                    #[trigger] uppercase(r@[j].reference@),
                ),
            forall|t: Seq<char>| #[trigger]
                self@.contains_key(t) ==> exists|i: int|
                    0 <= i < r@.len() && #[trigger] uppercase(r@[i].reference@) == t,
    {
        proof {
            use_type_invariant(self);
            self.sizes_agree();
        }
        let mut out: Vec<&Entry> = Vec::new();
        let ghost mut keys: Seq<u128> = Seq::empty();
        for kv in it: self.map.iter()
            invariant
                out@.len() == it.index(),
                keys.len() == it.index(),
                it.seq().len() == self.map@.dom().len(),
                forall|i: int| 0 <= i < it.seq().len() ==> self.map@.contains_key(*it.seq()[i].0),
                increasing_seq(it.seq().map_values(|kv: (&u128, &Entry)| *kv.0)),
                forall|i: int|
                    #![trigger it.seq()[i]]
                    #![trigger keys[i]]
                    0 <= i < out@.len() ==> keys[i] == *it.seq()[i].0 && *out@[i] == self.map@[keys[i]],
                forall|i: int, j: int| 0 <= i < j < keys.len() ==> keys[i] < keys[j],
                forall|k: u128| #[trigger]
                    self.map@.contains_key(k) ==> exists|i: int|
                        0 <= i < it.seq().len() && *(#[trigger] it.seq()[i]).0 == k,
        {
            proof {
                keys = keys.push(*kv.0);
                let all = it.seq().map_values(|kv: (&u128, &Entry)| *kv.0);
                assert forall|i: int| 0 <= i < keys.len() implies keys[i] == all[i] by {}
                assert forall|i: int, j: int| 0 <= i < j < keys.len() implies keys[i] < keys[j] by {
                    assert(all[i].cmp_spec(&all[j]) is Less);
                }
            }
            out.push(kv.1);
        }
        proof {
            assert forall|t: Seq<char>| #[trigger] self@.contains_key(t) implies exists|i: int|
                0 <= i < out@.len() && #[trigger] uppercase(out@[i].reference@) == t by {
                let k = key_of(t);
                assert(self.map@.contains_key(k));
                let i = choose|i: int| 0 <= i < keys.len() && keys[i] == k;
                key_is_injective(t, uppercase(out@[i].reference@));
            }
            assert forall|i: int| 0 <= i < out@.len() implies self@.contains_key(
                #[trigger] uppercase(out@[i].reference@),
            ) && self@[uppercase(out@[i].reference@)] == out@[i]@ by {
                assert(self.map@.contains_key(keys[i]));
            }
            assert forall|i: int, j: int| 0 <= i < j < out@.len() implies precedes(
                #[trigger] uppercase(out@[i].reference@),
                #[trigger] uppercase(out@[j].reference@),
            ) by {
                assert(self.map@.contains_key(keys[i]) && self.map@.contains_key(keys[j]));
                key_keeps_order(uppercase(out@[i].reference@), uppercase(out@[j].reference@));
            }
        }
        out
    }

    /// Whether the directory holds no entry.
    pub fn is_empty(&self) -> (r: bool)
        ensures
            r == (self@.len() == 0),
            self@.dom().finite(),
    {
        self.len() == 0
    }
}

} // verus!
