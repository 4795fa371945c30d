//! Typed attribute values and the attribute store of a native handle.
//!
//! A native nftables object or expression handle is, in essence, a set of
//! typed attributes keyed by small integers.  [`AttrStore`] models exactly
//! that: setting an attribute overwrites any earlier value under the same
//! key, and reading one returns the value last stored.  The mathematical
//! view of a store is a [`Map`] from key to [`AttrVal`].

use vstd::prelude::*;

verus! {

/// A typed attribute value as held on an object or expression handle.
pub enum AttrValue {
    U8(u8),
    U16(u16),
    U32(u32),
    U64(u64),
    /// A byte string; serialised with a terminating NUL appended.
    Str(Vec<u8>),
}

/// The mathematical model of an attribute value: byte strings become sequences.
#[verifier::ext_equal]
pub enum AttrVal {
    U8(u8),
    U16(u16),
    U32(u32),
    U64(u64),
    Str(Seq<u8>),
}

impl View for AttrValue {
    type V = AttrVal;

    open spec fn view(&self) -> AttrVal {
        match self {
            AttrValue::U8(v) => AttrVal::U8(*v),
            AttrValue::U16(v) => AttrVal::U16(*v),
            AttrValue::U32(v) => AttrVal::U32(*v),
            AttrValue::U64(v) => AttrVal::U64(*v),
            AttrValue::Str(s) => AttrVal::Str(s@),
        }
    }
}

/// The byte string inside an attribute value, where one is held.
pub open spec fn str_of(v: AttrVal) -> Seq<u8> {
    match v {
        AttrVal::Str(s) => s,
        _ => Seq::empty(),
    }
}

/// The 64-bit integer inside an attribute value, where one is held.
pub open spec fn u64_of(v: AttrVal) -> u64 {
    match v {
        AttrVal::U64(x) => x,
        _ => 0,
    }
}

/// The 32-bit integer inside an attribute value, where one is held.
pub open spec fn u32_of(v: AttrVal) -> u32 {
    match v {
        AttrVal::U32(x) => x,
        _ => 0,
    }
}

/// No two entries of the sequence carry the same key.
pub open spec fn keys_unique(s: Seq<(u16, AttrValue)>) -> bool {
    forall|i: int, j: int|
        0 <= i < j < s.len() ==> (#[trigger] s[i]).0 != (#[trigger] s[j]).0
}

/// The map described by a sequence of keyed entries, later entries winning.
pub open spec fn store_map(s: Seq<(u16, AttrValue)>) -> Map<u16, AttrVal>
    decreases s.len(),
{
    if s.len() == 0 {
        Map::empty()
    } else {
        store_map(s.drop_last()).insert(s.last().0, s.last().1@)
    }
}

/// An owned store of typed attributes: the model of one native handle.
///
/// The store is the only allocation site and release site of the state it
/// owns; moving the value moves ownership, and dropping it releases the
/// state exactly once.
pub struct AttrStore {
    entries: Vec<(u16, AttrValue)>,
}

impl View for AttrStore {
    type V = Map<u16, AttrVal>;

    closed spec fn view(&self) -> Map<u16, AttrVal> {
        store_map(self.entries@)
    }
}

proof fn lemma_store_map_absent(s: Seq<(u16, AttrValue)>, key: u16)
    requires
        forall|i: int| 0 <= i < s.len() ==> (#[trigger] s[i]).0 != key,
    ensures
        !store_map(s).contains_key(key),
    decreases s.len(),
{
    if s.len() > 0 {
        assert(forall|i: int|
            0 <= i < s.drop_last().len() ==> (#[trigger] s.drop_last()[i]).0 != key);
        lemma_store_map_absent(s.drop_last(), key);
    }
}

proof fn lemma_store_map_found(s: Seq<(u16, AttrValue)>, i: int)
    requires
        0 <= i < s.len(),
        forall|j: int| 0 <= j < s.len() && j != i ==> (#[trigger] s[j]).0 != s[i].0,
    ensures
        store_map(s).contains_key(s[i].0),
        store_map(s)[s[i].0] == s[i].1@,
    decreases s.len(),
{
    if i == s.len() - 1 {
    } else {
        assert(forall|j: int|
            0 <= j < s.drop_last().len() && j != i
                ==> (#[trigger] s.drop_last()[j]).0 != s.drop_last()[i].0);
        lemma_store_map_found(s.drop_last(), i);
        assert(s.last().0 != s[i].0);
    }
}

proof fn lemma_store_map_update(s: Seq<(u16, AttrValue)>, i: int, value: AttrValue)
    requires
        keys_unique(s),
        0 <= i < s.len(),
    ensures
        store_map(s.update(i, (s[i].0, value))) == store_map(s).insert(s[i].0, value@),
    decreases s.len(),
{
    let t = s.update(i, (s[i].0, value));
    if i == s.len() - 1 {
        assert(t.drop_last() =~= s.drop_last());
        assert(store_map(t) =~= store_map(s).insert(s[i].0, value@));
    } else {
        assert(t.drop_last() =~= s.drop_last().update(i, (s[i].0, value)));
        assert(keys_unique(s.drop_last()));
        assert(s.drop_last()[i] == s[i]);
        lemma_store_map_update(s.drop_last(), i, value);
        assert(s.last().0 != s[i].0);
        assert(t.last() == s.last());
        assert(store_map(t) =~= store_map(s).insert(s[i].0, value@));
    }
}

impl AttrStore {
    /// The store holds no two entries under one key.
    pub closed spec fn wf(self) -> bool {
        keys_unique(self.entries@)
    }

    /// Allocates an empty attribute store.
    pub fn new() -> (r: AttrStore)
        ensures
            r.wf(),
            r@ == Map::<u16, AttrVal>::empty(),
    {
        AttrStore { entries: Vec::new() }
    }

    /// Sets the attribute under `key`, overwriting any earlier value.
    pub fn set(&mut self, key: u16, value: AttrValue)
        requires
            old(self).wf(),
        ensures
            final(self).wf(),
            final(self)@ == old(self)@.insert(key, value@),
    {
        let n: usize = self.entries.len();
        let mut i: usize = 0;
        while i < n
            invariant
                *self == *old(self),
                self.wf(),
                n == self.entries@.len(),
                i <= n,
                forall|j: int| 0 <= j < i ==> (#[trigger] self.entries@[j]).0 != key,
            decreases n - i,
        {
            if self.entries[i].0 == key {
                let ghost s = self.entries@;
                self.entries[i] = (key, value);
                proof {
                    assert(self.entries@ =~= s.update(i as int, (s[i as int].0, value)));
                    lemma_store_map_update(s, i as int, value);
                    assert(keys_unique(self.entries@));
                }
                return;
            }
            i += 1;
        }
        let ghost s = self.entries@;
        self.entries.push((key, value));
        proof {
            assert(self.entries@.drop_last() =~= s);
            assert(keys_unique(self.entries@));
        }
    }

    /// Sets an 8-bit integer attribute.
    pub fn set_u8(&mut self, key: u16, value: u8)
        requires
            old(self).wf(),
        ensures
            final(self).wf(),
            final(self)@ == old(self)@.insert(key, AttrVal::U8(value)),
    {
        self.set(key, AttrValue::U8(value));
    }

    /// Sets a 16-bit integer attribute.
    pub fn set_u16(&mut self, key: u16, value: u16)
        requires
            old(self).wf(),
        ensures
            final(self).wf(),
            final(self)@ == old(self)@.insert(key, AttrVal::U16(value)),
    {
        self.set(key, AttrValue::U16(value));
    }

    /// Sets a 32-bit integer attribute.
    pub fn set_u32(&mut self, key: u16, value: u32)
        requires
            old(self).wf(),
        ensures
            final(self).wf(),
            final(self)@ == old(self)@.insert(key, AttrVal::U32(value)),
    {
        self.set(key, AttrValue::U32(value));
    }

    /// Sets a 64-bit integer attribute.
    pub fn set_u64(&mut self, key: u16, value: u64)
        requires
            old(self).wf(),
        ensures
            final(self).wf(),
            final(self)@ == old(self)@.insert(key, AttrVal::U64(value)),
    {
        self.set(key, AttrValue::U64(value));
    }

    /// Sets a byte-string attribute.
    pub fn set_str(&mut self, key: u16, value: Vec<u8>)
        requires
            old(self).wf(),
        ensures
            final(self).wf(),
            final(self)@ == old(self)@.insert(key, AttrVal::Str(value@)),
    {
        self.set(key, AttrValue::Str(value));
    }

    /// Reads the attribute under `key`, if one was set.
    pub fn get(&self, key: u16) -> (r: Option<&AttrValue>)
        requires
            self.wf(),
        ensures
            match r {
                Some(v) => self@.contains_key(key) && v@ == self@[key],
                None => !self@.contains_key(key),
            },
    {
        let n: usize = self.entries.len();
        let mut i: usize = 0;
        while i < n
            invariant
                n == self.entries@.len(),
                i <= n,
                self.wf(),
                forall|j: int| 0 <= j < i ==> (#[trigger] self.entries@[j]).0 != key,
            decreases n - i,
        {
            if self.entries[i].0 == key {
                proof {
                    lemma_store_map_found(self.entries@, i as int);
                }
                return Some(&self.entries[i].1);
            }
            i += 1;
        }
        proof {
            lemma_store_map_absent(self.entries@, key);
        }
        None
    }
}

/// Duplicates a byte string into a fresh owned vector.
pub fn clone_bytes(src: &Vec<u8>) -> (r: Vec<u8>)
    ensures
        r@ == src@,
{
    let mut r: Vec<u8> = Vec::new();
    let mut i: usize = 0;
    while i < src.len()
        invariant
            i <= src@.len(),
            r@ == src@.take(i as int),
        decreases src@.len() - i,
    {
        r.push(src[i]);
        proof {
            assert(r@ =~= src@.take(i as int + 1));
        }
        i += 1;
    }
    proof {
        assert(src@.take(src@.len() as int) =~= src@);
    }
    r
}

} // verus!
