//! Value model of the object-store backend.
//!
//! The layer coordinates byte objects addressed by path.  The store is
//! modelled as a finite map from path to object bytes, held as a vector of
//! entries with pairwise-distinct paths; its view is that map.  The
//! operations consumed by the layer — put, delete, existence check, and the
//! prefix sweep used to clean the atomic-write staging area — are verified
//! against the map view.

use vstd::prelude::*;
use vstd::string::StrSliceExecFns;

use crate::error::StoreErrorKind;

verus! {

/// One path/object entry.
type Entry = (String, Vec<u8>);

/// Whether entry `i` of `objs` is addressed by path `p`.
pub open spec fn entry_at(objs: Seq<Entry>, p: Seq<char>, i: int) -> bool {
    0 <= i < objs.len() && objs[i].0@ == p
}

/// Whether some entry of `objs` is addressed by path `p`.
pub open spec fn has_entry(objs: Seq<Entry>, p: Seq<char>) -> bool {
    exists|i: int| entry_at(objs, p, i)
}

/// The index of the entry addressed by `p`.
pub open spec fn entry_index(objs: Seq<Entry>, p: Seq<char>) -> int {
    choose|i: int| entry_at(objs, p, i)
}

/// The map from path to object bytes that `objs` holds.
pub open spec fn contents_of(objs: Seq<Entry>) -> Map<Seq<char>, Seq<u8>> {
    Map::new(|p: Seq<char>| has_entry(objs, p), |p: Seq<char>| objs[entry_index(objs, p)].1@)
}

/// Whether the paths of `objs` are pairwise distinct.
pub open spec fn unique_paths(objs: Seq<Entry>) -> bool {
    forall|i: int, j: int| 0 <= i < j < objs.len() ==> objs[i].0@ != objs[j].0@
}

/// The map `m` with every binding whose path starts with `prefix` removed.
pub open spec fn remove_prefixed(
    m: Map<Seq<char>, Seq<u8>>,
    prefix: Seq<char>,
) -> Map<Seq<char>, Seq<u8>> {
    Map::new(|p: Seq<char>| m.contains_key(p) && !prefix.is_prefix_of(p), |p: Seq<char>| m[p])
}

/// An object store: a finite collection of byte objects addressed by path.
#[derive(Debug)]
pub struct ObjectStore {
    objects: Vec<Entry>,
}

impl View for ObjectStore {
    type V = Map<Seq<char>, Seq<u8>>;

    closed spec fn view(&self) -> Map<Seq<char>, Seq<u8>> {
        contents_of(self.objects@)
    }
}

/// With pairwise-distinct paths, the entry found at `i` is the one the
/// contents map binds to its path.
proof fn lemma_contents_key(objs: Seq<Entry>, p: Seq<char>, i: int)
    requires
        unique_paths(objs),
        entry_at(objs, p, i),
    ensures
        contents_of(objs).contains_key(p),
        contents_of(objs)[p] == objs[i].1@,
{
    assert(has_entry(objs, p));
    let w = entry_index(objs, p);
    assert(entry_at(objs, p, w));
    if w != i {
        assert(objs[i].0@ == objs[w].0@);
        assert(false);
    }
}

/// Replacing the bytes of entry `i` while keeping its path updates the
/// contents map at that path alone.
proof fn lemma_contents_update(objs: Seq<Entry>, objs2: Seq<Entry>, i: int)
    requires
        unique_paths(objs),
        0 <= i < objs.len(),
        objs2.len() == objs.len(),
        objs2[i].0 == objs[i].0,
        forall|j: int| 0 <= j < objs.len() && j != i ==> objs2[j] == objs[j],
    ensures
        unique_paths(objs2),
        contents_of(objs2) == contents_of(objs).insert(objs[i].0@, objs2[i].1@),
{
    assert(forall|j: int| 0 <= j < objs.len() ==> objs2[j].0 == objs[j].0);
    assert(unique_paths(objs2));
    let m1 = contents_of(objs2);
    let m2 = contents_of(objs).insert(objs[i].0@, objs2[i].1@);
    assert forall|p: Seq<char>| has_entry(objs2, p) implies has_entry(objs, p) by {
        let w = choose|w: int| entry_at(objs2, p, w);
        assert(entry_at(objs, p, w));
    }
    assert forall|p: Seq<char>| has_entry(objs, p) implies has_entry(objs2, p) by {
        let w = choose|w: int| entry_at(objs, p, w);
        assert(entry_at(objs2, p, w));
    }
    assert forall|p: Seq<char>| #[trigger] m1.contains_key(p) implies m2.contains_key(p) && m1[p]
        == m2[p] by {
        let w = choose|w: int| entry_at(objs2, p, w);
        lemma_contents_key(objs2, p, w);
        if p == objs[i].0@ {
            assert(w == i) by {
                if w != i {
                    assert(objs2[w].0@ == objs2[i].0@);
                    assert(false);
                }
            }
        } else {
            assert(w != i);
            lemma_contents_key(objs, p, w);
        }
    }
    assert forall|p: Seq<char>| #[trigger] m2.contains_key(p) implies m1.contains_key(p) by {
        if p == objs[i].0@ {
            assert(entry_at(objs2, p, i));
        } else {
            let w = choose|w: int| entry_at(objs, p, w);
            assert(entry_at(objs2, p, w));
        }
    }
    assert(m1 =~= m2);
}

/// Appending an entry with a fresh path inserts its binding into the
/// contents map.
proof fn lemma_contents_push(objs: Seq<Entry>, e: Entry)
    requires
        unique_paths(objs),
        !has_entry(objs, e.0@),
    ensures
        unique_paths(objs.push(e)),
        contents_of(objs.push(e)) == contents_of(objs).insert(e.0@, e.1@),
{
    let objs2 = objs.push(e);
    assert forall|i: int, j: int| 0 <= i < j < objs2.len() implies objs2[i].0@ != objs2[j].0@ by {
        if j < objs.len() {
            assert(objs2[i] == objs[i] && objs2[j] == objs[j]);
        } else {
            assert(objs2[j] == e);
            assert(objs2[i] == objs[i]);
            if objs[i].0@ == e.0@ {
                assert(entry_at(objs, e.0@, i));
                assert(false);
            }
        }
    }
    let m1 = contents_of(objs2);
    let m2 = contents_of(objs).insert(e.0@, e.1@);
    assert forall|p: Seq<char>| #[trigger] m1.contains_key(p) implies m2.contains_key(p) && m1[p]
        == m2[p] by {
        let w = choose|w: int| entry_at(objs2, p, w);
        lemma_contents_key(objs2, p, w);
        if w < objs.len() {
            assert(entry_at(objs, p, w));
            lemma_contents_key(objs, p, w);
            assert(p != e.0@);
        } else {
            assert(objs2[w] == e);
        }
    }
    assert forall|p: Seq<char>| #[trigger] m2.contains_key(p) implies m1.contains_key(p) by {
        if p == e.0@ {
            assert(entry_at(objs2, p, objs.len() as int));
        } else {
            let w = choose|w: int| entry_at(objs, p, w);
            assert(entry_at(objs2, p, w));
        }
    }
    assert(m1 =~= m2);
}

/// Removing entry `i` removes exactly its binding from the contents map.
proof fn lemma_contents_remove(objs: Seq<Entry>, i: int)
    requires
        unique_paths(objs),
        0 <= i < objs.len(),
    ensures
        unique_paths(objs.remove(i)),
        contents_of(objs.remove(i)) == contents_of(objs).remove(objs[i].0@),
{
    let objs2 = objs.remove(i);
    objs.remove_ensures(i);
    assert(forall|j: int| 0 <= j < i ==> objs2[j] == objs[j]);
    assert(forall|j: int| i <= j < objs2.len() ==> objs2[j] == objs[j + 1]);
    assert forall|a: int, b: int| 0 <= a < b < objs2.len() implies objs2[a].0@ != objs2[b].0@ by {
        let a0: int = if a < i { a } else { a + 1 };
        let b0: int = if b < i { b } else { b + 1 };
        assert(objs2[a] == objs[a0] && objs2[b] == objs[b0]);
    }
    let m1 = contents_of(objs2);
    let m2 = contents_of(objs).remove(objs[i].0@);
    assert forall|p: Seq<char>| #[trigger] m1.contains_key(p) implies m2.contains_key(p) && m1[p]
        == m2[p] by {
        let w = choose|w: int| entry_at(objs2, p, w);
        lemma_contents_key(objs2, p, w);
        let w0: int = if w < i { w } else { w + 1 };
        assert(objs2[w] == objs[w0]);
        assert(entry_at(objs, p, w0));
        lemma_contents_key(objs, p, w0);
        if p == objs[i].0@ {
            assert(objs[w0].0@ == objs[i].0@ && w0 != i);
            assert(false);
        }
    }
    assert forall|p: Seq<char>| #[trigger] m2.contains_key(p) implies m1.contains_key(p) by {
        let w = choose|w: int| entry_at(objs, p, w);
        assert(w != i);
        let w2: int = if w < i { w } else { w - 1 };
        assert(objs2[w2] == objs[w]);
        assert(entry_at(objs2, p, w2));
    }
    assert(m1 =~= m2);
}

/// Dropping a binding whose path starts with `prefix` does not change the
/// prefix-swept map.
proof fn lemma_remove_prefixed_drop(m: Map<Seq<char>, Seq<u8>>, prefix: Seq<char>, k: Seq<char>)
    requires
        prefix.is_prefix_of(k),
    ensures
        remove_prefixed(m.remove(k), prefix) == remove_prefixed(m, prefix),
{
    assert(remove_prefixed(m.remove(k), prefix) =~= remove_prefixed(m, prefix));
}

/// Whether `prefix` is a prefix of `s`, on the characters.
fn str_starts_with(s: &String, prefix: &String) -> (r: bool)
    ensures
        r == prefix@.is_prefix_of(s@),
{
    let n = prefix.as_str().unicode_len();
    let m = s.as_str().unicode_len();
    if n > m {
        return false;
    }
    let mut i: usize = 0;
    while i < n
        invariant
            i <= n,
            n == prefix@.len(),
            m == s@.len(),
            n <= m,
            forall|j: int| 0 <= j < i ==> s@[j] == prefix@[j],
        decreases n - i,
    {
        if s.as_str().get_char(i) != prefix.as_str().get_char(i) {
            proof {
                if prefix@.is_prefix_of(s@) {
                    assert(prefix@[i as int] == s@.subrange(0, n as int)[i as int]);
                    assert(false);
                }
            }
            return false;
        }
        i += 1;
    }
    proof {
        assert(prefix@ =~= s@.subrange(0, n as int));
    }
    true
}

impl ObjectStore {
    /// Whether the paths of the held entries are pairwise distinct.
    pub closed spec fn wf(self) -> bool {
        unique_paths(self.objects@)
    }

    /// Returns an empty store.
    pub fn new() -> (r: ObjectStore)
        ensures
            r.wf(),
            r@ == Map::<Seq<char>, Seq<u8>>::empty(),
    {
        let r = ObjectStore { objects: Vec::new() };
        proof {
            assert(r@ =~= Map::<Seq<char>, Seq<u8>>::empty());
        }
        r
    }

    fn find_index(&self, path: &String) -> (r: Option<usize>)
        ensures
            match r {
                Some(i) => entry_at(self.objects@, path@, i as int),
                None => !has_entry(self.objects@, path@),
            },
    {
        let mut i: usize = 0;
        while i < self.objects.len()
            invariant
                i <= self.objects@.len(),
                forall|j: int| 0 <= j < i ==> self.objects@[j].0@ != path@,
            decreases self.objects@.len() - i,
        {
            if self.objects[i].0 == *path {
                return Some(i);
            }
            i += 1;
        }
        proof {
            if has_entry(self.objects@, path@) {
                let w = choose|w: int| entry_at(self.objects@, path@, w);
                assert(self.objects@[w].0@ != path@);
            }
        }
        None
    }

    /// Whether an object is present at `path`.
    pub fn is_exist(&self, path: &String) -> (r: bool)
        ensures
            r == self@.contains_key(path@),
    {
        match self.find_index(path) {
            Some(i) => {
                proof {
                    assert(has_entry(self.objects@, path@));
                }
                true
            },
            None => false,
        }
    }

    /// Stores `data` at `path`, replacing any object already there.
    pub fn put(&mut self, path: &String, data: Vec<u8>)
        requires
            old(self).wf(),
        ensures
            final(self).wf(),
            final(self)@ == old(self)@.insert(path@, data@),
    {
        let ghost pre = self.objects@;
        match self.find_index(path) {
            Some(i) => {
                let entry = vstd::std_specs::vec::vec_index_mut(&mut self.objects, i);
                entry.1 = data;
                proof {
                    lemma_contents_update(pre, self.objects@, i as int);
                }
            },
            None => {
                self.objects.push((path.clone(), data));
                proof {
                    lemma_contents_push(pre, self.objects@[pre.len() as int]);
                    assert(self.objects@ =~= pre.push(self.objects@[pre.len() as int]));
                }
            },
        }
    }

    /// Deletes the object at `path`.  Fails, and leaves the store unchanged,
    /// if and only if no object is there.
    pub fn delete(&mut self, path: &String) -> (r: Result<(), StoreErrorKind>)
        requires
            old(self).wf(),
        ensures
            final(self).wf(),
            match r {
                Ok(()) => old(self)@.contains_key(path@) && final(self)@ == old(self)@.remove(
                    path@,
                ),
                Err(k) => k == StoreErrorKind::NotFound && !old(self)@.contains_key(path@)
                    && final(self)@ == old(self)@,
            },
    {
        match self.find_index(path) {
            Some(i) => {
                proof {
                    lemma_contents_key(self.objects@, path@, i as int);
                    lemma_contents_remove(self.objects@, i as int);
                }
                let _ = self.objects.remove(i);
                Ok(())
            },
            None => Err(StoreErrorKind::NotFound),
        }
    }

    /// Removes every object whose path starts with `prefix`.
    pub fn remove_prefix(&mut self, prefix: &String)
        requires
            old(self).wf(),
        ensures
            final(self).wf(),
            final(self)@ == remove_prefixed(old(self)@, prefix@),
    {
        let ghost orig = contents_of(self.objects@);
        let mut i: usize = 0;
        while i < self.objects.len()
            invariant
                unique_paths(self.objects@),
                i <= self.objects@.len(),
                forall|j: int| 0 <= j < i ==> !prefix@.is_prefix_of(self.objects@[j].0@),
                remove_prefixed(contents_of(self.objects@), prefix@) == remove_prefixed(
                    orig,
                    prefix@,
                ),
            decreases self.objects@.len() - i,
        {
            if str_starts_with(&self.objects[i].0, prefix) {
                proof {
                    lemma_contents_remove(self.objects@, i as int);
                    lemma_remove_prefixed_drop(
                        contents_of(self.objects@),
                        prefix@,
                        self.objects@[i as int].0@,
                    );
                }
                let _ = self.objects.remove(i);
            } else {
                i += 1;
            }
        }
        proof {
            let m = contents_of(self.objects@);
            assert forall|p: Seq<char>| #[trigger] m.contains_key(p) implies !prefix@.is_prefix_of(
                p,
            ) by {
                let w = choose|w: int| entry_at(self.objects@, p, w);
                assert(!prefix@.is_prefix_of(self.objects@[w].0@));
            }
            assert(m =~= remove_prefixed(m, prefix@));
        }
    }
}

} // verus!
