use vstd::prelude::*;

use crate::error::LDNError;

verus! {

/// What a store holds: for each path, the document and its version token.
pub type StoreView<T> = Map<Seq<char>, (T, u64)>;

/// The outcome of a conditional write of `doc` at `path`, made with the
/// version token `expected`: the new store and the new token, or the reason
/// the write was refused. A refused write leaves the store as it was.
pub open spec fn write_spec<T>(s: StoreView<T>, path: Seq<char>, doc: T, expected: u64) -> (
    StoreView<T>,
    Result<u64, LDNError>,
) {
    if !s.contains_key(path) {
        (s, Err(LDNError::NotFound))
    } else if s[path].1 != expected {
        (s, Err(LDNError::VersionConflict))
    } else if expected == u64::MAX {
        (s, Err(LDNError::AdapterError))
    } else {
        (s.insert(path, (doc, (expected + 1) as u64)), Ok((expected + 1) as u64))
    }
}

/// The outcome of creating `doc` at `path`: refused where a document is there.
pub open spec fn create_spec<T>(s: StoreView<T>, path: Seq<char>, doc: T) -> (
    StoreView<T>,
    Result<u64, LDNError>,
) {
    if s.contains_key(path) {
        (s, Err(LDNError::AlreadyExists))
    } else {
        (s.insert(path, (doc, 0u64)), Ok(0u64))
    }
}

/// One stored document.
pub struct StoredDocument<T> {
    pub path: String,
    pub doc: T,
    pub version: u64,
}

/// A document store whose only write primitive is "write only if the
/// version token still matches", with version tokens as counters. This is an
/// in-process model of the store protocol: what is proved of it (no lost
/// updates) holds of this type only. Against the remote repository the same
/// guarantee rests on the remote side refusing a write whose content hash no
/// longer matches.
pub struct DocumentStore<T> {
    docs: Vec<StoredDocument<T>>,
    contents: Ghost<StoreView<T>>,
}

impl<T> View for DocumentStore<T> {
    type V = StoreView<T>;

    closed spec fn view(&self) -> StoreView<T> {
        self.contents@
    }
}

impl<T> DocumentStore<T> {
    /// Each path is held once, and the ghost contents are what `docs` holds.
    pub closed spec fn wf(&self) -> bool {
        &&& forall|i: int|
            0 <= i < self.docs@.len() ==> {
                &&& self.contents@.contains_key((#[trigger] self.docs@[i]).path@)
                &&& self.contents@[self.docs@[i].path@] == (
                    self.docs@[i].doc,
                    self.docs@[i].version,
                )
            }
        &&& forall|k: Seq<char>|
            #[trigger] self.contents@.contains_key(k) ==> exists|i: int|
                0 <= i < self.docs@.len() && (#[trigger] self.docs@[i]).path@ == k
        &&& forall|i: int, j: int|
            0 <= i < self.docs@.len() && 0 <= j < self.docs@.len() && i != j
                ==> (#[trigger] self.docs@[i]).path@ != (#[trigger] self.docs@[j]).path@
    }

    /// An empty store.
    pub fn new() -> (r: Self)
        ensures
            r.wf(),
            r@ == Map::<Seq<char>, (T, u64)>::empty(),
    {
        DocumentStore { docs: Vec::new(), contents: Ghost(Map::empty()) }
    }

    fn find(&self, path: &String) -> (r: Option<usize>)
        requires
            self.wf(),
        ensures
            r is None <==> !self@.contains_key(path@),
            r matches Some(i) ==> i < self.docs@.len() && self.docs@[i as int].path@ == path@,
    {
        let mut i: usize = 0;
        while i < self.docs.len()
            invariant
                i <= self.docs@.len(),
                self.wf(),
                forall|j: int| 0 <= j < i ==> (#[trigger] self.docs@[j]).path@ != path@,
            decreases self.docs@.len() - i,
        {
            if self.docs[i].path == *path {
                return Some(i);
            }
            i = i + 1;
        }
        None
    }

    /// The document at `path` and its version token.
    pub fn read(&self, path: &String) -> (r: Option<(&T, u64)>)
        requires
            self.wf(),
        ensures
            r is None <==> !self@.contains_key(path@),
            r matches Some((d, v)) ==> self@[path@] == (*d, v),
    {
        match self.find(path) {
            Some(i) => {
                let e = &self.docs[i];
                Some((&e.doc, e.version))
            },
            None => None,
        }
    }

    /// Stores `doc` at a new `path`, with version token 0.
    pub fn create(&mut self, path: String, doc: T) -> (r: Result<u64, LDNError>)
        requires
            old(self).wf(),
        ensures
            final(self).wf(),
            (final(self)@, r) == create_spec(old(self)@, path@, doc),
    {
        match self.find(&path) {
            Some(_) => Err(LDNError::AlreadyExists),
            None => {
                let ghost key = path@;
                let ghost old_docs = self.docs@;
                self.contents = Ghost(self.contents@.insert(key, (doc, 0u64)));
                self.docs.push(StoredDocument { path, doc, version: 0 });
                proof {
                    assert forall|k: Seq<char>| #[trigger] self.contents@.contains_key(k)
                        implies exists|i: int|
                        0 <= i < self.docs@.len() && (#[trigger] self.docs@[i]).path@ == k by {
                        if k == key {
                            assert(self.docs@[old_docs.len() as int].path@ == k);
                        } else {
                            assert(old_docs.len() < self.docs@.len());
                            let i = choose|i: int|
                                0 <= i < old_docs.len() && (#[trigger] old_docs[i]).path@ == k;
                            assert(self.docs@[i] == old_docs[i]);
                        }
                    }
                }
                Ok(0)
            },
        }
    }

    /// Writes `doc` at `path` only if its version token is still `expected`;
    /// otherwise the store is left as it was and the conflict is reported.
    pub fn write(&mut self, path: &String, doc: T, expected: u64) -> (r: Result<u64, LDNError>)
        requires
            old(self).wf(),
        ensures
            final(self).wf(),
            (final(self)@, r) == write_spec(old(self)@, path@, doc, expected),
    {
        match self.find(path) {
            None => Err(LDNError::NotFound),
            Some(i) => {
                let current = self.docs[i].version;
                if current != expected {
                    return Err(LDNError::VersionConflict);
                }
                if current == u64::MAX {
                    return Err(LDNError::AdapterError);
                }
                let ghost old_docs = self.docs@;
                let p = path.clone();
                self.contents = Ghost(self.contents@.insert(path@, (doc, (current + 1) as u64)));
                self.docs.set(i, StoredDocument { path: p, doc, version: current + 1 });
                proof {
                    assert forall|k: Seq<char>| #[trigger] self.contents@.contains_key(k)
                        implies exists|j: int|
                        0 <= j < self.docs@.len() && (#[trigger] self.docs@[j]).path@ == k by {
                        let j = choose|j: int|
                            0 <= j < old_docs.len() && (#[trigger] old_docs[j]).path@ == k;
                        assert(self.docs@[j].path@ == k);
                    }
                }
                Ok(current + 1)
            },
        }
    }
}

/// Two conditional writes made with the same version token, read from the
/// same stored document: whichever comes first succeeds, the other is
/// refused with `VersionConflict`, and a later read returns the document of
/// the first.
pub proof fn lemma_concurrent_writes<T>(
    s: StoreView<T>,
    path: Seq<char>,
    first: T,
    second: T,
    token: u64,
)
    requires
        s.contains_key(path),
        s[path].1 == token,
        token < u64::MAX,
    ensures
        ({
            let (s1, r1) = write_spec(s, path, first, token);
            let (s2, r2) = write_spec(s1, path, second, token);
            &&& r1 == Ok::<u64, LDNError>((token + 1) as u64)
            &&& r2 == Err::<u64, LDNError>(LDNError::VersionConflict)
            &&& s2 == s1
            &&& s2[path] == (first, (token + 1) as u64)
        }),
{
}

} // verus!
