//! The connection registry: a mapping from connection name to handle.

use vstd::prelude::*;
use crate::text::same_text;
use crate::reply::Response;

verus! {

/// No two entries share a name.
pub open spec fn names_unique<H>(s: Seq<(String, H)>) -> bool {
    forall|i: int, j: int| 0 <= i < j < s.len() ==> (#[trigger] s[i]).0@ != (#[trigger] s[j]).0@
}

/// The mapping that a sequence of entries denotes.
pub open spec fn map_of<H>(s: Seq<(String, H)>) -> Map<Seq<char>, H>
    decreases s.len(),
{
    if s.len() == 0 {
        Map::empty()
    } else {
        map_of(s.drop_last()).insert(s.last().0@, s.last().1)
    }
}

proof fn lemma_map_of<H>(s: Seq<(String, H)>, k: Seq<char>)
    requires
        names_unique(s),
    ensures
        map_of(s).contains_key(k) <==> exists|i: int| 0 <= i < s.len() && (#[trigger] s[i]).0@ == k,
        forall|i: int| 0 <= i < s.len() && (#[trigger] s[i]).0@ == k ==> map_of(s)[k] == s[i].1,
    decreases s.len(),
{
    if s.len() > 0 {
        let p = s.drop_last();
        assert(names_unique(p)) by {
            assert forall|i: int, j: int| 0 <= i < j < p.len() implies (#[trigger] p[i]).0@ != (#[trigger] p[j]).0@ by {
                assert(p[i] == s[i] && p[j] == s[j]);
            }
        }
        lemma_map_of(p, k);
        if k == s.last().0@ {
            assert(s[s.len() - 1].0@ == k);
        } else {
            if map_of(s).contains_key(k) {
                let i = choose|i: int| 0 <= i < p.len() && (#[trigger] p[i]).0@ == k;
                assert(s[i] == p[i]);
            }
            assert forall|i: int| 0 <= i < s.len() && (#[trigger] s[i]).0@ == k implies map_of(s)[k] == s[i].1 by {
                assert(i < s.len() - 1);
                assert(s[i] == p[i]);
            }
            if exists|i: int| 0 <= i < s.len() && (#[trigger] s[i]).0@ == k {
                let i = choose|i: int| 0 <= i < s.len() && (#[trigger] s[i]).0@ == k;
                assert(i < s.len() - 1);
                assert(p[i] == s[i]);
            }
        }
    }
}

/// A mapping from connection name to handle. Inserting under a name that
/// is taken replaces its handle; lookup is the only other operation.
pub struct Registry<H> {
    entries: Vec<(String, H)>,
}

impl<H> View for Registry<H> {
    type V = Map<Seq<char>, H>;

    closed spec fn view(&self) -> Map<Seq<char>, H> {
        map_of(self.entries@)
    }
}

impl<H> Registry<H> {
    /// The invariant of a registry.
    pub closed spec fn wf(&self) -> bool {
        names_unique(self.entries@)
    }

    /// An empty registry.
    pub fn new() -> (r: Registry<H>)
        ensures
            r.wf(),
            r@ == Map::<Seq<char>, H>::empty(),
    {
        Registry { entries: Vec::new() }
    }

    fn position(&self, name: &str) -> (r: Option<usize>)
        requires
            self.wf(),
        ensures
            match r {
                Some(i) => i < self.entries@.len() && self.entries@[i as int].0@ == name@,
                None => forall|i: int| 0 <= i < self.entries@.len() ==> (#[trigger] self.entries@[i]).0@ != name@,
            },
    {
        let mut i: usize = 0;
        while i < self.entries.len()
            invariant
                i <= self.entries@.len(),
                forall|k: int| 0 <= k < i ==> (#[trigger] self.entries@[k]).0@ != name@,
            decreases self.entries@.len() - i,
        {
            if same_text(self.entries[i].0.as_str(), name) {
                return Some(i);
            }
            i = i + 1;
        }
        None
    }

    /// The handle registered under `name`, if any.
    pub fn find(&self, name: &str) -> (r: Option<&H>)
        requires
            self.wf(),
        ensures
            r is Some <==> self@.contains_key(name@),
            r matches Some(h) ==> *h == self@[name@],
    {
        proof {
            lemma_map_of(self.entries@, name@);
        }
        match self.position(name) {
            Some(i) => Some(&self.entries[i].1),
            None => None,
        }
    }

    /// Registers `handle` under `name`, replacing and returning the handle
    /// that was registered there before, if any.
    pub fn insert(&mut self, name: String, handle: H) -> (r: Option<H>)
        requires
            old(self).wf(),
        ensures
            final(self).wf(),
            final(self)@ == old(self)@.insert(name@, handle),
            r is Some <==> old(self)@.contains_key(name@),
            r matches Some(h) ==> h == old(self)@[name@],
    {
        proof {
            lemma_map_of(self.entries@, name@);
        }
        let ghost old_entries = self.entries@;
        match self.position(name.as_str()) {
            Some(i) => {
                let (_, prior) = self.entries.remove(i);
                self.entries.insert(i, (name, handle));
                proof {
                    let s = self.entries@;
                    assert(s =~= old_entries.update(i as int, (name, handle)));
                    assert(names_unique(s)) by {
                        assert forall|a: int, b: int| 0 <= a < b < s.len() implies (#[trigger] s[a]).0@ != (#[trigger] s[b]).0@ by {
                            assert(old_entries[a].0@ != old_entries[b].0@);
                        }
                    }
                    assert forall|k: Seq<char>| #[trigger] map_of(s).contains_key(k)
                        == map_of(old_entries).insert(name@, handle).contains_key(k) by {
                        lemma_map_of(s, k);
                        lemma_map_of(old_entries, k);
                        if k != name@ {
                            if exists|j: int| 0 <= j < s.len() && (#[trigger] s[j]).0@ == k {
                                let j = choose|j: int| 0 <= j < s.len() && (#[trigger] s[j]).0@ == k;
                                assert(old_entries[j] == s[j]);
                            }
                            if exists|j: int| 0 <= j < old_entries.len() && (#[trigger] old_entries[j]).0@ == k {
                                let j = choose|j: int| 0 <= j < old_entries.len() && (#[trigger] old_entries[j]).0@ == k;
                                assert(old_entries[j] == s[j]);
                            }
                        } else {
                            assert(s[i as int].0@ == k);
                        }
                    }
                    assert forall|k: Seq<char>| #[trigger] map_of(s).contains_key(k) implies map_of(s)[k]
                        == map_of(old_entries).insert(name@, handle)[k] by {
                        lemma_map_of(s, k);
                        lemma_map_of(old_entries, k);
                        let j = choose|j: int| 0 <= j < s.len() && (#[trigger] s[j]).0@ == k;
                        if k != name@ {
                            assert(old_entries[j] == s[j]);
                        } else {
                            assert(j == i);
                        }
                    }
                    assert(map_of(s) =~= map_of(old_entries).insert(name@, handle));
                }
                Some(prior)
            },
            None => {
                self.entries.push((name, handle));
                proof {
                    let s = self.entries@;
                    assert(s.drop_last() =~= old_entries);
                    assert(names_unique(s)) by {
                        assert forall|a: int, b: int| 0 <= a < b < s.len() implies (#[trigger] s[a]).0@ != (#[trigger] s[b]).0@ by {
                            if b == s.len() - 1 {
                                assert(s[a] == old_entries[a]);
                            } else {
                                assert(s[a] == old_entries[a] && s[b] == old_entries[b]);
                            }
                        }
                    }
                }
                None
            },
        }
    }

    /// How many names are registered.
    pub fn len(&self) -> (r: usize)
        requires
            self.wf(),
        ensures
            r == self@.len(),
    {
        proof {
            lemma_len(self.entries@);
        }
        self.entries.len()
    }

    /// The name and handle of the `i`-th entry, in an order that says nothing
    /// of the order of registration.
    pub fn entry(&self, i: usize) -> (r: (&String, &H))
        requires
            self.wf(),
            i < self@.len(),
        ensures
            self@.contains_key(r.0@),
            self@[r.0@] == *r.1,
    {
        proof {
            lemma_len(self.entries@);
            lemma_map_of(self.entries@, self.entries@[i as int].0@);
        }
        (&self.entries[i].0, &self.entries[i].1)
    }
}

proof fn lemma_len<H>(s: Seq<(String, H)>)
    requires
        names_unique(s),
    ensures
        map_of(s).dom().finite(),
        map_of(s).len() == s.len(),
    decreases s.len(),
{
    if s.len() > 0 {
        let p = s.drop_last();
        assert(names_unique(p)) by {
            assert forall|i: int, j: int| 0 <= i < j < p.len() implies (#[trigger] p[i]).0@ != (#[trigger] p[j]).0@ by {
                assert(p[i] == s[i] && p[j] == s[j]);
            }
        }
        lemma_len(p);
        lemma_map_of(p, s.last().0@);
        if map_of(p).contains_key(s.last().0@) {
            let i = choose|i: int| 0 <= i < p.len() && (#[trigger] p[i]).0@ == s.last().0@;
            assert(s[i] == p[i]);
        }
    }
}

/// Registering a second handle under a name replaces the first for every
/// later lookup and leaves the other names as they were; the insertion
/// hands back the first handle, which stays as it was.
pub proof fn overwrite_replaces<H>(m: Map<Seq<char>, H>, name: Seq<char>, first: H, second: H, other: Seq<char>)
    requires
        other != name,
    ensures
        m.insert(name, first).insert(name, second).contains_key(name),
        m.insert(name, first).insert(name, second)[name] == second,
        m.insert(name, first)[name] == first,
        m.insert(name, first).insert(name, second).contains_key(other) == m.contains_key(other),
        m.contains_key(other) ==> m.insert(name, first).insert(name, second)[other] == m[other],
{
}

/// Finishes a connection attempt under `name`. An established connection's
/// handle is registered, replacing any handle under that name, and the
/// requester is told `Connected`; a failed attempt leaves the registry as
/// it was, and the requester is told `Timeout` with the error's text.
pub fn connect_finished<H>(registry: &mut Registry<H>, name: String, attempt: Result<H, String>) -> (r: Response)
    requires
        old(registry).wf(),
    ensures
        final(registry).wf(),
        attempt matches Ok(h) ==> final(registry)@ == old(registry)@.insert(name@, h) && r is Connected,
        attempt matches Err(m) ==> final(registry)@ == old(registry)@ && (r matches Response::Timeout(t) && t == m),
{
    match attempt {
        Ok(h) => {
            let _ = registry.insert(name, h);
            Response::Connected
        },
        Err(m) => Response::Timeout(m),
    }
}

} // verus!
