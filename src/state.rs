//! State owned by the loop thread: the object registry, the cache of loaded
//! libraries, and the handle of the loop thread itself.

use vstd::prelude::*;

use crate::registry::ObjectMap;

verus! {

/// The parts of a library name: alternatives separated by commas, tried in
/// order (`"a,b"` is `a`, then `b`; a name without commas is one part).
pub open spec fn split_commas(s: Seq<char>) -> Seq<Seq<char>>
    decreases s.len(),
{
    if s.len() == 0 {
        seq![Seq::<char>::empty()]
    } else {
        let init = split_commas(s.drop_last());
        if s.last() == ',' {
            init.push(Seq::<char>::empty())
        } else {
            init.update(init.len() - 1, init.last().push(s.last()))
        }
    }
}

proof fn lemma_split_commas_nonempty(s: Seq<char>)
    ensures
        split_commas(s).len() >= 1,
    decreases s.len(),
{
    if s.len() > 0 {
        lemma_split_commas_nonempty(s.drop_last());
    }
}

/// The alternative library names `name` stands for, in the order they are tried.
pub fn library_candidates(name: &str) -> (r: Vec<String>)
    ensures
        r@.len() == split_commas(name@).len(),
        forall|i: int| 0 <= i < r@.len() ==> #[trigger] r@[i]@ == split_commas(name@)[i],
{
    let n = name.unicode_len();
    let mut done: Vec<String> = Vec::new();
    let mut start: usize = 0;
    let mut i: usize = 0;
    while i < n
        invariant
            n as nat == name@.len(),
            0 <= start <= i <= n,
            done@.len() + 1 == split_commas(name@.take(i as int)).len(),
            forall|k: int| 0 <= k < done@.len() ==> #[trigger] done@[k]@ == split_commas(name@.take(i as int))[k],
            split_commas(name@.take(i as int)).last() == name@.subrange(start as int, i as int),
        decreases n - i,
    {
        proof {
            lemma_split_commas_nonempty(name@.take(i as int));
            assert(name@.take(i as int + 1).drop_last() =~= name@.take(i as int));
            assert(name@.take(i as int + 1).last() == name@[i as int]);
        }
        let c = name.get_char(i);
        if c == ',' {
            let piece = name.substring_char(start, i).to_owned();
            done.push(piece);
            start = i + 1;
            proof {
                assert(name@.subrange(start as int, i as int + 1) =~= Seq::<char>::empty());
            }
        } else {
            proof {
                assert(name@.subrange(start as int, i as int + 1) =~= name@.subrange(start as int, i as int).push(c));
            }
        }
        i += 1;
    }
    proof {
        assert(name@.take(n as int) =~= name@);
        lemma_split_commas_nonempty(name@);
    }
    let last = name.substring_char(start, n).to_owned();
    done.push(last);
    done
}

/// The library handles loaded so far, by the name they were asked for.
pub struct LibraryCache<L> {
    entries: Vec<(String, L)>,
}

impl<L> LibraryCache<L> {
    /// The names that have a loaded library.
    pub closed spec fn names(&self) -> Seq<Seq<char>> {
        self.entries@.map_values(|e: (String, L)| e.0@)
    }

    pub fn new() -> (r: Self)
        ensures
            r.names() == Seq::<Seq<char>>::empty(),
    {
        let r = LibraryCache { entries: Vec::new() };
        assert(r.names() =~= Seq::<Seq<char>>::empty());
        r
    }

    /// The library recorded under the `i`-th name.
    pub closed spec fn library_at(&self, i: int) -> L {
        self.entries@[i].1
    }

    /// The library loaded under `name`, if any: the first one recorded under it.
    pub fn get(&self, name: &str) -> (r: Option<&L>)
        ensures
            r.is_some() == self.names().contains(name@),
            match r {
                Some(l) => exists|i: int|
                    0 <= i < self.names().len() && #[trigger] self.names()[i] == name@ && *l == self.library_at(i)
                        && forall|j: int| 0 <= j < i ==> self.names()[j] != name@,
                None => true,
            },
    {
        let mut i: usize = 0;
        while i < self.entries.len()
            invariant
                0 <= i <= self.entries@.len(),
                forall|j: int| 0 <= j < i ==> #[trigger] self.names()[j] != name@,
            decreases self.entries@.len() - i,
        {
            let key = &self.entries[i].0;
            let wanted = name.to_owned();
            if key.eq(&wanted) {
                proof {
                    assert(self.names()[i as int] == name@);
                }
                return Some(&self.entries[i].1);
            }
            i += 1;
        }
        None
    }

    /// Records the library loaded under `name`.
    pub fn insert(&mut self, name: String, library: L)
        ensures
            final(self).names() == old(self).names().push(name@),
            final(self).library_at(old(self).names().len() as int) == library,
            forall|i: int| 0 <= i < old(self).names().len() ==> #[trigger] final(self).library_at(i) == old(self).library_at(i),
    {
        let ghost n = name@;
        self.entries.push((name, library));
        proof {
            assert(self.names() =~= old(self).names().push(n));
        }
    }
}

/// Everything the loop thread keeps between calls. It is owned by the loop
/// thread and reached only through its owner, never from another thread.
pub struct GtkThreadState<O, L> {
    pub object_map: ObjectMap<O>,
    pub libraries: LibraryCache<L>,
}

impl<O, L> GtkThreadState<O, L> {
    pub fn new() -> (r: Self)
        ensures
            r.object_map.wf(),
            r.object_map.addresses() == Map::<usize, usize>::empty(),
            r.object_map.next_id() == 1,
            r.libraries.names() == Seq::<Seq<char>>::empty(),
    {
        GtkThreadState { object_map: ObjectMap::new(), libraries: LibraryCache::new() }
    }
}

/// The join handle of the loop thread, kept until it is joined once.
pub struct GtkThreadHandle<H> {
    handle: Option<H>,
}

impl<H> GtkThreadHandle<H> {
    pub closed spec fn held(&self) -> Option<H> {
        self.handle
    }

    pub fn new() -> (r: Self)
        ensures
            r.held() is None,
    {
        GtkThreadHandle { handle: None }
    }

    /// Keeps `handle`, replacing any handle kept before.
    pub fn set_gtk_thread_handle(&mut self, handle: H)
        ensures
            final(self).held() == Some(handle),
    {
        self.handle = Some(handle);
    }

    /// Hands out the kept handle to be joined, once: afterwards none is kept.
    pub fn join_gtk_thread(&mut self) -> (r: Option<H>)
        ensures
            r == old(self).held(),
            final(self).held() is None,
    {
        self.handle.take()
    }
}

} // verus!
