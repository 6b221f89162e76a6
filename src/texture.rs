use vstd::prelude::*;

use crate::color::Color;
use crate::gradient::Gradient;
use crate::allocator::{allocate_row, next_texture_index};

verus! {

/// The index of a texture that the allocator manages, if it is one.
pub open spec fn managed_index(id: epaint::TextureId) -> Option<u64> {
    match id {
        epaint::TextureId::Managed(k) => Some(k),
        epaint::TextureId::User(_) => None,
    }
}

/// What one lookup-or-allocate does, over the cache's contents before
/// (`before`) and after (`after`), the allocator before (`a0`) and after
/// (`a1`), and the handle `id` it returns: a known gradient gets its
/// stored handle and touches nothing; a new one gets exactly one fresh
/// allocation, whose handle is stored under it.
pub open spec fn lookup_or_allocate(
    before: Map<Seq<Color>, epaint::TextureId>,
    a0: epaint::TextureManager,
    g: Seq<Color>,
    after: Map<Seq<Color>, epaint::TextureId>,
    a1: epaint::TextureManager,
    id: epaint::TextureId,
) -> bool {
    if before.contains_key(g) {
        &&& id == before[g]
        &&& after == before
        &&& a1 == a0
    } else {
        &&& id == epaint::TextureId::Managed(next_texture_index(a0))
        &&& next_texture_index(a1) == next_texture_index(a0) + 1
        &&& after == before.insert(g, id)
    }
}

/// One cached texture.
#[derive(Debug)]
pub struct CacheEntry {
    pub gradient: Gradient,
    pub id: epaint::TextureId,
}

/// Memoizes one texture per distinct gradient. Entries are never evicted.
pub struct TextureCache {
    entries: Vec<CacheEntry>,
    contents: Ghost<Map<Seq<Color>, epaint::TextureId>>,
}

impl View for TextureCache {
    type V = Map<Seq<Color>, epaint::TextureId>;

    closed spec fn view(&self) -> Map<Seq<Color>, epaint::TextureId> {
        self.contents@
    }
}

impl Default for TextureCache {
    fn default() -> (c: TextureCache)
        ensures
            c.wf(),
            c@ == Map::<Seq<Color>, epaint::TextureId>::empty(),
    {
        TextureCache::new()
    }
}

impl TextureCache {
    /// The entries hold each gradient once, and they are exactly the
    /// contents; no two gradients share a handle.
    pub closed spec fn wf(&self) -> bool {
        &&& forall|i: int, j: int|
            0 <= i < j < self.entries@.len() ==> self.entries@[i].gradient@
                != self.entries@[j].gradient@
        &&& forall|i: int|
            0 <= i < self.entries@.len() ==> #[trigger] self.contents@.contains_key(
                self.entries@[i].gradient@,
            ) && self.contents@[self.entries@[i].gradient@] == self.entries@[i].id
        &&& forall|k: Seq<Color>|
            #[trigger] self.contents@.contains_key(k) ==> exists|i: int|
                0 <= i < self.entries@.len() && self.entries@[i].gradient@ == k
        &&& self.handles_distinct()
    }

    /// No two cached gradients share a handle.
    pub open spec fn handles_distinct(&self) -> bool {
        forall|k1: Seq<Color>, k2: Seq<Color>|
            #[trigger] self@.contains_key(k1) && #[trigger] self@.contains_key(k2) && k1 != k2
                ==> self@[k1] != self@[k2]
    }

    /// Every cached handle came from an allocator whose running index is
    /// now at least `n`.
    pub open spec fn issued_below(&self, n: u64) -> bool {
        forall|k: Seq<Color>|
            #[trigger] self@.contains_key(k) ==> match managed_index(self@[k]) {
                Some(i) => i < n,
                None => false,
            }
    }

    /// An empty cache.
    pub fn new() -> (c: TextureCache)
        ensures
            c.wf(),
            c@ == Map::<Seq<Color>, epaint::TextureId>::empty(),
    {
        TextureCache { entries: Vec::new(), contents: Ghost(Map::empty()) }
    }

    /// The number of cached textures.
    pub fn len(&self) -> (n: usize)
        requires
            self.wf(),
        ensures
            n == self@.len(),
    {
        proof {
            self.lemma_len();
        }
        self.entries.len()
    }

    proof fn lemma_len(&self)
        requires
            self.wf(),
        ensures
            self@.len() == self.entries@.len(),
    {
        let keys = self.entries@.map_values(|e: CacheEntry| e.gradient@);
        assert(keys.no_duplicates());
        keys.unique_seq_to_set();
        assert forall|k: Seq<Color>| keys.to_set().contains(k) <==> self@.dom().contains(k) by {
            if self@.dom().contains(k) {
                let i = choose|i: int| 0 <= i < self.entries@.len() && self.entries@[i].gradient@ == k;
                assert(keys[i] == k);
            }
            if keys.to_set().contains(k) {
                let i = choose|i: int| 0 <= i < keys.len() && keys[i] == k;
                assert(self.entries@[i].gradient@ == k);
            }
        }
        assert(keys.to_set() =~= self@.dom());
    }

    /// The handle cached for `gradient`, if any.
    pub fn lookup(&self, gradient: &Gradient) -> (r: Option<epaint::TextureId>)
        requires
            self.wf(),
        ensures
            r == (if self@.contains_key(gradient@) {
                Some(self@[gradient@])
            } else {
                None
            }),
    {
        let mut i: usize = 0;
        while i < self.entries.len()
            invariant
                self.wf(),
                i <= self.entries@.len(),
                forall|j: int| 0 <= j < i ==> self.entries@[j].gradient@ != gradient@,
            decreases self.entries@.len() - i,
        {
            if self.entries[i].gradient == *gradient {
                return Some(self.entries[i].id);
            }
            i = i + 1;
        }
        None
    }

    /// The handle for `gradient`: the cached one, or else a texture of its
    /// pixel row (`len x 1`) newly allocated and cached.
    pub fn get(&mut self, allocator: &mut epaint::TextureManager, gradient: &Gradient) -> (id: epaint::TextureId)
        requires
            old(self).wf(),
            old(self).issued_below(next_texture_index(*old(allocator))),
            next_texture_index(*old(allocator)) < u64::MAX,
        ensures
            final(self).wf(),
            final(self).issued_below(next_texture_index(*final(allocator))),
            lookup_or_allocate(old(self)@, *old(allocator), gradient@, final(self)@, *final(allocator), id),
    {
        match self.lookup(gradient) {
            Some(id) => id,
            None => {
                let id = allocate_row(allocator, gradient.to_pixel_row());
                let ghost before = self@;
                let ghost n = next_texture_index(*old(allocator));
                let key = Gradient::construct(gradient.to_pixel_row());
                self.entries.push(CacheEntry { gradient: key, id });
                self.contents = Ghost(before.insert(gradient@, id));
                proof {
                    let last = self.entries@.len() - 1;
                    assert(self.entries@[last].gradient@ == gradient@);
                    assert forall|k: Seq<Color>| #[trigger] self@.contains_key(k) implies exists|i: int|
                        0 <= i < self.entries@.len() && self.entries@[i].gradient@ == k by {
                        if k == gradient@ {
                            assert(self.entries@[last].gradient@ == k);
                        } else {
                            assert(old(self)@.contains_key(k));
                            let i = choose|i: int| 0 <= i < old(self).entries@.len() && old(self).entries@[i].gradient@ == k;
                            assert(self.entries@[i] == old(self).entries@[i]);
                        }
                    }
                    assert forall|k: Seq<Color>| #[trigger] self@.contains_key(k) implies match managed_index(self@[k]) {
                        Some(i) => i < n + 1,
                        None => false,
                    } by {
                        if k != gradient@ {
                            assert(old(self)@.contains_key(k));
                        }
                    }
                    assert forall|k1: Seq<Color>, k2: Seq<Color>|
                        #[trigger] self@.contains_key(k1) && #[trigger] self@.contains_key(k2) && k1 != k2
                        implies self@[k1] != self@[k2] by {
                        if k1 == gradient@ {
                            assert(old(self)@.contains_key(k2));
                        } else if k2 == gradient@ {
                            assert(old(self)@.contains_key(k1));
                        } else {
                            assert(old(self)@.contains_key(k1));
                            assert(old(self)@.contains_key(k2));
                        }
                    }
                }
                id
            },
        }
    }
}

/// Looking up a gradient again, after a lookup of an equal gradient,
/// returns the same handle and changes neither the cache nor the
/// allocator: the two lookups allocate at most once between them.
pub proof fn lemma_second_lookup_allocates_nothing(
    c0: Map<Seq<Color>, epaint::TextureId>,
    a0: epaint::TextureManager,
    g1: Seq<Color>,
    c1: Map<Seq<Color>, epaint::TextureId>,
    a1: epaint::TextureManager,
    id1: epaint::TextureId,
    g2: Seq<Color>,
    c2: Map<Seq<Color>, epaint::TextureId>,
    a2: epaint::TextureManager,
    id2: epaint::TextureId,
)
    requires
        lookup_or_allocate(c0, a0, g1, c1, a1, id1),
        lookup_or_allocate(c1, a1, g2, c2, a2, id2),
        g1 == g2,
    ensures
        id2 == id1,
        c2 == c1,
        a2 == a1,
        next_texture_index(a2) <= next_texture_index(a0) + 1,
{
    assert(c1.contains_key(g1));
}

/// Two successive lookups of different gradients return different
/// handles, whether each was cached already or newly allocated.
pub proof fn lemma_distinct_gradients_distinct_handles(
    c0: TextureCache,
    a0: epaint::TextureManager,
    g1: Seq<Color>,
    c1: Map<Seq<Color>, epaint::TextureId>,
    a1: epaint::TextureManager,
    id1: epaint::TextureId,
    g2: Seq<Color>,
    c2: Map<Seq<Color>, epaint::TextureId>,
    a2: epaint::TextureManager,
    id2: epaint::TextureId,
)
    requires
        c0.wf(),
        c0.issued_below(next_texture_index(a0)),
        lookup_or_allocate(c0@, a0, g1, c1, a1, id1),
        lookup_or_allocate(c1, a1, g2, c2, a2, id2),
        g1 != g2,
    ensures
        id1 != id2,
{
    if c0@.contains_key(g1) {
        assert(managed_index(c0@[g1]) is Some);
        if c0@.contains_key(g2) {
            assert(c0@[g1] != c0@[g2]);
        }
    } else if c1.contains_key(g2) {
        assert(c0@.contains_key(g2));
        assert(managed_index(c0@[g2]) is Some);
    }
}

} // verus!
