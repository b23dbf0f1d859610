//! The listing of one directory as an ordered, observable sequence of
//! entries. Entries arrive in batches from the enumeration of the directory;
//! each change is reported as `(position, removed, added)`.

use vstd::prelude::*;

verus! {

/// A change of the listing: at `position`, `removed` entries went and
/// `added` entries came.
#[derive(Debug, Clone, Copy, PartialEq, Eq, Structural)]
pub struct ItemsChange {
    pub position: u32,
    pub removed: u32,
    pub added: u32,
}

/// The sequence that a change makes of `s`, given the entries it adds.
pub open spec fn apply_change<T>(s: Seq<T>, position: int, removed: int, added: Seq<T>) -> Seq<T> {
    s.subrange(0, position) + added + s.subrange(position + removed, s.len() as int)
}

/// A change, applied to the listing it was reported on, gives the new
/// listing: its length is the old one less the removed entries plus the
/// added ones, entries before the position keep their index, the added
/// entries follow in order, and the entries after the removed range shift by
/// the difference.
pub proof fn lemma_change_reproduces_listing<T>(s: Seq<T>, position: int, removed: int, added: Seq<T>)
    requires
        0 <= position,
        0 <= removed,
        position + removed <= s.len(),
    ensures
        apply_change(s, position, removed, added).len() == s.len() - removed + added.len(),
        forall|i: int| 0 <= i < position ==> #[trigger] apply_change(s, position, removed, added)[i] == s[i],
        forall|i: int|
            0 <= i < added.len() ==> #[trigger] apply_change(s, position, removed, added)[position + i]
                == added[i],
        forall|i: int|
            position + removed <= i < s.len() ==> #[trigger] apply_change(s, position, removed, added)[i
                - removed + added.len()] == s[i],
{
    let r = apply_change(s, position, removed, added);
    assert forall|i: int| position + removed <= i < s.len() implies #[trigger] r[i - removed + added.len()] == s[i] by {
        assert(r[i - removed + added.len()] == s.subrange(position + removed, s.len() as int)[i - position - removed]);
    }
}

/// A batch that the enumeration adds at the end appends its entries: a
/// listing built from nothing by such batches holds every entry of every
/// batch, in the order they came, and nothing else.
pub proof fn lemma_batch_appends<T>(s: Seq<T>, batch: Seq<T>)
    ensures
        apply_change(s, s.len() as int, 0, batch) == s + batch,
        apply_change(Seq::<T>::empty(), 0, 0, batch) == batch,
{
    assert(apply_change(s, s.len() as int, 0, batch) =~= s + batch);
    assert(apply_change(Seq::<T>::empty(), 0, 0, batch) =~= batch);
}

/// The entries of a directory, in the order the enumeration found them.
#[derive(Debug)]
pub struct LibraryListModel<T> {
    items: Vec<T>,
    generation: u64,
}

impl<T> LibraryListModel<T> {
    /// Indices fit the `u32` positions of the list interface.
    pub closed spec fn wf(&self) -> bool {
        self.items@.len() <= u32::MAX
    }

    pub closed spec fn entries(&self) -> Seq<T> {
        self.items@
    }

    /// Generation of the enumeration whose batches are current.
    pub closed spec fn current_generation(&self) -> u64 {
        self.generation
    }

    /// An empty listing, with no directory set.
    pub fn new() -> (r: LibraryListModel<T>)
        ensures
            r.wf(),
            r.entries() == Seq::<T>::empty(),
            r.current_generation() == 0,
    {
        LibraryListModel { items: Vec::new(), generation: 0 }
    }

    /// How many entries the listing holds.
    pub fn n_items(&self) -> (r: u32)
        requires
            self.wf(),
        ensures
            r == self.entries().len(),
    {
        self.items.len() as u32
    }

    /// The entry at `position`; `None` exactly when `position >= n_items()`.
    pub fn item(&self, position: u32) -> (r: Option<&T>)
        requires
            self.wf(),
        ensures
            position < self.entries().len() ==> r == Some(&self.entries()[position as int]),
            position >= self.entries().len() ==> r is None,
    {
        if (position as usize) < self.items.len() {
            Some(&self.items[position as usize])
        } else {
            None
        }
    }

    /// Generation of the enumeration whose batches are current.
    pub fn generation(&self) -> (r: u64)
        ensures
            r == self.current_generation(),
    {
        self.generation
    }

    /// Starts the enumeration of a new directory: the entries of the former
    /// one are dropped at once, and its later batches are stale. Returns the
    /// new generation and the change that empties the listing.
    pub fn set_root(&mut self) -> (r: (u64, ItemsChange))
        requires
            old(self).wf(),
        ensures
            final(self).wf(),
            final(self).entries() == Seq::<T>::empty(),
            r.0 == final(self).current_generation(),
            r.0 != old(self).current_generation(),
            r.1 == (ItemsChange { position: 0, removed: old(self).entries().len() as u32, added: 0 }),
            final(self).entries() == apply_change(
                old(self).entries(),
                0,
                old(self).entries().len() as int,
                Seq::<T>::empty(),
            ),
    {
        let removed = self.items.len() as u32;
        self.items.clear();
        self.generation = self.generation.wrapping_add(1);
        proof {
            let s = old(self).items@;
            assert(s.subrange(0, 0) + Seq::<T>::empty() + s.subrange(s.len() as int, s.len() as int) == Seq::<T>::empty());
        }
        (self.generation, ItemsChange { position: 0, removed, added: 0 })
    }

    /// Applies a batch of the enumeration with `generation`: at `position`,
    /// `removed` entries go and `added` come in their place. A batch of an
    /// abandoned enumeration, a range past the end, or a result longer than
    /// `u32` positions allow, changes nothing and gives `None`.
    pub fn items_changed(
        &mut self,
        generation: u64,
        position: u32,
        removed: u32,
        added: Vec<T>,
    ) -> (r: Option<ItemsChange>)
        requires
            old(self).wf(),
        ensures
            final(self).wf(),
            final(self).current_generation() == old(self).current_generation(),
            ({
                let s = old(self).entries();
                let ok = generation == old(self).current_generation() && position + removed
                    <= s.len() && s.len() - removed + added@.len() <= u32::MAX;
                &&& ok ==> r == Some(
                    ItemsChange { position, removed, added: added@.len() as u32 },
                )
                &&& ok ==> final(self).entries() == apply_change(
                    s,
                    position as int,
                    removed as int,
                    added@,
                )
                &&& !ok ==> r is None && final(self).entries() == s
            }),
    {
        let len = self.items.len();
        if generation != self.generation || position as usize > len || removed as usize > len
            - position as usize || added.len() > u32::MAX as usize - (len - removed as usize) {
            return None;
        }
        let mut added = added;
        let n_added = added.len() as u32;
        let mut tail = self.items.split_off(position as usize);
        let mut rest = tail.split_off(removed as usize);
        self.items.append(&mut added);
        self.items.append(&mut rest);
        proof {
            let s = old(self).items@;
            assert(s.subrange(position + removed, s.len() as int) == s.subrange(
                position as int,
                s.len() as int,
            ).subrange(removed as int, s.len() - position));
        }
        Some(ItemsChange { position, removed, added: n_added })
    }
}

} // verus!
