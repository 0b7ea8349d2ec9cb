//! The source-map store: a mapping from a module specifier (in its string
//! form, as bytes) to the source-map bytes produced when that module was
//! transpiled. One store lives for the life of one module loader; an entry
//! is overwritten when the same specifier is loaded again (last load wins).

use vstd::prelude::*;

verus! {

/// Mapping from specifier bytes to source-map bytes.
pub struct SourceMapStore {
    entries: Vec<(Vec<u8>, Vec<u8>)>,
}

/// The mapping described by an entry list: later entries win.
spec fn map_of(s: Seq<(Vec<u8>, Vec<u8>)>) -> Map<Seq<u8>, Seq<u8>>
    decreases s.len(),
{
    if s.len() == 0 {
        Map::empty()
    } else {
        map_of(s.drop_last()).insert(s.last().0@, s.last().1@)
    }
}

impl View for SourceMapStore {
    type V = Map<Seq<u8>, Seq<u8>>;

    closed spec fn view(&self) -> Map<Seq<u8>, Seq<u8>> {
        map_of(self.entries@)
    }
}

impl SourceMapStore {
    /// An empty store.
    pub fn new() -> (r: Self)
        ensures
            r@ == Map::<Seq<u8>, Seq<u8>>::empty(),
    {
        SourceMapStore { entries: Vec::new() }
    }

    /// Record the source map for a specifier, replacing any prior entry.
    pub fn insert(&mut self, specifier: Vec<u8>, map_bytes: Vec<u8>)
        ensures
            final(self)@ == old(self)@.insert(specifier@, map_bytes@),
    {
        let ghost old_entries = self.entries@;
        self.entries.push((specifier, map_bytes));
        proof {
            assert(self.entries@.drop_last() =~= old_entries);
        }
    }

    /// Look up the source map recorded for a specifier, if any.
    pub fn get(&self, specifier: &[u8]) -> (r: Option<&Vec<u8>>)
        ensures
            match r {
                Some(v) => self@.contains_key(specifier@) && v@ == self@[specifier@],
                None => !self@.contains_key(specifier@),
            },
    {
        let mut i: usize = self.entries.len();
        proof {
            assert(self.entries@.take(i as int) =~= self.entries@);
        }
        while i > 0
            invariant
                i <= self.entries@.len(),
                map_of(self.entries@).contains_key(specifier@) == map_of(
                    self.entries@.take(i as int),
                ).contains_key(specifier@),
                map_of(self.entries@).contains_key(specifier@) ==> map_of(self.entries@)[specifier@]
                    == map_of(self.entries@.take(i as int))[specifier@],
            decreases i,
        {
            i = i - 1;
            let entry = &self.entries[i];
            proof {
                assert(self.entries@.take(i + 1).drop_last() =~= self.entries@.take(i as int));
                assert(self.entries@.take(i + 1).last() == self.entries@[i as int]);
            }
            if crate::text::bytes_eq(entry.0.as_slice(), specifier) {
                return Some(&self.entries[i].1);
            }
        }
        proof {
            assert(self.entries@.take(0) =~= Seq::<(Vec<u8>, Vec<u8>)>::empty());
        }
        None
    }

    /// Whether a source map is recorded for a specifier.
    pub fn contains(&self, specifier: &[u8]) -> (r: bool)
        ensures
            r == self@.contains_key(specifier@),
    {
        match self.get(specifier) {
            Some(_) => true,
            None => false,
        }
    }
}

} // verus!
