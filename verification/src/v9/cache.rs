//! The template cache: which definitions a decoding session currently knows.

use crate::v9::template::{Definition, DefinitionView};
use std::collections::HashMap;
use vstd::prelude::*;

verus! {

broadcast use vstd::std_specs::hash::group_hash_axioms;

/// The schema knowledge of one capture session: for each source id and
/// template id the definition that was received last. Entries are replaced
/// whole, never merged, and nothing is ever evicted.
pub struct TemplateCache {
    entries: HashMap<u64, Definition>,
}

/// The slot of a source id and a template id: the two side by side in one integer.
pub closed spec fn slot(source_id: u32, template_id: u16) -> u64 {
    (source_id as u64 * 0x1_0000 + template_id as u64) as u64
}

/// Different keys have different slots.
proof fn lemma_slot_injective(s1: u32, t1: u16, s2: u32, t2: u16)
    ensures
        slot(s1, t1) == slot(s2, t2) <==> (s1 == s2 && t1 == t2),
{
}

fn slot_of(source_id: u32, template_id: u16) -> (k: u64)
    ensures
        k == slot(source_id, template_id),
{
    source_id as u64 * 0x1_0000 + template_id as u64
}

impl View for TemplateCache {
    type V = Map<(u32, u16), DefinitionView>;

    /// The cache as a map from (source id, template id) to definition.
    closed spec fn view(&self) -> Map<(u32, u16), DefinitionView> {
        Map::new(
            |k: (u32, u16)| self.entries@.contains_key(slot(k.0, k.1)),
            |k: (u32, u16)| self.entries@[slot(k.0, k.1)]@,
        )
    }
}

impl TemplateCache {
    /// A cache that knows no template.
    pub fn new() -> (cache: Self)
        ensures
            cache@ == Map::<(u32, u16), DefinitionView>::empty(),
    {
        let cache = TemplateCache { entries: HashMap::new() };
        assert(cache@ =~= Map::<(u32, u16), DefinitionView>::empty());
        cache
    }

    /// Stores `definition` under (`source_id`, `template_id`), in place of
    /// whatever was stored there.
    pub fn put(&mut self, source_id: u32, template_id: u16, definition: Definition)
        ensures
            final(self)@ == old(self)@.insert((source_id, template_id), definition@),
    {
        let k = slot_of(source_id, template_id);
        self.entries.insert(k, definition);
        proof {
            assert forall|s: u32, t: u16| #[trigger]
                slot(s, t) == k <==> (s == source_id && t == template_id) by {
                lemma_slot_injective(s, t, source_id, template_id);
            }
            assert(self@ =~= old(self)@.insert((source_id, template_id), definition@));
        }
    }

    /// The definition stored under (`source_id`, `template_id`), if there is one.
    pub fn get(&self, source_id: u32, template_id: u16) -> (r: Option<&Definition>)
        ensures
            match r {
                Some(d) => self@.contains_key((source_id, template_id)) && d@ == self@[(
                    source_id,
                    template_id,
                )],
                None => !self@.contains_key((source_id, template_id)),
            },
    {
        let k = slot_of(source_id, template_id);
        self.entries.get(&k)
    }

    /// Whether a definition is stored under (`source_id`, `template_id`).
    pub fn contains(&self, source_id: u32, template_id: u16) -> (b: bool)
        ensures
            b == self@.contains_key((source_id, template_id)),
    {
        let k = slot_of(source_id, template_id);
        self.entries.contains_key(&k)
    }
}

} // verus!
