//! The registry of imported plugins, keyed by a unique id.
use crate::error::CoreError;
use vstd::prelude::*;
use vstd::string::*;

verus! {

/// An imported plugin: its id (the source file's name), display name,
/// whether it is enabled, and where it was imported from.
pub struct PluginDescriptor {
    pub id: String,
    pub name: String,
    pub enabled: bool,
    pub source_path: String,
}

/// No two descriptors share an id.
pub open spec fn ids_unique(s: Seq<PluginDescriptor>) -> bool {
    forall|i: int, j: int| 0 <= i < j < s.len() ==> s[i].id@ != s[j].id@
}

pub open spec fn has_id(s: Seq<PluginDescriptor>, id: Seq<char>) -> bool {
    exists|i: int| 0 <= i < s.len() && s[i].id@ == id
}

/// `p` with its flag set to `enabled` where its id is `id`.
pub open spec fn toggle_one(p: PluginDescriptor, id: Seq<char>, enabled: bool) -> PluginDescriptor {
    if p.id@ == id {
        PluginDescriptor { id: p.id, name: p.name, enabled, source_path: p.source_path }
    } else {
        p
    }
}

/// The collection after the plugin with id `id` is set to `enabled`.
pub open spec fn toggled(s: Seq<PluginDescriptor>, id: Seq<char>, enabled: bool) -> Seq<PluginDescriptor> {
    s.map_values(|p: PluginDescriptor| toggle_one(p, id, enabled))
}

/// The collection without the plugins whose id is `id`.
pub open spec fn removed(s: Seq<PluginDescriptor>, id: Seq<char>) -> Seq<PluginDescriptor> {
    s.filter(|p: PluginDescriptor| p.id@ != id)
}

/// The imported plugins, in order of import.
pub struct PluginRegistry {
    plugins: Vec<PluginDescriptor>,
}

impl View for PluginRegistry {
    type V = Seq<PluginDescriptor>;

    closed spec fn view(&self) -> Seq<PluginDescriptor> {
        self.plugins@
    }
}

impl PluginRegistry {
    pub open spec fn wf(&self) -> bool {
        ids_unique(self@)
    }

    /// An empty registry.
    pub fn new() -> (r: PluginRegistry)
        ensures
            r.wf(),
            r@ == Seq::<PluginDescriptor>::empty(),
    {
        PluginRegistry { plugins: Vec::new() }
    }

    pub fn len(&self) -> (r: usize)
        ensures
            r == self@.len(),
    {
        self.plugins.len()
    }

    pub fn get(&self, i: usize) -> (r: &PluginDescriptor)
        requires
            i < self@.len(),
        ensures
            *r == self@[i as int],
    {
        &self.plugins[i]
    }

    /// The position of the plugin with id `id`, if there is one.
    pub fn find(&self, id: &str) -> (r: Option<usize>)
        ensures
            match r {
                Some(i) => i < self@.len() && self@[i as int].id@ == id@
                    && forall|j: int| 0 <= j < i ==> self@[j].id@ != id@,
                None => !has_id(self@, id@),
            },
    {
        let key = String::from_str(id);
        let mut i: usize = 0;
        while i < self.plugins.len()
            invariant
                i <= self@.len(),
                key@ == id@,
                forall|j: int| 0 <= j < i ==> self@[j].id@ != id@,
            decreases self@.len() - i,
        {
            if self.plugins[i].id == key {
                return Some(i);
            }
            i = i + 1;
        }
        None
    }

    /// Appends `d`, or refuses it where its id is already registered.
    pub fn plugin_import(&mut self, d: PluginDescriptor) -> (r: Result<(), CoreError>)
        requires
            old(self).wf(),
        ensures
            final(self).wf(),
            has_id(old(self)@, d.id@) ==> r == Err::<(), CoreError>(CoreError::DuplicatePlugin)
                && final(self)@ == old(self)@,
            !has_id(old(self)@, d.id@) ==> r is Ok && final(self)@ == old(self)@.push(d),
    {
        match self.find(d.id.as_str()) {
            Some(_) => Err(CoreError::DuplicatePlugin),
            None => {
                self.plugins.push(d);
                Ok(())
            },
        }
    }

    /// Sets the flag of the plugin with id `id`; does nothing where no plugin
    /// has that id.
    pub fn plugin_toggle(&mut self, id: &str, enabled: bool)
        requires
            old(self).wf(),
        ensures
            final(self).wf(),
            final(self)@ == toggled(old(self)@, id@, enabled),
            !has_id(old(self)@, id@) ==> final(self)@ == old(self)@,
    {
        match self.find(id) {
            Some(i) => {
                let ghost before = self@;
                let mut p = self.plugins.remove(i);
                p.enabled = enabled;
                self.plugins.insert(i, p);
                assert(self@ =~= toggled(before, id@, enabled));
            },
            None => {
                assert(self@ =~= toggled(self@, id@, enabled));
            },
        }
    }

    /// Removes every plugin with id `id`; does nothing where there is none.
    pub fn plugin_remove(&mut self, id: &str)
        requires
            old(self).wf(),
        ensures
            final(self).wf(),
            final(self)@ == removed(old(self)@, id@),
    {
        let ghost before = self@;
        let key = String::from_str(id);
        let mut rest: Vec<PluginDescriptor> = Vec::new();
        std::mem::swap(&mut self.plugins, &mut rest);
        let mut kept: Vec<PluginDescriptor> = Vec::new();
        let ghost mut k: int = 0;
        while rest.len() > 0
            invariant
                key@ == id@,
                ids_unique(before),
                0 <= k <= before.len(),
                rest@ == before.subrange(k, before.len() as int),
                kept@ == removed(before.subrange(0, k), id@),
                ids_unique(kept@),
                forall|a: int| 0 <= a < kept@.len() ==> exists|j: int| 0 <= j < k && #[trigger] kept@[a] == before[j],
            decreases rest@.len(),
        {
            let p = rest.remove(0);
            proof {
                reveal(Seq::filter);
                assert(before.subrange(0, k + 1).drop_last() =~= before.subrange(0, k));
                assert(before.subrange(0, k + 1).last() == p);
            }
            if p.id != key {
                proof {
                    assert forall|a: int| 0 <= a < kept@.len() implies kept@[a].id@ != p.id@ by {
                        let j = choose|j: int| 0 <= j < k && #[trigger] kept@[a] == before[j];
                        assert(before[j].id@ != before[k].id@);
                    }
                }
                kept.push(p);
                proof {
                    assert forall|a: int| 0 <= a < kept@.len() implies exists|j: int| 0 <= j < k + 1 && #[trigger] kept@[a] == before[j] by {
                        if a == kept@.len() - 1 {
                            assert(kept@[a] == before[k]);
                        }
                    }
                }
            }
            proof {
                k = k + 1;
                assert(rest@ =~= before.subrange(k, before.len() as int));
            }
        }
        assert(before.subrange(0, k) =~= before);
        self.plugins = kept;
    }
}

/// Toggling two different ids, in either order, gives the same collection,
/// and each plugin keeps the flag that its own call set.
pub proof fn lemma_toggles_independent(s: Seq<PluginDescriptor>, a: Seq<char>, ea: bool, b: Seq<char>, eb: bool)
    requires
        a != b,
    ensures
        toggled(toggled(s, a, ea), b, eb) == toggled(toggled(s, b, eb), a, ea),
        forall|i: int| 0 <= i < s.len() && s[i].id@ == a ==> (#[trigger] toggled(toggled(s, a, ea), b, eb)[i]).enabled == ea,
        forall|i: int| 0 <= i < s.len() && s[i].id@ == b ==> (#[trigger] toggled(toggled(s, a, ea), b, eb)[i]).enabled == eb,
        toggled(toggled(s, a, ea), b, eb).len() == s.len(),
{
    assert(toggled(toggled(s, a, ea), b, eb) =~= toggled(toggled(s, b, eb), a, ea));
}

} // verus!
