//! The registered shape kinds, by identifier.
use vstd::prelude::*;
use crate::parameterized_shader::{DefinitionSpec, ShaderDefinition};

verus! {

/// The shape kinds that have been registered: at most one definition for
/// each identifier.
pub struct ShaderRegistry {
    definitions: Vec<ShaderDefinition>,
}

/// Position of the definition with identifier `uuid` among `definitions`.
spec fn position_of(definitions: Seq<ShaderDefinition>, uuid: u128) -> int {
    choose|i: int| 0 <= i < definitions.len() && definitions[i].uuid == uuid
}

/// Whether some definition among `definitions` has the identifier `uuid`.
spec fn has_uuid(definitions: Seq<ShaderDefinition>, uuid: u128) -> bool {
    exists|i: int| 0 <= i < definitions.len() && definitions[i].uuid == uuid
}

/// The definitions by their identifiers.
spec fn by_uuid(definitions: Seq<ShaderDefinition>) -> Map<u128, DefinitionSpec> {
    Map::new(
        |uuid: u128| has_uuid(definitions, uuid),
        |uuid: u128| definitions[position_of(definitions, uuid)]@,
    )
}

impl View for ShaderRegistry {
    type V = Map<u128, DefinitionSpec>;

    closed spec fn view(&self) -> Map<u128, DefinitionSpec> {
        by_uuid(self.definitions@)
    }
}

impl ShaderRegistry {
    /// Whether the registry is well formed: no two of its definitions have
    /// the same identifier.
    pub closed spec fn wf(&self) -> bool {
        forall|i: int, j: int|
            0 <= i < j < self.definitions@.len() ==> self.definitions@[i].uuid
                != self.definitions@[j].uuid
    }

    /// The registry without shape kinds.
    pub fn new() -> (registry: ShaderRegistry)
        ensures
            registry.wf(),
            registry@ == Map::<u128, DefinitionSpec>::empty(),
    {
        let registry = ShaderRegistry { definitions: Vec::new() };
        registry
    }

    /// Position of the definition with identifier `uuid`, if there is one.
    fn find(&self, uuid: u128) -> (found: Option<usize>)
        requires
            self.wf(),
        ensures
            found is Some <==> has_uuid(self.definitions@, uuid),
            found is Some ==> {
                &&& found->0 < self.definitions@.len()
                &&& self.definitions@[found->0 as int].uuid == uuid
                &&& position_of(self.definitions@, uuid) == found->0
            },
    {
        let mut index: usize = 0;
        while index < self.definitions.len()
            invariant
                self.wf(),
                index <= self.definitions.len(),
                forall|i: int| 0 <= i < index ==> self.definitions@[i].uuid != uuid,
            decreases self.definitions.len() - index,
        {
            if self.definitions[index].uuid == uuid {
                return Some(index);
            }
            index += 1;
        }
        None
    }

    /// The definition registered under `uuid`, if there is one.
    pub fn get(&self, uuid: u128) -> (found: Option<&ShaderDefinition>)
        requires
            self.wf(),
        ensures
            found is Some <==> self@.contains_key(uuid),
            found is Some ==> found->0@ == self@[uuid] && found->0.uuid == uuid,
    {
        match self.find(uuid) {
            Some(index) => Some(&self.definitions[index]),
            None => None,
        }
    }

    /// Whether a definition is registered under `uuid`.
    pub fn is_registered(&self, uuid: u128) -> (yes: bool)
        requires
            self.wf(),
        ensures
            yes == self@.contains_key(uuid),
    {
        self.find(uuid).is_some()
    }

    /// Registers `definition` under its identifier. Where a definition was
    /// registered under it before, the new one takes its place and the
    /// result is `true`: the shape kind was registered twice.
    pub fn register(&mut self, definition: ShaderDefinition) -> (replaced: bool)
        requires
            old(self).wf(),
        ensures
            final(self).wf(),
            replaced == old(self)@.contains_key(definition.uuid),
            final(self)@ == old(self)@.insert(definition.uuid, definition@),
    {
        let ghost before = self.definitions@;
        let ghost uuid = definition.uuid;
        match self.find(definition.uuid) {
            Some(index) => {
                self.definitions.set(index, definition);
                proof {
                    let after = self.definitions@;
                    assert forall|id: u128| has_uuid(after, id) == has_uuid(before, id) by {
                        if has_uuid(before, id) {
                            let i = position_of(before, id);
                            assert(after[i].uuid == id);
                        }
                    }
                }
                true
            },
            None => {
                self.definitions.push(definition);
                proof {
                    let after = self.definitions@;
                    assert(after[before.len() as int].uuid == uuid);
                    assert forall|id: u128| has_uuid(after, id) == (has_uuid(before, id) || id
                        == uuid) by {
                        if has_uuid(before, id) {
                            let i = position_of(before, id);
                            assert(after[i].uuid == id);
                        }
                    }
                }
                false
            },
        }
    }
}

} // verus!
