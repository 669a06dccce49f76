//! Registered protocols: what comes of a definition once the host has
//! answered. A registered protocol maps the id of each field to the handle
//! that the host assigned, and holds the handles of the protocol itself and
//! of its subtree slots.

use vstd::prelude::*;
use vstd::slice::slice_to_vec;
use vstd::string::*;
use crate::definition::distinct_field_ids;
use crate::definition::field_models;
use crate::definition::match_models;
use crate::definition::DefinitionModel;
use crate::definition::MatchModel;
use crate::definition::WiresharkMatchDefinition;
use crate::definition::WiresharkProtocolDefinition;
use crate::error::ConfigurationError;
use crate::fields::FieldModel;
use crate::fields::WiresharkFieldDefinition;
use crate::host::cstring_bytes;
use crate::host::to_cstring;
use crate::host::ItemRequest;
use crate::host::NodeRef;
use crate::host::ProtocolAnswer;
use crate::host::SubtreeRequest;
use crate::host::ENC_NA;

verus! {

/// A registered field as plain values: the handle that the host assigned and
/// the definition that it was registered with.
pub struct RegisteredField {
    pub handle: i32,
    pub definition: FieldModel,
}

/// A field that the host knows: its definition and the handle under which
/// the host refers to it.
#[derive(Debug, Clone)]
pub struct FieldHandle {
    handle: i32,
    definition: WiresharkFieldDefinition,
}

impl View for FieldHandle {
    type V = RegisteredField;

    closed spec fn view(&self) -> RegisteredField {
        RegisteredField { handle: self.handle, definition: self.definition@ }
    }
}

impl FieldHandle {
    /// The handle that the host assigned to the field.
    pub fn handle(&self) -> (r: i32)
        ensures
            r == self@.handle,
    {
        self.handle
    }

    /// The definition that the field was registered with.
    pub fn definition(&self) -> (r: &WiresharkFieldDefinition)
        ensures
            r@ == self@.definition,
    {
        &self.definition
    }
}

/// A list of registered fields as plain values.
pub open spec fn registered_fields(fields: Seq<FieldHandle>) -> Seq<RegisteredField> {
    Seq::new(fields.len(), |i: int| fields[i]@)
}

/// Whether a field with the given id is among `fields`.
pub open spec fn has_field(fields: Seq<RegisteredField>, id: Seq<char>) -> bool {
    exists|i: int| 0 <= i < fields.len() && (#[trigger] fields[i]).definition.id == id
}

/// The first field of `fields` with the given id.
pub open spec fn field_named(fields: Seq<RegisteredField>, id: Seq<char>) -> RegisteredField
    recommends
        has_field(fields, id),
{
    let first = choose|i: int|
        0 <= i < fields.len() && (#[trigger] fields[i]).definition.id == id && forall|j: int|
            0 <= j < i ==> (#[trigger] fields[j]).definition.id != id;
    fields[first]
}

/// Whether no two registered fields share an id.
pub open spec fn distinct_registered_ids(fields: Seq<RegisteredField>) -> bool {
    forall|i: int, j: int|
        0 <= i < j < fields.len() ==> (#[trigger] fields[i]).definition.id != (
        #[trigger] fields[j]).definition.id
}

/// A registered protocol as plain values. `matches` holds the match
/// conditions until they are handed to the host, and `None` after that.
pub struct ProtocolModel<C> {
    pub proto_handle: i32,
    pub ett_handles: Seq<i32>,
    pub id: Seq<char>,
    pub dissector_fn: C,
    pub fields: Seq<RegisteredField>,
    pub matches: Option<Seq<MatchModel>>,
}

/// A protocol that the host knows: the handle of the protocol, the handles of
/// its subtree slots and, for each of its fields, the handle that the host
/// assigned. Fields are found by their id.
pub struct WiresharkProtocol<C> {
    proto_handle: i32,
    ett_handles: Vec<i32>,
    id: String,
    dissector_fn: C,
    fields: Vec<FieldHandle>,
    match_definitions: Option<Vec<WiresharkMatchDefinition>>,
}

/// A protocol as its registration leaves it.
pub type WiresharkProtocolRegistration<C> = WiresharkProtocol<C>;

impl<C> View for WiresharkProtocol<C> {
    type V = ProtocolModel<C>;

    closed spec fn view(&self) -> ProtocolModel<C> {
        ProtocolModel {
            proto_handle: self.proto_handle,
            ett_handles: self.ett_handles@,
            id: self.id@,
            dissector_fn: self.dissector_fn,
            fields: registered_fields(self.fields@),
            matches: match self.match_definitions {
                Some(matches) => Some(match_models(matches@)),
                None => None,
            },
        }
    }
}

/// Whether the host's answer has a handle for each subtree slot and for each
/// field of the definition.
pub open spec fn answer_fits<C>(definition: DefinitionModel<C>, answer: ProtocolAnswer) -> bool {
    &&& answer.ett_handles@.len() == definition.num_ett
    &&& answer.field_handles@.len() == definition.fields.len()
}

/// The protocol that comes of a definition once the host has answered: each
/// field under the handle that stands at its place in the answer.
pub open spec fn registered_protocol<C>(
    definition: DefinitionModel<C>,
    answer: ProtocolAnswer,
) -> ProtocolModel<C> {
    ProtocolModel {
        proto_handle: answer.proto_handle,
        ett_handles: answer.ett_handles@,
        id: definition.id,
        dissector_fn: definition.dissector_fn,
        fields: Seq::new(
            definition.fields.len(),
            |i: int|
                RegisteredField {
                    handle: answer.field_handles@[i],
                    definition: definition.fields[i],
                },
        ),
        matches: Some(definition.matches),
    }
}

impl<C> WiresharkProtocol<C> {
    /// No two fields of a registered protocol share an id.
    pub open spec fn wf(self) -> bool {
        distinct_registered_ids(self@.fields)
    }

    /// A protocol that the host registered under `proto_handle`, with the
    /// subtree slots `ett_handles` and no fields yet.
    pub fn new(
        match_definitions: Vec<WiresharkMatchDefinition>,
        dissector_fn: C,
        id: &str,
        proto_handle: i32,
        ett_handles: Vec<i32>,
    ) -> (r: Self)
        ensures
            r.wf(),
            r@ == (ProtocolModel {
                proto_handle: proto_handle,
                ett_handles: ett_handles@,
                id: id@,
                dissector_fn: dissector_fn,
                fields: Seq::<RegisteredField>::empty(),
                matches: Some(match_models(match_definitions@)),
            }),
    {
        let r = WiresharkProtocol {
            proto_handle: proto_handle,
            ett_handles: ett_handles,
            id: id.to_owned(),
            dissector_fn: dissector_fn,
            fields: Vec::new(),
            match_definitions: Some(match_definitions),
        };
        proof {
            assert(registered_fields(r.fields@) =~= Seq::<RegisteredField>::empty());
        }
        r
    }

    /// Enters a field under the handle that the host assigned to it. A field
    /// whose id is already registered under this protocol is refused, and the
    /// protocol stays as it was.
    pub fn register_field(&mut self, definition: WiresharkFieldDefinition, handle: i32) -> (r:
        Result<(), ConfigurationError>)
        requires
            old(self).wf(),
        ensures
            final(self).wf(),
            has_field(old(self)@.fields, definition@.id) ==> r == Err::<(), ConfigurationError>(
                ConfigurationError::DuplicateField,
            ) && final(self)@ == old(self)@,
            !has_field(old(self)@.fields, definition@.id) ==> r is Ok && final(self)@ == (
            ProtocolModel {
                fields: old(self)@.fields.push(
                    RegisteredField { handle: handle, definition: definition@ },
                ),
                ..old(self)@
            }),
    {
        let key = definition.id().to_owned();
        if self.find_index(&key).is_some() {
            return Err(ConfigurationError::DuplicateField);
        }
        self.fields.push(FieldHandle { handle: handle, definition: definition });
        proof {
            let added = RegisteredField { handle: handle, definition: definition@ };
            assert(registered_fields(self.fields@) =~= registered_fields(old(self).fields@).push(
                added,
            ));
            let before = old(self)@.fields;
            let after = self@.fields;
            assert forall|i: int, j: int| 0 <= i < j < after.len() implies (#[trigger] after[i]).definition.id
                != (#[trigger] after[j]).definition.id by {
                if j < before.len() {
                    assert(after[i] == before[i] && after[j] == before[j]);
                } else {
                    assert(after[i] == before[i]);
                }
            }
        }
        Ok(())
    }

    /// Registers a whole definition with the handles that the host answered:
    /// the protocol under `answer.proto_handle`, and each field, in the order
    /// of its definition, under the handle at its place in
    /// `answer.field_handles`. A definition in which two fields share an id
    /// is refused.
    pub fn register(definition: WiresharkProtocolDefinition<C>, answer: &ProtocolAnswer) -> (r:
        Result<Self, ConfigurationError>)
        requires
            answer_fits(definition@, *answer),
        ensures
            distinct_field_ids(definition@.fields) ==> r is Ok && r->Ok_0.wf() && r->Ok_0@
                == registered_protocol(definition@, *answer),
            !distinct_field_ids(definition@.fields) ==> r is Err && r->Err_0
                == ConfigurationError::DuplicateField,
    {
        let ghost model = definition@;
        let parts = definition.into_parts();
        let mut proto = WiresharkProtocol::new(
            parts.match_definitions,
            parts.dissector_fn,
            parts.id.as_str(),
            answer.proto_handle,
            slice_to_vec(answer.ett_handles.as_slice()),
        );
        let ghost target = registered_protocol(model, *answer);
        let fields = parts.fields;
        let count = fields.len();
        let mut next: usize = 0;
        proof {
            assert(target.fields.take(0) =~= Seq::<RegisteredField>::empty());
        }
        for field in it: fields
            invariant
                next == it.index(),
                count == fields@.len(),
                model == definition@,
                it.seq() == fields@,
                field_models(fields@) == model.fields,
                answer.field_handles@.len() == fields@.len(),
                target == registered_protocol(model, *answer),
                proto.wf(),
                proto@ == (ProtocolModel {
                    fields: target.fields.take(it.index() as int),
                    ..target
                }),
        {
            let ghost k = it.index() as int;
            proof {
                assert(0 <= k < fields@.len());
                assert(field@ == model.fields[k]);
            }
            let handle = answer.field_handles[next];
            next = next + 1;
            match proto.register_field(field, handle) {
                Ok(()) => {
                    proof {
                        assert(target.fields.take(k).push(target.fields[k]) =~= target.fields.take(
                            k + 1,
                        ));
                    }
                },
                Err(e) => {
                    proof {
                        let before = target.fields.take(k);
                        let j = choose|j: int|
                            0 <= j < before.len() && (#[trigger] before[j]).definition.id
                                == model.fields[k].id;
                        assert(model.fields[j].id == model.fields[k].id);
                    }
                    return Err(e);
                },
            }
        }
        proof {
            assert(target.fields.take(fields@.len() as int) =~= target.fields);
            assert forall|i: int, j: int| 0 <= i < j < model.fields.len() implies (
            #[trigger] model.fields[i]).id != (#[trigger] model.fields[j]).id by {
                assert(target.fields[i].definition.id != target.fields[j].definition.id);
            }
        }
        Ok(proto)
    }

    /// The position of the first field with the given id.
    fn find_index(&self, id: &String) -> (r: Option<usize>)
        ensures
            match r {
                Some(i) => i < self@.fields.len() && self@.fields[i as int].definition.id == id@
                    && forall|j: int|
                    0 <= j < i ==> (#[trigger] self@.fields[j]).definition.id != id@,
                None => !has_field(self@.fields, id@),
            },
    {
        let mut i: usize = 0;
        while i < self.fields.len()
            invariant
                i <= self.fields.len(),
                self.fields@.len() == self@.fields.len(),
                forall|j: int| 0 <= j < i ==> (#[trigger] self@.fields[j]).definition.id != id@,
            decreases self.fields.len() - i,
        {
            if self.fields[i].definition.has_id(id) {
                return Some(i);
            }
            i = i + 1;
        }
        None
    }

    /// The handle of the subtree slot with the given index. An index that the
    /// protocol did not declare is refused.
    pub fn get_ett_handle(&self, idx: i32) -> (r: Result<i32, ConfigurationError>)
        ensures
            0 <= idx < self@.ett_handles.len() ==> r == Ok::<i32, ConfigurationError>(
                self@.ett_handles[idx as int],
            ),
            !(0 <= idx < self@.ett_handles.len()) ==> r == Err::<i32, ConfigurationError>(
                ConfigurationError::SubtreeIndexOutOfBounds,
            ),
    {
        if idx < 0 {
            return Err(ConfigurationError::SubtreeIndexOutOfBounds);
        }
        let i = idx as usize;
        if i < self.ett_handles.len() {
            Ok(self.ett_handles[i])
        } else {
            Err(ConfigurationError::SubtreeIndexOutOfBounds)
        }
    }

    /// Takes the match conditions out of the protocol, to hand them to the
    /// host. `None` means that they were taken before.
    pub fn take_match_definitions(&mut self) -> (r: Option<Vec<WiresharkMatchDefinition>>)
        ensures
            final(self)@ == (ProtocolModel { matches: None, ..old(self)@ }),
            match r {
                Some(matches) => old(self)@.matches == Some(match_models(matches@)),
                None => old(self)@.matches is None,
            },
    {
        self.match_definitions.take()
    }

    /// The handle under which the host knows the protocol.
    pub fn get_proto_handle(&self) -> (r: i32)
        ensures
            r == self@.proto_handle,
    {
        self.proto_handle
    }

    /// The id of the protocol.
    pub fn id(&self) -> (r: &str)
        ensures
            r@ == self@.id,
    {
        self.id.as_str()
    }

    /// The dissection callback that the protocol was defined with.
    pub fn dissector_fn(&self) -> (r: &C)
        ensures
            *r == self@.dissector_fn,
    {
        &self.dissector_fn
    }

    /// Looks a field up by its id. `None` means that no field with that id
    /// was registered under this protocol.
    pub fn find_field_handle(&self, abbrev: &str) -> (r: Option<&FieldHandle>)
        ensures
            match r {
                Some(field) => has_field(self@.fields, abbrev@) && field@ == field_named(
                    self@.fields,
                    abbrev@,
                ),
                None => !has_field(self@.fields, abbrev@),
            },
    {
        let key = abbrev.to_owned();
        match self.find_index(&key) {
            Some(i) => {
                proof {
                    lemma_field_named_is_first(self@.fields, abbrev@, i as int);
                }
                Some(&self.fields[i])
            },
            None => None,
        }
    }

    /// The field with the given id, which must have been registered under
    /// this protocol.
    pub fn get_field_handle(&self, abbrev: &str) -> (r: &FieldHandle)
        requires
            has_field(self@.fields, abbrev@),
        ensures
            r@ == field_named(self@.fields, abbrev@),
    {
        match self.find_field_handle(abbrev) {
            Some(field) => field,
            None => vstd::pervasive::unreached(),
        }
    }

    /// The request that opens the top-level tree of a dissection under the
    /// host's node `tree`: a marker item for the protocol itself, which
    /// covers `length` bytes from `start_index` on, and below it a tree over
    /// the same bytes in the subtree slot `ett_index`.
    pub fn start_dissector(&self, tree: NodeRef, start_index: i32, ett_index: i32, length: i32) -> (r:
        Result<SubtreeRequest, ConfigurationError>)
        ensures
            0 <= ett_index < self@.ett_handles.len() ==> r == Ok::<
                SubtreeRequest,
                ConfigurationError,
            >(
                SubtreeRequest {
                    item: ItemRequest {
                        tree: tree,
                        field_handle: self@.proto_handle,
                        offset: start_index,
                        length: length,
                        encoding: ENC_NA,
                    },
                    tree_length: length,
                    ett_handle: self@.ett_handles[ett_index as int],
                    generated: false,
                },
            ),
            !(0 <= ett_index < self@.ett_handles.len()) ==> r == Err::<
                SubtreeRequest,
                ConfigurationError,
            >(ConfigurationError::SubtreeIndexOutOfBounds),
    {
        match self.get_ett_handle(ett_index) {
            Ok(ett_handle) => Ok(
                SubtreeRequest {
                    item: ItemRequest {
                        tree: tree,
                        field_handle: self.proto_handle,
                        offset: start_index,
                        length: length,
                        encoding: ENC_NA,
                    },
                    tree_length: length,
                    ett_handle: ett_handle,
                    generated: false,
                },
            ),
            Err(e) => Err(e),
        }
    }

    /// Encodes a text for the host: its bytes, followed by a zero byte.
    pub fn to_temp_cstring_fast(&self, s: &str) -> (r: Vec<u8>)
        ensures
            r@ == cstring_bytes(s@),
    {
        to_cstring(s)
    }
}

/// Registration makes every field findable: in the protocol that comes of a
/// definition without duplicate ids, each field is found by its id, under the
/// handle that stands at its place in the host's answer.
pub proof fn lemma_registered_fields_resolve<C>(
    definition: DefinitionModel<C>,
    answer: ProtocolAnswer,
    i: int,
)
    requires
        distinct_field_ids(definition.fields),
        answer_fits(definition, answer),
        0 <= i < definition.fields.len(),
    ensures
        has_field(registered_protocol(definition, answer).fields, definition.fields[i].id),
        field_named(registered_protocol(definition, answer).fields, definition.fields[i].id) == (
        RegisteredField { handle: answer.field_handles@[i], definition: definition.fields[i] }),
{
    let fields = registered_protocol(definition, answer).fields;
    let id = definition.fields[i].id;
    assert forall|j: int| 0 <= j < i implies (#[trigger] fields[j]).definition.id != id by {
        assert(definition.fields[j].id != definition.fields[i].id);
    }
    lemma_field_named_is_first(fields, id, i);
}

/// The first field with an id is the one that `field_named` picks.
pub proof fn lemma_field_named_is_first(fields: Seq<RegisteredField>, id: Seq<char>, first: int)
    requires
        0 <= first < fields.len(),
        fields[first].definition.id == id,
        forall|j: int| 0 <= j < first ==> (#[trigger] fields[j]).definition.id != id,
    ensures
        has_field(fields, id),
        field_named(fields, id) == fields[first],
{
    let chosen = choose|i: int|
        0 <= i < fields.len() && (#[trigger] fields[i]).definition.id == id && forall|j: int|
            0 <= j < i ==> (#[trigger] fields[j]).definition.id != id;
    assert(chosen == first) by {
        if chosen < first {
            assert(fields[chosen].definition.id != id);
        } else if first < chosen {
            assert(fields[first].definition.id != id);
        }
    }
}

} // verus!
