//! Protocol definitions: what a dissector author says of a protocol during
//! setup. A definition names the protocol, lists its fields and the
//! conditions on which the host hands it a packet, and declares how many
//! subtree slots it needs.

use vstd::prelude::*;
use vstd::string::*;
use crate::error::ConfigurationError;
use crate::fields::FieldModel;
use crate::fields::WiresharkFieldArgs;
use crate::fields::WiresharkFieldDefinition;
use crate::host::field_request_models;
use crate::host::field_request_of;
use crate::host::FieldRequest;
use crate::host::ProtocolRequest;

verus! {


/// The key under which a protocol is entered in one of the host's lookup
/// tables.
#[derive(Debug, Clone, PartialEq, Eq)]
pub enum WiresharkMatchType {
    UInt32(u32),
    String(String),
}

/// A match key as a plain value.
pub enum MatchKey {
    UInt32(u32),
    Pattern(Seq<char>),
}

impl View for WiresharkMatchType {
    type V = MatchKey;

    open spec fn view(&self) -> MatchKey {
        match self {
            WiresharkMatchType::UInt32(value) => MatchKey::UInt32(*value),
            WiresharkMatchType::String(pattern) => MatchKey::Pattern(pattern@),
        }
    }
}

/// A match condition as plain values: the lookup table and the key.
pub struct MatchModel {
    pub table: Seq<char>,
    pub key: MatchKey,
}

/// A condition on which the host hands a packet to a protocol: a key in one
/// of the host's lookup tables.
#[derive(Debug, Clone, PartialEq, Eq)]
pub struct WiresharkMatchDefinition {
    id: String,
    match_type: WiresharkMatchType,
}

impl View for WiresharkMatchDefinition {
    type V = MatchModel;

    closed spec fn view(&self) -> MatchModel {
        MatchModel { table: self.id@, key: self.match_type@ }
    }
}

impl WiresharkMatchDefinition {
    /// The name of the lookup table.
    pub fn id(&self) -> (r: &str)
        ensures
            r@ == self@.table,
    {
        self.id.as_str()
    }

    /// The key in that table.
    pub fn match_type(&self) -> (r: &WiresharkMatchType)
        ensures
            r@ == self@.key,
    {
        &self.match_type
    }
}

/// The definitions of a list of fields as plain values.
pub open spec fn field_models(fields: Seq<WiresharkFieldDefinition>) -> Seq<FieldModel> {
    Seq::new(fields.len(), |i: int| fields[i]@)
}

/// A list of match conditions as plain values.
pub open spec fn match_models(matches: Seq<WiresharkMatchDefinition>) -> Seq<MatchModel> {
    Seq::new(matches.len(), |i: int| matches[i]@)
}

/// What a protocol definition says, as plain values. `dissector_fn` is the
/// author's dissection callback, which the library keeps and never calls.
pub struct DefinitionModel<C> {
    pub name: Seq<char>,
    pub id: Seq<char>,
    pub filter: Seq<char>,
    pub dissector_fn: C,
    pub fields: Seq<FieldModel>,
    pub matches: Seq<MatchModel>,
    pub num_ett: nat,
}

/// A protocol as its author describes it during setup: names, the fields it
/// has, the conditions on which it is invoked and the number of subtree slots
/// it needs.
pub struct WiresharkProtocolDefinition<C> {
    name: String,
    id: String,
    filter: String,
    dissector_fn: C,
    fields: Vec<WiresharkFieldDefinition>,
    match_definitions: Vec<WiresharkMatchDefinition>,
    num_ett_fields: usize,
}

impl<C> View for WiresharkProtocolDefinition<C> {
    type V = DefinitionModel<C>;

    closed spec fn view(&self) -> DefinitionModel<C> {
        DefinitionModel {
            name: self.name@,
            id: self.id@,
            filter: self.filter@,
            dissector_fn: self.dissector_fn,
            fields: field_models(self.fields@),
            matches: match_models(self.match_definitions@),
            num_ett: self.num_ett_fields as nat,
        }
    }
}

impl<C> WiresharkProtocolDefinition<C> {
    /// A definition declares at least one subtree slot.
    pub open spec fn wf(self) -> bool {
        self@.num_ett >= 1
    }

    /// A protocol without fields or match conditions, with one subtree slot.
    pub fn new(dissector_fn: C, name: &str, id: &str, filter: &str) -> (r: Self)
        ensures
            r.wf(),
            r@ == (DefinitionModel {
                name: name@,
                id: id@,
                filter: filter@,
                dissector_fn: dissector_fn,
                fields: Seq::<FieldModel>::empty(),
                matches: Seq::<MatchModel>::empty(),
                num_ett: 1,
            }),
    {
        let r = Self {
            name: name.to_owned(),
            id: id.to_owned(),
            filter: filter.to_owned(),
            dissector_fn: dissector_fn,
            fields: Vec::new(),
            match_definitions: Vec::new(),
            num_ett_fields: 1,
        };
        proof {
            assert(field_models(r.fields@) =~= Seq::<FieldModel>::empty());
            assert(match_models(r.match_definitions@) =~= Seq::<MatchModel>::empty());
        }
        r
    }

    /// Adds a field to the end of the protocol's list of fields.
    pub fn add_field_type<'a>(&mut self, definition: WiresharkFieldArgs<'a>)
        requires
            old(self).wf(),
        ensures
            final(self).wf(),
            final(self)@ == (DefinitionModel {
                fields: old(self)@.fields.push(definition@),
                ..old(self)@
            }),
    {
        let owned = WiresharkFieldDefinition::from_args(definition);
        self.fields.push(owned);
        proof {
            assert(field_models(self.fields@) =~= field_models(old(self).fields@).push(
                definition@,
            ));
        }
    }

    /// Adds a condition on which the host hands packets to this protocol: the
    /// key `match_type` in the lookup table `id`.
    pub fn add_match_condition(&mut self, id: &str, match_type: WiresharkMatchType)
        requires
            old(self).wf(),
        ensures
            final(self).wf(),
            final(self)@ == (DefinitionModel {
                matches: old(self)@.matches.push(MatchModel { table: id@, key: match_type@ }),
                ..old(self)@
            }),
    {
        let definition = WiresharkMatchDefinition { id: id.to_owned(), match_type: match_type };
        self.match_definitions.push(definition);
        proof {
            assert(match_models(self.match_definitions@) =~= match_models(
                old(self).match_definitions@,
            ).push(MatchModel { table: id@, key: match_type@ }));
        }
    }

    /// Declares how many distinct subtree slots the protocol needs. A protocol
    /// needs at least one, for the tree that it is rooted in: zero is refused
    /// and changes nothing.
    pub fn set_num_ett(&mut self, num_ett: usize) -> (r: Result<(), ConfigurationError>)
        requires
            old(self).wf(),
        ensures
            final(self).wf(),
            num_ett >= 1 ==> r is Ok && final(self)@ == (DefinitionModel {
                num_ett: num_ett as nat,
                ..old(self)@
            }),
            num_ett < 1 ==> r == Err::<(), ConfigurationError>(ConfigurationError::NoSubtreeSlots)
                && final(self)@ == old(self)@,
    {
        if num_ett < 1 {
            return Err(ConfigurationError::NoSubtreeSlots);
        }
        self.num_ett_fields = num_ett;
        Ok(())
    }

    /// The id of the protocol.
    pub fn id(&self) -> (r: &str)
        ensures
            r@ == self@.id,
    {
        self.id.as_str()
    }

    /// The display name of the protocol.
    pub fn name(&self) -> (r: &str)
        ensures
            r@ == self@.name,
    {
        self.name.as_str()
    }

    /// The name under which the protocol appears in display filters.
    pub fn filter(&self) -> (r: &str)
        ensures
            r@ == self@.filter,
    {
        self.filter.as_str()
    }

    /// The number of subtree slots that the protocol declares: at least one.
    pub fn num_ett(&self) -> (r: usize)
        requires
            self.wf(),
        ensures
            r == self@.num_ett,
            r >= 1,
    {
        self.num_ett_fields
    }
}


/// The pieces of a protocol definition, taken apart for registration.
pub struct DefinitionParts<C> {
    pub name: String,
    pub id: String,
    pub filter: String,
    pub dissector_fn: C,
    pub fields: Vec<WiresharkFieldDefinition>,
    pub match_definitions: Vec<WiresharkMatchDefinition>,
    pub num_ett: usize,
}

impl<C> WiresharkProtocolDefinition<C> {
    /// Takes the definition apart.
    pub fn into_parts(self) -> (r: DefinitionParts<C>)
        ensures
            r.name@ == self@.name,
            r.id@ == self@.id,
            r.filter@ == self@.filter,
            r.dissector_fn == self@.dissector_fn,
            field_models(r.fields@) == self@.fields,
            match_models(r.match_definitions@) == self@.matches,
            r.num_ett == self@.num_ett,
    {
        DefinitionParts {
            name: self.name,
            id: self.id,
            filter: self.filter,
            dissector_fn: self.dissector_fn,
            fields: self.fields,
            match_definitions: self.match_definitions,
            num_ett: self.num_ett_fields,
        }
    }

    /// The definitions of the protocol's fields, in the order in which they
    /// were added.
    pub fn fields(&self) -> (r: &Vec<WiresharkFieldDefinition>)
        ensures
            field_models(r@) == self@.fields,
    {
        &self.fields
    }
}

/// Whether no two fields of the list share an id.
pub open spec fn distinct_field_ids(fields: Seq<FieldModel>) -> bool {
    forall|i: int, j: int|
        0 <= i < j < fields.len() ==> (#[trigger] fields[i]).id != (#[trigger] fields[j]).id
}

impl<C> WiresharkProtocolDefinition<C> {
    /// Whether no two fields of the definition share an id.
    pub fn has_distinct_field_ids(&self) -> (r: bool)
        ensures
            r == distinct_field_ids(self@.fields),
    {
        let mut j: usize = 0;
        while j < self.fields.len()
            invariant
                j <= self.fields.len(),
                self@.fields == field_models(self.fields@),
                forall|a: int, b: int|
                    0 <= a < b < j ==> (#[trigger] self@.fields[a]).id != (
                    #[trigger] self@.fields[b]).id,
            decreases self.fields.len() - j,
        {
            let mut i: usize = 0;
            while i < j
                invariant
                    i <= j < self.fields.len(),
                    self@.fields == field_models(self.fields@),
                    forall|a: int|
                        0 <= a < i ==> (#[trigger] self@.fields[a]).id != self@.fields[j as int].id,
                decreases j - i,
            {
                if self.fields[i].same_id(&self.fields[j]) {
                    proof {
                        assert(self@.fields[i as int].id == self@.fields[j as int].id);
                    }
                    return false;
                }
                i = i + 1;
            }
            j = j + 1;
        }
        true
    }

    /// What the host is to be told of the protocol when it is registered.
    pub fn registration_request(&self) -> (r: ProtocolRequest)
        ensures
            r.name@ == self@.name,
            r.id@ == self@.id,
            r.filter@ == self@.filter,
            r.num_ett == self@.num_ett,
            field_request_models(r.fields@) == self@.fields.map_values(
                |field: FieldModel| field_request_of(field),
            ),
    {
        let mut requests: Vec<FieldRequest> = Vec::new();
        let mut i: usize = 0;
        while i < self.fields.len()
            invariant
                i <= self.fields.len(),
                requests@.len() == i,
                forall|j: int| 0 <= j < i ==> (#[trigger] requests@[j])@ == field_request_of(
                    self.fields@[j]@,
                ),
            decreases self.fields.len() - i,
        {
            requests.push(self.fields[i].to_request());
            i = i + 1;
        }
        proof {
            assert(field_request_models(requests@) =~= self@.fields.map_values(
                |field: FieldModel| field_request_of(field),
            ));
        }
        ProtocolRequest {
            name: self.name.clone(),
            id: self.id.clone(),
            filter: self.filter.clone(),
            num_ett: self.num_ett_fields,
            fields: requests,
        }
    }
}

} // verus!
