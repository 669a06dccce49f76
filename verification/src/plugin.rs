//! The plugin: the one owner of every protocol. Protocols are defined during
//! setup, registered with the host in one pass, and then bound to their match
//! conditions. After that the dispatcher finds the protocol that a packet
//! belongs to. Strings that the host keeps are copied into an arena that
//! lives as long as the plugin.

use vstd::prelude::*;
use vstd::string::*;
use bumpalo::Bump;
use crate::error::ConfigurationError;
use crate::host::terminated;
use crate::host::ColumnUpdate;
use crate::host::ColumnUpdateModel;
use crate::host::HandoffRequest;
use crate::host::ItemRequest;
use crate::host::NodeRef;
use crate::host::ProtocolAnswer;
use crate::host::ProtocolRequest;
use crate::host::SubtreeRequest;
use crate::host::ENC_NA;
use crate::protocol::answer_fits;
use crate::definition::distinct_field_ids;
use crate::definition::match_models;
use crate::protocol::registered_protocol;
use crate::definition::DefinitionModel;
use crate::protocol::ProtocolModel;
use crate::protocol::WiresharkProtocol;
use crate::definition::WiresharkProtocolDefinition;

verus! {

/// `bumpalo::Bump`, an arena that hands out memory and frees it only as a
/// whole. The library holds one and never looks inside.
#[verifier::external_type_specification]
#[verifier::external_body]
pub struct ExBump<const MIN_ALIGN: usize>(Bump<MIN_ALIGN>);

/// Calls `bumpalo::Bump::new`, which makes an empty arena. Nothing is claimed
/// of it.
#[verifier::external_body]
fn arena_new() -> Bump {
    Bump::new()
}

/// Calls `bumpalo::Bump::try_alloc_str`, which copies a string into the arena
/// or reports that the arena could not reserve the space. Claimed of it: the
/// copy, where there is one, has the characters of `text`.
#[verifier::external_body]
fn arena_alloc_str<'a>(arena: &'a Bump, text: &str) -> (r: Option<&'a str>)
    ensures
        r matches Some(copy) ==> copy@ == text@,
{
    match arena.try_alloc_str(text) {
        Ok(copy) => Some(copy),
        Err(_) => None,
    }
}

/// Whether a protocol definition with the given id is among `definitions`.
pub open spec fn has_definition<C>(definitions: Seq<DefinitionModel<C>>, id: Seq<char>) -> bool {
    exists|i: int| 0 <= i < definitions.len() && (#[trigger] definitions[i]).id == id
}

/// Whether a protocol with the given id is among `protocols`.
pub open spec fn has_protocol<C>(protocols: Seq<ProtocolModel<C>>, id: Seq<char>) -> bool {
    exists|i: int| 0 <= i < protocols.len() && (#[trigger] protocols[i]).id == id
}

/// The position of the first protocol of `protocols` with the given id.
pub open spec fn protocol_index<C>(protocols: Seq<ProtocolModel<C>>, id: Seq<char>) -> int
    recommends
        has_protocol(protocols, id),
{
    choose|i: int|
        0 <= i < protocols.len() && (#[trigger] protocols[i]).id == id && forall|j: int|
            0 <= j < i ==> (#[trigger] protocols[j]).id != id
}

/// The definitions of a list of protocols as plain values.
pub open spec fn definition_models<C>(definitions: Seq<WiresharkProtocolDefinition<C>>) -> Seq<
    DefinitionModel<C>,
> {
    Seq::new(definitions.len(), |i: int| definitions[i]@)
}

/// A list of registered protocols as plain values.
pub open spec fn protocol_models<C>(protocols: Seq<WiresharkProtocol<C>>) -> Seq<ProtocolModel<C>> {
    Seq::new(protocols.len(), |i: int| protocols[i]@)
}

/// The state of a plugin as plain values.
pub struct PluginModel<C> {
    /// The protocols that were defined and are not registered yet; `None`
    /// once the registration pass has run.
    pub definitions: Option<Seq<DefinitionModel<C>>>,
    /// The registered protocols.
    pub protocols: Seq<ProtocolModel<C>>,
    /// Whether the plugin itself was announced to the host.
    pub registered: bool,
    /// Whether the match conditions were handed to the host.
    pub handed_off: bool,
}

impl<C> PluginModel<C> {
    /// What holds of every plugin: no two protocols share an id, whether
    /// defined or registered; every protocol has a subtree slot; registered
    /// protocols come only of the registration pass, and keep their match
    /// conditions until the handoff.
    pub open spec fn wf(self) -> bool {
        &&& self.definitions matches Some(definitions) ==> {
            &&& self.protocols.len() == 0
            &&& !self.handed_off
            &&& forall|i: int, j: int|
                0 <= i < j < definitions.len() ==> (#[trigger] definitions[i]).id != (
                #[trigger] definitions[j]).id
            &&& forall|i: int|
                0 <= i < definitions.len() ==> (#[trigger] definitions[i]).num_ett >= 1
        }
        &&& forall|i: int, j: int|
            0 <= i < j < self.protocols.len() ==> (#[trigger] self.protocols[i]).id != (
            #[trigger] self.protocols[j]).id
        &&& forall|i: int|
            0 <= i < self.protocols.len() ==> {
                &&& (#[trigger] self.protocols[i]).ett_handles.len() >= 1
                &&& self.protocols[i].matches is Some <==> !self.handed_off
            }
    }
}

/// Whether the host answered each definition with a handle for each of its
/// subtree slots and fields.
pub open spec fn answers_fit<C>(
    definitions: Seq<DefinitionModel<C>>,
    answers: Seq<ProtocolAnswer>,
) -> bool {
    &&& answers.len() == definitions.len()
    &&& forall|i: int|
        0 <= i < definitions.len() ==> answer_fits(#[trigger] definitions[i], answers[i])
}

/// The protocols that come of the definitions once the host has answered.
pub open spec fn registered_protocols<C>(
    definitions: Seq<DefinitionModel<C>>,
    answers: Seq<ProtocolAnswer>,
) -> Seq<ProtocolModel<C>> {
    Seq::new(definitions.len(), |i: int| registered_protocol(definitions[i], answers[i]))
}

/// Whether in each definition no two fields share an id.
pub open spec fn all_fields_distinct<C>(definitions: Seq<DefinitionModel<C>>) -> bool {
    forall|i: int| 0 <= i < definitions.len() ==> distinct_field_ids((#[trigger] definitions[i]).fields)
}

/// The plugin. `C` is the type of the dissection callbacks, which the library
/// keeps with their protocols and never calls.
pub struct WiresharkPlugin<C> {
    global_alloc: Bump,
    protocol_definitions: Option<Vec<WiresharkProtocolDefinition<C>>>,
    protocols: Vec<WiresharkProtocol<C>>,
    registered: bool,
    handed_off: bool,
}

impl<C> View for WiresharkPlugin<C> {
    type V = PluginModel<C>;

    closed spec fn view(&self) -> PluginModel<C> {
        PluginModel {
            definitions: match self.protocol_definitions {
                Some(definitions) => Some(definition_models(definitions@)),
                None => None,
            },
            protocols: protocol_models(self.protocols@),
            registered: self.registered,
            handed_off: self.handed_off,
        }
    }
}

impl<C> WiresharkPlugin<C> {
    /// A plugin without protocols, in the setup phase.
    pub fn new() -> (r: Self)
        ensures
            r@.wf(),
            r@ == (PluginModel::<C> {
                definitions: Some(Seq::<DefinitionModel<C>>::empty()),
                protocols: Seq::<ProtocolModel<C>>::empty(),
                registered: false,
                handed_off: false,
            }),
    {
        let r = WiresharkPlugin {
            global_alloc: arena_new(),
            protocol_definitions: Some(Vec::new()),
            protocols: Vec::new(),
            registered: false,
            handed_off: false,
        };
        proof {
            assert(r@.definitions->Some_0 =~= Seq::<DefinitionModel<C>>::empty());
            assert(r@.protocols =~= Seq::<ProtocolModel<C>>::empty());
        }
        r
    }

    /// Puts a fresh plugin into `slot`, the one place where the program keeps
    /// its plugin. A slot that holds a plugin already is left as it is.
    pub fn setup(slot: &mut Option<WiresharkPlugin<C>>) -> (r: Result<(), ConfigurationError>)
        ensures
            *old(slot) is Some ==> r == Err::<(), ConfigurationError>(
                ConfigurationError::AlreadySetUp,
            ) && *final(slot) == *old(slot),
            *old(slot) is None ==> r is Ok && *final(slot) is Some && (*final(slot))->Some_0@.wf()
                && (*final(slot))->Some_0@ == (PluginModel::<C> {
                definitions: Some(Seq::<DefinitionModel<C>>::empty()),
                protocols: Seq::<ProtocolModel<C>>::empty(),
                registered: false,
                handed_off: false,
            }),
    {
        if slot.is_some() {
            return Err(ConfigurationError::AlreadySetUp);
        }
        *slot = Some(WiresharkPlugin::new());
        Ok(())
    }

    /// Adds a protocol to those that the registration pass will register. A
    /// protocol whose id is already defined is refused, and so is any
    /// protocol once the registration pass has run.
    pub fn add_protocol(&mut self, def: WiresharkProtocolDefinition<C>) -> (r: Result<
        (),
        ConfigurationError,
    >)
        requires
            old(self)@.wf(),
            def.wf(),
        ensures
            final(self)@.wf(),
            match old(self)@.definitions {
                None => r == Err::<(), ConfigurationError>(ConfigurationError::AlreadyRegistered)
                    && final(self)@ == old(self)@,
                Some(definitions) => if has_definition(definitions, def@.id) {
                    r == Err::<(), ConfigurationError>(ConfigurationError::DuplicateProtocol)
                        && final(self)@ == old(self)@
                } else {
                    r is Ok && final(self)@ == (PluginModel {
                        definitions: Some(definitions.push(def@)),
                        ..old(self)@
                    })
                },
            },
    {
        let mut definitions = match self.protocol_definitions.take() {
            Some(definitions) => definitions,
            None => {
                return Err(ConfigurationError::AlreadyRegistered);
            },
        };
        let ghost before = definition_models(definitions@);
        let key = def.id().to_owned();
        let mut i: usize = 0;
        let mut found = false;
        while i < definitions.len() && !found
            invariant
                i <= definitions.len(),
                before == definition_models(definitions@),
                key@ == def@.id,
                found ==> has_definition(before, def@.id),
                !found ==> forall|j: int| 0 <= j < i ==> (#[trigger] before[j]).id != def@.id,
            decreases definitions.len() - i,
        {
            let other = definitions[i].id().to_owned();
            if other == key {
                proof {
                    assert(before[i as int].id == def@.id);
                }
                found = true;
            }
            i = i + 1;
        }
        if found {
            self.protocol_definitions = Some(definitions);
            return Err(ConfigurationError::DuplicateProtocol);
        }
        definitions.push(def);
        proof {
            assert(definition_models(definitions@) =~= before.push(def@));
        }
        self.protocol_definitions = Some(definitions);
        Ok(())
    }

    /// Marks the plugin as announced to the host. This is done once: a second
    /// call is refused.
    pub fn register(&mut self) -> (r: Result<(), ConfigurationError>)
        ensures
            old(self)@.registered ==> r == Err::<(), ConfigurationError>(
                ConfigurationError::AlreadyRegistered,
            ) && final(self)@ == old(self)@,
            !old(self)@.registered ==> r is Ok && final(self)@ == (PluginModel {
                registered: true,
                ..old(self)@
            }),
    {
        if self.registered {
            return Err(ConfigurationError::AlreadyRegistered);
        }
        self.registered = true;
        Ok(())
    }

    /// The position of the first registered protocol with the given id.
    fn find_protocol_index(&self, id: &String) -> (r: Option<usize>)
        ensures
            match r {
                Some(i) => i < self@.protocols.len() && has_protocol(self@.protocols, id@) && i
                    == protocol_index(self@.protocols, id@),
                None => !has_protocol(self@.protocols, id@),
            },
    {
        let mut i: usize = 0;
        while i < self.protocols.len()
            invariant
                i <= self.protocols.len(),
                self.protocols@.len() == self@.protocols.len(),
                forall|j: int| 0 <= j < i ==> (#[trigger] self@.protocols[j]).id != id@,
            decreases self.protocols.len() - i,
        {
            let other = self.protocols[i].id().to_owned();
            if other == *id {
                proof {
                    assert(self@.protocols[i as int] == self.protocols@[i as int]@);
                    lemma_protocol_index_is_first(self@.protocols, id@, i as int);
                }
                return Some(i);
            }
            proof {
                assert(self@.protocols[i as int] == self.protocols@[i as int]@);
            }
            i = i + 1;
        }
        None
    }

    /// Looks a registered protocol up by its id. `None` means that no
    /// protocol with that id was registered.
    pub fn find_registered_protocol(&self, id: &str) -> (r: Option<&WiresharkProtocol<C>>)
        ensures
            match r {
                Some(protocol) => has_protocol(self@.protocols, id@) && protocol@
                    == self@.protocols[protocol_index(self@.protocols, id@)],
                None => !has_protocol(self@.protocols, id@),
            },
    {
        let key = id.to_owned();
        match self.find_protocol_index(&key) {
            Some(i) => Some(&self.protocols[i]),
            None => None,
        }
    }

    /// The registered protocol with the given id, which must be there.
    pub fn get_registered_protocol(&self, id: &str) -> (r: &WiresharkProtocol<C>)
        requires
            has_protocol(self@.protocols, id@),
        ensures
            r@ == self@.protocols[protocol_index(self@.protocols, id@)],
    {
        match self.find_registered_protocol(id) {
            Some(protocol) => protocol,
            None => vstd::pervasive::unreached(),
        }
    }

    /// Copies `s` into the plugin's arena, followed by a zero character, and
    /// returns the copy, which stays where it is for as long as the plugin
    /// lives. `None` means that the arena could not reserve the space.
    pub fn alloc_string(&self, s: &str) -> (r: Option<&str>)
        ensures
            r matches Some(copy) ==> copy@ == s@.push('\0'),
    {
        let text = terminated(s);
        arena_alloc_str(&self.global_alloc, text.as_str())
    }
}

/// Whether `request` tells the host what the definition says: its names, the
/// number of its subtree slots and, in order, its fields.
pub open spec fn request_fits<C>(definition: DefinitionModel<C>, request: ProtocolRequest) -> bool {
    &&& request.name@ == definition.name
    &&& request.id@ == definition.id
    &&& request.filter@ == definition.filter
    &&& request.num_ett == definition.num_ett
    &&& crate::host::field_request_models(request.fields@) == definition.fields.map_values(
        |field: crate::fields::FieldModel| crate::host::field_request_of(field),
    )
}

impl<C> WiresharkPlugin<C> {
    /// What the host is to be asked in the registration pass: one request
    /// for each defined protocol, in the order of their definition. Nothing
    /// is asked once the pass has run, or where two fields of a protocol
    /// share an id.
    pub fn registration_requests(&self) -> (r: Result<Vec<ProtocolRequest>, ConfigurationError>)
        ensures
            match self@.definitions {
                None => r is Err && r->Err_0 == ConfigurationError::AlreadyRegistered,
                Some(definitions) => if all_fields_distinct(definitions) {
                    &&& r is Ok
                    &&& r->Ok_0@.len() == definitions.len()
                    &&& forall|i: int|
                        0 <= i < definitions.len() ==> request_fits(
                            definitions[i],
                            #[trigger] r->Ok_0@[i],
                        )
                } else {
                    r is Err && r->Err_0 == ConfigurationError::DuplicateField
                },
            },
    {
        let definitions = match &self.protocol_definitions {
            Some(definitions) => definitions,
            None => {
                return Err(ConfigurationError::AlreadyRegistered);
            },
        };
        let ghost models = definition_models(definitions@);
        let mut requests: Vec<ProtocolRequest> = Vec::new();
        let mut i: usize = 0;
        while i < definitions.len()
            invariant
                i <= definitions.len(),
                self@.definitions == Some(models),
                models == definition_models(definitions@),
                requests@.len() == i,
                forall|j: int| 0 <= j < i ==> distinct_field_ids((#[trigger] models[j]).fields),
                forall|j: int| 0 <= j < i ==> request_fits(models[j], #[trigger] requests@[j]),
            decreases definitions.len() - i,
        {
            proof {
                assert(models[i as int] == definitions@[i as int]@);
            }
            if !definitions[i].has_distinct_field_ids() {
                return Err(ConfigurationError::DuplicateField);
            }
            requests.push(definitions[i].registration_request());
            i = i + 1;
        }
        Ok(requests)
    }
}

/// The registration pass. `answers` holds what the host answered to the
/// requests of `registration_requests`, in their order. Each defined protocol
/// becomes a registered protocol, with its fields under the handles of its
/// answer, and the definitions are used up. The pass runs once: a second one
/// is refused. It is refused too where two fields of a protocol share an id.
/// A pass that is refused leaves the plugin as it was.
pub fn proto_register_foo<C>(plugin: &mut WiresharkPlugin<C>, answers: &Vec<ProtocolAnswer>) -> (r:
    Result<(), ConfigurationError>)
    requires
        old(plugin)@.wf(),
        old(plugin)@.definitions matches Some(definitions) ==> answers_fit(definitions, answers@),
    ensures
        final(plugin)@.wf(),
        match old(plugin)@.definitions {
            None => r == Err::<(), ConfigurationError>(ConfigurationError::AlreadyRegistered)
                && final(plugin)@ == old(plugin)@,
            Some(definitions) => if all_fields_distinct(definitions) {
                r is Ok && final(plugin)@ == (PluginModel {
                    definitions: None,
                    protocols: registered_protocols(definitions, answers@),
                    ..old(plugin)@
                })
            } else {
                r == Err::<(), ConfigurationError>(ConfigurationError::DuplicateField)
                    && final(plugin)@ == old(plugin)@
            },
        },
{
    let definitions = match plugin.protocol_definitions.take() {
        Some(definitions) => definitions,
        None => {
            return Err(ConfigurationError::AlreadyRegistered);
        },
    };
    let ghost models = definition_models(definitions@);
    let ghost before = old(plugin)@;
    let mut i: usize = 0;
    while i < definitions.len()
        invariant
            i <= definitions.len(),
            before == old(plugin)@,
            before.wf(),
            before.definitions == Some(models),
            plugin@ == (PluginModel { definitions: None, ..before }),
            models == definition_models(definitions@),
            forall|j: int| 0 <= j < i ==> distinct_field_ids((#[trigger] models[j]).fields),
        decreases definitions.len() - i,
    {
        proof {
            assert(models[i as int] == definitions@[i as int]@);
        }
        if !definitions[i].has_distinct_field_ids() {
            plugin.protocol_definitions = Some(definitions);
            return Err(ConfigurationError::DuplicateField);
        }
        i = i + 1;
    }
    let ghost target = registered_protocols(models, answers@);
    let count = definitions.len();
    let mut protocols: Vec<WiresharkProtocol<C>> = Vec::new();
    let mut next: usize = 0;
    for definition in it: definitions
        invariant
            next == it.index(),
            before == old(plugin)@,
            before.wf(),
            before.definitions == Some(models),
            plugin@ == (PluginModel { definitions: None, ..before }),
            count == definitions@.len(),
            it.seq() == definitions@,
            models == definition_models(definitions@),
            all_fields_distinct(models),
            answers_fit(models, answers@),
            target == registered_protocols(models, answers@),
            protocol_models(protocols@) == target.take(it.index() as int),
    {
        let ghost k = it.index() as int;
        proof {
            assert(0 <= k < definitions@.len());
            assert(definition@ == models[k]);
            assert(answer_fits(models[k], answers@[k]));
        }
        match WiresharkProtocol::register(definition, &answers[next]) {
            Ok(protocol) => {
                protocols.push(protocol);
                proof {
                    assert(protocol_models(protocols@) =~= target.take(k).push(target[k]));
                    assert(target.take(k).push(target[k]) =~= target.take(k + 1));
                }
            },
            Err(_) => {
                proof {
                    assert(distinct_field_ids(models[k].fields));
                }
                assert(false);
            },
        }
        next = next + 1;
    }
    proof {
        assert(target.take(count as int) =~= target);
        assert forall|i: int, j: int| 0 <= i < j < target.len() implies (#[trigger] target[i]).id != (
        #[trigger] target[j]).id by {
            assert(models[i].id != models[j].id);
        }
        assert forall|i: int| 0 <= i < target.len() implies {
            &&& (#[trigger] target[i]).ett_handles.len() >= 1
            &&& target[i].matches is Some <==> !before.handed_off
        } by {
            assert(models[i].num_ett >= 1);
            assert(answer_fits(models[i], answers@[i]));
        }
    }
    plugin.protocols = protocols;
    Ok(())
}

/// The protocols after the handoff: as before, without their match
/// conditions.
pub open spec fn without_matches<C>(protocols: Seq<ProtocolModel<C>>) -> Seq<ProtocolModel<C>> {
    Seq::new(protocols.len(), |i: int| ProtocolModel { matches: None, ..protocols[i] })
}

/// Whether `request` asks to enter the protocol under its match conditions.
pub open spec fn handoff_fits<C>(protocol: ProtocolModel<C>, request: HandoffRequest) -> bool {
    &&& request.proto_handle == protocol.proto_handle
    &&& protocol.matches == Some(match_models(request.matches@))
}

/// The handoff. For each registered protocol, in the order of registration,
/// the result holds the request to enter it in the host's lookup tables
/// under its match conditions, which are used up. The handoff follows the
/// registration pass and runs once: before the pass, and a second time, it
/// is refused and leaves the plugin as it was.
pub fn proto_reg_handoff<C>(plugin: &mut WiresharkPlugin<C>) -> (r: Result<
    Vec<HandoffRequest>,
    ConfigurationError,
>)
    requires
        old(plugin)@.wf(),
    ensures
        final(plugin)@.wf(),
        old(plugin)@.definitions is Some ==> r is Err && r->Err_0
            == ConfigurationError::NotRegistered && final(plugin)@ == old(plugin)@,
        old(plugin)@.definitions is None && old(plugin)@.handed_off ==> r is Err && r->Err_0
            == ConfigurationError::AlreadyHandedOff && final(plugin)@ == old(plugin)@,
        old(plugin)@.definitions is None && !old(plugin)@.handed_off ==> {
            &&& r is Ok
            &&& r->Ok_0@.len() == old(plugin)@.protocols.len()
            &&& forall|i: int|
                0 <= i < old(plugin)@.protocols.len() ==> handoff_fits(
                    old(plugin)@.protocols[i],
                    #[trigger] r->Ok_0@[i],
                )
            &&& final(plugin)@ == (PluginModel {
                protocols: without_matches(old(plugin)@.protocols),
                handed_off: true,
                ..old(plugin)@
            })
        },
{
    if plugin.protocol_definitions.is_some() {
        return Err(ConfigurationError::NotRegistered);
    }
    if plugin.handed_off {
        return Err(ConfigurationError::AlreadyHandedOff);
    }
    let ghost before = old(plugin)@;
    let mut pending: Vec<WiresharkProtocol<C>> = Vec::new();
    std::mem::swap(&mut plugin.protocols, &mut pending);
    let count = pending.len();
    let mut requests: Vec<HandoffRequest> = Vec::new();
    let mut done: Vec<WiresharkProtocol<C>> = Vec::new();
    for protocol in it: pending
        invariant
            before == old(plugin)@,
            before.wf(),
            before.definitions is None,
            !before.handed_off,
            it.seq() == pending@,
            count == pending@.len(),
            protocol_models(pending@) == before.protocols,
            requests@.len() == it.index(),
            forall|j: int|
                0 <= j < it.index() ==> handoff_fits(before.protocols[j], #[trigger] requests@[j]),
            protocol_models(done@) == without_matches(before.protocols).take(it.index() as int),
    {
        let ghost k = it.index() as int;
        proof {
            assert(0 <= k < pending@.len());
            assert(protocol@ == before.protocols[k]);
        }
        let mut protocol = protocol;
        let proto_handle = protocol.get_proto_handle();
        match protocol.take_match_definitions() {
            Some(matches) => {
                requests.push(HandoffRequest { proto_handle: proto_handle, matches: matches });
            },
            None => {
                assert(false);
            },
        }
        done.push(protocol);
        proof {
            let target = without_matches(before.protocols);
            assert(protocol_models(done@) =~= target.take(k).push(target[k]));
            assert(target.take(k).push(target[k]) =~= target.take(k + 1));
        }
    }
    proof {
        let target = without_matches(before.protocols);
        assert(target.take(count as int) =~= target);
    }
    plugin.protocols = done;
    plugin.handed_off = true;
    Ok(requests)
}

/// What the dispatcher decides for one packet.
pub enum Dispatch<'a, C> {
    /// There is no packet context: the packet is claimed whole and nothing
    /// is placed, no column is changed and no protocol is invoked.
    Skip { consumed: usize },
    /// The packet belongs to `proto`. The host's columns are changed as
    /// `columns` say, in their order; then the tree of `root` is opened, and
    /// the protocol's callback dissects the packet in it. The packet is
    /// claimed whole.
    Dissect {
        proto: &'a WiresharkProtocol<C>,
        columns: [ColumnUpdate<'a>; 2],
        root: SubtreeRequest,
        consumed: usize,
    },
}

/// The request that opens the tree of a whole packet of `length` bytes under
/// the host's node `tree`: from the first byte to the last, in the
/// protocol's first subtree slot.
pub open spec fn root_request<C>(proto: ProtocolModel<C>, tree: NodeRef, length: int) -> SubtreeRequest {
    SubtreeRequest {
        item: ItemRequest {
            tree: tree,
            field_handle: proto.proto_handle,
            offset: 0,
            length: length as i32,
            encoding: ENC_NA,
        },
        tree_length: length as i32,
        ett_handle: proto.ett_handles[0],
        generated: false,
    }
}

/// The entry point for one packet. `buffer` holds the captured bytes,
/// `current_proto` the id of the protocol that the packet context names, or
/// `None` where there is no packet context, and `tree` the host's root node.
/// Without a context nothing is placed. With one, the protocol it names must
/// be registered; the result names it, resets the protocol and summary
/// columns, and opens a tree at offset 0 that spans the whole buffer. Either
/// way the whole captured length is claimed.
pub fn dissection_dispatcher<'a, C>(
    plugin: &'a WiresharkPlugin<C>,
    buffer: &[u8],
    current_proto: Option<&str>,
    tree: NodeRef,
) -> (r: Dispatch<'a, C>)
    requires
        plugin@.wf(),
        current_proto matches Some(id) ==> has_protocol(plugin@.protocols, id@) && buffer@.len()
            <= i32::MAX,
    ensures
        match current_proto {
            None => r is Skip && r->Skip_consumed == buffer@.len(),
            Some(id) => {
                &&& r is Dissect
                &&& r->proto@ == plugin@.protocols[protocol_index(plugin@.protocols, id@)]
                &&& r->columns@.len() == 2
                &&& r->columns@[0]@ == ColumnUpdateModel::SetProtocol(r->proto@.id)
                &&& r->columns@[1]@ == ColumnUpdateModel::ClearInfo
                &&& r->root == root_request(r->proto@, tree, buffer@.len() as int)
                &&& r->root.item.offset == 0
                &&& r->root.item.length == buffer@.len()
                &&& r->root.tree_length == buffer@.len()
                &&& r->Dissect_consumed == buffer@.len()
            },
        },
{
    let consumed = buffer.len();
    let id = match current_proto {
        Some(id) => id,
        None => {
            return Dispatch::Skip { consumed: consumed };
        },
    };
    let proto = plugin.get_registered_protocol(id);
    proof {
        let i = protocol_index(plugin@.protocols, id@);
        assert(plugin@.protocols[i].ett_handles.len() >= 1);
    }
    let columns = [ColumnUpdate::SetProtocol(proto.id()), ColumnUpdate::ClearInfo];
    match proto.start_dissector(tree, 0, 0, consumed as i32) {
        Ok(root) => Dispatch::Dissect {
            proto: proto,
            columns: columns,
            root: root,
            consumed: consumed,
        },
        Err(_) => vstd::pervasive::unreached(),
    }
}

/// The registration pass makes every protocol findable: among the protocols
/// that come of definitions with distinct ids, each is found by the id of its
/// definition, at the place of its definition.
pub proof fn lemma_registered_protocols_resolve<C>(
    definitions: Seq<DefinitionModel<C>>,
    answers: Seq<ProtocolAnswer>,
    i: int,
)
    requires
        forall|a: int, b: int|
            0 <= a < b < definitions.len() ==> (#[trigger] definitions[a]).id != (
            #[trigger] definitions[b]).id,
        0 <= i < definitions.len(),
    ensures
        has_protocol(registered_protocols(definitions, answers), definitions[i].id),
        protocol_index(registered_protocols(definitions, answers), definitions[i].id) == i,
        registered_protocols(definitions, answers)[i] == registered_protocol(
            definitions[i],
            answers[i],
        ),
{
    let protocols = registered_protocols(definitions, answers);
    let id = definitions[i].id;
    assert forall|j: int| 0 <= j < i implies (#[trigger] protocols[j]).id != id by {
        assert(definitions[j].id != definitions[i].id);
    }
    lemma_protocol_index_is_first(protocols, id, i);
}

/// The first protocol with an id is the one that `protocol_index` picks.
pub proof fn lemma_protocol_index_is_first<C>(
    protocols: Seq<ProtocolModel<C>>,
    id: Seq<char>,
    first: int,
)
    requires
        0 <= first < protocols.len(),
        protocols[first].id == id,
        forall|j: int| 0 <= j < first ==> (#[trigger] protocols[j]).id != id,
    ensures
        has_protocol(protocols, id),
        protocol_index(protocols, id) == first,
{
    let chosen = protocol_index(protocols, id);
    if chosen < first {
        assert(protocols[chosen].id != id);
    } else if first < chosen {
        assert(protocols[first].id != id);
    }
}

} // verus!
