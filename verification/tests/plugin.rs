use plugshark::defines::FieldType;
use plugshark::error::ConfigurationError;
use plugshark::fields::WiresharkFieldArgs;
use plugshark::host::terminated;
use plugshark::host::ColumnUpdate;
use plugshark::tree::DissectorSubTree;
use plugshark::tree::IndexPosition;
use plugshark::host::NodeRef;
use plugshark::host::ProtocolAnswer;
use plugshark::host::ENC_NA;
use plugshark::plugin::dissection_dispatcher;
use plugshark::plugin::proto_reg_handoff;
use plugshark::plugin::proto_register_foo;
use plugshark::plugin::Dispatch;
use plugshark::plugin::WiresharkPlugin;
use plugshark::definition::WiresharkMatchType;
use plugshark::definition::WiresharkProtocolDefinition;

fn definition(id: &str, callback: u32, fields: &[&str]) -> WiresharkProtocolDefinition<u32> {
    let mut definition = WiresharkProtocolDefinition::new(callback, "Some Protocol", id, id);
    for field in fields {
        definition.add_field_type(WiresharkFieldArgs::new(field, "A Field").with_field_type(FieldType::Uint8));
    }
    definition.add_match_condition("udp.port", WiresharkMatchType::UInt32(1234));
    definition
}

fn answer(proto_handle: i32, fields: &[i32]) -> ProtocolAnswer {
    ProtocolAnswer { proto_handle, ett_handles: vec![proto_handle + 1], field_handles: fields.to_vec() }
}

fn registered_plugin() -> WiresharkPlugin<u32> {
    let mut plugin = WiresharkPlugin::new();
    assert_eq!(plugin.add_protocol(definition("foo", 1, &["foo.a", "foo.b"])), Ok(()));
    assert_eq!(plugin.add_protocol(definition("bar", 2, &["bar.a"])), Ok(()));
    let answers = vec![answer(10, &[11, 12]), answer(20, &[21])];
    assert_eq!(proto_register_foo(&mut plugin, &answers), Ok(()));
    plugin
}

#[test]
fn setup_fills_the_slot_once() {
    let mut slot: Option<WiresharkPlugin<u32>> = None;
    assert_eq!(WiresharkPlugin::setup(&mut slot), Ok(()));
    assert!(slot.is_some());
    let plugin = slot.as_mut().expect("a plugin");
    assert_eq!(plugin.add_protocol(definition("foo", 1, &[])), Ok(()));
    assert_eq!(WiresharkPlugin::setup(&mut slot), Err(ConfigurationError::AlreadySetUp));
    let plugin = slot.as_mut().expect("the same plugin");
    assert_eq!(plugin.add_protocol(definition("foo", 1, &[])), Err(ConfigurationError::DuplicateProtocol));
}

#[test]
fn register_marks_the_plugin_once() {
    let mut plugin: WiresharkPlugin<u32> = WiresharkPlugin::new();
    assert_eq!(plugin.register(), Ok(()));
    assert_eq!(plugin.register(), Err(ConfigurationError::AlreadyRegistered));
}

#[test]
fn same_protocol_id_twice_is_refused() {
    let mut plugin = WiresharkPlugin::new();
    assert_eq!(plugin.add_protocol(definition("foo", 1, &["foo.a"])), Ok(()));
    assert_eq!(plugin.add_protocol(definition("bar", 2, &["foo.a"])), Ok(()));
    assert_eq!(plugin.add_protocol(definition("foo", 3, &[])), Err(ConfigurationError::DuplicateProtocol));
    let requests = plugin.registration_requests().expect("the fields are distinct");
    assert_eq!(requests.len(), 2);
    assert_eq!(requests[0].id, "foo");
    assert_eq!(requests[1].id, "bar");
}

#[test]
fn registration_requests_list_each_protocol() {
    let mut plugin = WiresharkPlugin::new();
    assert_eq!(plugin.add_protocol(definition("foo", 1, &["foo.a", "foo.b"])), Ok(()));
    assert_eq!(plugin.add_protocol(definition("bar", 2, &[])), Ok(()));
    let requests = plugin.registration_requests().expect("the fields are distinct");
    assert_eq!(requests.len(), 2);
    assert_eq!(requests[0].name, "Some Protocol");
    assert_eq!(requests[0].num_ett, 1);
    assert_eq!(requests[0].fields.len(), 2);
    assert_eq!(requests[0].fields[1].abbrev, "foo.b");
    assert_eq!(requests[0].fields[1].type_code, 4);
    assert_eq!(requests[1].fields.len(), 0);
}

#[test]
fn registration_makes_each_protocol_findable() {
    let plugin = registered_plugin();
    let foo = plugin.get_registered_protocol("foo");
    assert_eq!(foo.get_proto_handle(), 10);
    assert_eq!(*foo.dissector_fn(), 1);
    assert_eq!(foo.get_ett_handle(0), Ok(11));
    assert_eq!(foo.get_field_handle("foo.a").handle(), 11);
    assert_eq!(foo.get_field_handle("foo.b").handle(), 12);
    let bar = plugin.get_registered_protocol("bar");
    assert_eq!(bar.get_proto_handle(), 20);
    assert_eq!(*bar.dissector_fn(), 2);
    assert_eq!(bar.get_field_handle("bar.a").handle(), 21);
    assert!(bar.find_field_handle("foo.a").is_none());
    assert!(plugin.find_registered_protocol("baz").is_none());
    assert!(plugin.find_registered_protocol("").is_none());
}

#[test]
fn registration_runs_once() {
    let mut plugin = registered_plugin();
    assert_eq!(proto_register_foo(&mut plugin, &Vec::new()), Err(ConfigurationError::AlreadyRegistered));
    assert!(matches!(plugin.registration_requests(), Err(ConfigurationError::AlreadyRegistered)));
    assert_eq!(plugin.add_protocol(definition("late", 3, &[])), Err(ConfigurationError::AlreadyRegistered));
    assert_eq!(plugin.get_registered_protocol("foo").get_proto_handle(), 10);
    assert!(plugin.find_registered_protocol("late").is_none());
}

#[test]
fn duplicate_field_id_refuses_the_whole_pass() {
    let mut plugin = WiresharkPlugin::new();
    assert_eq!(plugin.add_protocol(definition("foo", 1, &["foo.a"])), Ok(()));
    assert_eq!(plugin.add_protocol(definition("bar", 2, &["bar.a", "bar.b", "bar.a"])), Ok(()));
    assert!(matches!(plugin.registration_requests(), Err(ConfigurationError::DuplicateField)));
    let answers = vec![answer(10, &[11]), answer(20, &[21, 22, 23])];
    assert_eq!(proto_register_foo(&mut plugin, &answers), Err(ConfigurationError::DuplicateField));
    assert!(plugin.find_registered_protocol("foo").is_none());
    assert!(plugin.find_registered_protocol("bar").is_none());
    assert_eq!(plugin.add_protocol(definition("foo", 3, &[])), Err(ConfigurationError::DuplicateProtocol));
    assert_eq!(plugin.add_protocol(definition("baz", 3, &[])), Ok(()));
}

#[test]
fn handoff_follows_registration_and_runs_once() {
    let mut plugin = WiresharkPlugin::new();
    assert_eq!(plugin.add_protocol(definition("foo", 1, &["foo.a"])), Ok(()));
    assert!(matches!(proto_reg_handoff(&mut plugin), Err(ConfigurationError::NotRegistered)));
    assert_eq!(proto_register_foo(&mut plugin, &vec![answer(10, &[11])]), Ok(()));
    let requests = proto_reg_handoff(&mut plugin).expect("registered and not handed off");
    assert_eq!(requests.len(), 1);
    assert_eq!(requests[0].proto_handle, 10);
    assert_eq!(requests[0].matches.len(), 1);
    assert_eq!(requests[0].matches[0].id(), "udp.port");
    assert!(matches!(requests[0].matches[0].match_type(), WiresharkMatchType::UInt32(1234)));
    assert!(matches!(proto_reg_handoff(&mut plugin), Err(ConfigurationError::AlreadyHandedOff)));
    assert_eq!(plugin.get_registered_protocol("foo").get_field_handle("foo.a").handle(), 11);
}

#[test]
fn handoff_lists_protocols_in_order() {
    let mut plugin = registered_plugin();
    let requests = proto_reg_handoff(&mut plugin).expect("registered and not handed off");
    assert_eq!(requests.len(), 2);
    assert_eq!(requests[0].proto_handle, 10);
    assert_eq!(requests[1].proto_handle, 20);
}

#[test]
fn dispatch_without_context_claims_the_packet_and_places_nothing() {
    let plugin = registered_plugin();
    let buffer = [0u8; 8];
    match dissection_dispatcher(&plugin, &buffer, None, NodeRef { raw: 1 }) {
        Dispatch::Skip { consumed } => assert_eq!(consumed, 8),
        Dispatch::Dissect { .. } => panic!("there is no packet context"),
    }
    let empty: [u8; 0] = [];
    assert!(matches!(
        dissection_dispatcher(&plugin, &empty, None, NodeRef { raw: 1 }),
        Dispatch::Skip { consumed: 0 }
    ));
}

#[test]
fn dispatch_finds_the_protocol_and_opens_the_root() {
    let plugin = registered_plugin();
    let buffer = [0u8; 12];
    match dissection_dispatcher(&plugin, &buffer, Some("bar"), NodeRef { raw: 5 }) {
        Dispatch::Dissect { proto, columns, root, consumed } => {
            assert_eq!(proto.id(), "bar");
            assert_eq!(*proto.dissector_fn(), 2);
            assert_eq!(columns, [ColumnUpdate::SetProtocol("bar"), ColumnUpdate::ClearInfo]);
            assert_eq!(root.item.tree, NodeRef { raw: 5 });
            assert_eq!(root.item.field_handle, 20);
            assert_eq!(root.item.offset, 0);
            assert_eq!(root.item.length, 12);
            assert_eq!(root.item.encoding, ENC_NA);
            assert_eq!(root.tree_length, 12);
            assert_eq!(root.ett_handle, 21);
            assert!(!root.generated);
            assert_eq!(consumed, 12);
        }
        Dispatch::Skip { .. } => panic!("the packet names a protocol"),
    }
}

#[test]
fn alloc_string_appends_a_zero() {
    let plugin: WiresharkPlugin<u32> = WiresharkPlugin::new();
    assert_eq!(plugin.alloc_string("udp.port"), Some("udp.port\0"));
    assert_eq!(plugin.alloc_string(""), Some("\0"));
    let first = plugin.alloc_string("kept").expect("a copy");
    let second = plugin.alloc_string("other").expect("a copy");
    assert_eq!(first, "kept\0");
    assert_eq!(second, "other\0");
}

#[test]
fn terminated_text_ends_in_a_zero_character() {
    assert_eq!(terminated("udp.port"), "udp.port\0");
    assert_eq!(terminated(""), "\0");
    assert_eq!(terminated("a\0b"), "a\0b\0");
}

#[test]
fn root_tree_spans_the_whole_buffer() {
    let plugin = registered_plugin();
    let buffer = [7u8; 20];
    match dissection_dispatcher(&plugin, &buffer, Some("foo"), NodeRef { raw: 5 }) {
        Dispatch::Dissect { proto, root, consumed, .. } => {
            let mut tree = DissectorSubTree::new(proto, &buffer, root, NodeRef { raw: 6 }, NodeRef { raw: 7 });
            assert_eq!(tree.cur_index(), 0);
            assert_eq!(tree.length(), 20);
            assert_eq!(tree.enum_to_index_position(IndexPosition::End(0)), 20);
            assert_eq!(tree.enum_to_index_position(IndexPosition::End(-2)), 18);
            tree.item_added(NodeRef { raw: 8 }, 5);
            assert_eq!(tree.enum_to_index_position(IndexPosition::End(0)), 25);
            assert_eq!(consumed, buffer.len());
        }
        Dispatch::Skip { .. } => panic!("the packet names a protocol"),
    }
    let empty: [u8; 0] = [];
    match dissection_dispatcher(&plugin, &empty, Some("bar"), NodeRef { raw: 5 }) {
        Dispatch::Dissect { root, consumed, .. } => {
            assert_eq!(root.item.length, 0);
            assert_eq!(root.tree_length, 0);
            assert_eq!(consumed, 0);
        }
        Dispatch::Skip { .. } => panic!("the packet names a protocol"),
    }
}
