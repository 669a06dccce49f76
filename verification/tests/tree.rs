use plugshark::defines::FieldDisplayType;
use plugshark::defines::FieldEncoding;
use plugshark::defines::FieldType;
use plugshark::defines::StringFieldEncoding;
use plugshark::error::ConfigurationError;
use plugshark::fields::WiresharkFieldArgs;
use plugshark::host::ComputedValue;
use plugshark::host::ItemChange;
use plugshark::host::ItemRequest;
use plugshark::host::NodeRef;
use plugshark::host::ProtocolAnswer;
use plugshark::host::ENC_NA;
use plugshark::protocol::WiresharkProtocol;
use plugshark::definition::WiresharkProtocolDefinition;
use plugshark::tree::DissectorSubTree;
use plugshark::tree::IndexPosition;
use plugshark::tvbuff::TvBuff;
use plugshark::tvbuff::TvBuffByteOrder;

const ROOT: NodeRef = NodeRef { raw: 1 };
const TOP: NodeRef = NodeRef { raw: 2 };
const SUB: NodeRef = NodeRef { raw: 3 };

fn protocol() -> WiresharkProtocol<u32> {
    let mut definition = WiresharkProtocolDefinition::new(0u32, "Test Protocol", "test", "test");
    definition.add_field_type(
        WiresharkFieldArgs::new("u32field", "UInt32 Field")
            .with_field_type(FieldType::Uint32)
            .with_display(FieldDisplayType::BaseHex),
    );
    definition.add_field_type(
        WiresharkFieldArgs::new("u8field", "UInt8 Field")
            .with_field_type(FieldType::Uint8)
            .with_display(FieldDisplayType::BaseHex)
            .with_values(vec![(0x65, "Test1"), (0x66, "Test2")]),
    );
    definition.add_field_type(WiresharkFieldArgs::new("name", "Name").with_field_type(FieldType::Stringz));
    assert_eq!(definition.set_num_ett(2), Ok(()));
    let answer = ProtocolAnswer { proto_handle: 50, ett_handles: vec![80, 81], field_handles: vec![101, 102, 103] };
    match WiresharkProtocol::register(definition, &answer) {
        Ok(proto) => proto,
        Err(_) => panic!("the ids are distinct"),
    }
}

fn tree_at<'a>(proto: &'a WiresharkProtocol<u32>, buffer: &'a [u8], start: i32, length: i32) -> DissectorSubTree<'a, u32> {
    let request = proto.start_dissector(ROOT, start, 0, length).expect("slot 0 is declared");
    DissectorSubTree::new(proto, buffer, request, TOP, SUB)
}

// What a host does with a request for an integer field: it reads `length`
// bytes at the offset and reports that it consumed them.
fn host_reads_uint(buffer: &[u8], request: &ItemRequest) -> (u64, i32) {
    let order = if request.encoding == FieldEncoding::LittleEndian.to_u32() {
        TvBuffByteOrder::LittleEndian
    } else {
        TvBuffByteOrder::BigEndian
    };
    let mut cursor = TvBuff::wrap(buffer, request.offset as u32, order);
    let value = match request.length {
        1 => cursor.read::<u8>().expect("one byte") as u64,
        2 => cursor.read::<u16>().expect("two bytes") as u64,
        4 => cursor.read::<u32>().expect("four bytes") as u64,
        _ => cursor.read::<u64>().expect("eight bytes"),
    };
    (value, request.length)
}

// What a host does with a request for a zero-terminated string: it consumes
// the bytes up to and with the terminator, whatever length was asked for.
fn host_reads_stringz(buffer: &[u8], request: &ItemRequest) -> (String, i32) {
    let from = request.offset as usize;
    let end = buffer[from..].iter().position(|b| *b == 0).expect("a terminator");
    (String::from_utf8(buffer[from..from + end].to_vec()).expect("text"), end as i32 + 1)
}

#[test]
fn new_tree_stands_at_the_start_of_its_request() {
    let proto = protocol();
    let buffer = [0u8; 16];
    let tree = tree_at(&proto, &buffer, 4, 10);
    assert_eq!(tree.cur_index(), 4);
    assert_eq!(tree.length(), 10);
    assert_eq!(tree.parent_node(), ROOT);
    assert_eq!(tree.subtree_node(), SUB);
    assert_eq!(tree.proto().get_proto_handle(), 50);
    assert_eq!(tree.get_field_handle("u8field"), 102);
    let mut tree = tree;
    assert_eq!(tree.get_top_item().node(), TOP);
}

#[test]
fn index_positions_resolve() {
    let proto = protocol();
    let buffer = [0u8; 32];
    let tree = tree_at(&proto, &buffer, 5, 20);
    assert_eq!(tree.enum_to_index_position(IndexPosition::Start(3)), 3);
    assert_eq!(tree.enum_to_index_position(IndexPosition::Start(-3)), -3);
    assert_eq!(tree.enum_to_index_position(IndexPosition::Current(0)), 5);
    assert_eq!(tree.enum_to_index_position(IndexPosition::Current(2)), 7);
    assert_eq!(tree.enum_to_index_position(IndexPosition::Current(-7)), -2);
    assert_eq!(tree.enum_to_index_position(IndexPosition::End(0)), 25);
    assert_eq!(tree.enum_to_index_position(IndexPosition::End(-4)), 21);
    assert_eq!(tree.enum_to_index_position(IndexPosition::End(1)), 26);
}

#[test]
fn end_resolves_to_position_plus_length() {
    let proto = protocol();
    let buffer = [0u8; 64];
    let mut tree = tree_at(&proto, &buffer, 0, 40);
    assert_eq!(tree.enum_to_index_position(IndexPosition::End(0)), 40);
    tree.item_added(NodeRef { raw: 9 }, 12);
    assert_eq!(tree.cur_index(), 12);
    assert_eq!(tree.enum_to_index_position(IndexPosition::End(0)), 12 + 40 + 0);
    let whole = tree_at(&proto, &buffer, 0, buffer.len() as i32);
    assert_eq!(whole.enum_to_index_position(IndexPosition::End(0)), 64);
    assert_eq!(whole.enum_to_index_position(IndexPosition::End(-4)), 60);
}

#[test]
fn can_resolve_tells_offsets_that_do_not_fit() {
    let proto = protocol();
    let buffer = [0u8; 4];
    let tree = tree_at(&proto, &buffer, i32::MAX - 1, 10);
    assert!(tree.can_resolve(IndexPosition::Current(1)));
    assert!(!tree.can_resolve(IndexPosition::Current(2)));
    assert!(!tree.can_resolve(IndexPosition::End(0)));
    assert!(tree.can_resolve(IndexPosition::End(-9)));
    assert!(tree.can_resolve(IndexPosition::Start(i32::MIN)));
    let low = tree_at(&proto, &buffer, i32::MIN, 0);
    assert!(!low.can_resolve(IndexPosition::Current(-1)));
    assert!(!low.can_resolve(IndexPosition::End(-1)));
    assert!(low.can_resolve(IndexPosition::End(0)));
}

#[test]
fn add_field_asks_at_the_resolved_offset() {
    let proto = protocol();
    let buffer = [0u8; 16];
    let tree = tree_at(&proto, &buffer, 2, 14);
    let request = tree.add_field("u32field", IndexPosition::Current(1), 4, FieldEncoding::LittleEndian);
    assert_eq!(
        request,
        ItemRequest { tree: SUB, field_handle: 101, offset: 3, length: 4, encoding: 0x8000_0000 }
    );
    let request = tree.add_field_string("name", IndexPosition::End(-2), 2, StringFieldEncoding::Utf8);
    assert_eq!(request, ItemRequest { tree: SUB, field_handle: 103, offset: 14, length: 2, encoding: 2 });
    let request = tree.add_item("u8field", IndexPosition::Start(7), 1, 0x1234);
    assert_eq!(request, ItemRequest { tree: SUB, field_handle: 102, offset: 7, length: 1, encoding: 0x1234 });
    assert_eq!(tree.cur_index(), 2);
}

#[test]
fn sequential_fields_are_contiguous_by_realized_length() {
    let proto = protocol();
    let buffer = *b"ab\0cdef\0\x65\x66";
    let mut tree = tree_at(&proto, &buffer, 0, buffer.len() as i32);
    let first = tree.add_field_string("name", IndexPosition::Current(0), 100, StringFieldEncoding::Ascii);
    assert_eq!(first.offset, 0);
    assert_eq!(first.length, 100);
    let (text, realized) = host_reads_stringz(&buffer, &first);
    assert_eq!(text, "ab");
    assert_eq!(realized, 3);
    tree.item_added(NodeRef { raw: 10 }, realized);
    let second = tree.add_field_string("name", IndexPosition::Current(0), -1, StringFieldEncoding::Ascii);
    assert_eq!(second.offset, first.offset + realized);
    let (text, realized) = host_reads_stringz(&buffer, &second);
    assert_eq!(text, "cdef");
    assert_eq!(realized, 5);
    tree.item_added(NodeRef { raw: 11 }, realized);
    let third = tree.add_field("u8field", IndexPosition::Current(0), 1, FieldEncoding::BigEndian);
    assert_eq!(third.offset, 8);
    assert_eq!(host_reads_uint(&buffer, &third), (0x65, 1));
}

#[test]
fn item_added_moves_by_what_the_host_consumed() {
    let proto = protocol();
    let buffer = [0u8; 8];
    let mut tree = tree_at(&proto, &buffer, 3, 5);
    let item = tree.item_added(NodeRef { raw: 77 }, 4);
    assert_eq!(item.node(), NodeRef { raw: 77 });
    assert_eq!(tree.cur_index(), 7);
    tree.item_added(NodeRef { raw: 78 }, 0);
    assert_eq!(tree.cur_index(), 7);
    tree.item_added(NodeRef { raw: 79 }, -2);
    assert_eq!(tree.cur_index(), 5);
    assert_eq!(tree.length(), 5);
}

#[test]
fn make_item_at_index_does_not_move_the_tree() {
    let proto = protocol();
    let buffer = [0u8; 8];
    let mut tree = tree_at(&proto, &buffer, 3, 5);
    let request = tree.make_item_at_index("u8field", 6, 1, ENC_NA);
    assert_eq!(request, ItemRequest { tree: SUB, field_handle: 102, offset: 6, length: 1, encoding: 0 });
    assert_eq!(tree.cur_index(), 3);
}

#[test]
fn computed_values_do_not_move_the_tree() {
    let proto = protocol();
    let buffer = [0u8; 8];
    let mut tree = tree_at(&proto, &buffer, 3, 5);
    let text = tree.add_field_string_value(103, IndexPosition::Current(1), 2, "sum");
    assert_eq!((text.tree, text.field_handle, text.offset, text.length), (SUB, 103, 4, 2));
    match text.value {
        ComputedValue::Text(bytes) => assert_eq!(bytes, vec![b's', b'u', b'm', 0]),
        _ => panic!("a text"),
    }
    let number = tree.add_field_uint_value(101, IndexPosition::Start(0), 4, 1234);
    assert_eq!((number.tree, number.field_handle, number.offset, number.length), (SUB, 101, 0, 4));
    assert!(matches!(number.value, ComputedValue::UInt(1234)));
    let wide = tree.add_field_uint64_value(101, IndexPosition::End(0), 0, u64::MAX);
    assert_eq!((wide.tree, wide.field_handle, wide.offset, wide.length), (SUB, 101, 8, 0));
    assert!(matches!(wide.value, ComputedValue::UInt64(u64::MAX)));
    assert_eq!(tree.cur_index(), 3);
}

#[test]
fn push_subtree_moves_the_parent_by_the_length() {
    let proto = protocol();
    let buffer = [0u8; 32];
    let mut parent = tree_at(&proto, &buffer, 4, 28);
    let request = parent.push_subtree(101, IndexPosition::Current(2), 10, 1).expect("slot 1 is declared");
    assert_eq!(request.item, ItemRequest { tree: SUB, field_handle: 101, offset: 6, length: 0, encoding: 0 });
    assert_eq!(request.tree_length, 10);
    assert_eq!(request.ett_handle, 81);
    assert!(!request.generated);
    assert_eq!(parent.cur_index(), 14);
    let child = DissectorSubTree::new(&proto, &buffer, request, NodeRef { raw: 20 }, NodeRef { raw: 21 });
    assert_eq!(child.cur_index(), 6);
    assert_eq!(child.length(), 10);
    assert_eq!(child.parent_node(), SUB);
    assert_eq!(child.subtree_node(), NodeRef { raw: 21 });
    assert_eq!(parent.cur_index(), 14);
}

#[test]
fn push_subtree_generated_leaves_the_parent() {
    let proto = protocol();
    let buffer = [0u8; 32];
    let mut parent = tree_at(&proto, &buffer, 4, 28);
    let request = parent.push_subtree_generated(102, IndexPosition::Current(0), 10, 0).expect("slot 0 is declared");
    assert_eq!(request.item, ItemRequest { tree: SUB, field_handle: 102, offset: 4, length: 0, encoding: 0 });
    assert_eq!(request.tree_length, 10);
    assert_eq!(request.ett_handle, 80);
    assert!(request.generated);
    assert_eq!(parent.cur_index(), 4);
}

#[test]
fn undeclared_subtree_slot_is_refused() {
    let proto = protocol();
    let buffer = [0u8; 32];
    let mut parent = tree_at(&proto, &buffer, 4, 28);
    assert_eq!(
        parent.push_subtree(101, IndexPosition::Current(0), 10, 2),
        Err(ConfigurationError::SubtreeIndexOutOfBounds)
    );
    assert_eq!(parent.cur_index(), 4);
    assert_eq!(
        parent.push_subtree_generated(101, IndexPosition::Current(0), 10, -1),
        Err(ConfigurationError::SubtreeIndexOutOfBounds)
    );
    assert_eq!(parent.cur_index(), 4);
}

#[test]
fn buffers_and_slices_from_the_tree() {
    let proto = protocol();
    let buffer = [10u8, 11, 12, 13, 14, 15];
    let mut tree = tree_at(&proto, &buffer, 0, buffer.len() as i32);
    tree.item_added(NodeRef { raw: 5 }, 2);
    let mut start = tree.get_buffer_start(TvBuffByteOrder::BigEndian);
    assert_eq!(start.length(), 6);
    assert_eq!(start.read::<u16>(), Ok(0x0A0B));
    let mut here = tree.get_buffer_here(TvBuffByteOrder::LittleEndian);
    assert_eq!(here.length(), 4);
    assert_eq!(here.read::<u16>(), Ok(0x0D0C));
    assert_eq!(tree.get_slice_here(3), &[12u8, 13, 14][..]);
    assert_eq!(tree.get_slice_here(9), &[12u8, 13, 14, 15][..]);
    assert_eq!(tree.get_slice_here(-1), &[] as &[u8]);
    tree.item_added(NodeRef { raw: 6 }, 10);
    assert_eq!(tree.get_buffer_here(TvBuffByteOrder::BigEndian).length(), 0);
    assert_eq!(tree.get_slice_here(3), &[] as &[u8]);
    tree.item_added(NodeRef { raw: 7 }, -20);
    assert_eq!(tree.cur_index(), -8);
    assert_eq!(tree.get_buffer_here(TvBuffByteOrder::BigEndian).length(), 0);
    assert_eq!(tree.get_slice_here(3), &[] as &[u8]);
}

#[test]
fn info_column_text_ends_in_zero() {
    let proto = protocol();
    let buffer = [0u8; 4];
    let mut tree = tree_at(&proto, &buffer, 1, 3);
    assert_eq!(tree.set_info_column("This is some info"), b"This is some info\0".to_vec());
    assert_eq!(tree.cur_index(), 1);
}

#[test]
fn item_updates_name_the_item() {
    let proto = protocol();
    let buffer = [0u8; 4];
    let mut tree = tree_at(&proto, &buffer, 0, 4);
    let mut item = tree.item_added(NodeRef { raw: 31 }, 1);
    let update = item.set_text("abc");
    assert_eq!(update.item, NodeRef { raw: 31 });
    assert!(matches!(update.change, ItemChange::SetText(ref bytes) if bytes == &b"abc\0".to_vec()));
    let update = item.append_text(" (Some Appended Text)");
    assert!(matches!(update.change, ItemChange::AppendText(ref bytes) if bytes == &b" (Some Appended Text)\0".to_vec()));
    let update = item.prepend_text("pre ");
    assert!(matches!(update.change, ItemChange::PrependText(ref bytes) if bytes == &b"pre \0".to_vec()));
    let update = item.set_len(9);
    assert_eq!(update.item, NodeRef { raw: 31 });
    assert!(matches!(update.change, ItemChange::SetLength(9)));
    assert!(matches!(item.set_end(12).change, ItemChange::SetEnd(12)));
    assert!(matches!(item.set_generated().change, ItemChange::MarkGenerated));
    assert!(matches!(item.set_hidden().change, ItemChange::MarkHidden));
    assert_eq!(item.node(), NodeRef { raw: 31 });
    assert_eq!(tree.cur_index(), 1);
}

#[test]
fn end_to_end_dissection_of_eight_bytes() {
    let proto = protocol();
    let buffer = [0x00u8, 0x00, 0x04, 0xD2, 0x65, 0x66, 0x67, 0x68];
    let mut tree = tree_at(&proto, &buffer, 0, buffer.len() as i32);
    assert_eq!(tree.cur_index(), 0);

    let request = tree.add_field("u32field", IndexPosition::Current(0), 4, FieldEncoding::BigEndian);
    assert_eq!(request.offset, 0);
    assert_eq!(request.field_handle, 101);
    let (value, realized) = host_reads_uint(&buffer, &request);
    assert_eq!(value, 1234);
    tree.item_added(NodeRef { raw: 40 }, realized);
    assert_eq!(tree.cur_index(), 4);

    let field = proto.get_field_handle("u8field").definition();
    let mut labels = Vec::new();
    let expected = [(0x65u64, 5), (0x66, 6), (0x67, 7)];
    for (i, (byte, position)) in expected.iter().enumerate() {
        let request = tree.add_field("u8field", IndexPosition::Current(0), 1, FieldEncoding::BigEndian);
        assert_eq!(request.offset, 4 + i as i32);
        assert_eq!(request.field_handle, 102);
        let (value, realized) = host_reads_uint(&buffer, &request);
        assert_eq!(value, *byte);
        tree.item_added(NodeRef { raw: 41 + i }, realized);
        assert_eq!(tree.cur_index(), *position);
        labels.push(field.label_for(value as u32));
    }
    assert_eq!(labels, vec![Some("Test1"), Some("Test2"), None]);
}

#[test]
fn push_subtree_moves_the_parent_whatever_the_index() {
    let proto = protocol();
    let buffer = [0u8; 32];
    for index in [
        IndexPosition::Start(0),
        IndexPosition::Start(-5),
        IndexPosition::Current(3),
        IndexPosition::End(-2),
        IndexPosition::End(i32::MAX),
        IndexPosition::Current(i32::MIN),
    ] {
        let mut parent = tree_at(&proto, &buffer, 4, 28);
        let request = parent.push_subtree(101, index, 6, 0).expect("slot 0 is declared");
        assert_eq!(parent.cur_index(), 10);
        assert_eq!(request.item.offset, tree_at(&proto, &buffer, 4, 28).enum_to_index_position(index));
        assert_eq!(request.item.length, 0);
        assert_eq!(request.tree_length, 6);
        let mut other = tree_at(&proto, &buffer, 4, 28);
        assert!(other.push_subtree_generated(101, index, 6, 0).is_ok());
        assert_eq!(other.cur_index(), 4);
    }
}

#[test]
fn offsets_beyond_the_host_are_cut_to_32_bits() {
    let proto = protocol();
    let buffer = [0u8; 4];
    let tree = tree_at(&proto, &buffer, i32::MAX - 1, 10);
    assert_eq!(tree.enum_to_index_position(IndexPosition::Current(1)), i32::MAX);
    assert_eq!(tree.enum_to_index_position(IndexPosition::Current(2)), i32::MIN);
    assert_eq!(tree.enum_to_index_position(IndexPosition::End(0)), i32::MIN + 8);
    assert_eq!(tree.enum_to_index_position(IndexPosition::End(-9)), i32::MAX);
    let request = tree.add_field("u8field", IndexPosition::Current(3), 1, FieldEncoding::BigEndian);
    assert_eq!(request.offset, i32::MIN + 1);
    let low = tree_at(&proto, &buffer, i32::MIN, 0);
    assert_eq!(low.enum_to_index_position(IndexPosition::Current(-1)), i32::MAX);
    assert_eq!(low.enum_to_index_position(IndexPosition::Start(i32::MIN)), i32::MIN);
}
