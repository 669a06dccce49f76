//! What the library asks of the host's dissection engine, as plain values.
//! The library decides what is to be registered or placed; the program around
//! it performs the request and hands back what the host answered.

use vstd::prelude::*;
use vstd::string::*;
use crate::fields::FieldModel;
use crate::fields::owned_labels;

verus! {

/// The encoding of an item whose bytes are not interpreted.
pub const ENC_NA: u32 = 0;

/// A node of the host's tree under the name that the host gave it. The
/// library carries such a name from one request to the next and never looks
/// inside.
#[derive(Debug, Clone, Copy, PartialEq, Eq, Structural)]
pub struct NodeRef {
    pub raw: usize,
}

/// What the host is told of one field when it is registered, as plain values.
pub struct FieldRequestModel {
    pub name: Seq<char>,
    pub abbrev: Seq<char>,
    pub type_code: u32,
    pub display_code: i32,
    pub labels: Option<Seq<(u32, Seq<char>)>>,
}

/// What the host is told of a field with the given definition: its names, the
/// codes of its kind and display hint, and its label table.
pub open spec fn field_request_of(definition: FieldModel) -> FieldRequestModel {
    FieldRequestModel {
        name: definition.name,
        abbrev: definition.id,
        type_code: definition.field_type.code(),
        display_code: definition.display.code(),
        labels: definition.labels,
    }
}

/// The request to register one field.
#[derive(Debug, Clone, PartialEq, Eq)]
pub struct FieldRequest {
    pub name: String,
    pub abbrev: String,
    pub type_code: u32,
    pub display_code: i32,
    pub values: Option<Vec<(u32, String)>>,
}

impl View for FieldRequest {
    type V = FieldRequestModel;

    open spec fn view(&self) -> FieldRequestModel {
        FieldRequestModel {
            name: self.name@,
            abbrev: self.abbrev@,
            type_code: self.type_code,
            display_code: self.display_code,
            labels: match self.values {
                Some(values) => Some(owned_labels(values@)),
                None => None,
            },
        }
    }
}

/// The requests of a list of fields as plain values.
pub open spec fn field_request_models(requests: Seq<FieldRequest>) -> Seq<FieldRequestModel> {
    Seq::new(requests.len(), |i: int| requests[i]@)
}

/// The request to register a protocol: its names, the number of subtree
/// slots to reserve for it and, in the order of their definition, its fields.
#[derive(Debug, Clone, PartialEq, Eq)]
pub struct ProtocolRequest {
    pub name: String,
    pub id: String,
    pub filter: String,
    pub num_ett: usize,
    pub fields: Vec<FieldRequest>,
}

/// What the host answered to the request to register a protocol: the handle
/// of the protocol, the handles of its subtree slots and, in the order of the
/// request, the handles of its fields.
#[derive(Debug, Clone, PartialEq, Eq)]
pub struct ProtocolAnswer {
    pub proto_handle: i32,
    pub ett_handles: Vec<i32>,
    pub field_handles: Vec<i32>,
}

/// The request to enter a protocol in the host's lookup tables: the handle
/// of the protocol and the keys under which it is entered.
#[derive(Debug, Clone, PartialEq, Eq)]
pub struct HandoffRequest {
    pub proto_handle: i32,
    pub matches: Vec<crate::definition::WiresharkMatchDefinition>,
}

/// The request to place an item that the host reads from the packet's bytes:
/// `length` bytes at `offset`, under the tree node `tree`.
#[derive(Debug, Clone, Copy, PartialEq, Eq, Structural)]
pub struct ItemRequest {
    pub tree: NodeRef,
    pub field_handle: i32,
    pub offset: i32,
    pub length: i32,
    pub encoding: u32,
}

/// The request to open a subtree: a marker item, and below it a tree in the
/// collapse slot `ett_handle`. The new tree starts at the offset of the
/// marker and is `tree_length` bytes long, whatever the marker itself covers.
#[derive(Debug, Clone, Copy, PartialEq, Eq, Structural)]
pub struct SubtreeRequest {
    pub item: ItemRequest,
    pub tree_length: i32,
    pub ett_handle: i32,
    pub generated: bool,
}

/// A change to one of the host's columns for the packet at hand.
#[derive(Debug, Clone, Copy, PartialEq, Eq)]
pub enum ColumnUpdate<'a> {
    /// Show the id of this protocol in the protocol column.
    SetProtocol(&'a str),
    /// Empty the summary column.
    ClearInfo,
}

/// A change to a column as a plain value.
pub enum ColumnUpdateModel {
    SetProtocol(Seq<char>),
    ClearInfo,
}

impl<'a> View for ColumnUpdate<'a> {
    type V = ColumnUpdateModel;

    open spec fn view(&self) -> ColumnUpdateModel {
        match self {
            ColumnUpdate::SetProtocol(id) => ColumnUpdateModel::SetProtocol(id@),
            ColumnUpdate::ClearInfo => ColumnUpdateModel::ClearInfo,
        }
    }
}


/// The bytes that the host is handed for a text: its UTF-8 encoding and a
/// terminating zero byte.
pub open spec fn cstring_bytes(text: Seq<char>) -> Seq<u8> {
    vstd::utf8::encode_utf8(text).push(0u8)
}

/// A value that the library supplies for an item, in place of bytes of the
/// packet.
#[derive(Debug, Clone, PartialEq, Eq)]
pub enum ComputedValue {
    /// A text, as zero-terminated bytes.
    Text(Vec<u8>),
    UInt(u32),
    UInt64(u64),
}

/// A supplied value as a plain value.
pub enum ComputedValueModel {
    Text(Seq<u8>),
    UInt(u32),
    UInt64(u64),
}

impl View for ComputedValue {
    type V = ComputedValueModel;

    open spec fn view(&self) -> ComputedValueModel {
        match self {
            ComputedValue::Text(bytes) => ComputedValueModel::Text(bytes@),
            ComputedValue::UInt(value) => ComputedValueModel::UInt(*value),
            ComputedValue::UInt64(value) => ComputedValueModel::UInt64(*value),
        }
    }
}

/// The request to place an item whose value is supplied with the request and
/// not read from the packet. `offset` and `length` say which bytes the item
/// is shown against.
#[derive(Debug, Clone, PartialEq, Eq)]
pub struct ValueRequest {
    pub tree: NodeRef,
    pub field_handle: i32,
    pub offset: i32,
    pub length: i32,
    pub value: ComputedValue,
}

/// A change to what the host shows of an item that is already placed.
#[derive(Debug, Clone, PartialEq, Eq)]
pub enum ItemChange {
    /// Replace the item's text; the bytes end in a zero byte.
    SetText(Vec<u8>),
    /// Add to the end of the item's text.
    AppendText(Vec<u8>),
    /// Add to the front of the item's text.
    PrependText(Vec<u8>),
    /// Set the number of bytes that the item covers.
    SetLength(i32),
    /// Set the offset at which the item ends.
    SetEnd(i32),
    /// Mark the item as derived, not taken from the packet's bytes.
    MarkGenerated,
    /// Hide the item; it can still be filtered on.
    MarkHidden,
}

/// A change to an item as a plain value.
pub enum ItemChangeModel {
    SetText(Seq<u8>),
    AppendText(Seq<u8>),
    PrependText(Seq<u8>),
    SetLength(i32),
    SetEnd(i32),
    MarkGenerated,
    MarkHidden,
}

impl View for ItemChange {
    type V = ItemChangeModel;

    open spec fn view(&self) -> ItemChangeModel {
        match self {
            ItemChange::SetText(bytes) => ItemChangeModel::SetText(bytes@),
            ItemChange::AppendText(bytes) => ItemChangeModel::AppendText(bytes@),
            ItemChange::PrependText(bytes) => ItemChangeModel::PrependText(bytes@),
            ItemChange::SetLength(length) => ItemChangeModel::SetLength(*length),
            ItemChange::SetEnd(end) => ItemChangeModel::SetEnd(*end),
            ItemChange::MarkGenerated => ItemChangeModel::MarkGenerated,
            ItemChange::MarkHidden => ItemChangeModel::MarkHidden,
        }
    }
}

/// The request to change an item that is already placed.
#[derive(Debug, Clone, PartialEq, Eq)]
pub struct ItemUpdate {
    pub item: NodeRef,
    pub change: ItemChange,
}

/// The text that the host is to keep for `text`: its characters, followed by
/// a zero character.
pub fn terminated(text: &str) -> (r: String)
    ensures
        r@ == text@.push('\0'),
{
    let mut copy = String::from_str(text);
    copy.append("\0");
    proof {
        reveal_strlit("\0");
        assert("\0"@ =~= seq!['\0']);
        assert(copy@ =~= text@.push('\0'));
    }
    copy
}

/// Encodes a text for the host: its bytes, followed by a zero byte.
pub fn to_cstring(text: &str) -> (r: Vec<u8>)
    ensures
        r@ == cstring_bytes(text@),
{
    let mut bytes = text.as_bytes_vec();
    bytes.push(0u8);
    bytes
}

} // verus!
