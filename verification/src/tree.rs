//! The dissection tree builder: the offset bookkeeping of one packet's
//! dissection. A tree knows where in the packet it stands and how long it is
//! declared to be. It says what the host is to place and where, and moves on
//! by the number of bytes that the host reports to have consumed.
//!
//! Offsets are handed to the host in the 32 bits of its offset field: an
//! offset that does not fit is cut to them, and `can_resolve` tells whether
//! one fits. The tree's own position is never cut: to move a tree beyond
//! what 32 bits hold is the caller's error, and `can_advance` tells whether
//! a move stays within them.

use vstd::prelude::*;
use crate::defines::FieldEncoding;
use crate::defines::StringFieldEncoding;
use crate::error::ConfigurationError;
use crate::host::cstring_bytes;
use crate::host::to_cstring;
use crate::host::ComputedValue;
use crate::host::ComputedValueModel;
use crate::host::ItemChange;
use crate::host::ItemChangeModel;
use crate::host::ItemRequest;
use crate::host::ItemUpdate;
use crate::host::NodeRef;
use crate::host::SubtreeRequest;
use crate::host::ValueRequest;
use crate::host::ENC_NA;
use crate::protocol::field_named;
use crate::protocol::has_field;
use crate::protocol::ProtocolModel;
use crate::protocol::WiresharkProtocol;
use crate::tvbuff::clamped_slice;
use crate::tvbuff::region_from;
use crate::tvbuff::TvBuff;
use crate::tvbuff::TvBuffByteOrder;

verus! {

/// Where an item is placed in the packet.
#[derive(Debug, Clone, Copy, PartialEq, Eq, Structural)]
pub enum IndexPosition {
    /// At the given offset from the start of the packet.
    Start(i32),
    /// At the given offset from the tree's current position.
    Current(i32),
    /// At the given offset from the tree's end: its current position plus
    /// its declared length.
    End(i32),
}

/// The absolute offset that `index` names in a tree that stands at
/// `cur_index` and is declared `length` bytes long.
pub open spec fn resolved_offset(cur_index: int, length: int, index: IndexPosition) -> int {
    match index {
        IndexPosition::Start(offset) => offset as int,
        IndexPosition::Current(offset) => cur_index + offset,
        IndexPosition::End(offset) => cur_index + length + offset,
    }
}

/// Whether a number is an offset or a length that the host can take.
pub open spec fn fits_i32(n: int) -> bool {
    i32::MIN <= n <= i32::MAX
}

/// The offset that the host is handed for the absolute offset `n`: the
/// number itself where the host can take it, and else its lower 32 bits.
pub open spec fn host_offset(n: int) -> i32 {
    n as i32
}

/// A dissection tree as plain values.
pub struct TreeModel<C> {
    /// The protocol whose fields the tree places.
    pub proto: ProtocolModel<C>,
    /// The captured bytes of the packet.
    pub buffer: Seq<u8>,
    /// The host's node under which the tree's marker item was placed.
    pub parent_node: NodeRef,
    /// The marker item that the tree hangs from.
    pub top_item: NodeRef,
    /// The host's node that the tree's items are placed under.
    pub subtree_node: NodeRef,
    /// The current position in the packet.
    pub cur_index: i32,
    /// The declared length of the tree.
    pub length: i32,
}

impl<C> TreeModel<C> {
    /// The absolute offset that `index` names in this tree.
    pub open spec fn resolve(self, index: IndexPosition) -> int {
        resolved_offset(self.cur_index as int, self.length as int, index)
    }

    /// The tree after `consumed` more bytes, where its position is then
    /// still one that the host can take.
    pub open spec fn advanced(self, consumed: int) -> TreeModel<C>
        recommends
            fits_i32(self.cur_index + consumed),
    {
        TreeModel { cur_index: (self.cur_index + consumed) as i32, ..self }
    }

    /// The request to open a subtree of `length` bytes at `index`: a marker
    /// item of no width for the field `field_handle`, and below it a tree in
    /// the subtree slot with the handle `ett_handle`.
    pub open spec fn subtree_request(
        self,
        field_handle: i32,
        index: IndexPosition,
        length: i32,
        ett_handle: i32,
        generated: bool,
    ) -> SubtreeRequest {
        SubtreeRequest {
            item: ItemRequest {
                tree: self.subtree_node,
                field_handle: field_handle,
                offset: host_offset(self.resolve(index)),
                length: 0,
                encoding: ENC_NA,
            },
            tree_length: length,
            ett_handle: ett_handle,
            generated: generated,
        }
    }

    /// The request to place the field `field_id` at `index`.
    pub open spec fn item_request(
        self,
        field_id: Seq<char>,
        index: IndexPosition,
        length: i32,
        encoding: u32,
    ) -> ItemRequest {
        ItemRequest {
            tree: self.subtree_node,
            field_handle: field_named(self.proto.fields, field_id).handle,
            offset: host_offset(self.resolve(index)),
            length: length,
            encoding: encoding,
        }
    }
}

/// Fields that are placed one after the other at the current position lie
/// side by side: the second starts where the first started, plus the number
/// of bytes that the host consumed for the first, whatever length was asked
/// for.
pub proof fn lemma_sequential_fields_are_contiguous<C>(tree: TreeModel<C>, realized_length: i32)
    requires
        fits_i32(tree.cur_index + realized_length),
    ensures
        tree.advanced(realized_length as int).resolve(IndexPosition::Current(0)) == tree.resolve(
            IndexPosition::Current(0),
        ) + realized_length,
        host_offset(tree.advanced(realized_length as int).resolve(IndexPosition::Current(0)))
            == host_offset(tree.resolve(IndexPosition::Current(0))) + realized_length,
{
}

/// An offset from the end of a tree counts from its position plus its
/// declared length.
pub proof fn lemma_end_resolves_from_position_plus_length<C>(tree: TreeModel<C>, offset: i32)
    ensures
        tree.resolve(IndexPosition::End(offset)) == tree.cur_index + tree.length + offset,
        fits_i32(tree.cur_index + tree.length + offset) ==> host_offset(
            tree.resolve(IndexPosition::End(offset)),
        ) == tree.cur_index + tree.length + offset,
{
}

/// The builder of one tree of a dissection. It is made anew for each packet
/// and for each subtree, and borrows the protocol and the packet's bytes.
pub struct DissectorSubTree<'a, C> {
    proto: &'a WiresharkProtocol<C>,
    buffer: &'a [u8],
    parent_node: NodeRef,
    top_item: NodeRef,
    subtree_node: NodeRef,
    cur_index: i32,
    length: i32,
}

impl<'a, C> View for DissectorSubTree<'a, C> {
    type V = TreeModel<C>;

    closed spec fn view(&self) -> TreeModel<C> {
        TreeModel {
            proto: self.proto@,
            buffer: self.buffer@,
            parent_node: self.parent_node,
            top_item: self.top_item,
            subtree_node: self.subtree_node,
            cur_index: self.cur_index,
            length: self.length,
        }
    }
}

/// An item that the host placed in a tree.
#[derive(Debug, Clone, Copy, PartialEq, Eq, Structural)]
pub struct DissectorItem {
    item: NodeRef,
}

impl View for DissectorItem {
    type V = NodeRef;

    closed spec fn view(&self) -> NodeRef {
        self.item
    }
}

impl<'a, C> DissectorSubTree<'a, C> {
    /// The tree that the host opened on `request`: `top_item` is the marker
    /// item that the host placed and `subtree_node` the node below it. The
    /// tree stands at the offset of the marker and is as long as the request
    /// says.
    pub fn new(
        proto: &'a WiresharkProtocol<C>,
        buffer: &'a [u8],
        request: SubtreeRequest,
        top_item: NodeRef,
        subtree_node: NodeRef,
    ) -> (r: Self)
        ensures
            r@ == (TreeModel {
                proto: proto@,
                buffer: buffer@,
                parent_node: request.item.tree,
                top_item: top_item,
                subtree_node: subtree_node,
                cur_index: request.item.offset,
                length: request.tree_length,
            }),
    {
        DissectorSubTree {
            proto: proto,
            buffer: buffer,
            parent_node: request.item.tree,
            top_item: top_item,
            subtree_node: subtree_node,
            cur_index: request.item.offset,
            length: request.tree_length,
        }
    }

    /// The current position in the packet.
    pub fn cur_index(&self) -> (r: i32)
        ensures
            r == self@.cur_index,
    {
        self.cur_index
    }

    /// The declared length of the tree.
    pub fn length(&self) -> (r: i32)
        ensures
            r == self@.length,
    {
        self.length
    }

    /// The protocol whose fields the tree places.
    pub fn proto(&self) -> (r: &'a WiresharkProtocol<C>)
        ensures
            r@ == self@.proto,
    {
        self.proto
    }

    /// The captured bytes of the packet.
    pub fn buffer(&self) -> (r: &'a [u8])
        ensures
            r@ == self@.buffer,
    {
        self.buffer
    }

    /// The host's node that the tree's items are placed under.
    pub fn subtree_node(&self) -> (r: NodeRef)
        ensures
            r == self@.subtree_node,
    {
        self.subtree_node
    }

    /// The host's node under which the tree's marker item was placed.
    pub fn parent_node(&self) -> (r: NodeRef)
        ensures
            r == self@.parent_node,
    {
        self.parent_node
    }

    /// The offset that the host is handed for `index`: the absolute offset
    /// that `index` names in this tree, cut to 32 bits where it is beyond
    /// what the host can take.
    pub fn enum_to_index_position(&self, index: IndexPosition) -> (r: i32)
        ensures
            r == host_offset(self@.resolve(index)),
            fits_i32(self@.resolve(index)) ==> r == self@.resolve(index),
    {
        let cur = self.cur_index as i64;
        let len = self.length as i64;
        match index {
            IndexPosition::Start(offset) => offset,
            IndexPosition::Current(offset) => #[verifier::truncate]
            ((cur + offset as i64) as i32),
            IndexPosition::End(offset) => #[verifier::truncate]
            ((cur + len + offset as i64) as i32),
        }
    }

    /// Whether `index` names an offset that the host can take.
    pub fn can_resolve(&self, index: IndexPosition) -> (r: bool)
        ensures
            r == fits_i32(self@.resolve(index)),
    {
        let cur = self.cur_index as i64;
        let len = self.length as i64;
        let target: i64 = match index {
            IndexPosition::Start(offset) => offset as i64,
            IndexPosition::Current(offset) => cur + offset as i64,
            IndexPosition::End(offset) => cur + len + offset as i64,
        };
        -0x8000_0000i64 <= target && target <= 0x7fff_ffffi64
    }

    /// Whether the tree can move on by `consumed` bytes and still stand at an
    /// offset that the host can take.
    pub fn can_advance(&self, consumed: i32) -> (r: bool)
        ensures
            r == fits_i32(self@.cur_index + consumed),
    {
        let target: i64 = self.cur_index as i64 + consumed as i64;
        -0x8000_0000i64 <= target && target <= 0x7fff_ffffi64
    }

    /// The handle of the field with the given id, which must have been
    /// registered under the tree's protocol.
    pub fn get_field_handle(&self, field_id: &str) -> (r: i32)
        requires
            has_field(self@.proto.fields, field_id@),
        ensures
            r == field_named(self@.proto.fields, field_id@).handle,
    {
        self.proto.get_field_handle(field_id).handle()
    }

    /// A cursor over the whole packet, from its first byte.
    pub fn get_buffer_start(&self, byteorder: TvBuffByteOrder) -> (r: TvBuff<'a>)
        ensures
            r.region() == self@.buffer,
            r.position() == 0,
            r.order() == byteorder,
    {
        let r = TvBuff::wrap(self.buffer, 0, byteorder);
        proof {
            assert(region_from(self.buffer@, 0) =~= self.buffer@);
        }
        r
    }

    /// A cursor over the packet from the tree's current position on. Where
    /// the position lies outside the packet, the cursor's region is empty.
    pub fn get_buffer_here(&self, byteorder: TvBuffByteOrder) -> (r: TvBuff<'a>)
        ensures
            r.region() == region_from(self@.buffer, self@.cur_index as int),
            r.position() == 0,
            r.order() == byteorder,
    {
        if self.cur_index < 0 {
            let r = TvBuff::wrap(vstd::slice::slice_subrange(self.buffer, 0, 0), 0, byteorder);
            proof {
                assert(r.region() =~= Seq::<u8>::empty());
            }
            r
        } else {
            TvBuff::wrap(self.buffer, self.cur_index as u32, byteorder)
        }
    }

    /// The bytes of the packet from the tree's current position on, at most
    /// `length` of them: a request that reaches past the end of the packet
    /// is cut there.
    pub fn get_slice_here(&self, length: i32) -> (r: &'a [u8])
        ensures
            r@ == clamped_slice(region_from(self@.buffer, self@.cur_index as int), 0, length as int),
    {
        self.get_buffer_here(TvBuffByteOrder::BigEndian).into_slice(length)
    }

    /// The request to place the field `field_id` at the absolute offset
    /// `start_index`. The tree's position does not move.
    pub fn make_item_at_index(
        &mut self,
        field_id: &str,
        start_index: i32,
        length: i32,
        encoding: u32,
    ) -> (r: ItemRequest)
        requires
            has_field(old(self)@.proto.fields, field_id@),
        ensures
            final(self)@ == old(self)@,
            r == old(self)@.item_request(
                field_id@,
                IndexPosition::Start(start_index),
                length,
                encoding,
            ),
    {
        ItemRequest {
            tree: self.subtree_node,
            field_handle: self.get_field_handle(field_id),
            offset: start_index,
            length: length,
            encoding: encoding,
        }
    }

    /// The request to place the field `field_id` at `index`, read from
    /// `length` bytes of the packet in the given encoding. The tree moves on
    /// once the host has placed the item: see `item_added`. An offset beyond
    /// what the host can take is cut to 32 bits.
    pub fn add_item(&self, field_id: &str, index: IndexPosition, length: i32, encoding: u32) -> (r:
        ItemRequest)
        requires
            has_field(self@.proto.fields, field_id@),
        ensures
            r == self@.item_request(field_id@, index, length, encoding),
    {
        ItemRequest {
            tree: self.subtree_node,
            field_handle: self.get_field_handle(field_id),
            offset: self.enum_to_index_position(index),
            length: length,
            encoding: encoding,
        }
    }

    /// The request to place an integer field at `index`.
    pub fn add_field(
        &self,
        field_id: &str,
        index: IndexPosition,
        length: i32,
        encoding: FieldEncoding,
    ) -> (r: ItemRequest)
        requires
            has_field(self@.proto.fields, field_id@),
        ensures
            r == self@.item_request(field_id@, index, length, encoding.code()),
    {
        self.add_item(field_id, index, length, encoding.to_u32())
    }

    /// The request to place a string field at `index`.
    pub fn add_field_string(
        &self,
        field_id: &str,
        index: IndexPosition,
        length: i32,
        encoding: StringFieldEncoding,
    ) -> (r: ItemRequest)
        requires
            has_field(self@.proto.fields, field_id@),
        ensures
            r == self@.item_request(field_id@, index, length, encoding.code()),
    {
        self.add_item(field_id, index, length, encoding.to_u32())
    }

    /// Records that the host placed the item that `add_item` asked for, as
    /// `item`, and that it consumed `realized_length` bytes for it. The tree
    /// moves on by that number, which may differ from the length that was
    /// asked for.
    pub fn item_added(&mut self, item: NodeRef, realized_length: i32) -> (r: DissectorItem)
        requires
            fits_i32(old(self)@.cur_index + realized_length),
        ensures
            final(self)@ == old(self)@.advanced(realized_length as int),
            final(self)@.cur_index == old(self)@.cur_index + realized_length,
            r@ == item,
    {
        self.cur_index = self.cur_index + realized_length;
        DissectorItem { item: item }
    }

    /// The request to place an item for the field `field_handle` that shows
    /// the given text. The tree's position does not move.
    pub fn add_field_string_value(
        &mut self,
        field_handle: i32,
        index: IndexPosition,
        length: i32,
        value: &str,
    ) -> (r: ValueRequest)
        ensures
            final(self)@ == old(self)@,
            r.tree == old(self)@.subtree_node,
            r.field_handle == field_handle,
            r.offset == host_offset(old(self)@.resolve(index)),
            r.length == length,
            r.value@ == ComputedValueModel::Text(cstring_bytes(value@)),
    {
        ValueRequest {
            tree: self.subtree_node,
            field_handle: field_handle,
            offset: self.enum_to_index_position(index),
            length: length,
            value: ComputedValue::Text(to_cstring(value)),
        }
    }

    /// The request to place an item for the field `field_handle` that shows
    /// the given number. The tree's position does not move.
    pub fn add_field_uint_value(
        &mut self,
        field_handle: i32,
        index: IndexPosition,
        length: i32,
        value: u32,
    ) -> (r: ValueRequest)
        ensures
            final(self)@ == old(self)@,
            r.tree == old(self)@.subtree_node,
            r.field_handle == field_handle,
            r.offset == host_offset(old(self)@.resolve(index)),
            r.length == length,
            r.value@ == ComputedValueModel::UInt(value),
    {
        ValueRequest {
            tree: self.subtree_node,
            field_handle: field_handle,
            offset: self.enum_to_index_position(index),
            length: length,
            value: ComputedValue::UInt(value),
        }
    }

    /// The request to place an item for the field `field_handle` that shows
    /// the given 64-bit number. The tree's position does not move.
    pub fn add_field_uint64_value(
        &mut self,
        field_handle: i32,
        index: IndexPosition,
        length: i32,
        value: u64,
    ) -> (r: ValueRequest)
        ensures
            final(self)@ == old(self)@,
            r.tree == old(self)@.subtree_node,
            r.field_handle == field_handle,
            r.offset == host_offset(old(self)@.resolve(index)),
            r.length == length,
            r.value@ == ComputedValueModel::UInt64(value),
    {
        ValueRequest {
            tree: self.subtree_node,
            field_handle: field_handle,
            offset: self.enum_to_index_position(index),
            length: length,
            value: ComputedValue::UInt64(value),
        }
    }

    /// The request to open a subtree of `length` bytes at `index`, hung from
    /// a marker item of no width for the field `field_handle`, in the subtree
    /// slot `ett_index`. This tree moves on by `length`, whatever `index` is.
    /// A slot that the protocol did not declare is refused, and the tree
    /// stays where it was.
    pub fn push_subtree(
        &mut self,
        field_handle: i32,
        index: IndexPosition,
        length: i32,
        ett_index: i32,
    ) -> (r: Result<SubtreeRequest, ConfigurationError>)
        requires
            fits_i32(old(self)@.cur_index + length),
        ensures
            0 <= ett_index < old(self)@.proto.ett_handles.len() ==> r == Ok::<
                SubtreeRequest,
                ConfigurationError,
            >(
                old(self)@.subtree_request(
                    field_handle,
                    index,
                    length,
                    old(self)@.proto.ett_handles[ett_index as int],
                    false,
                ),
            ) && final(self)@ == old(self)@.advanced(length as int),
            !(0 <= ett_index < old(self)@.proto.ett_handles.len()) ==> r == Err::<
                SubtreeRequest,
                ConfigurationError,
            >(ConfigurationError::SubtreeIndexOutOfBounds) && final(self)@ == old(self)@,
            0 <= ett_index < old(self)@.proto.ett_handles.len() ==> final(self)@.cur_index == old(
                self,
            )@.cur_index + length,
    {
        let ett_handle = match self.proto.get_ett_handle(ett_index) {
            Ok(handle) => handle,
            Err(e) => {
                return Err(e);
            },
        };
        let request = SubtreeRequest {
            item: ItemRequest {
                tree: self.subtree_node,
                field_handle: field_handle,
                offset: self.enum_to_index_position(index),
                length: 0,
                encoding: ENC_NA,
            },
            tree_length: length,
            ett_handle: ett_handle,
            generated: false,
        };
        self.cur_index = self.cur_index + length;
        Ok(request)
    }

    /// The request to open a subtree that shows derived information: as
    /// `push_subtree`, but the marker item is to be marked as generated, and
    /// this tree does not move, since no bytes of the packet are consumed.
    pub fn push_subtree_generated(
        &mut self,
        field_handle: i32,
        index: IndexPosition,
        length: i32,
        ett_index: i32,
    ) -> (r: Result<SubtreeRequest, ConfigurationError>)
        ensures
            final(self)@ == old(self)@,
            0 <= ett_index < old(self)@.proto.ett_handles.len() ==> r == Ok::<
                SubtreeRequest,
                ConfigurationError,
            >(
                old(self)@.subtree_request(
                    field_handle,
                    index,
                    length,
                    old(self)@.proto.ett_handles[ett_index as int],
                    true,
                ),
            ),
            !(0 <= ett_index < old(self)@.proto.ett_handles.len()) ==> r == Err::<
                SubtreeRequest,
                ConfigurationError,
            >(ConfigurationError::SubtreeIndexOutOfBounds),
    {
        let ett_handle = match self.proto.get_ett_handle(ett_index) {
            Ok(handle) => handle,
            Err(e) => {
                return Err(e);
            },
        };
        Ok(
            SubtreeRequest {
                item: ItemRequest {
                    tree: self.subtree_node,
                    field_handle: field_handle,
                    offset: self.enum_to_index_position(index),
                    length: 0,
                    encoding: ENC_NA,
                },
                tree_length: length,
                ett_handle: ett_handle,
                generated: true,
            },
        )
    }

    /// The text that the host is to show as the one-line summary of the
    /// packet, encoded for the host. The last text set wins.
    pub fn set_info_column(&mut self, info: &str) -> (r: Vec<u8>)
        ensures
            final(self)@ == old(self)@,
            r@ == cstring_bytes(info@),
    {
        to_cstring(info)
    }

    /// The marker item that the tree hangs from.
    pub fn get_top_item(&mut self) -> (r: DissectorItem)
        ensures
            final(self)@ == old(self)@,
            r@ == old(self)@.top_item,
    {
        DissectorItem { item: self.top_item }
    }
}

impl DissectorItem {
    /// The item that the host placed under the name `item`.
    pub fn new(item: NodeRef) -> (r: Self)
        ensures
            r@ == item,
    {
        DissectorItem { item: item }
    }

    /// The name that the host gave the item.
    pub fn node(&self) -> (r: NodeRef)
        ensures
            r == self@,
    {
        self.item
    }

    /// The request to replace the item's text.
    pub fn set_text(&mut self, text: &str) -> (r: ItemUpdate)
        ensures
            final(self)@ == old(self)@,
            r.item == old(self)@,
            r.change@ == ItemChangeModel::SetText(cstring_bytes(text@)),
    {
        ItemUpdate { item: self.item, change: ItemChange::SetText(to_cstring(text)) }
    }

    /// The request to add `text` to the end of the item's text.
    pub fn append_text(&mut self, text: &str) -> (r: ItemUpdate)
        ensures
            final(self)@ == old(self)@,
            r.item == old(self)@,
            r.change@ == ItemChangeModel::AppendText(cstring_bytes(text@)),
    {
        ItemUpdate { item: self.item, change: ItemChange::AppendText(to_cstring(text)) }
    }

    /// The request to add `text` to the front of the item's text.
    pub fn prepend_text(&mut self, text: &str) -> (r: ItemUpdate)
        ensures
            final(self)@ == old(self)@,
            r.item == old(self)@,
            r.change@ == ItemChangeModel::PrependText(cstring_bytes(text@)),
    {
        ItemUpdate { item: self.item, change: ItemChange::PrependText(to_cstring(text)) }
    }

    /// The request to set the number of bytes that the item covers.
    pub fn set_len(&mut self, len: i32) -> (r: ItemUpdate)
        ensures
            final(self)@ == old(self)@,
            r.item == old(self)@,
            r.change@ == ItemChangeModel::SetLength(len),
    {
        ItemUpdate { item: self.item, change: ItemChange::SetLength(len) }
    }

    /// The request to set the offset at which the item ends.
    pub fn set_end(&mut self, end: i32) -> (r: ItemUpdate)
        ensures
            final(self)@ == old(self)@,
            r.item == old(self)@,
            r.change@ == ItemChangeModel::SetEnd(end),
    {
        ItemUpdate { item: self.item, change: ItemChange::SetEnd(end) }
    }

    /// The request to mark the item as generated: derived information that
    /// consumes no bytes of the packet.
    pub fn set_generated(&mut self) -> (r: ItemUpdate)
        ensures
            final(self)@ == old(self)@,
            r.item == old(self)@,
            r.change@ == ItemChangeModel::MarkGenerated,
    {
        ItemUpdate { item: self.item, change: ItemChange::MarkGenerated }
    }

    /// The request to hide the item: it is not shown, but can still be
    /// filtered on.
    pub fn set_hidden(&mut self) -> (r: ItemUpdate)
        ensures
            final(self)@ == old(self)@,
            r.item == old(self)@,
            r.change@ == ItemChangeModel::MarkHidden,
    {
        ItemUpdate { item: self.item, change: ItemChange::MarkHidden }
    }
}

} // verus!
