//! The binary RPC envelope that carries a reset request.
//!
//! The server speaks a schema-defined flat binary format: a root
//! `MessageBundle` table holding three vectors (telemetry feed, RPC
//! headers, publish/subscribe), of which this client only ever fills the
//! RPC vector, with exactly one header whose tagged payload is a reset
//! request.  Tables point backwards at a vtable (`u16` vtable length,
//! `u16` table length, then one `u16` field offset per slot, zero
//! meaning absent); vectors are a `u32` element count followed by the
//! elements; offsets between parts are little-endian `u32` values
//! relative to their own position.  A field equal to its schema default
//! is omitted, which is why the yaw request — whose wire code is the
//! schema default — is shorter than the full one.
//!
//! [`encode_reset`] pins the whole buffer byte for byte;
//! [`parse_bundle`] reads such a buffer back along the format's rules,
//! and [`lemma_encoding_decodes`] proves that decoding the encoder's
//! output yields exactly one reset-request header of the encoded kind.

use vstd::prelude::*;
use crate::kind::{kind_code, ResetKind};

verus! {

/// Slot of `MessageBundle.data_feed_msgs` in its vtable.
pub const BUNDLE_SLOT_DATA_FEED: u16 = 4;

/// Slot of `MessageBundle.rpc_msgs` in its vtable.
pub const BUNDLE_SLOT_RPC: u16 = 6;

/// Slot of `MessageBundle.pub_sub_msgs` in its vtable.
pub const BUNDLE_SLOT_PUB_SUB: u16 = 8;

/// Slot of `RpcMessageHeader.tx_id` in its vtable.
pub const HEADER_SLOT_TX_ID: u16 = 4;

/// Slot of the header's message-type tag in its vtable.
pub const HEADER_SLOT_TAG: u16 = 6;

/// Slot of the header's tagged payload in its vtable.
pub const HEADER_SLOT_PAYLOAD: u16 = 8;

/// Slot of `ResetRequest.reset_type` in its vtable.
pub const RESET_SLOT_TYPE: u16 = 4;

/// The union tag that marks a header's payload as a reset request.
pub const TAG_RESET_REQUEST: u8 = 3;

/// Bytes 0 to 27 of every encoded buffer: the root offset, the bundle's
/// vtable (only the RPC vector present), the bundle table, and the
/// one-element RPC vector.
pub open spec fn bundle_part() -> Seq<u8> {
    seq![
        // root: the bundle table lives at byte 12
        0x0c, 0x00, 0x00, 0x00,
        // bundle vtable: 8 bytes of vtable, 8 bytes of table,
        // data-feed slot absent, RPC slot 4 bytes into the table
        0x08, 0x00, 0x08, 0x00, 0x00, 0x00, 0x04, 0x00,
        // bundle table: vtable 8 bytes back
        0x08, 0x00, 0x00, 0x00,
        // RPC field: the vector lives 4 bytes ahead
        0x04, 0x00, 0x00, 0x00,
        // vector: one element
        0x01, 0x00, 0x00, 0x00,
        // element: the header table lives 16 bytes ahead
        0x10, 0x00, 0x00, 0x00,
    ]
}

/// Bytes 28 to 51: alignment padding, the header's vtable (transaction
/// id absent, tag and payload present), the header table with the
/// reset-request tag, and the payload offset.  The header's table
/// length and the payload offset depend on the kind, because the yaw
/// request's payload table is shorter.
pub open spec fn header_part(k: ResetKind) -> Seq<u8> {
    seq![
        // padding to a 4-byte boundary
        0x00, 0x00,
        // header vtable: 10 bytes of vtable, then the table length,
        // tx_id absent, tag 7 bytes and payload 8 bytes into the table
        0x0a, 0x00, if k is Full { 0x0e } else { 0x0c }, 0x00,
        0x00, 0x00, 0x07, 0x00, 0x08, 0x00,
        // header table: vtable 10 bytes back
        0x0a, 0x00, 0x00, 0x00,
        // padding, then the message-type tag
        0x00, 0x00, 0x00, TAG_RESET_REQUEST,
        // payload: the reset-request table lives ahead
        if k is Full { 0x0c } else { 0x08 }, 0x00, 0x00, 0x00,
    ]
}

/// The trailing reset-request table.  For a full reset the wire code is
/// not the schema default, so the table carries one byte of payload
/// (plus padding); for a yaw reset the field is omitted and the table
/// is bare.
pub open spec fn reset_part(k: ResetKind) -> Seq<u8> {
    if k is Full {
        seq![
            // padding
            0x00, 0x00,
            // reset vtable: 6 bytes of vtable, 8 bytes of table,
            // reset_type 7 bytes into the table
            0x06, 0x00, 0x08, 0x00, 0x07, 0x00,
            // reset table: vtable 6 bytes back
            0x06, 0x00, 0x00, 0x00,
            // padding, then the wire code of the full reset
            0x00, 0x00, 0x00, 0x01,
        ]
    } else {
        seq![
            // reset vtable: 4 bytes of vtable, 4 bytes of table,
            // no field stored
            0x04, 0x00, 0x04, 0x00,
            // reset table: vtable 4 bytes back
            0x04, 0x00, 0x00, 0x00,
        ]
    }
}

/// The whole envelope for a reset of kind `k`, byte for byte.
pub open spec fn wire_bytes(k: ResetKind) -> Seq<u8> {
    bundle_part() + header_part(k) + reset_part(k)
}

fn push_bundle_part(v: &mut Vec<u8>)
    ensures
        final(v)@ == old(v)@ + bundle_part(),
{
    v.push(0x0c); v.push(0x00); v.push(0x00); v.push(0x00);
    v.push(0x08); v.push(0x00); v.push(0x08); v.push(0x00);
    v.push(0x00); v.push(0x00); v.push(0x04); v.push(0x00);
    v.push(0x08); v.push(0x00); v.push(0x00); v.push(0x00);
    v.push(0x04); v.push(0x00); v.push(0x00); v.push(0x00);
    v.push(0x01); v.push(0x00); v.push(0x00); v.push(0x00);
    v.push(0x10); v.push(0x00); v.push(0x00); v.push(0x00);
    proof {
        assert(v@ =~= old(v)@ + bundle_part());
    }
}

fn push_header_part(v: &mut Vec<u8>, k: ResetKind)
    ensures
        final(v)@ == old(v)@ + header_part(k),
{
    v.push(0x00); v.push(0x00);
    v.push(0x0a); v.push(0x00);
    v.push(if matches!(k, ResetKind::Full) { 0x0e } else { 0x0c });
    v.push(0x00);
    v.push(0x00); v.push(0x00); v.push(0x07); v.push(0x00);
    v.push(0x08); v.push(0x00);
    v.push(0x0a); v.push(0x00); v.push(0x00); v.push(0x00);
    v.push(0x00); v.push(0x00); v.push(0x00); v.push(TAG_RESET_REQUEST);
    v.push(if matches!(k, ResetKind::Full) { 0x0c } else { 0x08 });
    v.push(0x00); v.push(0x00); v.push(0x00);
    proof {
        assert(v@ =~= old(v)@ + header_part(k));
    }
}

fn push_reset_part(v: &mut Vec<u8>, k: ResetKind)
    ensures
        final(v)@ == old(v)@ + reset_part(k),
{
    match k {
        ResetKind::Full => {
            v.push(0x00); v.push(0x00);
            v.push(0x06); v.push(0x00); v.push(0x08); v.push(0x00);
            v.push(0x07); v.push(0x00);
            v.push(0x06); v.push(0x00); v.push(0x00); v.push(0x00);
            v.push(0x00); v.push(0x00); v.push(0x00); v.push(0x01);
        },
        ResetKind::Yaw => {
            v.push(0x04); v.push(0x00); v.push(0x04); v.push(0x00);
            v.push(0x04); v.push(0x00); v.push(0x00); v.push(0x00);
        },
    }
    proof {
        assert(v@ =~= old(v)@ + reset_part(k));
    }
}

/// Serializes the envelope that asks the server for a reset of kind
/// `k`.  The result is pinned byte for byte, so the encoding is a pure,
/// deterministic function of the kind; construction cannot fail.
pub fn encode_reset(k: ResetKind) -> (r: Vec<u8>)
    ensures
        r@ == wire_bytes(k),
{
    let mut v: Vec<u8> = Vec::new();
    push_bundle_part(&mut v);
    push_header_part(&mut v, k);
    push_reset_part(&mut v, k);
    proof {
        assert(v@ =~= wire_bytes(k));
    }
    v
}

/// Two encodings of the same kind are byte-identical: the buffer is a
/// function of the kind alone.
pub proof fn lemma_encoding_deterministic(k: ResetKind, a: Seq<u8>, b: Seq<u8>)
    requires
        a == wire_bytes(k),
        b == wire_bytes(k),
    ensures
        a == b,
{
}

/// The little-endian 16-bit value at `i`.
pub open spec fn rd16(s: Seq<u8>, i: int) -> int
    recommends
        0 <= i,
        i + 2 <= s.len(),
{
    s[i] + 0x100 * s[i + 1]
}

/// The little-endian 32-bit value at `i`.
pub open spec fn rd32(s: Seq<u8>, i: int) -> int
    recommends
        0 <= i,
        i + 4 <= s.len(),
{
    s[i] + 0x100 * s[i + 1] + 0x10000 * s[i + 2] + 0x1000000 * s[i + 3]
}

/// The signed (two's complement) 32-bit value at `i`; tables store the
/// backward distance to their vtable this way.
pub open spec fn rds32(s: Seq<u8>, i: int) -> int
    recommends
        0 <= i,
        i + 4 <= s.len(),
{
    if rd32(s, i) >= 0x8000_0000 {
        rd32(s, i) - 0x1_0000_0000
    } else {
        rd32(s, i)
    }
}

/// The position of field `slot` of the table at `t`, resolved through
/// the table's vtable; `None` when the field is absent (a zero or
/// missing vtable entry) or the buffer too short to resolve it.
pub open spec fn field_pos(s: Seq<u8>, t: int, slot: int) -> Option<int> {
    if !(0 <= t && t + 4 <= s.len()) {
        Option::None
    } else {
        let vt = t - rds32(s, t);
        if !(0 <= vt && vt + 4 <= s.len() && vt + rd16(s, vt) <= s.len()) {
            Option::None
        } else if slot + 2 > rd16(s, vt) {
            Option::None
        } else if rd16(s, vt + slot) == 0 {
            Option::None
        } else {
            Option::Some(t + rd16(s, vt + slot))
        }
    }
}

/// The byte stored in field `slot` of the table at `t`, or the schema
/// default when the field is omitted; `None` when the buffer is too
/// short.
pub open spec fn byte_field(s: Seq<u8>, t: int, slot: int, default: int) -> Option<int> {
    match field_pos(s, t, slot) {
        Option::None => Option::Some(default),
        Option::Some(p) => if p + 1 <= s.len() {
            Option::Some(s[p] as int)
        } else {
            Option::None
        },
    }
}

/// The element count of the vector that the offset at `fp` points at.
pub open spec fn vector_count(s: Seq<u8>, fp: int) -> Option<int> {
    if !(0 <= fp && fp + 4 <= s.len()) {
        Option::None
    } else {
        let v = fp + rd32(s, fp);
        if v + 4 <= s.len() {
            Option::Some(rd32(s, v))
        } else {
            Option::None
        }
    }
}

/// What one RPC header of a bundle says, read back from the wire.
pub struct HeaderFields {
    /// Whether the header carries a transaction id.
    pub has_tx_id: bool,
    /// The union tag of the payload.
    pub message_type: int,
    /// The wire code of the requested reset, when the payload is a
    /// reset request (the schema default when the field is omitted);
    /// `None` for any other payload.
    pub reset_type: Option<int>,
}

/// The header table of element `i` of the RPC vector whose offset field
/// sits at `fp`, parsed; `None` when the buffer is too short.
pub open spec fn parse_rpc_elem(s: Seq<u8>, fp: int, i: int) -> Option<HeaderFields> {
    let base = fp + rd32(s, fp) + 4;
    let e = base + 4 * i;
    if !(0 <= e && e + 4 <= s.len()) {
        Option::None
    } else {
        parse_header(s, e + rd32(s, e))
    }
}

/// One RPC header, parsed from the table at `t`.
pub open spec fn parse_header(s: Seq<u8>, t: int) -> Option<HeaderFields> {
    match byte_field(s, t, HEADER_SLOT_TAG as int, 0) {
        Option::None => Option::None,
        Option::Some(tag) => {
            let has_tx_id = field_pos(s, t, HEADER_SLOT_TX_ID as int) is Some;
            if tag == TAG_RESET_REQUEST {
                match field_pos(s, t, HEADER_SLOT_PAYLOAD as int) {
                    Option::None => Option::None,
                    Option::Some(p) => {
                        if !(p + 4 <= s.len()) {
                            Option::None
                        } else {
                            match byte_field(s, p + rd32(s, p), RESET_SLOT_TYPE as int, 0) {
                                Option::None => Option::None,
                                Option::Some(code) => Option::Some(HeaderFields {
                                    has_tx_id,
                                    message_type: tag,
                                    reset_type: Option::Some(code),
                                }),
                            }
                        }
                    },
                }
            } else {
                Option::Some(HeaderFields { has_tx_id, message_type: tag, reset_type: Option::None })
            }
        },
    }
}

/// What a whole bundle says, read back from the wire.
#[verifier::ext_equal]
pub struct BundleFields {
    /// The RPC headers, in wire order.
    pub rpc: Seq<HeaderFields>,
    /// How many telemetry-feed messages the bundle carries.
    pub data_feed_count: int,
    /// How many publish/subscribe messages the bundle carries.
    pub pub_sub_count: int,
}

/// The element count of the vector in field `slot` of the root table,
/// an absent field meaning an empty vector.
pub open spec fn aux_count(s: Seq<u8>, root: int, slot: int) -> Option<int> {
    match field_pos(s, root, slot) {
        Option::None => Option::Some(0),
        Option::Some(fp) => vector_count(s, fp),
    }
}

/// Reads a bundle back from the wire, along the format's rules: the
/// root offset leads to the bundle table, whose vtable resolves the
/// three vectors; each RPC element leads to a header table, whose tag
/// decides how the payload is read.  `None` when the buffer cannot be
/// resolved that far.
pub open spec fn parse_bundle(s: Seq<u8>) -> Option<BundleFields> {
    if s.len() < 4 {
        Option::None
    } else {
        let root = rd32(s, 0);
        match (
            aux_count(s, root, BUNDLE_SLOT_DATA_FEED as int),
            aux_count(s, root, BUNDLE_SLOT_PUB_SUB as int),
        ) {
            (Option::Some(df), Option::Some(ps)) => {
                match field_pos(s, root, BUNDLE_SLOT_RPC as int) {
                    Option::None => Option::Some(
                        BundleFields { rpc: Seq::empty(), data_feed_count: df, pub_sub_count: ps },
                    ),
                    Option::Some(fp) => {
                        match vector_count(s, fp) {
                            Option::None => Option::None,
                            Option::Some(n) => {
                                if n >= 0 && (forall|i: int|
                                    0 <= i < n ==> parse_rpc_elem(s, fp, i) is Some) {
                                    Option::Some(BundleFields {
                                        rpc: Seq::new(n as nat, |i: int| parse_rpc_elem(s, fp, i).unwrap()),
                                        data_feed_count: df,
                                        pub_sub_count: ps,
                                    })
                                } else {
                                    Option::None
                                }
                            },
                        }
                    },
                }
            },
            _ => Option::None,
        }
    }
}

/// What the encoder's output must read back as: exactly one RPC header,
/// no transaction id, tagged as a reset request whose wire code is the
/// encoded kind's, and empty telemetry and publish/subscribe lists.
pub open spec fn single_reset_bundle(k: ResetKind) -> BundleFields {
    BundleFields {
        rpc: seq![
            HeaderFields {
                has_tx_id: false,
                message_type: TAG_RESET_REQUEST as int,
                reset_type: Option::Some(kind_code(k) as int),
            },
        ],
        data_feed_count: 0,
        pub_sub_count: 0,
    }
}

#[verifier::rlimit(100)]
proof fn lemma_decode_one(k: ResetKind)
    ensures
        parse_bundle(wire_bytes(k)) == Option::Some(single_reset_bundle(k)),
{
    let s = wire_bytes(k);
    assert(s.len() == if k is Full { 68int } else { 60int });
    assert(rd32(s, 0) == 12);
    assert(rds32(s, 12) == 8);
    assert(rd16(s, 4) == 8);
    assert(field_pos(s, 12, BUNDLE_SLOT_DATA_FEED as int) is None);
    assert(field_pos(s, 12, BUNDLE_SLOT_PUB_SUB as int) is None);
    assert(field_pos(s, 12, BUNDLE_SLOT_RPC as int) == Option::Some(16int));
    assert(rd32(s, 16) == 4);
    assert(rd32(s, 20) == 1);
    assert(vector_count(s, 16) == Option::Some(1int));
    assert(rd32(s, 24) == 16);
    assert(rds32(s, 40) == 10);
    assert(rd16(s, 30) == 10);
    assert(rd16(s, 34) == 0);
    assert(rd16(s, 36) == 7);
    assert(rd16(s, 38) == 8);
    assert(field_pos(s, 40, HEADER_SLOT_TX_ID as int) is None);
    assert(field_pos(s, 40, HEADER_SLOT_TAG as int) == Option::Some(47int));
    assert(s[47] == TAG_RESET_REQUEST);
    assert(field_pos(s, 40, HEADER_SLOT_PAYLOAD as int) == Option::Some(48int));
    if k is Full {
        assert(rd32(s, 48) == 12);
        assert(rds32(s, 60) == 6);
        assert(rd16(s, 54) == 6);
        assert(rd16(s, 58) == 7);
        assert(field_pos(s, 60, RESET_SLOT_TYPE as int) == Option::Some(67int));
        assert(s[67] == 1);
        assert(byte_field(s, 60, RESET_SLOT_TYPE as int, 0) == Option::Some(1int));
    } else {
        assert(rd32(s, 48) == 8);
        assert(rds32(s, 56) == 4);
        assert(rd16(s, 52) == 4);
        assert(field_pos(s, 56, RESET_SLOT_TYPE as int) is None);
        assert(byte_field(s, 56, RESET_SLOT_TYPE as int, 0) == Option::Some(0int));
    }
    let hf = HeaderFields {
        has_tx_id: false,
        message_type: TAG_RESET_REQUEST as int,
        reset_type: Option::Some(kind_code(k) as int),
    };
    assert(parse_header(s, 40) == Option::Some(hf));
    assert(parse_rpc_elem(s, 16, 0) == Option::Some(hf));
    assert(forall|i: int| 0 <= i < 1 ==> parse_rpc_elem(s, 16, i) is Some);
    let b = parse_bundle(s).unwrap();
    assert(b.rpc =~= seq![hf]);
    assert(parse_bundle(s) == Option::Some(single_reset_bundle(k)));
}

/// The reading of the encoder's output: decoding `wire_bytes(k)` along
/// the format's rules yields a bundle with exactly one RPC header, no
/// transaction id, a reset-request tag, the encoded kind's wire code,
/// and empty telemetry and publish/subscribe lists.
pub proof fn lemma_encoding_decodes(k: ResetKind)
    ensures
        parse_bundle(wire_bytes(k)) == Option::Some(single_reset_bundle(k)),
{
    lemma_decode_one(k);
}

} // verus!
