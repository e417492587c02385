use slimevr_reset::kind::ResetKind;
use slimevr_reset::wire::encode_reset;

/// Builds the same envelope with the flatbuffers crate's own builder,
/// mirroring the calls the schema's generated code makes: a
/// `ResetRequest` table (one byte field in slot 4, default 0), an
/// `RpcMessageHeader` table (payload offset in slot 8, union tag 3 in
/// slot 6, no transaction id), a one-element vector of headers, and a
/// `MessageBundle` root with only the RPC vector (slot 6) present.
fn flatbuffers_encode(code: u8) -> Vec<u8> {
    let mut b = flatbuffers::FlatBufferBuilder::new();
    let start = b.start_table();
    b.push_slot::<u8>(4, code, 0);
    let rr = b.end_table(start);
    let start = b.start_table();
    b.push_slot_always(8, rr);
    b.push_slot::<u8>(6, 3, 0);
    let hdr = b.end_table(start);
    let v = b.create_vector(&[hdr]);
    let start = b.start_table();
    b.push_slot_always(6, v);
    let mb = b.end_table(start);
    b.finish(mb, None);
    b.finished_data().to_vec()
}

#[test]
fn full_reset_matches_flatbuffers_builder() {
    assert_eq!(encode_reset(ResetKind::Full), flatbuffers_encode(1));
}

#[test]
fn yaw_reset_matches_flatbuffers_builder() {
    assert_eq!(encode_reset(ResetKind::Yaw), flatbuffers_encode(0));
}

#[test]
fn encoding_is_deterministic() {
    assert_eq!(encode_reset(ResetKind::Full), encode_reset(ResetKind::Full));
    assert_eq!(encode_reset(ResetKind::Yaw), encode_reset(ResetKind::Yaw));
}

#[test]
fn kinds_encode_differently() {
    assert_ne!(encode_reset(ResetKind::Full), encode_reset(ResetKind::Yaw));
}

#[test]
fn buffer_shapes() {
    let full = encode_reset(ResetKind::Full);
    let yaw = encode_reset(ResetKind::Yaw);
    assert_eq!(full.len(), 68);
    assert_eq!(yaw.len(), 60);
    // Both roots point at the bundle table at byte 12.
    assert_eq!(&full[0..4], &[0x0c, 0x00, 0x00, 0x00]);
    assert_eq!(&yaw[0..4], &[0x0c, 0x00, 0x00, 0x00]);
    // The message-type tag of the single header is the reset request.
    assert_eq!(full[47], 3);
    assert_eq!(yaw[47], 3);
    // The full reset carries its wire code; the yaw one omits the
    // field, its code being the schema default.
    assert_eq!(full[67], 1);
}

fn rd16(b: &[u8], i: usize) -> usize {
    b[i] as usize | (b[i + 1] as usize) << 8
}

fn rd32(b: &[u8], i: usize) -> usize {
    b[i] as usize
        | (b[i + 1] as usize) << 8
        | (b[i + 2] as usize) << 16
        | (b[i + 3] as usize) << 24
}

/// Resolves field `slot` of the table at `t` through the table's
/// vtable, as a reader of the format would.
fn field_pos(b: &[u8], t: usize, slot: usize) -> Option<usize> {
    let vt = t - rd32(b, t);
    let vt_len = rd16(b, vt);
    if slot + 2 > vt_len {
        return None;
    }
    let off = rd16(b, vt + slot);
    if off == 0 {
        None
    } else {
        Some(t + off)
    }
}

#[test]
fn decoded_bundle_is_single_reset_request() {
    for (kind, code) in [(ResetKind::Full, 1u8), (ResetKind::Yaw, 0u8)] {
        let b = encode_reset(kind);
        let root = rd32(&b, 0);
        // Telemetry-feed and pub/sub vectors are absent.
        assert!(field_pos(&b, root, 4).is_none());
        assert!(field_pos(&b, root, 8).is_none());
        // Exactly one RPC header.
        let rpc = field_pos(&b, root, 6).unwrap();
        let vec_pos = rpc + rd32(&b, rpc);
        assert_eq!(rd32(&b, vec_pos), 1);
        let elem = vec_pos + 4;
        let hdr = elem + rd32(&b, elem);
        // No transaction id, a reset-request tag, and the kind's code
        // (the schema default when the field is omitted).
        assert!(field_pos(&b, hdr, 4).is_none());
        let tag = field_pos(&b, hdr, 6).unwrap();
        assert_eq!(b[tag], 3);
        let payload = field_pos(&b, hdr, 8).unwrap();
        let rr = payload + rd32(&b, payload);
        let got = field_pos(&b, rr, 4).map(|p| b[p]).unwrap_or(0);
        assert_eq!(got, code);
    }
}

#[test]
fn reset_code_values() {
    assert_eq!(slimevr_reset::kind::reset_code(ResetKind::Full), 1);
    assert_eq!(slimevr_reset::kind::reset_code(ResetKind::Yaw), 0);
}
