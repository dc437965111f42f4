use swupdate_ipc::wire::{
    cstr_from_bytes, ipc_message_from_bytes, ipc_message_to_bytes, write_cstr, MsgType,
    ProgressLayout, RawAesKeyData, RawDwlUrlData, RawInstMsgData, RawIpcMessage, RawMsgData,
    RawNotifyData, RawProcMsgData, RawProgressAck, RawProgressMsg, RawProgressMsgUnpacked,
    RawRevisionsData, RawStatusData, RawVarsData, RawVersionsData, RecoveryStatus, WireLayout,
    IPC_MAGIC, IPC_MESSAGE_SIZE, MSGDATA_SIZE, PROGRESS_ACK_SIZE, PROGRESS_API_VERSION,
    PROGRESS_CONNECT_ACK_MAGIC, PROGRESS_MSG_SIZE_PACKED, PROGRESS_MSG_SIZE_UNPACKED,
    SWUPDATE_API_VERSION, SWUPDATE_REQUEST_SIZE,
};

#[test]
fn progress_msg_packed_size() {
    assert_eq!(RawProgressMsg::new_zeroed().to_bytes().len(), PROGRESS_MSG_SIZE_PACKED);
    assert_eq!(<RawProgressMsg as WireLayout>::size(), PROGRESS_MSG_SIZE_PACKED);
}

#[test]
fn progress_msg_unpacked_size() {
    assert_eq!(
        RawProgressMsgUnpacked::new_zeroed().to_bytes().len(),
        PROGRESS_MSG_SIZE_UNPACKED
    );
    assert_eq!(<RawProgressMsgUnpacked as WireLayout>::size(), PROGRESS_MSG_SIZE_UNPACKED);
}

#[test]
fn progress_ack_size() {
    let ack = RawProgressAck { apiversion: 0, magic: [0; 4] };
    assert_eq!(ack.to_bytes().len(), 8);
    assert_eq!(PROGRESS_ACK_SIZE, 8);
}

#[test]
fn ipc_message_union_largest_is_instmsg() {
    // instmsg should be the largest variant
    assert!(RawInstMsgData::size() >= RawStatusData::size());
    assert!(RawInstMsgData::size() >= RawNotifyData::size());
    assert!(RawInstMsgData::size() >= RawProcMsgData::size());
    assert!(RawInstMsgData::size() >= RawAesKeyData::size());
    assert!(RawInstMsgData::size() >= RawVersionsData::size());
    assert!(RawInstMsgData::size() >= RawRevisionsData::size());
    assert!(RawInstMsgData::size() >= RawVarsData::size());
    assert!(RawInstMsgData::size() >= RawDwlUrlData::size());
}

#[test]
fn msgdata_size_matches_largest_variant() {
    // The union size should equal the largest variant's size (with alignment)
    assert_eq!(RawMsgData::zeroed().bytes.len(), RawInstMsgData::size());
    assert_eq!(MSGDATA_SIZE, RawInstMsgData::size());
}

#[test]
fn ipc_message_magic() {
    let msg = RawIpcMessage::new(MsgType::GetStatus);
    assert!(msg.is_valid());
    assert_eq!(msg.msg_type(), Some(MsgType::GetStatus));
}

#[test]
fn cstr_roundtrip() {
    let mut buf = [0u8; 256];
    write_cstr(&mut buf, "hello world");
    assert_eq!(cstr_from_bytes(&buf), "hello world");
}

#[test]
fn cstr_truncation() {
    let mut buf = [0u8; 5];
    write_cstr(&mut buf, "hello world");
    assert_eq!(cstr_from_bytes(&buf), "hell"); // 4 chars + null
}

#[test]
fn ipc_message_roundtrip() {
    let mut msg = RawIpcMessage::new(MsgType::ReqInstall);
    let mut inst = msg.data.instmsg();
    inst.req.apiversion = SWUPDATE_API_VERSION;
    inst.req.source = 4 /* SOURCE_LOCAL */;
    write_cstr(&mut inst.req.info, "test firmware");
    msg.data.set_instmsg(&inst);

    let bytes = ipc_message_to_bytes(&msg);
    let msg2 = ipc_message_from_bytes(&bytes).unwrap();

    assert!(msg2.is_valid());
    assert_eq!(msg2.msg_type(), Some(MsgType::ReqInstall));
    let inst2 = msg2.data.instmsg();
    assert_eq!(inst2.req.apiversion, SWUPDATE_API_VERSION);
    assert_eq!(inst2.req.source, 4 /* SOURCE_LOCAL */);
    assert_eq!(cstr_from_bytes(&inst2.req.info), "test firmware");
}

/// Writes `v` little-endian at `off`.
fn put_le(buf: &mut [u8], off: usize, v: &[u8]) {
    buf[off..off + v.len()].copy_from_slice(v);
}

/// The bytes a C program would write for the sample progress message, in
/// the packed (`unpacked == false`) or unpacked layout.
fn c_progress_bytes(unpacked: bool) -> Vec<u8> {
    let size = if unpacked { PROGRESS_MSG_SIZE_UNPACKED } else { PROGRESS_MSG_SIZE_PACKED };
    let pad = if unpacked { 4 } else { 0 };
    let mut b = vec![0u8; size];
    put_le(&mut b, 0, &0x00020000u32.to_le_bytes());
    put_le(&mut b, 4, &3u32.to_le_bytes());
    put_le(&mut b, 8, &100u32.to_le_bytes());
    put_le(&mut b, 12 + pad, &1048576u64.to_le_bytes());
    put_le(&mut b, 20 + pad, &2u32.to_le_bytes());
    put_le(&mut b, 24 + pad, &2u32.to_le_bytes());
    put_le(&mut b, 28 + pad, &100u32.to_le_bytes());
    put_le(&mut b, 32 + pad, b"rootfs.img");
    put_le(&mut b, 288 + pad, b"raw");
    put_le(&mut b, 352 + pad, &4u32.to_le_bytes());
    put_le(&mut b, 356 + pad, &4u32.to_le_bytes());
    put_le(&mut b, 360 + pad, b"done");
    b
}

#[test]
fn progress_msg_packed_roundtrip_with_c() {
    let c_bytes = c_progress_bytes(false);
    assert_eq!(c_bytes.len(), PROGRESS_MSG_SIZE_PACKED);

    let msg = RawProgressMsg::from_bytes(&c_bytes)
        .expect("failed to deserialize packed progress_msg from C bytes");

    assert_eq!(msg.apiversion, 0x00020000);
    assert_eq!(msg.status, 3); // SUCCESS
    assert_eq!(msg.dwl_percent, 100);
    assert_eq!(msg.dwl_bytes, 1048576);
    assert_eq!(msg.nsteps, 2);
    assert_eq!(msg.cur_step, 2);
    assert_eq!(msg.cur_percent, 100);
    assert_eq!(cstr_from_bytes(&msg.cur_image), "rootfs.img");
    assert_eq!(cstr_from_bytes(&msg.hnd_name), "raw");
    assert_eq!(msg.source, 4); // SOURCE_LOCAL
    assert_eq!(msg.infolen, 4);
    assert_eq!(cstr_from_bytes(&msg.info[..4]), "done");

    assert_eq!(msg.to_bytes(), c_bytes);
}

#[test]
fn progress_msg_unpacked_roundtrip_with_c() {
    let c_bytes = c_progress_bytes(true);
    assert_eq!(c_bytes.len(), PROGRESS_MSG_SIZE_UNPACKED);

    let msg = RawProgressMsgUnpacked::from_bytes(&c_bytes)
        .expect("failed to deserialize unpacked progress_msg from C bytes");

    assert_eq!(msg.apiversion, 0x00020000);
    assert_eq!(msg.status, 3); // SUCCESS
    assert_eq!(msg.dwl_percent, 100);
    assert_eq!(msg.dwl_bytes, 1048576);
    assert_eq!(msg.nsteps, 2);
    assert_eq!(msg.cur_step, 2);
    assert_eq!(msg.cur_percent, 100);
    assert_eq!(cstr_from_bytes(&msg.cur_image), "rootfs.img");
    assert_eq!(cstr_from_bytes(&msg.hnd_name), "raw");
    assert_eq!(msg.source, 4); // SOURCE_LOCAL
    assert_eq!(msg.infolen, 4);
    assert_eq!(cstr_from_bytes(&msg.info[..4]), "done");

    assert_eq!(msg.to_bytes(), c_bytes);
}

#[test]
fn ipc_message_roundtrip_with_c() {
    // ipc_message as C lays it out: magic, type, then msgdata at offset 8,
    // holding instmsg.req { apiversion, source, dry_run, .., info at 24 }.
    let mut c_bytes = vec![0u8; IPC_MESSAGE_SIZE];
    put_le(&mut c_bytes, 0, &0x14052001i32.to_le_bytes());
    put_le(&mut c_bytes, 4, &0i32.to_le_bytes());
    put_le(&mut c_bytes, 8, &1u32.to_le_bytes());
    put_le(&mut c_bytes, 12, &4i32.to_le_bytes());
    put_le(&mut c_bytes, 16, &0i32.to_le_bytes());
    put_le(&mut c_bytes, 8 + 24, b"test firmware");

    let msg = ipc_message_from_bytes(&c_bytes)
        .expect("failed to deserialize ipc_message from C bytes");

    assert_eq!(msg.magic, 0x14052001);
    assert_eq!(msg.msg_type, 0); // REQ_INSTALL

    let inst = msg.data.instmsg();
    assert_eq!(inst.req.apiversion, 0x1);
    assert_eq!(inst.req.source, 4); // SOURCE_LOCAL
    assert_eq!(inst.req.dry_run, 0); // RUN_DEFAULT
    assert_eq!(cstr_from_bytes(&inst.req.info), "test firmware");

    let rust_bytes = ipc_message_to_bytes(&msg);
    assert_eq!(rust_bytes, c_bytes);
}

// ---------------------------------------------------------------------------
// Further checks of the encodings
// ---------------------------------------------------------------------------

#[test]
fn ipc_message_from_bytes_rejects_wrong_length() {
    assert!(ipc_message_from_bytes(&vec![0u8; IPC_MESSAGE_SIZE - 1]).is_none());
    assert!(ipc_message_from_bytes(&vec![0u8; IPC_MESSAGE_SIZE + 1]).is_none());
    assert!(ipc_message_from_bytes(&[]).is_none());
    assert!(ipc_message_from_bytes(&vec![0u8; IPC_MESSAGE_SIZE]).is_some());
}

#[test]
fn ipc_message_header_is_little_endian() {
    let msg = RawIpcMessage::new(MsgType::SetDeltaUrl);
    let bytes = ipc_message_to_bytes(&msg);
    assert_eq!(&bytes[0..4], &[0x01, 0x20, 0x05, 0x14]);
    assert_eq!(&bytes[4..8], &[15, 0, 0, 0]);
    assert!(bytes[8..].iter().all(|&b| b == 0));
    assert_eq!(msg.magic, IPC_MAGIC);
}

#[test]
fn bytes_roundtrip_of_arbitrary_message() {
    let buf: Vec<u8> = (0..IPC_MESSAGE_SIZE).map(|i| (i * 7 % 251) as u8).collect();
    let msg = ipc_message_from_bytes(&buf).unwrap();
    assert_eq!(ipc_message_to_bytes(&msg), buf);
    assert_eq!(msg.msg_type, i32::from_le_bytes([buf[4], buf[5], buf[6], buf[7]]));
    assert!(!msg.is_valid());
}

#[test]
fn msg_type_codes() {
    for v in 0..16 {
        let t = MsgType::from_i32(v).unwrap();
        assert_eq!(t.to_i32(), v);
    }
    assert_eq!(MsgType::from_i32(-1), None);
    assert_eq!(MsgType::from_i32(16), None);
    assert_eq!(MsgType::from_i32(1), Some(MsgType::Ack));
    assert_eq!(MsgType::from_i32(15), Some(MsgType::SetDeltaUrl));
}

#[test]
fn recovery_status_codes() {
    for v in 0..9 {
        assert_eq!(RecoveryStatus::from_u32(v).unwrap().to_u32(), v);
    }
    assert_eq!(RecoveryStatus::from_u32(9), None);
    assert_eq!(RecoveryStatus::from_u32(3), Some(RecoveryStatus::Success));
}

#[test]
fn layout_sizes() {
    assert_eq!(ProgressLayout::Packed.msg_size(), 2408);
    assert_eq!(ProgressLayout::Unpacked.msg_size(), 2416);
    assert_eq!(SWUPDATE_REQUEST_SIZE, 1056);
    assert_eq!(IPC_MESSAGE_SIZE, 3120);
}

#[test]
fn progress_api_version_value() {
    assert_eq!(PROGRESS_API_VERSION, 0x0002_0000);
    assert_eq!(&PROGRESS_CONNECT_ACK_MAGIC, b"ACK\0");
}

#[test]
fn union_variant_write_read() {
    let mut data = RawMsgData::zeroed();
    let mut vars = RawVarsData { varnamespace: [0; 256], varname: [0; 256], varvalue: [0; 256] };
    write_cstr(&mut vars.varname, "ustate");
    data.set_vars(&vars);
    let back = data.vars();
    assert_eq!(cstr_from_bytes(&back.varname), "ustate");
    assert_eq!(back.varnamespace, [0u8; 256]);

    // A smaller variant leaves the rest of the union alone.
    let before = data.bytes;
    let aes = RawAesKeyData { key_ascii: [b'a'; 65], ivt_ascii: [b'b'; 33] };
    data.set_aeskeymsg(&aes);
    assert_eq!(&data.bytes[98..], &before[98..]);
    assert_eq!(data.aeskeymsg().key_ascii, [b'a'; 65]);
    assert_eq!(data.aeskeymsg().ivt_ascii, [b'b'; 33]);
}

#[test]
fn union_status_layout() {
    let mut data = RawMsgData::zeroed();
    let st = RawStatusData { current: 2, last_result: -1, error: 7, desc: [b'x'; 2048] };
    data.set_status(&st);
    assert_eq!(&data.bytes[0..4], &[2, 0, 0, 0]);
    assert_eq!(&data.bytes[4..8], &[0xff, 0xff, 0xff, 0xff]);
    let back = data.status();
    assert_eq!((back.current, back.last_result, back.error), (2, -1, 7));
    assert_eq!(back.desc, [b'x'; 2048]);
}

#[test]
fn notify_and_procmsg_roundtrip() {
    let mut data = RawMsgData::zeroed();
    let n = RawNotifyData { status: 1, error: 2, level: 3, msg: [9; 2048] };
    data.set_notify(&n);
    let b = data.notify();
    assert_eq!((b.status, b.error, b.level), (1, 2, 3));
    let p = RawProcMsgData { source: 2, cmd: 3, timeout: -5, len: 11, buf: [1; 2048] };
    data.set_procmsg(&p);
    let q = data.procmsg();
    assert_eq!((q.source, q.cmd, q.timeout, q.len), (2, 3, -5, 11));
    assert_eq!(q.buf, [1; 2048]);
    assert_eq!(&data.bytes[16..20], &[1, 1, 1, 1]);
}

#[test]
fn versions_revisions_dwl_url_roundtrip() {
    let mut data = RawMsgData::zeroed();
    let mut v = RawVersionsData {
        minimum_version: [0; 256],
        maximum_version: [0; 256],
        current_version: [0; 256],
        update_type: [0; 256],
    };
    write_cstr(&mut v.current_version, "1.2.3");
    data.set_versions(&v);
    assert_eq!(cstr_from_bytes(&data.versions().current_version), "1.2.3");
    assert_eq!(cstr_from_bytes(&data.bytes[512..768]), "1.2.3");

    let mut r = RawRevisionsData { boardname: [0; 256], revision: [0; 256] };
    write_cstr(&mut r.revision, "rev-b");
    data.set_revisions(&r);
    assert_eq!(cstr_from_bytes(&data.revisions().revision), "rev-b");

    let mut d = RawDwlUrlData { filename: [0; 256], url: [0; 1024] };
    write_cstr(&mut d.url, "http://x/y");
    data.set_dwl_url(&d);
    assert_eq!(cstr_from_bytes(&data.dwl_url().url), "http://x/y");
    assert_eq!(cstr_from_bytes(&data.bytes[256..]), "http://x/y");
}

#[test]
fn set_msg_and_msg() {
    let mut data = RawMsgData::zeroed();
    let mut m = [0u8; 128];
    m[0] = 0x31;
    m[127] = 5;
    data.set_msg(&m);
    assert_eq!(data.msg(), m);
    assert_eq!(data.bytes[0], 0x31);
}

#[test]
fn swupdate_request_layout_offsets() {
    let mut req = swupdate_ipc::wire::RawSwupdateRequest::zeroed();
    req.apiversion = 1;
    req.source = 4;
    req.dry_run = 2;
    req.len = 0x0102_0304_0506_0708;
    req.disable_store_swu = 1;
    let mut inst = RawInstMsgData { req, len: 9, buf: [0; 2048] };
    inst.buf[0] = 0xaa;
    let mut data = RawMsgData::zeroed();
    data.set_instmsg(&inst);
    let b = &data.bytes;
    assert_eq!(&b[0..12], &[1, 0, 0, 0, 4, 0, 0, 0, 2, 0, 0, 0]);
    assert_eq!(&b[16..24], &[8, 7, 6, 5, 4, 3, 2, 1]);
    assert_eq!(b[1048], 1);
    assert_eq!(&b[1056..1060], &[9, 0, 0, 0]);
    assert_eq!(b[1060], 0xaa);
    let back = data.instmsg();
    assert_eq!(back.req.len, 0x0102_0304_0506_0708);
    assert_eq!(back.len, 9);
}

#[test]
fn cstr_stops_at_first_nul_and_replaces_invalid_utf8() {
    assert_eq!(cstr_from_bytes(b"ab\0cd"), "ab");
    assert_eq!(cstr_from_bytes(b"abc"), "abc");
    assert_eq!(cstr_from_bytes(b""), "");
    assert_eq!(cstr_from_bytes(&[0x61, 0xff, 0x62, 0]), "a\u{FFFD}b");
    assert_eq!(cstr_from_bytes("héllo\0".as_bytes()), "héllo");
    assert!(!cstr_from_bytes(&[0xc0, 0x80, 0xff, 0x41]).contains('\0'));
}

#[test]
fn write_cstr_edge_cases() {
    let mut empty: [u8; 0] = [];
    write_cstr(&mut empty, "abc");
    let mut one = [7u8; 1];
    write_cstr(&mut one, "abc");
    assert_eq!(one, [0]); // no room for text: only the NUL
    let mut buf = [0xffu8; 4];
    write_cstr(&mut buf, "ab");
    assert_eq!(buf, [b'a', b'b', 0, 0xff]); // NUL-terminated, the rest left alone
}

#[test]
fn write_cstr_always_nul_terminates() {
    let mut buf = [7u8; 2];
    write_cstr(&mut buf, "a");
    assert_eq!(buf, [b'a', 0]);
    let mut full = [0xeeu8; 5];
    write_cstr(&mut full, "hello world");
    assert_eq!(full, *b"hell\0");
    assert_eq!(cstr_from_bytes(&full), "hell");
}
