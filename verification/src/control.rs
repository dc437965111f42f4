//! Control socket logic: the request message for each command, and the
//! reading of each reply.
//!
//! A control exchange sends one `ipc_message` and reads one back. The caller
//! does the socket I/O: it sends `ipc_message_to_bytes` of the request built
//! here, reads `IPC_MESSAGE_SIZE` bytes, and hands them to
//! [`response_from_bytes`] and then to the reader of that command's reply.

use vstd::prelude::*;

use crate::c_abi::{
    law_inst_msg_offsets, law_revisions_offsets, law_status_data_offsets, law_vars_offsets,
};
use crate::codec::{i32_at, le_i32, le_u32, lemma_i32_at, u32_at, u64_at, zeros};
use crate::error::Error;
use crate::text::{signed_decimal, with_signed_decimal};
use crate::types::{
    c_string, cstr_field, HwRevision, InstallRequest, RecoveryStatus, Source, SubprocessCmd,
    SwupdateVar, UpdateState, UpdateStatus,
};
use crate::wire::{
    cstr_from_bytes, ipc_message_from_bytes, write_cstr, MsgType, RawAesKeyData, RawDwlUrlData,
    RawInstMsgData, RawIpcMessage, RawProcMsgData, RawRevisionsData, RawStatusData,
    RawSwupdateRequest, RawVarsData, RawVersionsData, WireLayout, IPC_MAGIC, IPC_MESSAGE_SIZE,
    SWUPDATE_API_VERSION,
};

verus! {

broadcast use vstd::array::group_array_axioms;

/// `m` is a request of type `t` whose `msgdata` starts with `payload` and is
/// zero after it.
pub open spec fn request_for(m: RawIpcMessage, t: MsgType, payload: Seq<u8>) -> bool {
    &&& m.magic == IPC_MAGIC
    &&& m.msg_type == t.code()
    &&& payload.len() <= 3112
    &&& m.data.bytes@ == payload + zeros((3112 - payload.len()) as nat)
}

/// `r` is the wire form of the install request `req`.
pub open spec fn raw_request_for(r: RawSwupdateRequest, req: InstallRequest) -> bool {
    &&& r.apiversion == SWUPDATE_API_VERSION
    &&& r.source == req.source.wire_code()
    &&& r.dry_run == req.mode.wire_code()
    &&& r.len == (match req.len {
        Some(l) => l,
        None => 0,
    })
    &&& r.info@ == cstr_field(512, req.info@)
    &&& r.software_set@ == (match req.software_set {
        Some(s) => cstr_field(256, s@),
        None => zeros(256),
    })
    &&& r.running_mode@ == (match req.running_mode {
        Some(m) => cstr_field(256, m@),
        None => zeros(256),
    })
    &&& r.disable_store_swu == (if req.store_swu {
        0u8
    } else {
        1u8
    })
}

/// A message of type `t` with `payload` at the start of the zeroed union.
fn message_with<T: WireLayout>(t: MsgType, payload: &T) -> (m: RawIpcMessage)
    requires
        T::wire_size() <= 3112,
    ensures
        request_for(m, t, payload.spec_bytes()),
{
    proof {
        payload.lemma_bytes_agree(Seq::empty());
    }
    let mut msg = RawIpcMessage::new(t);
    msg.data.write_variant(payload);
    assert(msg.data.bytes@ =~= payload.spec_bytes() + zeros(
        (3112 - payload.spec_bytes().len()) as nat,
    ));
    msg
}

/// The REQ_INSTALL request for `req`.
pub fn install_msg(req: &InstallRequest) -> (m: RawIpcMessage)
    ensures
        exists|r: RawSwupdateRequest|
            #![trigger r.spec_bytes()]
            raw_request_for(r, *req) && request_for(
                m,
                MsgType::ReqInstall,
                r.spec_bytes() + le_u32(0) + zeros(2048) + zeros(4),
            ),
        m.msg_type == 0,
        u32_at(m.data.bytes@, 0) == 1,
        i32_at(m.data.bytes@, 4) == req.source.wire_code(),
        i32_at(m.data.bytes@, 8) == req.mode.wire_code(),
        m.data.bytes@.subrange(12, 16) == zeros(4),
        u64_at(m.data.bytes@, 16) == (match req.len {
            Some(l) => l,
            None => 0,
        }),
        m.data.bytes@.subrange(24, 536) == cstr_field(512, req.info@),
        m.data.bytes@.subrange(536, 792) == (match req.software_set {
            Some(s) => cstr_field(256, s@),
            None => zeros(256),
        }),
        m.data.bytes@.subrange(792, 1048) == (match req.running_mode {
            Some(s) => cstr_field(256, s@),
            None => zeros(256),
        }),
        m.data.bytes@[1048] == (if req.store_swu {
            0u8
        } else {
            1u8
        }),
        m.data.bytes@.subrange(1049, 1056) == zeros(7),
        u32_at(m.data.bytes@, 1056) == 0,
        m.data.bytes@.subrange(1060, 3112) == zeros(2052),
{
    let raw = req.to_raw();
    let inst = RawInstMsgData { req: raw, len: 0, buf: [0u8; 2048] };
    assert(inst.buf@ =~= zeros(2048));
    let m = message_with(MsgType::ReqInstall, &inst);
    assert(raw_request_for(raw, *req));
    proof {
        let b = m.data.bytes@;
        inst.lemma_bytes_agree(Seq::empty());
        assert(inst.spec_bytes() + Seq::<u8>::empty() =~= b);
        law_inst_msg_offsets(inst, b);
        assert(b.subrange(12, 16) =~= inst.spec_bytes().subrange(0, 1056).subrange(12, 16));
        assert(b.subrange(1049, 1056) =~= inst.spec_bytes().subrange(0, 1056).subrange(
            1049,
            1056,
        ));
        assert(b.subrange(1060, 3112) =~= zeros(2052));
    }
    m
}

/// The SET_UPDATE_STATE request for `state`: its wire value in the first
/// four bytes of the union.
pub fn set_update_state_msg(state: UpdateState) -> (m: RawIpcMessage)
    ensures
        request_for(m, MsgType::SetUpdateState, le_i32(state.wire_code())),
        m.msg_type == 7,
        i32_at(m.data.bytes@, 0) == state.wire_code(),
{
    let mut msg = RawIpcMessage::new(MsgType::SetUpdateState);
    let v = state.to_wire();
    let mut bytes = msg.data.msg();
    let mut enc: Vec<u8> = Vec::new();
    crate::codec::put_i32(&mut enc, v);
    crate::codec::write_at(&mut bytes, 0, enc.as_slice());
    msg.data.set_msg(&bytes);
    assert(msg.data.bytes@ =~= le_i32(state.wire_code()) + zeros(3108));
    proof {
        assert(msg.data.bytes@.subrange(0, 4) =~= le_i32(state.wire_code()));
        lemma_i32_at(msg.data.bytes@, 0, state.wire_code());
    }
    msg
}

/// The SET_AES_KEY request for a key and an initialization vector.
pub fn set_aes_key_msg(key: &str, iv: &str) -> (m: RawIpcMessage)
    ensures
        request_for(m, MsgType::SetAesKey, cstr_field(65, key@) + cstr_field(33, iv@)),
        m.msg_type == 6,
{
    let mut d = RawAesKeyData { key_ascii: [0u8; 65], ivt_ascii: [0u8; 33] };
    assert(d.key_ascii@ =~= zeros(65));
    assert(d.ivt_ascii@ =~= zeros(33));
    write_cstr(&mut d.key_ascii, key);
    write_cstr(&mut d.ivt_ascii, iv);
    message_with(MsgType::SetAesKey, &d)
}

/// The SET_VERSIONS_RANGE request.
pub fn set_versions_range_msg(minimum: &str, maximum: &str, current: &str, update_type: &str) -> (m:
    RawIpcMessage)
    ensures
        request_for(
            m,
            MsgType::SetVersionsRange,
            cstr_field(256, minimum@) + cstr_field(256, maximum@) + cstr_field(256, current@)
                + cstr_field(256, update_type@),
        ),
        m.msg_type == 10,
{
    let mut d = RawVersionsData {
        minimum_version: [0u8; 256],
        maximum_version: [0u8; 256],
        current_version: [0u8; 256],
        update_type: [0u8; 256],
    };
    assert(d.minimum_version@ =~= zeros(256));
    assert(d.maximum_version@ =~= zeros(256));
    assert(d.current_version@ =~= zeros(256));
    assert(d.update_type@ =~= zeros(256));
    write_cstr(&mut d.minimum_version, minimum);
    write_cstr(&mut d.maximum_version, maximum);
    write_cstr(&mut d.current_version, current);
    write_cstr(&mut d.update_type, update_type);
    message_with(MsgType::SetVersionsRange, &d)
}

/// The SET_SWUPDATE_VARS request.
pub fn set_swupdate_var_msg(namespace: &str, name: &str, value: &str) -> (m: RawIpcMessage)
    ensures
        request_for(
            m,
            MsgType::SetSwupdateVars,
            cstr_field(256, namespace@) + cstr_field(256, name@) + cstr_field(256, value@),
        ),
        m.msg_type == 13,
{
    let mut d = RawVarsData { varnamespace: [0u8; 256], varname: [0u8; 256], varvalue: [0u8; 256] };
    assert(d.varnamespace@ =~= zeros(256));
    assert(d.varname@ =~= zeros(256));
    assert(d.varvalue@ =~= zeros(256));
    write_cstr(&mut d.varnamespace, namespace);
    write_cstr(&mut d.varname, name);
    write_cstr(&mut d.varvalue, value);
    message_with(MsgType::SetSwupdateVars, &d)
}

/// The GET_SWUPDATE_VARS request: namespace and name, value empty.
pub fn get_swupdate_var_msg(namespace: &str, name: &str) -> (m: RawIpcMessage)
    ensures
        request_for(
            m,
            MsgType::GetSwupdateVars,
            cstr_field(256, namespace@) + cstr_field(256, name@) + zeros(256),
        ),
        m.msg_type == 14,
{
    let mut d = RawVarsData { varnamespace: [0u8; 256], varname: [0u8; 256], varvalue: [0u8; 256] };
    assert(d.varnamespace@ =~= zeros(256));
    assert(d.varname@ =~= zeros(256));
    assert(d.varvalue@ =~= zeros(256));
    write_cstr(&mut d.varnamespace, namespace);
    write_cstr(&mut d.varname, name);
    message_with(MsgType::GetSwupdateVars, &d)
}

/// The SWUPDATE_SUBPROCESS request.
pub fn subprocess_cmd_msg(source: Source, cmd: SubprocessCmd, timeout: i32) -> (m: RawIpcMessage)
    ensures
        request_for(
            m,
            MsgType::SwupdateSubprocess,
            le_i32(source.wire_code()) + le_i32(cmd.wire_code()) + le_i32(timeout) + le_u32(0)
                + zeros(2048),
        ),
        m.msg_type == 5,
{
    let d = RawProcMsgData {
        source: source.to_wire(),
        cmd: cmd.to_wire(),
        timeout,
        len: 0,
        buf: [0u8; 2048],
    };
    assert(d.buf@ =~= zeros(2048));
    message_with(MsgType::SwupdateSubprocess, &d)
}

/// The SET_DELTA_URL request.
pub fn set_delta_url_msg(filename: &str, url: &str) -> (m: RawIpcMessage)
    ensures
        request_for(m, MsgType::SetDeltaUrl, cstr_field(256, filename@) + cstr_field(1024, url@)),
        m.msg_type == 15,
{
    let mut d = RawDwlUrlData { filename: [0u8; 256], url: [0u8; 1024] };
    assert(d.filename@ =~= zeros(256));
    assert(d.url@ =~= zeros(1024));
    write_cstr(&mut d.filename, filename);
    write_cstr(&mut d.url, url);
    message_with(MsgType::SetDeltaUrl, &d)
}

// ---------------------------------------------------------------------------
// Replies
// ---------------------------------------------------------------------------

/// Reads a reply of exactly `IPC_MESSAGE_SIZE` bytes.
pub fn response_from_bytes(buf: &[u8]) -> (r: Result<Box<RawIpcMessage>, Error>)
    ensures
        match r {
            Ok(m) => buf@.len() == IPC_MESSAGE_SIZE && m.spec_bytes() == buf@,
            Err(Error::Protocol(msg)) => buf@.len() != IPC_MESSAGE_SIZE && msg@
                == "response size mismatch"@,
            Err(_) => false,
        },
{
    match ipc_message_from_bytes(buf) {
        Some(m) => Ok(m),
        None => Err(Error::Protocol(String::from_str("response size mismatch"))),
    }
}

/// The `Debug` name of a message type.
pub open spec fn msg_type_name(t: MsgType) -> Seq<char> {
    match t {
        MsgType::ReqInstall => "ReqInstall"@,
        MsgType::Ack => "Ack"@,
        MsgType::Nack => "Nack"@,
        MsgType::GetStatus => "GetStatus"@,
        MsgType::PostUpdate => "PostUpdate"@,
        MsgType::SwupdateSubprocess => "SwupdateSubprocess"@,
        MsgType::SetAesKey => "SetAesKey"@,
        MsgType::SetUpdateState => "SetUpdateState"@,
        MsgType::GetUpdateState => "GetUpdateState"@,
        MsgType::ReqInstallExt => "ReqInstallExt"@,
        MsgType::SetVersionsRange => "SetVersionsRange"@,
        MsgType::NotifyStream => "NotifyStream"@,
        MsgType::GetHwRevision => "GetHwRevision"@,
        MsgType::SetSwupdateVars => "SetSwupdateVars"@,
        MsgType::GetSwupdateVars => "GetSwupdateVars"@,
        MsgType::SetDeltaUrl => "SetDeltaUrl"@,
    }
}

fn msg_type_name_str(t: MsgType) -> (s: &'static str)
    ensures
        s@ == msg_type_name(t),
{
    match t {
        MsgType::ReqInstall => "ReqInstall",
        MsgType::Ack => "Ack",
        MsgType::Nack => "Nack",
        MsgType::GetStatus => "GetStatus",
        MsgType::PostUpdate => "PostUpdate",
        MsgType::SwupdateSubprocess => "SwupdateSubprocess",
        MsgType::SetAesKey => "SetAesKey",
        MsgType::SetUpdateState => "SetUpdateState",
        MsgType::GetUpdateState => "GetUpdateState",
        MsgType::ReqInstallExt => "ReqInstallExt",
        MsgType::SetVersionsRange => "SetVersionsRange",
        MsgType::NotifyStream => "NotifyStream",
        MsgType::GetHwRevision => "GetHwRevision",
        MsgType::SetSwupdateVars => "SetSwupdateVars",
        MsgType::GetSwupdateVars => "GetSwupdateVars",
        MsgType::SetDeltaUrl => "SetDeltaUrl",
    }
}

/// The protocol error text for a reply that is neither ACK nor NACK.
pub open spec fn unexpected_reply_text(t: Option<MsgType>) -> Seq<char> {
    "expected ACK/NACK, got "@ + match t {
        None => "None"@,
        Some(m) => "Some("@ + msg_type_name(m) + ")"@,
    }
}

/// The outcome of a command answered by ACK or NACK.
pub fn ack_result(resp: &RawIpcMessage) -> (r: Result<(), Error>)
    ensures
        match r {
            Ok(()) => resp.msg_type == MsgType::Ack.code(),
            Err(Error::Rejected) => resp.msg_type == MsgType::Nack.code(),
            Err(Error::Protocol(msg)) => resp.msg_type != MsgType::Ack.code() && resp.msg_type
                != MsgType::Nack.code() && (0 <= resp.msg_type <= 15 ==> exists|t: MsgType|
                t.code() == resp.msg_type && msg@ == #[trigger] unexpected_reply_text(Some(t)))
                && (!(0 <= resp.msg_type <= 15) ==> msg@ == unexpected_reply_text(None)),
            Err(_) => false,
        },
        (r is Ok) <==> resp.msg_type == 1,
        (r matches Err(Error::Rejected)) <==> resp.msg_type == 2,
{
    match resp.msg_type() {
        Some(MsgType::Ack) => Ok(()),
        Some(MsgType::Nack) => Err(Error::Rejected),
        None => {
            let mut msg = String::from_str("expected ACK/NACK, got ");
            msg.append("None");
            Err(Error::Protocol(msg))
        },
        Some(t) => {
            let mut msg = String::from_str("expected ACK/NACK, got ");
            msg.append("Some(");
            msg.append(msg_type_name_str(t));
            msg.append(")");
            assert(msg@ =~= unexpected_reply_text(Some(t)));
            Err(Error::Protocol(msg))
        },
    }
}

/// What the GET_STATUS reply `d` is read as.
pub open spec fn status_reply(r: Result<UpdateStatus, Error>, d: RawStatusData) -> bool {
    match r {
        Ok(st) => st.current.wire_code() == d.current && st.last_result.wire_code()
            == d.last_result && st.error == d.error && st.description@ == c_string(d.desc@),
        Err(Error::Protocol(msg)) => if !(0 <= d.current <= 8) {
            msg@ == "invalid status: "@ + signed_decimal(d.current as int)
        } else {
            !(0 <= d.last_result <= 8) && msg@ == "invalid last_result: "@ + signed_decimal(
                d.last_result as int,
            )
        },
        Err(_) => false,
    }
}

/// What the GET_STATUS reply whose `msgdata` is `b` is read as, each field
/// at its C offset: `current` at byte 0, `last_result` at 4, `error` at 8 and
/// `desc` at 12..2060. The reply is read when both statuses are
/// `RECOVERY_STATUS` values (0 to 8), and refused naming the first that is
/// not.
pub open spec fn status_reply_at(r: Result<UpdateStatus, Error>, b: Seq<u8>) -> bool {
    let current = i32_at(b, 0);
    let last_result = i32_at(b, 4);
    match r {
        Ok(st) => 0 <= current <= 8 && 0 <= last_result <= 8 && st.current.wire_code() == current
            && st.last_result.wire_code() == last_result && st.error == i32_at(b, 8)
            && st.description@ == c_string(b.subrange(12, 2060)),
        Err(Error::Protocol(msg)) => if !(0 <= current <= 8) {
            msg@ == "invalid status: "@ + signed_decimal(current as int)
        } else {
            !(0 <= last_result <= 8) && msg@ == "invalid last_result: "@ + signed_decimal(
                last_result as int,
            )
        },
        Err(_) => false,
    }
}

/// Reads the reply to GET_STATUS.
pub fn status_from_response(resp: &RawIpcMessage) -> (r: Result<UpdateStatus, Error>)
    ensures
        forall|d: RawStatusData| #[trigger] d.agrees(resp.data.bytes@) ==> status_reply(r, d),
        status_reply_at(r, resp.data.bytes@),
        (0 <= i32_at(resp.data.bytes@, 0) <= 8 && 0 <= i32_at(resp.data.bytes@, 4) <= 8) <==> r is Ok,
{
    let d = resp.data.status();
    proof {
        assert forall|e: RawStatusData| #[trigger] e.agrees(resp.data.bytes@) implies e == d by {
            e.lemma_agree_unique(&d, resp.data.bytes@);
        }
        law_status_data_offsets(d, resp.data.bytes@);
    }
    let current = match RecoveryStatus::from_wire(d.current) {
        Some(s) => s,
        None => {
            return Err(Error::Protocol(with_signed_decimal("invalid status: ", d.current)));
        },
    };
    let last_result = match RecoveryStatus::from_wire(d.last_result) {
        Some(s) => s,
        None => {
            return Err(
                Error::Protocol(with_signed_decimal("invalid last_result: ", d.last_result)),
            );
        },
    };
    Ok(
        UpdateStatus {
            current,
            last_result,
            error: d.error,
            description: cstr_from_bytes(d.desc.as_slice()),
        },
    )
}

/// Reads the reply to GET_UPDATE_STATE: the state's wire value in the first
/// four bytes of the union.
pub fn update_state_from_response(resp: &RawIpcMessage) -> (r: Result<UpdateState, Error>)
    ensures
        forall|val: i32|
            #![trigger le_i32(val)]
            le_i32(val) == resp.data.bytes@.subrange(0, 4) ==> match r {
                Ok(s) => s.wire_code() == val,
                Err(Error::Protocol(msg)) => !(48 <= val <= 55) && msg@ == "invalid update state: "@
                    + signed_decimal(val as int),
                Err(_) => false,
            },
{
    let bytes = resp.data.msg();
    let val = crate::codec::get_i32(bytes.as_slice(), 0);
    proof {
        assert(bytes@.subrange(0, 4) =~= resp.data.bytes@.subrange(0, 4));
        assert forall|v: i32| #[trigger] le_i32(v) == resp.data.bytes@.subrange(0, 4) implies v
            == val by {
            crate::codec::lemma_le_i32_injective(v, val);
        }
    }
    match UpdateState::from_wire(val) {
        Some(s) => Ok(s),
        None => Err(Error::Protocol(with_signed_decimal("invalid update state: ", val))),
    }
}

/// Reads the reply to GET_HW_REVISION.
pub fn hw_revision_from_response(resp: &RawIpcMessage) -> (r: HwRevision)
    ensures
        forall|d: RawRevisionsData| #[trigger]
            d.agrees(resp.data.bytes@) ==> r.boardname@ == c_string(d.boardname@) && r.revision@
                == c_string(d.revision@),
        r.boardname@ == c_string(resp.data.bytes@.subrange(0, 256)),
        r.revision@ == c_string(resp.data.bytes@.subrange(256, 512)),
{
    let d = resp.data.revisions();
    proof {
        assert forall|e: RawRevisionsData| #[trigger] e.agrees(resp.data.bytes@) implies e
            == d by {
            e.lemma_agree_unique(&d, resp.data.bytes@);
        }
        law_revisions_offsets(d, resp.data.bytes@);
    }
    HwRevision {
        boardname: cstr_from_bytes(d.boardname.as_slice()),
        revision: cstr_from_bytes(d.revision.as_slice()),
    }
}

/// Reads the reply to GET_SWUPDATE_VARS.
pub fn swupdate_var_from_response(resp: &RawIpcMessage) -> (r: SwupdateVar)
    ensures
        forall|d: RawVarsData| #[trigger]
            d.agrees(resp.data.bytes@) ==> r.namespace@ == c_string(d.varnamespace@) && r.name@
                == c_string(d.varname@) && r.value@ == c_string(d.varvalue@),
        r.namespace@ == c_string(resp.data.bytes@.subrange(0, 256)),
        r.name@ == c_string(resp.data.bytes@.subrange(256, 512)),
        r.value@ == c_string(resp.data.bytes@.subrange(512, 768)),
{
    let d = resp.data.vars();
    proof {
        assert forall|e: RawVarsData| #[trigger] e.agrees(resp.data.bytes@) implies e == d by {
            e.lemma_agree_unique(&d, resp.data.bytes@);
        }
        law_vars_offsets(d, resp.data.bytes@);
    }
    SwupdateVar {
        namespace: cstr_from_bytes(d.varnamespace.as_slice()),
        name: cstr_from_bytes(d.varname.as_slice()),
        value: cstr_from_bytes(d.varvalue.as_slice()),
    }
}

} // verus!
