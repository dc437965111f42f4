//! The C side of the protocol written out as numbers: where each field of
//! each C struct sits in its byte image, and the value of each enumerator.
//!
//! The offsets are those of `network_ipc.h`, `progress_ipc.h` and
//! `swupdate_status.h` on a 64-bit little-endian target. Each law here takes
//! a value and a buffer that the value agrees with (which is what `decode`
//! returns, and what `spec_bytes` gives for any tail), and states at which
//! byte offset each field is found, so that a reader can hold the layout
//! against the C header without reading the encoders.

use vstd::prelude::*;

use crate::codec::{
    i32_at, lemma_i32_at, lemma_u32_at, lemma_u64_at, u32_at, u64_at,
    zeros,
};
use crate::types::{RunMode, Source, SubprocessCmd, UpdateState};
use crate::types;
use crate::wire::{
    MsgType, RawAesKeyData, RawDwlUrlData, RawInstMsgData, RawIpcMessage, RawNotifyData,
    RawProcMsgData, RawProgressAck, RawProgressMsg, RawProgressMsgUnpacked, RawRevisionsData,
    RawStatusData, RawSwupdateRequest, RawVarsData, RawVersionsData, RecoveryStatus, WireLayout,
    ProgressLayout, IPC_MAGIC, IPC_MESSAGE_SIZE, PROGRESS_API_VERSION, PROGRESS_CONNECT_ACK_MAGIC,
    SWUPDATE_API_VERSION,
};

verus! {

// ---------------------------------------------------------------------------
// Field offsets
// ---------------------------------------------------------------------------

/// A packed `progress_msg` (swupdate >= 2025.12) holds `apiversion` at byte
/// 0, `status` at 4, `dwl_percent` at 8, the 8-byte `dwl_bytes` at 12,
/// `nsteps` at 20, `cur_step` at 24, `cur_percent` at 28, `cur_image` at
/// 32..288, `hnd_name` at 288..352, `source` at 352, `infolen` at 356 and
/// `info` at 360..2408.
pub proof fn law_progress_msg_offsets(m: RawProgressMsg, b: Seq<u8>)
    requires
        m.agrees(b),
    ensures
        b.len() >= 2408,
        u32_at(b, 0) == m.apiversion,
        u32_at(b, 4) == m.status,
        u32_at(b, 8) == m.dwl_percent,
        u64_at(b, 12) == m.dwl_bytes,
        u32_at(b, 20) == m.nsteps,
        u32_at(b, 24) == m.cur_step,
        u32_at(b, 28) == m.cur_percent,
        b.subrange(32, 288) == m.cur_image@,
        b.subrange(288, 352) == m.hnd_name@,
        u32_at(b, 352) == m.source,
        u32_at(b, 356) == m.infolen,
        b.subrange(360, 2408) == m.info@,
{
    lemma_u32_at(b, 0, m.apiversion);
    lemma_u32_at(b, 4, m.status);
    lemma_u32_at(b, 8, m.dwl_percent);
    lemma_u64_at(b, 12, m.dwl_bytes);
    lemma_u32_at(b, 20, m.nsteps);
    lemma_u32_at(b, 24, m.cur_step);
    lemma_u32_at(b, 28, m.cur_percent);
    lemma_u32_at(b, 352, m.source);
    lemma_u32_at(b, 356, m.infolen);
}

/// An unpacked `progress_msg` (swupdate <= 2025.05) holds `apiversion` at
/// byte 0, `status` at 4, `dwl_percent` at 8, alignment padding at 12, the
/// 8-byte `dwl_bytes` at 16, `nsteps` at 24, `cur_step` at 28, `cur_percent`
/// at 32, `cur_image` at 36..292, `hnd_name` at 292..356, `source` at 356,
/// `infolen` at 360, `info` at 364..2412 and tail padding at 2412..2416.
pub proof fn law_progress_msg_unpacked_offsets(m: RawProgressMsgUnpacked, b: Seq<u8>)
    requires
        m.agrees(b),
    ensures
        b.len() >= 2416,
        u32_at(b, 0) == m.apiversion,
        u32_at(b, 4) == m.status,
        u32_at(b, 8) == m.dwl_percent,
        u32_at(b, 12) == m._pad_align,
        u64_at(b, 16) == m.dwl_bytes,
        u32_at(b, 24) == m.nsteps,
        u32_at(b, 28) == m.cur_step,
        u32_at(b, 32) == m.cur_percent,
        b.subrange(36, 292) == m.cur_image@,
        b.subrange(292, 356) == m.hnd_name@,
        u32_at(b, 356) == m.source,
        u32_at(b, 360) == m.infolen,
        b.subrange(364, 2412) == m.info@,
        u32_at(b, 2412) == m._pad_tail,
{
    lemma_u32_at(b, 0, m.apiversion);
    lemma_u32_at(b, 4, m.status);
    lemma_u32_at(b, 8, m.dwl_percent);
    lemma_u32_at(b, 12, m._pad_align);
    lemma_u64_at(b, 16, m.dwl_bytes);
    lemma_u32_at(b, 24, m.nsteps);
    lemma_u32_at(b, 28, m.cur_step);
    lemma_u32_at(b, 32, m.cur_percent);
    lemma_u32_at(b, 356, m.source);
    lemma_u32_at(b, 360, m.infolen);
    lemma_u32_at(b, 2412, m._pad_tail);
}

/// A `progress_connect_ack` holds `apiversion` at byte 0 and the four magic
/// bytes at 4..8.
pub proof fn law_progress_ack_offsets(m: RawProgressAck, b: Seq<u8>)
    requires
        m.agrees(b),
    ensures
        b.len() >= 8,
        u32_at(b, 0) == m.apiversion,
        b.subrange(4, 8) == m.magic@,
{
    lemma_u32_at(b, 0, m.apiversion);
}

/// A `swupdate_request` holds `apiversion` at byte 0, `source` at 4,
/// `dry_run` at 8, the 8-byte `len` at 16, `info` at 24..536,
/// `software_set` at 536..792, `running_mode` at 792..1048 and
/// `disable_store_swu` at 1048; its image is 1056 bytes, with zero padding
/// at 12..16 and 1049..1056.
pub proof fn law_swupdate_request_offsets(r: RawSwupdateRequest, b: Seq<u8>)
    requires
        r.agrees(b),
    ensures
        b.len() >= 1056,
        u32_at(b, 0) == r.apiversion,
        i32_at(b, 4) == r.source,
        i32_at(b, 8) == r.dry_run,
        u64_at(b, 16) == r.len,
        b.subrange(24, 536) == r.info@,
        b.subrange(536, 792) == r.software_set@,
        b.subrange(792, 1048) == r.running_mode@,
        b[1048] == r.disable_store_swu,
        r.spec_bytes().len() == 1056,
        r.spec_bytes().subrange(12, 16) == zeros(4),
        r.spec_bytes().subrange(1049, 1056) == zeros(7),
{
    lemma_u32_at(b, 0, r.apiversion);
    lemma_i32_at(b, 4, r.source);
    lemma_i32_at(b, 8, r.dry_run);
    lemma_u64_at(b, 16, r.len);
    let s = r.spec_bytes();
    assert(s.subrange(12, 16) =~= zeros(4));
    assert(s.subrange(1049, 1056) =~= zeros(7));
}

/// The `status` variant of `msgdata` holds `current` at byte 0,
/// `last_result` at 4, `error` at 8 and `desc` at 12..2060.
pub proof fn law_status_data_offsets(d: RawStatusData, b: Seq<u8>)
    requires
        d.agrees(b),
    ensures
        b.len() >= 2060,
        i32_at(b, 0) == d.current,
        i32_at(b, 4) == d.last_result,
        i32_at(b, 8) == d.error,
        b.subrange(12, 2060) == d.desc@,
{
    lemma_i32_at(b, 0, d.current);
    lemma_i32_at(b, 4, d.last_result);
    lemma_i32_at(b, 8, d.error);
}

/// The `notify` variant of `msgdata` holds `status` at byte 0, `error` at 4,
/// `level` at 8 and `msg` at 12..2060.
pub proof fn law_notify_data_offsets(d: RawNotifyData, b: Seq<u8>)
    requires
        d.agrees(b),
    ensures
        b.len() >= 2060,
        i32_at(b, 0) == d.status,
        i32_at(b, 4) == d.error,
        i32_at(b, 8) == d.level,
        b.subrange(12, 2060) == d.msg@,
{
    lemma_i32_at(b, 0, d.status);
    lemma_i32_at(b, 4, d.error);
    lemma_i32_at(b, 8, d.level);
}

/// The `instmsg` variant of `msgdata` holds the `swupdate_request` at bytes
/// 0..1056 (its fields at the offsets of `law_swupdate_request_offsets`),
/// `len` at 1056 and `buf` at 1060..3108; its image is 3112 bytes, with zero
/// tail padding at 3108..3112.
pub proof fn law_inst_msg_offsets(d: RawInstMsgData, b: Seq<u8>)
    requires
        d.agrees(b),
    ensures
        b.len() >= 3112,
        u32_at(b, 0) == d.req.apiversion,
        i32_at(b, 4) == d.req.source,
        i32_at(b, 8) == d.req.dry_run,
        u64_at(b, 16) == d.req.len,
        b.subrange(24, 536) == d.req.info@,
        b.subrange(536, 792) == d.req.software_set@,
        b.subrange(792, 1048) == d.req.running_mode@,
        b[1048] == d.req.disable_store_swu,
        u32_at(b, 1056) == d.len,
        b.subrange(1060, 3108) == d.buf@,
        d.spec_bytes().len() == 3112,
        d.spec_bytes().subrange(0, 1056) == d.req.spec_bytes(),
        d.spec_bytes().subrange(3108, 3112) == zeros(4),
{
    law_swupdate_request_offsets(d.req, b);
    lemma_u32_at(b, 1056, d.len);
    let s = d.spec_bytes();
    assert(s.subrange(0, 1056) =~= d.req.spec_bytes());
    assert(s.subrange(3108, 3112) =~= zeros(4));
}

/// The `procmsg` variant of `msgdata` holds `source` at byte 0, `cmd` at 4,
/// `timeout` at 8, `len` at 12 and `buf` at 16..2064.
pub proof fn law_proc_msg_offsets(d: RawProcMsgData, b: Seq<u8>)
    requires
        d.agrees(b),
    ensures
        b.len() >= 2064,
        i32_at(b, 0) == d.source,
        i32_at(b, 4) == d.cmd,
        i32_at(b, 8) == d.timeout,
        u32_at(b, 12) == d.len,
        b.subrange(16, 2064) == d.buf@,
{
    lemma_i32_at(b, 0, d.source);
    lemma_i32_at(b, 4, d.cmd);
    lemma_i32_at(b, 8, d.timeout);
    lemma_u32_at(b, 12, d.len);
}

/// The `aeskeymsg` variant of `msgdata` holds the key at bytes 0..65 and the
/// initialization vector at 65..98.
pub proof fn law_aes_key_offsets(d: RawAesKeyData, b: Seq<u8>)
    requires
        d.agrees(b),
    ensures
        b.len() >= 98,
        b.subrange(0, 65) == d.key_ascii@,
        b.subrange(65, 98) == d.ivt_ascii@,
{
}

/// The `versions` variant of `msgdata` holds the minimum version at bytes
/// 0..256, the maximum at 256..512, the current at 512..768 and the update
/// type at 768..1024.
pub proof fn law_versions_offsets(d: RawVersionsData, b: Seq<u8>)
    requires
        d.agrees(b),
    ensures
        b.len() >= 1024,
        b.subrange(0, 256) == d.minimum_version@,
        b.subrange(256, 512) == d.maximum_version@,
        b.subrange(512, 768) == d.current_version@,
        b.subrange(768, 1024) == d.update_type@,
{
}

/// The `revisions` variant of `msgdata` holds the board name at bytes 0..256
/// and the revision at 256..512.
pub proof fn law_revisions_offsets(d: RawRevisionsData, b: Seq<u8>)
    requires
        d.agrees(b),
    ensures
        b.len() >= 512,
        b.subrange(0, 256) == d.boardname@,
        b.subrange(256, 512) == d.revision@,
{
}

/// The `vars` variant of `msgdata` holds the namespace at bytes 0..256, the
/// name at 256..512 and the value at 512..768.
pub proof fn law_vars_offsets(d: RawVarsData, b: Seq<u8>)
    requires
        d.agrees(b),
    ensures
        b.len() >= 768,
        b.subrange(0, 256) == d.varnamespace@,
        b.subrange(256, 512) == d.varname@,
        b.subrange(512, 768) == d.varvalue@,
{
}

/// The `dwl_url` variant of `msgdata` holds the file name at bytes 0..256
/// and the URL at 256..1280.
pub proof fn law_dwl_url_offsets(d: RawDwlUrlData, b: Seq<u8>)
    requires
        d.agrees(b),
    ensures
        b.len() >= 1280,
        b.subrange(0, 256) == d.filename@,
        b.subrange(256, 1280) == d.url@,
{
}

/// An `ipc_message` holds `magic` at byte 0, `type` at 4 and the 3112 bytes
/// of `msgdata` at 8..3120.
pub proof fn law_ipc_message_offsets(m: RawIpcMessage, b: Seq<u8>)
    requires
        m.agrees(b),
    ensures
        b.len() >= 3120,
        i32_at(b, 0) == m.magic,
        i32_at(b, 4) == m.msg_type,
        b.subrange(8, 3120) == m.data.bytes@,
{
    lemma_i32_at(b, 0, m.magic);
    lemma_i32_at(b, 4, m.msg_type);
}

// ---------------------------------------------------------------------------
// Enumerator values and constants
// ---------------------------------------------------------------------------

/// The C value of each message type is its enumerator in `network_ipc.h`:
/// `REQ_INSTALL` 0, `ACK` 1, `NACK` 2, `GET_STATUS` 3, `POST_UPDATE` 4,
/// `SWUPDATE_SUBPROCESS` 5, `SET_AES_KEY` 6, `SET_UPDATE_STATE` 7,
/// `GET_UPDATE_STATE` 8, `REQ_INSTALL_EXT` 9, `SET_VERSIONS_RANGE` 10,
/// `NOTIFY_STREAM` 11, `GET_HW_REVISION` 12, `SET_SWUPDATE_VARS` 13,
/// `GET_SWUPDATE_VARS` 14, `SET_DELTA_URL` 15.
pub proof fn law_msg_type_values()
    ensures
        MsgType::ReqInstall.code() == 0,
        MsgType::Ack.code() == 1,
        MsgType::Nack.code() == 2,
        MsgType::GetStatus.code() == 3,
        MsgType::PostUpdate.code() == 4,
        MsgType::SwupdateSubprocess.code() == 5,
        MsgType::SetAesKey.code() == 6,
        MsgType::SetUpdateState.code() == 7,
        MsgType::GetUpdateState.code() == 8,
        MsgType::ReqInstallExt.code() == 9,
        MsgType::SetVersionsRange.code() == 10,
        MsgType::NotifyStream.code() == 11,
        MsgType::GetHwRevision.code() == 12,
        MsgType::SetSwupdateVars.code() == 13,
        MsgType::GetSwupdateVars.code() == 14,
        MsgType::SetDeltaUrl.code() == 15,
        MsgType::from_code(7) == Some(MsgType::SetUpdateState),
        MsgType::from_code(8) == Some(MsgType::GetUpdateState),
        forall|t: MsgType| #[trigger] MsgType::from_code(t.code()) == Some(t),
{
}

/// The C value of each `RECOVERY_STATUS` in `swupdate_status.h`: `IDLE` 0,
/// `START` 1, `RUN` 2, `SUCCESS` 3, `FAILURE` 4, `DOWNLOAD` 5, `DONE` 6,
/// `SUBPROCESS` 7, `PROGRESS` 8, both as the wire enum and as the public
/// status type.
pub proof fn law_recovery_status_values()
    ensures
        RecoveryStatus::Idle.code() == 0,
        RecoveryStatus::Start.code() == 1,
        RecoveryStatus::Run.code() == 2,
        RecoveryStatus::Success.code() == 3,
        RecoveryStatus::Failure.code() == 4,
        RecoveryStatus::Download.code() == 5,
        RecoveryStatus::Done.code() == 6,
        RecoveryStatus::Subprocess.code() == 7,
        RecoveryStatus::Progress.code() == 8,
        types::RecoveryStatus::Idle.wire_code() == 0,
        types::RecoveryStatus::Start.wire_code() == 1,
        types::RecoveryStatus::Run.wire_code() == 2,
        types::RecoveryStatus::Success.wire_code() == 3,
        types::RecoveryStatus::Failure.wire_code() == 4,
        types::RecoveryStatus::Download.wire_code() == 5,
        types::RecoveryStatus::Done.wire_code() == 6,
        types::RecoveryStatus::Subprocess.wire_code() == 7,
        types::RecoveryStatus::Progress.wire_code() == 8,
{
}

/// The C `sourcetype` values: `SOURCE_UNKNOWN` 0, `SOURCE_WEBSERVER` 1,
/// `SOURCE_SURICATTA` 2, `SOURCE_DOWNLOADER` 3, `SOURCE_LOCAL` 4,
/// `SOURCE_CHUNKS_DOWNLOADER` 5; the `run_type` values `RUN_DEFAULT` 0,
/// `RUN_DRYRUN` 1, `RUN_INSTALL` 2; and the suricatta `cmd` values
/// `CMD_ACTIVATION` 0, `CMD_CONFIG` 1, `CMD_ENABLE` 2, `CMD_GET_STATUS` 3,
/// `CMD_SET_DOWNLOAD_URL` 4.
pub proof fn law_request_enum_values()
    ensures
        Source::Unknown.wire_code() == 0,
        Source::Webserver.wire_code() == 1,
        Source::Suricatta.wire_code() == 2,
        Source::Downloader.wire_code() == 3,
        Source::Local.wire_code() == 4,
        Source::ChunksDownloader.wire_code() == 5,
        RunMode::Default.wire_code() == 0,
        RunMode::DryRun.wire_code() == 1,
        RunMode::Install.wire_code() == 2,
        SubprocessCmd::Activation.wire_code() == 0,
        SubprocessCmd::Config.wire_code() == 1,
        SubprocessCmd::Enable.wire_code() == 2,
        SubprocessCmd::GetStatus.wire_code() == 3,
        SubprocessCmd::SetDownloadUrl.wire_code() == 4,
{
}

/// The wire value of each `update_state_t` is the ASCII digit of its
/// enumerator: `STATE_OK` '0' (48), `STATE_INSTALLED` '1', `STATE_TESTING`
/// '2', `STATE_FAILED` '3', `STATE_NOT_AVAILABLE` '4', `STATE_ERROR` '5',
/// `STATE_WAIT` '6', `STATE_IN_PROGRESS` '7' (55).
pub proof fn law_update_state_values()
    ensures
        UpdateState::StateOk.wire_code() == 48,
        UpdateState::Installed.wire_code() == 49,
        UpdateState::Testing.wire_code() == 50,
        UpdateState::Failed.wire_code() == 51,
        UpdateState::NotAvailable.wire_code() == 52,
        UpdateState::Error.wire_code() == 53,
        UpdateState::Wait.wire_code() == 54,
        UpdateState::InProgress.wire_code() == 55,
{
}

/// The protocol constants: the IPC magic `0x14052001`, the request API
/// version 1, the progress API version 2.0.0 (`0x00020000`), the
/// acknowledgement magic `"ACK\0"`, and the sizes of the messages read and
/// written whole: 2408 bytes for a packed and 2416 for an unpacked
/// `progress_msg`, 8 for `progress_connect_ack`, 3120 for `ipc_message`.
pub proof fn law_protocol_constants()
    ensures
        IPC_MAGIC == 0x14052001i32,
        SWUPDATE_API_VERSION == 1u32,
        PROGRESS_API_VERSION == 0x0002_0000u32,
        PROGRESS_CONNECT_ACK_MAGIC@ == seq![0x41u8, 0x43u8, 0x4bu8, 0x00u8],
        ProgressLayout::Packed.spec_msg_size() == 2408,
        ProgressLayout::Unpacked.spec_msg_size() == 2416,
        RawProgressMsg::wire_size() == 2408,
        RawProgressMsgUnpacked::wire_size() == 2416,
        RawProgressAck::wire_size() == 8,
        RawIpcMessage::wire_size() == 3120,
        IPC_MESSAGE_SIZE == 3120,
{
    assert(((2u32 & 0xFFFF) << 16u32 | (0u32 & 0xFF) << 8u32 | (0u32 & 0xFF)) == 0x0002_0000u32)
        by (bit_vector);
    assert(PROGRESS_CONNECT_ACK_MAGIC@ =~= seq![0x41u8, 0x43u8, 0x4bu8, 0x00u8]);
}

} // verus!
