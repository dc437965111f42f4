//! Binary protocol types matching SWUpdate's C headers (`network_ipc.h`,
//! `progress_ipc.h`), with their byte encodings.
//!
//! Each C struct is a Rust struct here, and its wire form is given by the
//! [`WireLayout`] trait: `spec_bytes` is the exact byte image of the C
//! struct (integers little-endian, `size_t` as eight bytes, padding as zero
//! bytes), and `agrees` says which bytes of a buffer hold which field. These
//! are the layouts of a 64-bit little-endian target; SWUpdate itself uses the
//! target's native byte order and `size_t`. The C union `msgdata` is kept as
//! its raw bytes ([`RawMsgData`]); each variant is read from and written to
//! its prefix.

use vstd::prelude::*;
use vstd::slice::slice_subrange;
use vstd::utf8::{decode_utf8, encode_utf8, valid_utf8};
use vstd::utf8::{encode_utf8_decode_utf8, encode_utf8_valid_utf8};

use crate::text::{string_from_utf8_lossy, utf8_lossy};
use crate::codec::{
    prefix_len, lemma_prefix_len, get_i32, get_u32, get_u64, le_i32, le_u32, le_u64, lemma_le_i32_injective,
    lemma_le_u32_injective, lemma_le_u64_injective, put_bytes, put_i32, put_u32, put_u64,
    put_zeros, read_into, write_at, zeros,
};

verus! {

broadcast use vstd::array::group_array_axioms;

// ---------------------------------------------------------------------------
// Constants
// ---------------------------------------------------------------------------

pub const IPC_MAGIC: i32 = 0x14052001;

pub const SWUPDATE_API_VERSION: u32 = 0x1;

pub const PROGRESS_API_MAJOR: u32 = 2;

pub const PROGRESS_API_MINOR: u32 = 0;

pub const PROGRESS_API_PATCH: u32 = 0;

pub const PROGRESS_API_VERSION: u32 = (PROGRESS_API_MAJOR & 0xFFFF) << 16u32 | (PROGRESS_API_MINOR
    & 0xFF) << 8u32 | (PROGRESS_API_PATCH & 0xFF);

/// The magic bytes `b"ACK\0"` of a progress connection acknowledgement.
pub const PROGRESS_CONNECT_ACK_MAGIC: [u8; 4] = [0x41u8, 0x43u8, 0x4bu8, 0x00u8];

/// Size of the info buffer in progress messages.
pub const PRINFOSIZE: usize = 2048;

/// Size of `progress_msg` with `__attribute__((__packed__))` (swupdate >= 2025.12).
pub const PROGRESS_MSG_SIZE_PACKED: usize = 2408;

/// Size of `progress_msg` with natural alignment (swupdate <= 2025.05).
pub const PROGRESS_MSG_SIZE_UNPACKED: usize = 2416;

/// Size of `progress_connect_ack`.
pub const PROGRESS_ACK_SIZE: usize = 8;

/// Size of `swupdate_request` (including alignment padding).
pub const SWUPDATE_REQUEST_SIZE: usize = 1056;

/// Size of the `status` variant of `msgdata`.
pub const STATUS_DATA_SIZE: usize = 2060;

/// Size of the `notify` variant of `msgdata`.
pub const NOTIFY_DATA_SIZE: usize = 2060;

/// Size of the `instmsg` variant of `msgdata` (including tail padding).
pub const INSTMSG_DATA_SIZE: usize = 3112;

/// Size of the `procmsg` variant of `msgdata`.
pub const PROCMSG_DATA_SIZE: usize = 2064;

/// Size of the `aeskeymsg` variant of `msgdata`.
pub const AESKEY_DATA_SIZE: usize = 98;

/// Size of the `versions` variant of `msgdata`.
pub const VERSIONS_DATA_SIZE: usize = 1024;

/// Size of the `revisions` variant of `msgdata`.
pub const REVISIONS_DATA_SIZE: usize = 512;

/// Size of the `vars` variant of `msgdata`.
pub const VARS_DATA_SIZE: usize = 768;

/// Size of the `dwl_url` variant of `msgdata`.
pub const DWL_URL_DATA_SIZE: usize = 1280;

/// Size of the plain `msg` byte array variant of `msgdata`.
pub const MSG_BYTES_SIZE: usize = 128;

/// Size of the `msgdata` union: its largest variant, `instmsg`.
pub const MSGDATA_SIZE: usize = 3112;

/// Size of `ipc_message`: magic, type, then `msgdata` at offset 8.
pub const IPC_MESSAGE_SIZE: usize = 3120;

// ---------------------------------------------------------------------------
// Message type enum (matches C `msgtype`)
// ---------------------------------------------------------------------------

#[derive(Debug, Clone, Copy, PartialEq, Eq, Structural)]
pub enum MsgType {
    ReqInstall,
    Ack,
    Nack,
    GetStatus,
    PostUpdate,
    SwupdateSubprocess,
    SetAesKey,
    SetUpdateState,
    GetUpdateState,
    ReqInstallExt,
    SetVersionsRange,
    NotifyStream,
    GetHwRevision,
    SetSwupdateVars,
    GetSwupdateVars,
    SetDeltaUrl,
}

impl MsgType {
    /// The C enumerator value of this message type.
    pub open spec fn code(self) -> i32 {
        match self {
            MsgType::ReqInstall => 0,
            MsgType::Ack => 1,
            MsgType::Nack => 2,
            MsgType::GetStatus => 3,
            MsgType::PostUpdate => 4,
            MsgType::SwupdateSubprocess => 5,
            MsgType::SetAesKey => 6,
            MsgType::SetUpdateState => 7,
            MsgType::GetUpdateState => 8,
            MsgType::ReqInstallExt => 9,
            MsgType::SetVersionsRange => 10,
            MsgType::NotifyStream => 11,
            MsgType::GetHwRevision => 12,
            MsgType::SetSwupdateVars => 13,
            MsgType::GetSwupdateVars => 14,
            MsgType::SetDeltaUrl => 15,
        }
    }

    /// The message type whose C value is `v`, if any.
    pub open spec fn from_code(v: i32) -> Option<MsgType> {
        match v {
            0 => Some(MsgType::ReqInstall),
            1 => Some(MsgType::Ack),
            2 => Some(MsgType::Nack),
            3 => Some(MsgType::GetStatus),
            4 => Some(MsgType::PostUpdate),
            5 => Some(MsgType::SwupdateSubprocess),
            6 => Some(MsgType::SetAesKey),
            7 => Some(MsgType::SetUpdateState),
            8 => Some(MsgType::GetUpdateState),
            9 => Some(MsgType::ReqInstallExt),
            10 => Some(MsgType::SetVersionsRange),
            11 => Some(MsgType::NotifyStream),
            12 => Some(MsgType::GetHwRevision),
            13 => Some(MsgType::SetSwupdateVars),
            14 => Some(MsgType::GetSwupdateVars),
            15 => Some(MsgType::SetDeltaUrl),
            _ => None,
        }
    }

    /// The C enumerator value of this message type.
    pub fn to_i32(self) -> (v: i32)
        ensures
            v == self.code(),
    {
        match self {
            MsgType::ReqInstall => 0,
            MsgType::Ack => 1,
            MsgType::Nack => 2,
            MsgType::GetStatus => 3,
            MsgType::PostUpdate => 4,
            MsgType::SwupdateSubprocess => 5,
            MsgType::SetAesKey => 6,
            MsgType::SetUpdateState => 7,
            MsgType::GetUpdateState => 8,
            MsgType::ReqInstallExt => 9,
            MsgType::SetVersionsRange => 10,
            MsgType::NotifyStream => 11,
            MsgType::GetHwRevision => 12,
            MsgType::SetSwupdateVars => 13,
            MsgType::GetSwupdateVars => 14,
            MsgType::SetDeltaUrl => 15,
        }
    }

    /// The message type with C value `v`, if there is one.
    pub fn from_i32(v: i32) -> (t: Option<Self>)
        ensures
            t == MsgType::from_code(v),
    {
        match v {
            0 => Some(Self::ReqInstall),
            1 => Some(Self::Ack),
            2 => Some(Self::Nack),
            3 => Some(Self::GetStatus),
            4 => Some(Self::PostUpdate),
            5 => Some(Self::SwupdateSubprocess),
            6 => Some(Self::SetAesKey),
            7 => Some(Self::SetUpdateState),
            8 => Some(Self::GetUpdateState),
            9 => Some(Self::ReqInstallExt),
            10 => Some(Self::SetVersionsRange),
            11 => Some(Self::NotifyStream),
            12 => Some(Self::GetHwRevision),
            13 => Some(Self::SetSwupdateVars),
            14 => Some(Self::GetSwupdateVars),
            15 => Some(Self::SetDeltaUrl),
            _ => None,
        }
    }
}

/// Every message type is recovered from its C value, and a C value that
/// names a message type is that type's value; the values are 0 to 15.
pub proof fn law_msg_type_code_roundtrip(t: MsgType, v: i32)
    ensures
        MsgType::from_code(t.code()) == Some(t),
        MsgType::from_code(v) matches Some(u) ==> u.code() == v,
        MsgType::from_code(v) is Some <==> 0 <= v <= 15,
{
}

// ---------------------------------------------------------------------------
// RECOVERY_STATUS (matches C enum in swupdate_status.h)
// ---------------------------------------------------------------------------

#[derive(Debug, Clone, Copy, PartialEq, Eq, Structural)]
pub enum RecoveryStatus {
    Idle,
    Start,
    Run,
    Success,
    Failure,
    Download,
    Done,
    Subprocess,
    Progress,
}

impl RecoveryStatus {
    /// The C enumerator value of this status.
    pub open spec fn code(self) -> u32 {
        match self {
            RecoveryStatus::Idle => 0,
            RecoveryStatus::Start => 1,
            RecoveryStatus::Run => 2,
            RecoveryStatus::Success => 3,
            RecoveryStatus::Failure => 4,
            RecoveryStatus::Download => 5,
            RecoveryStatus::Done => 6,
            RecoveryStatus::Subprocess => 7,
            RecoveryStatus::Progress => 8,
        }
    }

    /// The status whose C value is `v`, if any.
    pub open spec fn from_code(v: u32) -> Option<RecoveryStatus> {
        match v {
            0 => Some(RecoveryStatus::Idle),
            1 => Some(RecoveryStatus::Start),
            2 => Some(RecoveryStatus::Run),
            3 => Some(RecoveryStatus::Success),
            4 => Some(RecoveryStatus::Failure),
            5 => Some(RecoveryStatus::Download),
            6 => Some(RecoveryStatus::Done),
            7 => Some(RecoveryStatus::Subprocess),
            8 => Some(RecoveryStatus::Progress),
            _ => None,
        }
    }

    /// The C enumerator value of this status.
    pub fn to_u32(self) -> (v: u32)
        ensures
            v == self.code(),
    {
        match self {
            RecoveryStatus::Idle => 0,
            RecoveryStatus::Start => 1,
            RecoveryStatus::Run => 2,
            RecoveryStatus::Success => 3,
            RecoveryStatus::Failure => 4,
            RecoveryStatus::Download => 5,
            RecoveryStatus::Done => 6,
            RecoveryStatus::Subprocess => 7,
            RecoveryStatus::Progress => 8,
        }
    }

    /// The status with C value `v`, if there is one.
    pub fn from_u32(v: u32) -> (s: Option<Self>)
        ensures
            s == RecoveryStatus::from_code(v),
    {
        match v {
            0 => Some(Self::Idle),
            1 => Some(Self::Start),
            2 => Some(Self::Run),
            3 => Some(Self::Success),
            4 => Some(Self::Failure),
            5 => Some(Self::Download),
            6 => Some(Self::Done),
            7 => Some(Self::Subprocess),
            8 => Some(Self::Progress),
            _ => None,
        }
    }
}

/// Every status is recovered from its C value, and a C value that names a
/// status is that status's value; the values are 0 to 8.
pub proof fn law_recovery_status_code_roundtrip(s: RecoveryStatus, v: u32)
    ensures
        RecoveryStatus::from_code(s.code()) == Some(s),
        RecoveryStatus::from_code(v) matches Some(r) ==> r.code() == v,
        RecoveryStatus::from_code(v) is Some <==> v <= 8,
{
}

// ---------------------------------------------------------------------------
// progress_msg layouts
// ---------------------------------------------------------------------------

/// Progress message layout, determined by the installed swupdate version.
#[derive(Debug, Clone, Copy, PartialEq, Eq, Structural)]
pub enum ProgressLayout {
    /// swupdate >= 2025.12: `__attribute__((__packed__))`, 2408 bytes
    Packed,
    /// swupdate <= 2025.05: natural alignment, 2416 bytes
    Unpacked,
}

impl ProgressLayout {
    pub open spec fn spec_msg_size(self) -> usize {
        match self {
            ProgressLayout::Packed => PROGRESS_MSG_SIZE_PACKED,
            ProgressLayout::Unpacked => PROGRESS_MSG_SIZE_UNPACKED,
        }
    }

    /// The number of bytes of one progress message in this layout.
    pub fn msg_size(self) -> (n: usize)
        ensures
            n == self.spec_msg_size(),
    {
        match self {
            Self::Packed => PROGRESS_MSG_SIZE_PACKED,
            Self::Unpacked => PROGRESS_MSG_SIZE_UNPACKED,
        }
    }
}

// ---------------------------------------------------------------------------
// Byte layouts
// ---------------------------------------------------------------------------

/// A C struct with a fixed byte image.
pub trait WireLayout: Sized {
    /// The size of the C struct in bytes.
    spec fn wire_size() -> nat;

    /// The exact bytes of the C struct, padding zeroed.
    spec fn spec_bytes(&self) -> Seq<u8>;

    /// Each field of `self` is held by its bytes at the start of `b`.
    spec fn agrees(&self, b: Seq<u8>) -> bool;

    /// The size of the C struct in bytes.
    fn size() -> (n: usize)
        ensures
            n == Self::wire_size(),
    ;

    /// Appends the bytes of the C struct.
    fn encode(&self, out: &mut Vec<u8>)
        ensures
            final(out)@ == old(out)@ + self.spec_bytes(),
    ;

    /// Reads the C struct from the start of `buf`.
    fn decode(buf: &[u8]) -> (v: Self)
        requires
            buf@.len() >= Self::wire_size(),
        ensures
            v.agrees(buf@),
    ;

    /// The bytes of a value hold that value, whatever follows them.
    proof fn lemma_bytes_agree(&self, rest: Seq<u8>)
        ensures
            self.spec_bytes().len() == Self::wire_size(),
            self.agrees(self.spec_bytes() + rest),
    ;

    /// A buffer holds at most one value.
    proof fn lemma_agree_unique(&self, other: &Self, b: Seq<u8>)
        requires
            self.agrees(b),
            other.agrees(b),
        ensures
            *self == *other,
    ;
}

/// The bytes of `v`.
pub fn encode_to_vec<T: WireLayout>(v: &T) -> (out: Vec<u8>)
    ensures
        out@ == v.spec_bytes(),
{
    let mut out: Vec<u8> = Vec::new();
    v.encode(&mut out);
    assert(out@ =~= v.spec_bytes());
    out
}

/// Reads a value from a buffer of exactly its size; `None` on any other size.
pub fn decode_exact<T: WireLayout>(buf: &[u8]) -> (v: Option<T>)
    ensures
        v is Some <==> buf@.len() == T::wire_size(),
        v matches Some(x) ==> x.agrees(buf@),
{
    if buf.len() == T::size() {
        Some(T::decode(buf))
    } else {
        None
    }
}

/// Decoding the bytes of a value gives back that value, whatever follows
/// the bytes.
pub proof fn law_decode_encode<T: WireLayout>(v: T, rest: Seq<u8>, decoded: T)
    requires
        decoded.agrees(v.spec_bytes() + rest),
    ensures
        decoded == v,
{
    v.lemma_bytes_agree(rest);
    decoded.lemma_agree_unique(&v, v.spec_bytes() + rest);
}

/// Two values with the same bytes are the same value: whatever reads the
/// bytes of `a` back as a whole value (such as `from_bytes`) gets `a`.
pub proof fn law_bytes_injective<T: WireLayout>(a: T, b: T)
    requires
        a.spec_bytes() == b.spec_bytes(),
    ensures
        a == b,
{
    a.lemma_bytes_agree(Seq::empty());
    b.lemma_bytes_agree(Seq::empty());
    assert(a.spec_bytes() + Seq::<u8>::empty() =~= a.spec_bytes());
    assert(b.spec_bytes() + Seq::<u8>::empty() =~= b.spec_bytes());
    a.lemma_agree_unique(&b, a.spec_bytes());
}

// ---------------------------------------------------------------------------
// progress_msg — packed (swupdate >= 2025.12)
// ---------------------------------------------------------------------------

/// Packed progress message (swupdate >= 2025.12).
#[derive(Clone, Copy, Debug)]
pub struct RawProgressMsg {
    pub apiversion: u32,
    pub status: u32,
    pub dwl_percent: u32,
    pub dwl_bytes: u64,
    pub nsteps: u32,
    pub cur_step: u32,
    pub cur_percent: u32,
    pub cur_image: [u8; 256],
    pub hnd_name: [u8; 64],
    pub source: u32,
    pub infolen: u32,
    pub info: [u8; 2048],
}

impl WireLayout for RawProgressMsg {
    open spec fn wire_size() -> nat {
        2408
    }

    open spec fn spec_bytes(&self) -> Seq<u8> {
        le_u32(self.apiversion) + le_u32(self.status) + le_u32(self.dwl_percent) + le_u64(
            self.dwl_bytes,
        ) + le_u32(self.nsteps) + le_u32(self.cur_step) + le_u32(self.cur_percent)
            + self.cur_image@ + self.hnd_name@ + le_u32(self.source) + le_u32(self.infolen)
            + self.info@
    }

    open spec fn agrees(&self, b: Seq<u8>) -> bool {
        &&& b.len() >= 2408
        &&& le_u32(self.apiversion) == b.subrange(0, 4)
        &&& le_u32(self.status) == b.subrange(4, 8)
        &&& le_u32(self.dwl_percent) == b.subrange(8, 12)
        &&& le_u64(self.dwl_bytes) == b.subrange(12, 20)
        &&& le_u32(self.nsteps) == b.subrange(20, 24)
        &&& le_u32(self.cur_step) == b.subrange(24, 28)
        &&& le_u32(self.cur_percent) == b.subrange(28, 32)
        &&& self.cur_image@ == b.subrange(32, 288)
        &&& self.hnd_name@ == b.subrange(288, 352)
        &&& le_u32(self.source) == b.subrange(352, 356)
        &&& le_u32(self.infolen) == b.subrange(356, 360)
        &&& self.info@ == b.subrange(360, 2408)
    }

    fn size() -> (n: usize) {
        PROGRESS_MSG_SIZE_PACKED
    }

    fn encode(&self, out: &mut Vec<u8>) {
        put_u32(out, self.apiversion);
        put_u32(out, self.status);
        put_u32(out, self.dwl_percent);
        put_u64(out, self.dwl_bytes);
        put_u32(out, self.nsteps);
        put_u32(out, self.cur_step);
        put_u32(out, self.cur_percent);
        put_bytes(out, &self.cur_image);
        put_bytes(out, &self.hnd_name);
        put_u32(out, self.source);
        put_u32(out, self.infolen);
        put_bytes(out, &self.info);
        assert(final(out)@ =~= old(out)@ + self.spec_bytes());
    }

    fn decode(buf: &[u8]) -> (v: Self) {
        let mut cur_image = [0u8; 256];
        read_into(&mut cur_image, buf, 32);
        let mut hnd_name = [0u8; 64];
        read_into(&mut hnd_name, buf, 288);
        let mut info = [0u8; 2048];
        read_into(&mut info, buf, 360);
        RawProgressMsg {
            apiversion: get_u32(buf, 0),
            status: get_u32(buf, 4),
            dwl_percent: get_u32(buf, 8),
            dwl_bytes: get_u64(buf, 12),
            nsteps: get_u32(buf, 20),
            cur_step: get_u32(buf, 24),
            cur_percent: get_u32(buf, 28),
            cur_image,
            hnd_name,
            source: get_u32(buf, 352),
            infolen: get_u32(buf, 356),
            info,
        }
    }

    proof fn lemma_bytes_agree(&self, rest: Seq<u8>) {
        let b = self.spec_bytes() + rest;
        assert(b.subrange(0, 4) =~= le_u32(self.apiversion));
        assert(b.subrange(4, 8) =~= le_u32(self.status));
        assert(b.subrange(8, 12) =~= le_u32(self.dwl_percent));
        assert(b.subrange(12, 20) =~= le_u64(self.dwl_bytes));
        assert(b.subrange(20, 24) =~= le_u32(self.nsteps));
        assert(b.subrange(24, 28) =~= le_u32(self.cur_step));
        assert(b.subrange(28, 32) =~= le_u32(self.cur_percent));
        assert(b.subrange(32, 288) =~= self.cur_image@);
        assert(b.subrange(288, 352) =~= self.hnd_name@);
        assert(b.subrange(352, 356) =~= le_u32(self.source));
        assert(b.subrange(356, 360) =~= le_u32(self.infolen));
        assert(b.subrange(360, 2408) =~= self.info@);
    }

    proof fn lemma_agree_unique(&self, other: &Self, b: Seq<u8>) {
        lemma_le_u32_injective(self.apiversion, other.apiversion);
        lemma_le_u32_injective(self.status, other.status);
        lemma_le_u32_injective(self.dwl_percent, other.dwl_percent);
        lemma_le_u64_injective(self.dwl_bytes, other.dwl_bytes);
        lemma_le_u32_injective(self.nsteps, other.nsteps);
        lemma_le_u32_injective(self.cur_step, other.cur_step);
        lemma_le_u32_injective(self.cur_percent, other.cur_percent);
        lemma_le_u32_injective(self.source, other.source);
        lemma_le_u32_injective(self.infolen, other.infolen);
        assert(self.cur_image =~= other.cur_image);
        assert(self.hnd_name =~= other.hnd_name);
        assert(self.info =~= other.info);
    }
}

impl RawProgressMsg {
    /// An all-zero message.
    pub fn new_zeroed() -> (m: Self)
        ensures
            m.apiversion == 0 && m.status == 0 && m.dwl_percent == 0 && m.dwl_bytes == 0
                && m.nsteps == 0 && m.cur_step == 0 && m.cur_percent == 0 && m.source == 0
                && m.infolen == 0,
            m.cur_image@ == zeros(256),
            m.hnd_name@ == zeros(64),
            m.info@ == zeros(2048),
    {
        let m = RawProgressMsg {
            apiversion: 0,
            status: 0,
            dwl_percent: 0,
            dwl_bytes: 0,
            nsteps: 0,
            cur_step: 0,
            cur_percent: 0,
            cur_image: [0u8; 256],
            hnd_name: [0u8; 64],
            source: 0,
            infolen: 0,
            info: [0u8; 2048],
        };
        assert(m.cur_image@ =~= zeros(256));
        assert(m.hnd_name@ =~= zeros(64));
        assert(m.info@ =~= zeros(2048));
        m
    }

    /// Reads a message from exactly `PROGRESS_MSG_SIZE_PACKED` bytes.
    pub fn from_bytes(buf: &[u8]) -> (m: Option<Self>)
        ensures
            m is Some <==> buf@.len() == PROGRESS_MSG_SIZE_PACKED,
            m matches Some(x) ==> x.spec_bytes() == buf@,
    {
        let r = decode_exact::<RawProgressMsg>(buf);
        proof {
            if let Some(x) = r {
                x.lemma_bytes_exact(buf@);
            }
        }
        r
    }

    /// The bytes of the message as the C struct holds them.
    pub fn to_bytes(&self) -> (out: Vec<u8>)
        ensures
            out@ == self.spec_bytes(),
            out@.len() == PROGRESS_MSG_SIZE_PACKED,
    {
        proof {
            self.lemma_bytes_agree(Seq::empty());
        }
        encode_to_vec(self)
    }

    /// A buffer of exactly the message size that holds a message is its bytes.
    pub proof fn lemma_bytes_exact(&self, b: Seq<u8>)
        requires
            self.agrees(b),
            b.len() == 2408,
        ensures
            self.spec_bytes() == b,
    {
        assert(b =~= b.subrange(0, 4) + b.subrange(4, 8) + b.subrange(8, 12) + b.subrange(12, 20)
            + b.subrange(20, 24) + b.subrange(24, 28) + b.subrange(28, 32) + b.subrange(32, 288)
            + b.subrange(288, 352) + b.subrange(352, 356) + b.subrange(356, 360) + b.subrange(
            360,
            2408,
        ));
    }
}

// ---------------------------------------------------------------------------
// progress_msg — unpacked (swupdate <= 2025.05)
// ---------------------------------------------------------------------------

/// Unpacked progress message (swupdate <= 2025.05).
///
/// Identical fields but natural alignment: 4 bytes of padding before
/// `dwl_bytes` and 4 bytes of tail padding, totalling 2416 bytes.
#[derive(Clone, Copy, Debug)]
pub struct RawProgressMsgUnpacked {
    pub apiversion: u32,
    pub status: u32,
    pub dwl_percent: u32,
    /// Alignment padding before dwl_bytes (u64 requires 8-byte alignment).
    pub _pad_align: u32,
    pub dwl_bytes: u64,
    pub nsteps: u32,
    pub cur_step: u32,
    pub cur_percent: u32,
    pub cur_image: [u8; 256],
    pub hnd_name: [u8; 64],
    pub source: u32,
    pub infolen: u32,
    pub info: [u8; 2048],
    /// Tail padding to match C struct size (8-byte alignment of overall struct).
    pub _pad_tail: u32,
}

impl WireLayout for RawProgressMsgUnpacked {
    open spec fn wire_size() -> nat {
        2416
    }

    open spec fn spec_bytes(&self) -> Seq<u8> {
        le_u32(self.apiversion) + le_u32(self.status) + le_u32(self.dwl_percent) + le_u32(
            self._pad_align,
        ) + le_u64(self.dwl_bytes) + le_u32(self.nsteps) + le_u32(self.cur_step) + le_u32(
            self.cur_percent,
        ) + self.cur_image@ + self.hnd_name@ + le_u32(self.source) + le_u32(self.infolen)
            + self.info@ + le_u32(self._pad_tail)
    }

    open spec fn agrees(&self, b: Seq<u8>) -> bool {
        &&& b.len() >= 2416
        &&& le_u32(self.apiversion) == b.subrange(0, 4)
        &&& le_u32(self.status) == b.subrange(4, 8)
        &&& le_u32(self.dwl_percent) == b.subrange(8, 12)
        &&& le_u32(self._pad_align) == b.subrange(12, 16)
        &&& le_u64(self.dwl_bytes) == b.subrange(16, 24)
        &&& le_u32(self.nsteps) == b.subrange(24, 28)
        &&& le_u32(self.cur_step) == b.subrange(28, 32)
        &&& le_u32(self.cur_percent) == b.subrange(32, 36)
        &&& self.cur_image@ == b.subrange(36, 292)
        &&& self.hnd_name@ == b.subrange(292, 356)
        &&& le_u32(self.source) == b.subrange(356, 360)
        &&& le_u32(self.infolen) == b.subrange(360, 364)
        &&& self.info@ == b.subrange(364, 2412)
        &&& le_u32(self._pad_tail) == b.subrange(2412, 2416)
    }

    fn size() -> (n: usize) {
        PROGRESS_MSG_SIZE_UNPACKED
    }

    fn encode(&self, out: &mut Vec<u8>) {
        put_u32(out, self.apiversion);
        put_u32(out, self.status);
        put_u32(out, self.dwl_percent);
        put_u32(out, self._pad_align);
        put_u64(out, self.dwl_bytes);
        put_u32(out, self.nsteps);
        put_u32(out, self.cur_step);
        put_u32(out, self.cur_percent);
        put_bytes(out, &self.cur_image);
        put_bytes(out, &self.hnd_name);
        put_u32(out, self.source);
        put_u32(out, self.infolen);
        put_bytes(out, &self.info);
        put_u32(out, self._pad_tail);
        assert(final(out)@ =~= old(out)@ + self.spec_bytes());
    }

    fn decode(buf: &[u8]) -> (v: Self) {
        let mut cur_image = [0u8; 256];
        read_into(&mut cur_image, buf, 36);
        let mut hnd_name = [0u8; 64];
        read_into(&mut hnd_name, buf, 292);
        let mut info = [0u8; 2048];
        read_into(&mut info, buf, 364);
        RawProgressMsgUnpacked {
            apiversion: get_u32(buf, 0),
            status: get_u32(buf, 4),
            dwl_percent: get_u32(buf, 8),
            _pad_align: get_u32(buf, 12),
            dwl_bytes: get_u64(buf, 16),
            nsteps: get_u32(buf, 24),
            cur_step: get_u32(buf, 28),
            cur_percent: get_u32(buf, 32),
            cur_image,
            hnd_name,
            source: get_u32(buf, 356),
            infolen: get_u32(buf, 360),
            info,
            _pad_tail: get_u32(buf, 2412),
        }
    }

    proof fn lemma_bytes_agree(&self, rest: Seq<u8>) {
        let b = self.spec_bytes() + rest;
        assert(b.subrange(0, 4) =~= le_u32(self.apiversion));
        assert(b.subrange(4, 8) =~= le_u32(self.status));
        assert(b.subrange(8, 12) =~= le_u32(self.dwl_percent));
        assert(b.subrange(12, 16) =~= le_u32(self._pad_align));
        assert(b.subrange(16, 24) =~= le_u64(self.dwl_bytes));
        assert(b.subrange(24, 28) =~= le_u32(self.nsteps));
        assert(b.subrange(28, 32) =~= le_u32(self.cur_step));
        assert(b.subrange(32, 36) =~= le_u32(self.cur_percent));
        assert(b.subrange(36, 292) =~= self.cur_image@);
        assert(b.subrange(292, 356) =~= self.hnd_name@);
        assert(b.subrange(356, 360) =~= le_u32(self.source));
        assert(b.subrange(360, 364) =~= le_u32(self.infolen));
        assert(b.subrange(364, 2412) =~= self.info@);
        assert(b.subrange(2412, 2416) =~= le_u32(self._pad_tail));
    }

    proof fn lemma_agree_unique(&self, other: &Self, b: Seq<u8>) {
        lemma_le_u32_injective(self.apiversion, other.apiversion);
        lemma_le_u32_injective(self.status, other.status);
        lemma_le_u32_injective(self.dwl_percent, other.dwl_percent);
        lemma_le_u32_injective(self._pad_align, other._pad_align);
        lemma_le_u64_injective(self.dwl_bytes, other.dwl_bytes);
        lemma_le_u32_injective(self.nsteps, other.nsteps);
        lemma_le_u32_injective(self.cur_step, other.cur_step);
        lemma_le_u32_injective(self.cur_percent, other.cur_percent);
        lemma_le_u32_injective(self.source, other.source);
        lemma_le_u32_injective(self.infolen, other.infolen);
        lemma_le_u32_injective(self._pad_tail, other._pad_tail);
        assert(self.cur_image =~= other.cur_image);
        assert(self.hnd_name =~= other.hnd_name);
        assert(self.info =~= other.info);
    }
}

impl RawProgressMsgUnpacked {
    /// An all-zero message.
    pub fn new_zeroed() -> (m: Self)
        ensures
            m.apiversion == 0 && m.status == 0 && m.dwl_percent == 0 && m._pad_align == 0
                && m.dwl_bytes == 0 && m.nsteps == 0 && m.cur_step == 0 && m.cur_percent == 0
                && m.source == 0 && m.infolen == 0 && m._pad_tail == 0,
            m.cur_image@ == zeros(256),
            m.hnd_name@ == zeros(64),
            m.info@ == zeros(2048),
    {
        let m = RawProgressMsgUnpacked {
            apiversion: 0,
            status: 0,
            dwl_percent: 0,
            _pad_align: 0,
            dwl_bytes: 0,
            nsteps: 0,
            cur_step: 0,
            cur_percent: 0,
            cur_image: [0u8; 256],
            hnd_name: [0u8; 64],
            source: 0,
            infolen: 0,
            info: [0u8; 2048],
            _pad_tail: 0,
        };
        assert(m.cur_image@ =~= zeros(256));
        assert(m.hnd_name@ =~= zeros(64));
        assert(m.info@ =~= zeros(2048));
        m
    }

    /// Reads a message from exactly `PROGRESS_MSG_SIZE_UNPACKED` bytes.
    pub fn from_bytes(buf: &[u8]) -> (m: Option<Self>)
        ensures
            m is Some <==> buf@.len() == PROGRESS_MSG_SIZE_UNPACKED,
            m matches Some(x) ==> x.spec_bytes() == buf@,
    {
        let r = decode_exact::<RawProgressMsgUnpacked>(buf);
        proof {
            if let Some(x) = r {
                x.lemma_bytes_exact(buf@);
            }
        }
        r
    }

    /// The bytes of the message as the C struct holds them.
    pub fn to_bytes(&self) -> (out: Vec<u8>)
        ensures
            out@ == self.spec_bytes(),
            out@.len() == PROGRESS_MSG_SIZE_UNPACKED,
    {
        proof {
            self.lemma_bytes_agree(Seq::empty());
        }
        encode_to_vec(self)
    }

    /// A buffer of exactly the message size that holds a message is its bytes.
    pub proof fn lemma_bytes_exact(&self, b: Seq<u8>)
        requires
            self.agrees(b),
            b.len() == 2416,
        ensures
            self.spec_bytes() == b,
    {
        assert(b =~= b.subrange(0, 4) + b.subrange(4, 8) + b.subrange(8, 12) + b.subrange(12, 16)
            + b.subrange(16, 24) + b.subrange(24, 28) + b.subrange(28, 32) + b.subrange(32, 36)
            + b.subrange(36, 292) + b.subrange(292, 356) + b.subrange(356, 360) + b.subrange(
            360,
            364,
        ) + b.subrange(364, 2412) + b.subrange(2412, 2416));
    }
}

// ---------------------------------------------------------------------------
// progress_connect_ack
// ---------------------------------------------------------------------------

#[derive(Clone, Copy, Debug)]
pub struct RawProgressAck {
    pub apiversion: u32,
    pub magic: [u8; 4],
}

impl WireLayout for RawProgressAck {
    open spec fn wire_size() -> nat {
        8
    }

    open spec fn spec_bytes(&self) -> Seq<u8> {
        le_u32(self.apiversion) + self.magic@
    }

    open spec fn agrees(&self, b: Seq<u8>) -> bool {
        &&& b.len() >= 8
        &&& le_u32(self.apiversion) == b.subrange(0, 4)
        &&& self.magic@ == b.subrange(4, 8)
    }

    fn size() -> (n: usize) {
        PROGRESS_ACK_SIZE
    }

    fn encode(&self, out: &mut Vec<u8>) {
        put_u32(out, self.apiversion);
        put_bytes(out, &self.magic);
        assert(final(out)@ =~= old(out)@ + self.spec_bytes());
    }

    fn decode(buf: &[u8]) -> (v: Self) {
        let mut magic = [0u8; 4];
        read_into(&mut magic, buf, 4);
        RawProgressAck { apiversion: get_u32(buf, 0), magic }
    }

    proof fn lemma_bytes_agree(&self, rest: Seq<u8>) {
        let b = self.spec_bytes() + rest;
        assert(b.subrange(0, 4) =~= le_u32(self.apiversion));
        assert(b.subrange(4, 8) =~= self.magic@);
    }

    proof fn lemma_agree_unique(&self, other: &Self, b: Seq<u8>) {
        lemma_le_u32_injective(self.apiversion, other.apiversion);
        assert(self.magic =~= other.magic);
    }
}

impl RawProgressAck {
    /// Reads an acknowledgement from exactly `PROGRESS_ACK_SIZE` bytes.
    pub fn from_bytes(buf: &[u8]) -> (m: Option<Self>)
        ensures
            m is Some <==> buf@.len() == PROGRESS_ACK_SIZE,
            m matches Some(x) ==> x.spec_bytes() == buf@,
    {
        let r = decode_exact::<RawProgressAck>(buf);
        proof {
            if let Some(x) = r {
                assert(buf@ =~= buf@.subrange(0, 4) + buf@.subrange(4, 8));
            }
        }
        r
    }

    /// The bytes of the acknowledgement as the C struct holds them.
    pub fn to_bytes(&self) -> (out: Vec<u8>)
        ensures
            out@ == self.spec_bytes(),
            out@.len() == PROGRESS_ACK_SIZE,
    {
        encode_to_vec(self)
    }
}

// ---------------------------------------------------------------------------
// swupdate_request — embedded in the instmsg variant
// ---------------------------------------------------------------------------

/// `struct swupdate_request`. `len` is the C `size_t`, eight bytes wide in the
/// LP64 layout that these offsets describe.
#[derive(Clone, Copy, Debug)]
pub struct RawSwupdateRequest {
    pub apiversion: u32,
    /// `sourcetype` enum (C int)
    pub source: i32,
    /// `enum run_type` (C int)
    pub dry_run: i32,
    pub len: u64,
    pub info: [u8; 512],
    pub software_set: [u8; 256],
    pub running_mode: [u8; 256],
    /// C `bool`, kept as a byte.
    pub disable_store_swu: u8,
}

impl WireLayout for RawSwupdateRequest {
    open spec fn wire_size() -> nat {
        1056
    }

    open spec fn spec_bytes(&self) -> Seq<u8> {
        le_u32(self.apiversion) + le_i32(self.source) + le_i32(self.dry_run) + zeros(4) + le_u64(
            self.len,
        ) + self.info@ + self.software_set@ + self.running_mode@ + seq![self.disable_store_swu]
            + zeros(7)
    }

    open spec fn agrees(&self, b: Seq<u8>) -> bool {
        &&& b.len() >= 1056
        &&& le_u32(self.apiversion) == b.subrange(0, 4)
        &&& le_i32(self.source) == b.subrange(4, 8)
        &&& le_i32(self.dry_run) == b.subrange(8, 12)
        &&& le_u64(self.len) == b.subrange(16, 24)
        &&& self.info@ == b.subrange(24, 536)
        &&& self.software_set@ == b.subrange(536, 792)
        &&& self.running_mode@ == b.subrange(792, 1048)
        &&& self.disable_store_swu == b[1048]
    }

    fn size() -> (n: usize) {
        SWUPDATE_REQUEST_SIZE
    }

    fn encode(&self, out: &mut Vec<u8>) {
        put_u32(out, self.apiversion);
        put_i32(out, self.source);
        put_i32(out, self.dry_run);
        put_zeros(out, 4);
        put_u64(out, self.len);
        put_bytes(out, &self.info);
        put_bytes(out, &self.software_set);
        put_bytes(out, &self.running_mode);
        out.push(self.disable_store_swu);
        put_zeros(out, 7);
        assert(final(out)@ =~= old(out)@ + self.spec_bytes());
    }

    fn decode(buf: &[u8]) -> (v: Self) {
        let mut info = [0u8; 512];
        read_into(&mut info, buf, 24);
        let mut software_set = [0u8; 256];
        read_into(&mut software_set, buf, 536);
        let mut running_mode = [0u8; 256];
        read_into(&mut running_mode, buf, 792);
        RawSwupdateRequest {
            apiversion: get_u32(buf, 0),
            source: get_i32(buf, 4),
            dry_run: get_i32(buf, 8),
            len: get_u64(buf, 16),
            info,
            software_set,
            running_mode,
            disable_store_swu: buf[1048],
        }
    }

    proof fn lemma_bytes_agree(&self, rest: Seq<u8>) {
        let b = self.spec_bytes() + rest;
        assert(b.subrange(0, 4) =~= le_u32(self.apiversion));
        assert(b.subrange(4, 8) =~= le_i32(self.source));
        assert(b.subrange(8, 12) =~= le_i32(self.dry_run));
        assert(b.subrange(16, 24) =~= le_u64(self.len));
        assert(b.subrange(24, 536) =~= self.info@);
        assert(b.subrange(536, 792) =~= self.software_set@);
        assert(b.subrange(792, 1048) =~= self.running_mode@);
    }

    proof fn lemma_agree_unique(&self, other: &Self, b: Seq<u8>) {
        lemma_le_u32_injective(self.apiversion, other.apiversion);
        lemma_le_i32_injective(self.source, other.source);
        lemma_le_i32_injective(self.dry_run, other.dry_run);
        lemma_le_u64_injective(self.len, other.len);
        assert(self.info =~= other.info);
        assert(self.software_set =~= other.software_set);
        assert(self.running_mode =~= other.running_mode);
    }
}

impl RawSwupdateRequest {
    /// An all-zero request.
    pub fn zeroed() -> (r: Self)
        ensures
            r.apiversion == 0 && r.source == 0 && r.dry_run == 0 && r.len == 0
                && r.disable_store_swu == 0,
            r.info@ == zeros(512),
            r.software_set@ == zeros(256),
            r.running_mode@ == zeros(256),
    {
        let r = RawSwupdateRequest {
            apiversion: 0,
            source: 0,
            dry_run: 0,
            len: 0,
            info: [0u8; 512],
            software_set: [0u8; 256],
            running_mode: [0u8; 256],
            disable_store_swu: 0,
        };
        assert(r.info@ =~= zeros(512));
        assert(r.software_set@ =~= zeros(256));
        assert(r.running_mode@ =~= zeros(256));
        r
    }
}

// ---------------------------------------------------------------------------
// msgdata union variant structs
// ---------------------------------------------------------------------------

#[derive(Clone, Copy, Debug)]
pub struct RawStatusData {
    pub current: i32,
    pub last_result: i32,
    pub error: i32,
    pub desc: [u8; 2048],
}

impl WireLayout for RawStatusData {
    open spec fn wire_size() -> nat {
        2060
    }

    open spec fn spec_bytes(&self) -> Seq<u8> {
        le_i32(self.current) + le_i32(self.last_result) + le_i32(self.error) + self.desc@
    }

    open spec fn agrees(&self, b: Seq<u8>) -> bool {
        &&& b.len() >= 2060
        &&& le_i32(self.current) == b.subrange(0, 4)
        &&& le_i32(self.last_result) == b.subrange(4, 8)
        &&& le_i32(self.error) == b.subrange(8, 12)
        &&& self.desc@ == b.subrange(12, 2060)
    }

    fn size() -> (n: usize) {
        STATUS_DATA_SIZE
    }

    fn encode(&self, out: &mut Vec<u8>) {
        put_i32(out, self.current);
        put_i32(out, self.last_result);
        put_i32(out, self.error);
        put_bytes(out, &self.desc);
        assert(final(out)@ =~= old(out)@ + self.spec_bytes());
    }

    fn decode(buf: &[u8]) -> (v: Self) {
        let mut desc = [0u8; 2048];
        read_into(&mut desc, buf, 12);
        RawStatusData {
            current: get_i32(buf, 0),
            last_result: get_i32(buf, 4),
            error: get_i32(buf, 8),
            desc,
        }
    }

    proof fn lemma_bytes_agree(&self, rest: Seq<u8>) {
        let b = self.spec_bytes() + rest;
        assert(b.subrange(0, 4) =~= le_i32(self.current));
        assert(b.subrange(4, 8) =~= le_i32(self.last_result));
        assert(b.subrange(8, 12) =~= le_i32(self.error));
        assert(b.subrange(12, 2060) =~= self.desc@);
    }

    proof fn lemma_agree_unique(&self, other: &Self, b: Seq<u8>) {
        lemma_le_i32_injective(self.current, other.current);
        lemma_le_i32_injective(self.last_result, other.last_result);
        lemma_le_i32_injective(self.error, other.error);
        assert(self.desc =~= other.desc);
    }
}

#[derive(Clone, Copy, Debug)]
pub struct RawNotifyData {
    pub status: i32,
    pub error: i32,
    pub level: i32,
    pub msg: [u8; 2048],
}

impl WireLayout for RawNotifyData {
    open spec fn wire_size() -> nat {
        2060
    }

    open spec fn spec_bytes(&self) -> Seq<u8> {
        le_i32(self.status) + le_i32(self.error) + le_i32(self.level) + self.msg@
    }

    open spec fn agrees(&self, b: Seq<u8>) -> bool {
        &&& b.len() >= 2060
        &&& le_i32(self.status) == b.subrange(0, 4)
        &&& le_i32(self.error) == b.subrange(4, 8)
        &&& le_i32(self.level) == b.subrange(8, 12)
        &&& self.msg@ == b.subrange(12, 2060)
    }

    fn size() -> (n: usize) {
        NOTIFY_DATA_SIZE
    }

    fn encode(&self, out: &mut Vec<u8>) {
        put_i32(out, self.status);
        put_i32(out, self.error);
        put_i32(out, self.level);
        put_bytes(out, &self.msg);
        assert(final(out)@ =~= old(out)@ + self.spec_bytes());
    }

    fn decode(buf: &[u8]) -> (v: Self) {
        let mut msg = [0u8; 2048];
        read_into(&mut msg, buf, 12);
        RawNotifyData {
            status: get_i32(buf, 0),
            error: get_i32(buf, 4),
            level: get_i32(buf, 8),
            msg,
        }
    }

    proof fn lemma_bytes_agree(&self, rest: Seq<u8>) {
        let b = self.spec_bytes() + rest;
        assert(b.subrange(0, 4) =~= le_i32(self.status));
        assert(b.subrange(4, 8) =~= le_i32(self.error));
        assert(b.subrange(8, 12) =~= le_i32(self.level));
        assert(b.subrange(12, 2060) =~= self.msg@);
    }

    proof fn lemma_agree_unique(&self, other: &Self, b: Seq<u8>) {
        lemma_le_i32_injective(self.status, other.status);
        lemma_le_i32_injective(self.error, other.error);
        lemma_le_i32_injective(self.level, other.level);
        assert(self.msg =~= other.msg);
    }
}

#[derive(Clone, Copy, Debug)]
pub struct RawInstMsgData {
    pub req: RawSwupdateRequest,
    /// C `unsigned int`
    pub len: u32,
    pub buf: [u8; 2048],
}

impl WireLayout for RawInstMsgData {
    open spec fn wire_size() -> nat {
        3112
    }

    open spec fn spec_bytes(&self) -> Seq<u8> {
        self.req.spec_bytes() + le_u32(self.len) + self.buf@ + zeros(4)
    }

    open spec fn agrees(&self, b: Seq<u8>) -> bool {
        &&& b.len() >= 3112
        &&& self.req.agrees(b)
        &&& le_u32(self.len) == b.subrange(1056, 1060)
        &&& self.buf@ == b.subrange(1060, 3108)
    }

    fn size() -> (n: usize) {
        INSTMSG_DATA_SIZE
    }

    fn encode(&self, out: &mut Vec<u8>) {
        self.req.encode(out);
        put_u32(out, self.len);
        put_bytes(out, &self.buf);
        put_zeros(out, 4);
        assert(final(out)@ =~= old(out)@ + self.spec_bytes());
    }

    fn decode(buf: &[u8]) -> (v: Self) {
        let req = RawSwupdateRequest::decode(buf);
        let mut data = [0u8; 2048];
        read_into(&mut data, buf, 1060);
        RawInstMsgData { req, len: get_u32(buf, 1056), buf: data }
    }

    proof fn lemma_bytes_agree(&self, rest: Seq<u8>) {
        let tail = le_u32(self.len) + self.buf@ + zeros(4) + rest;
        let b = self.spec_bytes() + rest;
        assert(b =~= self.req.spec_bytes() + tail);
        self.req.lemma_bytes_agree(tail);
        assert(b.subrange(1056, 1060) =~= le_u32(self.len));
        assert(b.subrange(1060, 3108) =~= self.buf@);
    }

    proof fn lemma_agree_unique(&self, other: &Self, b: Seq<u8>) {
        self.req.lemma_agree_unique(&other.req, b);
        lemma_le_u32_injective(self.len, other.len);
        assert(self.buf =~= other.buf);
    }
}

#[derive(Clone, Copy, Debug)]
pub struct RawProcMsgData {
    /// `sourcetype` enum
    pub source: i32,
    pub cmd: i32,
    pub timeout: i32,
    pub len: u32,
    pub buf: [u8; 2048],
}

impl WireLayout for RawProcMsgData {
    open spec fn wire_size() -> nat {
        2064
    }

    open spec fn spec_bytes(&self) -> Seq<u8> {
        le_i32(self.source) + le_i32(self.cmd) + le_i32(self.timeout) + le_u32(self.len)
            + self.buf@
    }

    open spec fn agrees(&self, b: Seq<u8>) -> bool {
        &&& b.len() >= 2064
        &&& le_i32(self.source) == b.subrange(0, 4)
        &&& le_i32(self.cmd) == b.subrange(4, 8)
        &&& le_i32(self.timeout) == b.subrange(8, 12)
        &&& le_u32(self.len) == b.subrange(12, 16)
        &&& self.buf@ == b.subrange(16, 2064)
    }

    fn size() -> (n: usize) {
        PROCMSG_DATA_SIZE
    }

    fn encode(&self, out: &mut Vec<u8>) {
        put_i32(out, self.source);
        put_i32(out, self.cmd);
        put_i32(out, self.timeout);
        put_u32(out, self.len);
        put_bytes(out, &self.buf);
        assert(final(out)@ =~= old(out)@ + self.spec_bytes());
    }

    fn decode(buf: &[u8]) -> (v: Self) {
        let mut data = [0u8; 2048];
        read_into(&mut data, buf, 16);
        RawProcMsgData {
            source: get_i32(buf, 0),
            cmd: get_i32(buf, 4),
            timeout: get_i32(buf, 8),
            len: get_u32(buf, 12),
            buf: data,
        }
    }

    proof fn lemma_bytes_agree(&self, rest: Seq<u8>) {
        let b = self.spec_bytes() + rest;
        assert(b.subrange(0, 4) =~= le_i32(self.source));
        assert(b.subrange(4, 8) =~= le_i32(self.cmd));
        assert(b.subrange(8, 12) =~= le_i32(self.timeout));
        assert(b.subrange(12, 16) =~= le_u32(self.len));
        assert(b.subrange(16, 2064) =~= self.buf@);
    }

    proof fn lemma_agree_unique(&self, other: &Self, b: Seq<u8>) {
        lemma_le_i32_injective(self.source, other.source);
        lemma_le_i32_injective(self.cmd, other.cmd);
        lemma_le_i32_injective(self.timeout, other.timeout);
        lemma_le_u32_injective(self.len, other.len);
        assert(self.buf =~= other.buf);
    }
}

#[derive(Clone, Copy, Debug)]
pub struct RawAesKeyData {
    pub key_ascii: [u8; 65],
    pub ivt_ascii: [u8; 33],
}

impl WireLayout for RawAesKeyData {
    open spec fn wire_size() -> nat {
        98
    }

    open spec fn spec_bytes(&self) -> Seq<u8> {
        self.key_ascii@ + self.ivt_ascii@
    }

    open spec fn agrees(&self, b: Seq<u8>) -> bool {
        &&& b.len() >= 98
        &&& self.key_ascii@ == b.subrange(0, 65)
        &&& self.ivt_ascii@ == b.subrange(65, 98)
    }

    fn size() -> (n: usize) {
        AESKEY_DATA_SIZE
    }

    fn encode(&self, out: &mut Vec<u8>) {
        put_bytes(out, &self.key_ascii);
        put_bytes(out, &self.ivt_ascii);
        assert(final(out)@ =~= old(out)@ + self.spec_bytes());
    }

    fn decode(buf: &[u8]) -> (v: Self) {
        let mut key_ascii = [0u8; 65];
        read_into(&mut key_ascii, buf, 0);
        let mut ivt_ascii = [0u8; 33];
        read_into(&mut ivt_ascii, buf, 65);
        RawAesKeyData { key_ascii, ivt_ascii }
    }

    proof fn lemma_bytes_agree(&self, rest: Seq<u8>) {
        let b = self.spec_bytes() + rest;
        assert(b.subrange(0, 65) =~= self.key_ascii@);
        assert(b.subrange(65, 98) =~= self.ivt_ascii@);
    }

    proof fn lemma_agree_unique(&self, other: &Self, b: Seq<u8>) {
        assert(self.key_ascii =~= other.key_ascii);
        assert(self.ivt_ascii =~= other.ivt_ascii);
    }
}

#[derive(Clone, Copy, Debug)]
pub struct RawVersionsData {
    pub minimum_version: [u8; 256],
    pub maximum_version: [u8; 256],
    pub current_version: [u8; 256],
    pub update_type: [u8; 256],
}

impl WireLayout for RawVersionsData {
    open spec fn wire_size() -> nat {
        1024
    }

    open spec fn spec_bytes(&self) -> Seq<u8> {
        self.minimum_version@ + self.maximum_version@ + self.current_version@
            + self.update_type@
    }

    open spec fn agrees(&self, b: Seq<u8>) -> bool {
        &&& b.len() >= 1024
        &&& self.minimum_version@ == b.subrange(0, 256)
        &&& self.maximum_version@ == b.subrange(256, 512)
        &&& self.current_version@ == b.subrange(512, 768)
        &&& self.update_type@ == b.subrange(768, 1024)
    }

    fn size() -> (n: usize) {
        VERSIONS_DATA_SIZE
    }

    fn encode(&self, out: &mut Vec<u8>) {
        put_bytes(out, &self.minimum_version);
        put_bytes(out, &self.maximum_version);
        put_bytes(out, &self.current_version);
        put_bytes(out, &self.update_type);
        assert(final(out)@ =~= old(out)@ + self.spec_bytes());
    }

    fn decode(buf: &[u8]) -> (v: Self) {
        let mut minimum_version = [0u8; 256];
        read_into(&mut minimum_version, buf, 0);
        let mut maximum_version = [0u8; 256];
        read_into(&mut maximum_version, buf, 256);
        let mut current_version = [0u8; 256];
        read_into(&mut current_version, buf, 512);
        let mut update_type = [0u8; 256];
        read_into(&mut update_type, buf, 768);
        RawVersionsData { minimum_version, maximum_version, current_version, update_type }
    }

    proof fn lemma_bytes_agree(&self, rest: Seq<u8>) {
        let b = self.spec_bytes() + rest;
        assert(b.subrange(0, 256) =~= self.minimum_version@);
        assert(b.subrange(256, 512) =~= self.maximum_version@);
        assert(b.subrange(512, 768) =~= self.current_version@);
        assert(b.subrange(768, 1024) =~= self.update_type@);
    }

    proof fn lemma_agree_unique(&self, other: &Self, b: Seq<u8>) {
        assert(self.minimum_version =~= other.minimum_version);
        assert(self.maximum_version =~= other.maximum_version);
        assert(self.current_version =~= other.current_version);
        assert(self.update_type =~= other.update_type);
    }
}

#[derive(Clone, Copy, Debug)]
pub struct RawRevisionsData {
    pub boardname: [u8; 256],
    pub revision: [u8; 256],
}

impl WireLayout for RawRevisionsData {
    open spec fn wire_size() -> nat {
        512
    }

    open spec fn spec_bytes(&self) -> Seq<u8> {
        self.boardname@ + self.revision@
    }

    open spec fn agrees(&self, b: Seq<u8>) -> bool {
        &&& b.len() >= 512
        &&& self.boardname@ == b.subrange(0, 256)
        &&& self.revision@ == b.subrange(256, 512)
    }

    fn size() -> (n: usize) {
        REVISIONS_DATA_SIZE
    }

    fn encode(&self, out: &mut Vec<u8>) {
        put_bytes(out, &self.boardname);
        put_bytes(out, &self.revision);
        assert(final(out)@ =~= old(out)@ + self.spec_bytes());
    }

    fn decode(buf: &[u8]) -> (v: Self) {
        let mut boardname = [0u8; 256];
        read_into(&mut boardname, buf, 0);
        let mut revision = [0u8; 256];
        read_into(&mut revision, buf, 256);
        RawRevisionsData { boardname, revision }
    }

    proof fn lemma_bytes_agree(&self, rest: Seq<u8>) {
        let b = self.spec_bytes() + rest;
        assert(b.subrange(0, 256) =~= self.boardname@);
        assert(b.subrange(256, 512) =~= self.revision@);
    }

    proof fn lemma_agree_unique(&self, other: &Self, b: Seq<u8>) {
        assert(self.boardname =~= other.boardname);
        assert(self.revision =~= other.revision);
    }
}

#[derive(Clone, Copy, Debug)]
pub struct RawVarsData {
    pub varnamespace: [u8; 256],
    pub varname: [u8; 256],
    pub varvalue: [u8; 256],
}

impl WireLayout for RawVarsData {
    open spec fn wire_size() -> nat {
        768
    }

    open spec fn spec_bytes(&self) -> Seq<u8> {
        self.varnamespace@ + self.varname@ + self.varvalue@
    }

    open spec fn agrees(&self, b: Seq<u8>) -> bool {
        &&& b.len() >= 768
        &&& self.varnamespace@ == b.subrange(0, 256)
        &&& self.varname@ == b.subrange(256, 512)
        &&& self.varvalue@ == b.subrange(512, 768)
    }

    fn size() -> (n: usize) {
        VARS_DATA_SIZE
    }

    fn encode(&self, out: &mut Vec<u8>) {
        put_bytes(out, &self.varnamespace);
        put_bytes(out, &self.varname);
        put_bytes(out, &self.varvalue);
        assert(final(out)@ =~= old(out)@ + self.spec_bytes());
    }

    fn decode(buf: &[u8]) -> (v: Self) {
        let mut varnamespace = [0u8; 256];
        read_into(&mut varnamespace, buf, 0);
        let mut varname = [0u8; 256];
        read_into(&mut varname, buf, 256);
        let mut varvalue = [0u8; 256];
        read_into(&mut varvalue, buf, 512);
        RawVarsData { varnamespace, varname, varvalue }
    }

    proof fn lemma_bytes_agree(&self, rest: Seq<u8>) {
        let b = self.spec_bytes() + rest;
        assert(b.subrange(0, 256) =~= self.varnamespace@);
        assert(b.subrange(256, 512) =~= self.varname@);
        assert(b.subrange(512, 768) =~= self.varvalue@);
    }

    proof fn lemma_agree_unique(&self, other: &Self, b: Seq<u8>) {
        assert(self.varnamespace =~= other.varnamespace);
        assert(self.varname =~= other.varname);
        assert(self.varvalue =~= other.varvalue);
    }
}

#[derive(Clone, Copy, Debug)]
pub struct RawDwlUrlData {
    pub filename: [u8; 256],
    pub url: [u8; 1024],
}

impl WireLayout for RawDwlUrlData {
    open spec fn wire_size() -> nat {
        1280
    }

    open spec fn spec_bytes(&self) -> Seq<u8> {
        self.filename@ + self.url@
    }

    open spec fn agrees(&self, b: Seq<u8>) -> bool {
        &&& b.len() >= 1280
        &&& self.filename@ == b.subrange(0, 256)
        &&& self.url@ == b.subrange(256, 1280)
    }

    fn size() -> (n: usize) {
        DWL_URL_DATA_SIZE
    }

    fn encode(&self, out: &mut Vec<u8>) {
        put_bytes(out, &self.filename);
        put_bytes(out, &self.url);
        assert(final(out)@ =~= old(out)@ + self.spec_bytes());
    }

    fn decode(buf: &[u8]) -> (v: Self) {
        let mut filename = [0u8; 256];
        read_into(&mut filename, buf, 0);
        let mut url = [0u8; 1024];
        read_into(&mut url, buf, 256);
        RawDwlUrlData { filename, url }
    }

    proof fn lemma_bytes_agree(&self, rest: Seq<u8>) {
        let b = self.spec_bytes() + rest;
        assert(b.subrange(0, 256) =~= self.filename@);
        assert(b.subrange(256, 1280) =~= self.url@);
    }

    proof fn lemma_agree_unique(&self, other: &Self, b: Seq<u8>) {
        assert(self.filename =~= other.filename);
        assert(self.url =~= other.url);
    }
}

// ---------------------------------------------------------------------------
// msgdata union
// ---------------------------------------------------------------------------

/// The C union `msgdata`, held as its raw bytes. Each variant is read from,
/// and written to, the start of these bytes; the bytes past a variant's size
/// belong to larger variants and are left alone when it is written.
#[derive(Clone, Copy, Debug)]
pub struct RawMsgData {
    pub bytes: [u8; 3112],
}

impl RawMsgData {
    /// All bytes zero.
    pub fn zeroed() -> (d: Self)
        ensures
            d.bytes@ == zeros(3112),
    {
        let d = RawMsgData { bytes: [0u8; 3112] };
        assert(d.bytes@ =~= zeros(3112));
        d
    }

    /// Reads the variant `T` from the union.
    pub fn read_variant<T: WireLayout>(&self) -> (v: T)
        requires
            T::wire_size() <= 3112,
        ensures
            v.agrees(self.bytes@),
    {
        T::decode(&self.bytes)
    }

    /// Writes the variant `T` into the union.
    pub fn write_variant<T: WireLayout>(&mut self, v: &T)
        requires
            T::wire_size() <= 3112,
        ensures
            final(self).bytes@ == v.spec_bytes() + old(self).bytes@.skip(T::wire_size() as int),
    {
        proof {
            v.lemma_bytes_agree(Seq::empty());
        }
        let enc = encode_to_vec(v);
        write_at(&mut self.bytes, 0, enc.as_slice());
        assert(self.bytes@ =~= v.spec_bytes() + old(self).bytes@.skip(T::wire_size() as int));
    }

    /// The plain byte array variant `msg`.
    pub fn msg(&self) -> (m: [u8; 128])
        ensures
            m@ == self.bytes@.take(128),
    {
        let mut m = [0u8; 128];
        read_into(&mut m, &self.bytes, 0);
        m
    }

    /// Writes the plain byte array variant `msg`.
    pub fn set_msg(&mut self, m: &[u8; 128])
        ensures
            final(self).bytes@ == m@ + old(self).bytes@.skip(128),
    {
        write_at(&mut self.bytes, 0, m);
        assert(self.bytes@ =~= m@ + old(self).bytes@.skip(128));
    }

    pub fn status(&self) -> (v: RawStatusData)
        ensures
            v.agrees(self.bytes@),
    {
        self.read_variant()
    }

    pub fn set_status(&mut self, v: &RawStatusData)
        ensures
            final(self).bytes@ == v.spec_bytes() + old(self).bytes@.skip(2060),
    {
        self.write_variant(v)
    }

    pub fn notify(&self) -> (v: RawNotifyData)
        ensures
            v.agrees(self.bytes@),
    {
        self.read_variant()
    }

    pub fn set_notify(&mut self, v: &RawNotifyData)
        ensures
            final(self).bytes@ == v.spec_bytes() + old(self).bytes@.skip(2060),
    {
        self.write_variant(v)
    }

    pub fn instmsg(&self) -> (v: RawInstMsgData)
        ensures
            v.agrees(self.bytes@),
    {
        self.read_variant()
    }

    pub fn set_instmsg(&mut self, v: &RawInstMsgData)
        ensures
            final(self).bytes@ == v.spec_bytes(),
    {
        self.write_variant(v);
        assert(self.bytes@ =~= v.spec_bytes());
    }

    pub fn procmsg(&self) -> (v: RawProcMsgData)
        ensures
            v.agrees(self.bytes@),
    {
        self.read_variant()
    }

    pub fn set_procmsg(&mut self, v: &RawProcMsgData)
        ensures
            final(self).bytes@ == v.spec_bytes() + old(self).bytes@.skip(2064),
    {
        self.write_variant(v)
    }

    pub fn aeskeymsg(&self) -> (v: RawAesKeyData)
        ensures
            v.agrees(self.bytes@),
    {
        self.read_variant()
    }

    pub fn set_aeskeymsg(&mut self, v: &RawAesKeyData)
        ensures
            final(self).bytes@ == v.spec_bytes() + old(self).bytes@.skip(98),
    {
        self.write_variant(v)
    }

    pub fn versions(&self) -> (v: RawVersionsData)
        ensures
            v.agrees(self.bytes@),
    {
        self.read_variant()
    }

    pub fn set_versions(&mut self, v: &RawVersionsData)
        ensures
            final(self).bytes@ == v.spec_bytes() + old(self).bytes@.skip(1024),
    {
        self.write_variant(v)
    }

    pub fn revisions(&self) -> (v: RawRevisionsData)
        ensures
            v.agrees(self.bytes@),
    {
        self.read_variant()
    }

    pub fn set_revisions(&mut self, v: &RawRevisionsData)
        ensures
            final(self).bytes@ == v.spec_bytes() + old(self).bytes@.skip(512),
    {
        self.write_variant(v)
    }

    pub fn vars(&self) -> (v: RawVarsData)
        ensures
            v.agrees(self.bytes@),
    {
        self.read_variant()
    }

    pub fn set_vars(&mut self, v: &RawVarsData)
        ensures
            final(self).bytes@ == v.spec_bytes() + old(self).bytes@.skip(768),
    {
        self.write_variant(v)
    }

    pub fn dwl_url(&self) -> (v: RawDwlUrlData)
        ensures
            v.agrees(self.bytes@),
    {
        self.read_variant()
    }

    pub fn set_dwl_url(&mut self, v: &RawDwlUrlData)
        ensures
            final(self).bytes@ == v.spec_bytes() + old(self).bytes@.skip(1280),
    {
        self.write_variant(v)
    }
}

/// The union is exactly as large as its largest variant, `instmsg`, and
/// every variant fits in it.
pub proof fn law_msgdata_size()
    ensures
        MSGDATA_SIZE == RawInstMsgData::wire_size(),
        RawStatusData::wire_size() <= MSGDATA_SIZE,
        RawNotifyData::wire_size() <= MSGDATA_SIZE,
        RawProcMsgData::wire_size() <= MSGDATA_SIZE,
        RawAesKeyData::wire_size() <= MSGDATA_SIZE,
        RawVersionsData::wire_size() <= MSGDATA_SIZE,
        RawRevisionsData::wire_size() <= MSGDATA_SIZE,
        RawVarsData::wire_size() <= MSGDATA_SIZE,
        RawDwlUrlData::wire_size() <= MSGDATA_SIZE,
        MSG_BYTES_SIZE <= MSGDATA_SIZE,
        IPC_MESSAGE_SIZE == 8 + MSGDATA_SIZE,
{
}

/// Reading a variant of the union right after writing it gives back the
/// value written, whatever the union held before.
pub proof fn law_union_write_read<T: WireLayout>(before: Seq<u8>, v: T, read: T)
    requires
        read.agrees(v.spec_bytes() + before.skip(T::wire_size() as int)),
    ensures
        read == v,
{
    law_decode_encode(v, before.skip(T::wire_size() as int), read);
}

// ---------------------------------------------------------------------------
// ipc_message — the top-level wire message
// ---------------------------------------------------------------------------

#[derive(Clone, Copy, Debug)]
pub struct RawIpcMessage {
    pub magic: i32,
    pub msg_type: i32,
    pub data: RawMsgData,
}

impl WireLayout for RawIpcMessage {
    open spec fn wire_size() -> nat {
        3120
    }

    open spec fn spec_bytes(&self) -> Seq<u8> {
        le_i32(self.magic) + le_i32(self.msg_type) + self.data.bytes@
    }

    open spec fn agrees(&self, b: Seq<u8>) -> bool {
        &&& b.len() >= 3120
        &&& le_i32(self.magic) == b.subrange(0, 4)
        &&& le_i32(self.msg_type) == b.subrange(4, 8)
        &&& self.data.bytes@ == b.subrange(8, 3120)
    }

    fn size() -> (n: usize) {
        IPC_MESSAGE_SIZE
    }

    fn encode(&self, out: &mut Vec<u8>) {
        put_i32(out, self.magic);
        put_i32(out, self.msg_type);
        put_bytes(out, &self.data.bytes);
        assert(final(out)@ =~= old(out)@ + self.spec_bytes());
    }

    fn decode(buf: &[u8]) -> (v: Self) {
        let mut bytes = [0u8; 3112];
        read_into(&mut bytes, buf, 8);
        RawIpcMessage {
            magic: get_i32(buf, 0),
            msg_type: get_i32(buf, 4),
            data: RawMsgData { bytes },
        }
    }

    proof fn lemma_bytes_agree(&self, rest: Seq<u8>) {
        let b = self.spec_bytes() + rest;
        assert(b.subrange(0, 4) =~= le_i32(self.magic));
        assert(b.subrange(4, 8) =~= le_i32(self.msg_type));
        assert(b.subrange(8, 3120) =~= self.data.bytes@);
    }

    proof fn lemma_agree_unique(&self, other: &Self, b: Seq<u8>) {
        lemma_le_i32_injective(self.magic, other.magic);
        lemma_le_i32_injective(self.msg_type, other.msg_type);
        assert(self.data.bytes =~= other.data.bytes);
    }
}

impl RawIpcMessage {
    /// A zero-initialized IPC message.
    pub fn zeroed() -> (m: Self)
        ensures
            m.magic == 0,
            m.msg_type == 0,
            m.data.bytes@ == zeros(3112),
    {
        RawIpcMessage { magic: 0, msg_type: 0, data: RawMsgData::zeroed() }
    }

    /// A zero-initialized message with the magic set and the given type.
    pub fn new(msg_type: MsgType) -> (m: Self)
        ensures
            m.magic == IPC_MAGIC,
            m.msg_type == msg_type.code(),
            m.data.bytes@ == zeros(3112),
    {
        let mut msg = Self::zeroed();
        msg.magic = IPC_MAGIC;
        msg.msg_type = msg_type.to_i32();
        msg
    }

    /// Whether the magic number is `IPC_MAGIC`.
    pub fn is_valid(&self) -> (b: bool)
        ensures
            b == (self.magic == IPC_MAGIC),
    {
        self.magic == IPC_MAGIC
    }

    /// The message type, if the type field names one.
    pub fn msg_type(&self) -> (t: Option<MsgType>)
        ensures
            t is Some <==> 0 <= self.msg_type <= 15,
            t matches Some(m) ==> m.code() == self.msg_type,
    {
        MsgType::from_i32(self.msg_type)
    }

    /// A buffer of exactly the message size that holds a message is its bytes.
    pub proof fn lemma_bytes_exact(&self, b: Seq<u8>)
        requires
            self.agrees(b),
            b.len() == 3120,
        ensures
            self.spec_bytes() == b,
    {
        assert(b =~= b.subrange(0, 4) + b.subrange(4, 8) + b.subrange(8, 3120));
    }
}

/// Reads an IPC message from exactly `IPC_MESSAGE_SIZE` bytes; `None` on any
/// other length.
pub fn ipc_message_from_bytes(buf: &[u8]) -> (m: Option<Box<RawIpcMessage>>)
    ensures
        m is Some <==> buf@.len() == IPC_MESSAGE_SIZE,
        m matches Some(x) ==> x.spec_bytes() == buf@,
{
    match decode_exact::<RawIpcMessage>(buf) {
        Some(x) => {
            proof {
                x.lemma_bytes_exact(buf@);
            }
            Some(Box::new(x))
        },
        None => None,
    }
}

/// The bytes of an IPC message as the C struct holds them.
pub fn ipc_message_to_bytes(msg: &RawIpcMessage) -> (out: Vec<u8>)
    ensures
        out@ == msg.spec_bytes(),
        out@.len() == IPC_MESSAGE_SIZE,
{
    proof {
        msg.lemma_bytes_agree(Seq::empty());
    }
    encode_to_vec(msg)
}

/// Reading the bytes of a message gives back that message, and the bytes of
/// a message read from a buffer are that buffer.
pub proof fn law_ipc_message_roundtrip(m: RawIpcMessage, parsed: RawIpcMessage, buf: Seq<u8>)
    ensures
        m.spec_bytes().len() == IPC_MESSAGE_SIZE,
        parsed.spec_bytes() == m.spec_bytes() ==> parsed == m,
        parsed.agrees(buf) && buf.len() == IPC_MESSAGE_SIZE ==> parsed.spec_bytes() == buf,
{
    m.lemma_bytes_agree(Seq::empty());
    if parsed.spec_bytes() == m.spec_bytes() {
        parsed.lemma_bytes_agree(Seq::empty());
        assert(m.spec_bytes() + Seq::<u8>::empty() =~= m.spec_bytes());
        assert(parsed.spec_bytes() + Seq::<u8>::empty() =~= parsed.spec_bytes());
        parsed.lemma_agree_unique(&m, m.spec_bytes());
    }
    if parsed.agrees(buf) && buf.len() == IPC_MESSAGE_SIZE {
        parsed.lemma_bytes_exact(buf);
    }
}

// ---------------------------------------------------------------------------
// C string helpers
// ---------------------------------------------------------------------------

/// The predicate "is not the NUL byte".
pub open spec fn non_nul() -> spec_fn(u8) -> bool {
    |b: u8| b != 0
}

/// The bytes of a NUL-terminated C string: everything before the first NUL,
/// or the whole buffer if it holds none.
pub open spec fn cstr_bytes(b: Seq<u8>) -> Seq<u8> {
    b.take(prefix_len(b, non_nul()) as int)
}

/// How many bytes `write_cstr` copies: all of them if they fit with a
/// terminating NUL, else as many as fit.
pub open spec fn cstr_copy_len(dst_len: nat, src_len: nat) -> nat {
    let room: nat = if dst_len == 0 {
        0
    } else {
        (dst_len - 1) as nat
    };
    if src_len < room {
        src_len
    } else {
        room
    }
}

/// The buffer `dst` after `write_cstr` copies `src` into it.
pub open spec fn cstr_written(dst: Seq<u8>, src: Seq<u8>) -> Seq<u8> {
    let k = cstr_copy_len(dst.len(), src.len());
    if dst.len() == 0 {
        dst
    } else {
        src.take(k as int) + seq![0u8] + dst.skip(k + 1int)
    }
}

/// Extract a Rust `String` from a NUL-padded C byte array: the bytes before
/// the first NUL, decoded as UTF-8 with invalid sequences replaced.
pub fn cstr_from_bytes(bytes: &[u8]) -> (s: String)
    ensures
        s@ == utf8_lossy(cstr_bytes(bytes@)),
        valid_utf8(cstr_bytes(bytes@)) ==> s@ == decode_utf8(cstr_bytes(bytes@)),
        forall|j: int| 0 <= j < s@.len() ==> s@[j] != '\0',
{
    let n = bytes.len();
    let mut end: usize = 0;
    while end < n && bytes[end] != 0
        invariant
            n == bytes@.len(),
            end <= n,
            forall|j: int| 0 <= j < end ==> bytes@[j] != 0,
        decreases n - end,
    {
        end = end + 1;
    }
    proof {
        lemma_prefix_len(bytes@, non_nul(), end as int);
    }
    let prefix = slice_subrange(bytes, 0, end);
    assert(prefix@ =~= cstr_bytes(bytes@));
    string_from_utf8_lossy(prefix)
}

/// Write a Rust string into a fixed-size NUL-padded C byte array.
/// Truncates if the string is too long and always NUL-terminates: the bytes
/// copied are followed by a NUL; the bytes after that NUL are left as they
/// were.
pub fn write_cstr(dst: &mut [u8], src: &str)
    ensures
        final(dst)@ == cstr_written(old(dst)@, encode_utf8(src@)),
        old(dst)@.len() > 0 ==> final(dst)@[cstr_copy_len(
            old(dst)@.len(),
            encode_utf8(src@).len(),
        ) as int] == 0,
{
    let bytes = src.as_bytes();
    if dst.len() == 0 {
        return;
    }
    let room: usize = dst.len() - 1;
    let copy_len: usize = if bytes.len() < room {
        bytes.len()
    } else {
        room
    };
    write_at(dst, 0, slice_subrange(bytes, 0, copy_len));
    dst[copy_len] = 0;
    assert(dst@ =~= cstr_written(old(dst)@, encode_utf8(src@)));
}

/// Writing a C string into a non-empty buffer, whatever it held, and reading
/// it back gives the bytes that were copied: the whole string when it fits
/// with its NUL, the longest prefix that fits otherwise.
pub proof fn law_cstr_write_read(dst: Seq<u8>, src: Seq<u8>)
    requires
        dst.len() > 0,
        forall|i: int| 0 <= i < src.len() ==> src[i] != 0,
    ensures
        cstr_bytes(cstr_written(dst, src)) == src.take(
            cstr_copy_len(dst.len(), src.len()) as int,
        ),
        cstr_written(dst, src).len() == dst.len(),
        cstr_written(dst, src)[cstr_copy_len(dst.len(), src.len()) as int] == 0,
{
    let k = cstr_copy_len(dst.len(), src.len()) as int;
    let w = cstr_written(dst, src);
    assert forall|j: int| 0 <= j < k implies non_nul()(#[trigger] w[j]) by {
        assert(w[j] == src[j]);
    }
    assert(w[k] == 0);
    lemma_prefix_len(w, non_nul(), k);
    assert(w.take(k) =~= src.take(k));
}

/// A string without NUL characters that fits in a buffer together with its
/// terminating NUL reads back unchanged, whatever the buffer held.
pub proof fn law_cstr_string_roundtrip(dst: Seq<u8>, s: Seq<char>)
    requires
        encode_utf8(s).len() < dst.len(),
        forall|i: int| 0 <= i < encode_utf8(s).len() ==> encode_utf8(s)[i] != 0,
    ensures
        cstr_bytes(cstr_written(dst, encode_utf8(s))) == encode_utf8(s),
        valid_utf8(encode_utf8(s)),
        decode_utf8(encode_utf8(s)) == s,
{
    law_cstr_write_read(dst, encode_utf8(s));
    assert(encode_utf8(s).take(encode_utf8(s).len() as int) =~= encode_utf8(s));
    encode_utf8_valid_utf8(s);
    encode_utf8_decode_utf8(s);
}

} // verus!
