//! Public, idiomatic types for the SWUpdate IPC protocol, and their
//! conversion to and from the wire format ([`crate::wire`]).

use vstd::prelude::*;
use vstd::utf8::encode_utf8;

use crate::codec::zeros;
use crate::text::{decimal, push_decimal, utf8_lossy, with_decimal};
use crate::wire::{
    cstr_bytes, cstr_from_bytes, cstr_written, write_cstr, RawProgressMsg,
    RawProgressMsgUnpacked, RawSwupdateRequest, PRINFOSIZE, SWUPDATE_API_VERSION,
};
use crate::wire;

verus! {

// ---------------------------------------------------------------------------
// Source — where the update originates
// ---------------------------------------------------------------------------

/// Source that triggered the update.
#[derive(Debug, Clone, Copy, PartialEq, Eq, Structural)]
pub enum Source {
    Unknown,
    Webserver,
    Suricatta,
    Downloader,
    Local,
    ChunksDownloader,
}

impl Source {
    /// The C `sourcetype` value.
    pub open spec fn wire_code(self) -> i32 {
        match self {
            Source::Unknown => 0,
            Source::Webserver => 1,
            Source::Suricatta => 2,
            Source::Downloader => 3,
            Source::Local => 4,
            Source::ChunksDownloader => 5,
        }
    }

    /// The source that C value `v` stands for; `Unknown` for values that
    /// name no other source.
    pub open spec fn from_code(v: i32) -> Source {
        match v {
            1 => Source::Webserver,
            2 => Source::Suricatta,
            3 => Source::Downloader,
            4 => Source::Local,
            5 => Source::ChunksDownloader,
            _ => Source::Unknown,
        }
    }

    /// The C `sourcetype` value.
    pub fn to_wire(self) -> (v: i32)
        ensures
            v == self.wire_code(),
    {
        match self {
            Self::Unknown => 0,
            Self::Webserver => 1,
            Self::Suricatta => 2,
            Self::Downloader => 3,
            Self::Local => 4,
            Self::ChunksDownloader => 5,
        }
    }

    /// The source with C value `v`; any value that names no source is
    /// `Unknown`.
    pub fn from_wire(v: i32) -> (s: Self)
        ensures
            s == Source::from_code(v),
    {
        match v {
            1 => Self::Webserver,
            2 => Self::Suricatta,
            3 => Self::Downloader,
            4 => Self::Local,
            5 => Self::ChunksDownloader,
            _ => Self::Unknown,
        }
    }
}

/// Every source survives the trip to its C value and back.
pub proof fn law_source_wire_roundtrip(s: Source)
    ensures
        Source::from_code(s.wire_code()) == s,
{
}

// ---------------------------------------------------------------------------
// RunMode — execution mode for install requests
// ---------------------------------------------------------------------------

/// Execution mode for an install request.
#[derive(Debug, Clone, Copy, PartialEq, Eq, Structural, Default)]
pub enum RunMode {
    #[default]
    Default,
    DryRun,
    Install,
}

impl RunMode {
    /// The C `run_type` value.
    pub open spec fn wire_code(self) -> i32 {
        match self {
            RunMode::Default => 0,
            RunMode::DryRun => 1,
            RunMode::Install => 2,
        }
    }

    /// The C `run_type` value.
    pub fn to_wire(self) -> (v: i32)
        ensures
            v == self.wire_code(),
    {
        match self {
            Self::Default => 0,
            Self::DryRun => 1,
            Self::Install => 2,
        }
    }
}

// ---------------------------------------------------------------------------
// UpdateState — bootloader update state (GET/SET_UPDATE_STATE)
// ---------------------------------------------------------------------------

/// Bootloader update state, used with `get_update_state` / `set_update_state`.
///
/// Maps to `update_state_t` in SWUpdate (state.h). These use ASCII character
/// values on the wire (`'0'` through `'7'`), stored as single-character strings
/// in the bootloader environment (e.g., `ustate=1` in grub.env).
///
/// Not to be confused with `RECOVERY_STATUS` which is used in progress messages.
#[derive(Debug, Clone, Copy, PartialEq, Eq, Structural)]
pub enum UpdateState {
    /// `STATE_OK` — no update pending, system is confirmed good.
    StateOk,
    /// `STATE_INSTALLED` — new image installed, awaiting validation.
    Installed,
    /// `STATE_TESTING` — currently running self-test.
    Testing,
    /// `STATE_FAILED` — update failed.
    Failed,
    /// `STATE_NOT_AVAILABLE` — no state information available.
    NotAvailable,
    /// `STATE_ERROR` — error during update.
    Error,
    /// `STATE_WAIT` — waiting for update.
    Wait,
    /// `STATE_IN_PROGRESS` — update in progress.
    InProgress,
}

impl UpdateState {
    /// The wire value: the ASCII code of the digit `'0'` to `'7'`.
    pub open spec fn wire_code(self) -> i32 {
        match self {
            UpdateState::StateOk => 48,
            UpdateState::Installed => 49,
            UpdateState::Testing => 50,
            UpdateState::Failed => 51,
            UpdateState::NotAvailable => 52,
            UpdateState::Error => 53,
            UpdateState::Wait => 54,
            UpdateState::InProgress => 55,
        }
    }

    /// The state whose wire value is `v`, if any.
    pub open spec fn from_code(v: i32) -> Option<UpdateState> {
        match v {
            48 => Some(UpdateState::StateOk),
            49 => Some(UpdateState::Installed),
            50 => Some(UpdateState::Testing),
            51 => Some(UpdateState::Failed),
            52 => Some(UpdateState::NotAvailable),
            53 => Some(UpdateState::Error),
            54 => Some(UpdateState::Wait),
            55 => Some(UpdateState::InProgress),
            _ => None,
        }
    }

    /// Convert to the wire representation (ASCII character as i32).
    pub fn to_wire(self) -> (v: i32)
        ensures
            v == self.wire_code(),
    {
        match self {
            Self::StateOk => 48,
            Self::Installed => 49,
            Self::Testing => 50,
            Self::Failed => 51,
            Self::NotAvailable => 52,
            Self::Error => 53,
            Self::Wait => 54,
            Self::InProgress => 55,
        }
    }

    /// Parse from wire representation (ASCII character as i32).
    pub fn from_wire(v: i32) -> (s: Option<Self>)
        ensures
            s == UpdateState::from_code(v),
    {
        match v {
            48 => Some(Self::StateOk),
            49 => Some(Self::Installed),
            50 => Some(Self::Testing),
            51 => Some(Self::Failed),
            52 => Some(Self::NotAvailable),
            53 => Some(Self::Error),
            54 => Some(Self::Wait),
            55 => Some(Self::InProgress),
            _ => None,
        }
    }
}

/// Every update state is read back from its wire value, and distinct states
/// have distinct wire values.
pub proof fn law_update_state_wire_roundtrip(s: UpdateState, v: i32)
    ensures
        UpdateState::from_code(s.wire_code()) == Some(s),
        UpdateState::from_code(v) matches Some(t) ==> t.wire_code() == v,
        UpdateState::from_code(v) is Some <==> 48 <= v <= 55,
{
}

// ---------------------------------------------------------------------------
// SubprocessCmd — suricatta subprocess commands
// ---------------------------------------------------------------------------

/// Subprocess command for `subprocess_cmd()`.
#[derive(Debug, Clone, Copy, PartialEq, Eq, Structural)]
pub enum SubprocessCmd {
    Activation,
    Config,
    Enable,
    GetStatus,
    SetDownloadUrl,
}

impl SubprocessCmd {
    /// The C `cmd` value.
    pub open spec fn wire_code(self) -> i32 {
        match self {
            SubprocessCmd::Activation => 0,
            SubprocessCmd::Config => 1,
            SubprocessCmd::Enable => 2,
            SubprocessCmd::GetStatus => 3,
            SubprocessCmd::SetDownloadUrl => 4,
        }
    }

    /// The C `cmd` value.
    pub fn to_wire(self) -> (v: i32)
        ensures
            v == self.wire_code(),
    {
        match self {
            Self::Activation => 0,
            Self::Config => 1,
            Self::Enable => 2,
            Self::GetStatus => 3,
            Self::SetDownloadUrl => 4,
        }
    }
}

// ---------------------------------------------------------------------------
// ProgressEvent — high-level progress from the progress socket
// ---------------------------------------------------------------------------

/// A progress event from SWUpdate's progress socket.
#[derive(Debug, Clone, PartialEq)]
pub enum ProgressEvent {
    /// Update has started.
    Started,
    /// Downloading image data.
    Downloading { percent: u32, bytes_total: u64 },
    /// Installing a step.
    Installing { step: u32, total_steps: u32, percent: u32, image: String, handler: String },
    /// Update completed successfully.
    Success,
    /// Update failed.
    Failed(String),
    /// Idle — no update in progress.
    Idle,
}

/// The text of a NUL-terminated C string buffer.
pub open spec fn c_string(b: Seq<u8>) -> Seq<char> {
    utf8_lossy(cstr_bytes(b))
}

/// How many bytes of the info buffer a progress message declares: `infolen`,
/// capped at the buffer size.
pub open spec fn info_len(infolen: u32) -> int {
    if infolen < 2048 {
        infolen as int
    } else {
        2048
    }
}

/// `ev` is the event that a progress message with these field values
/// describes (status values are `RECOVERY_STATUS`).
pub open spec fn event_for(
    ev: ProgressEvent,
    status: u32,
    dwl_percent: u32,
    dwl_bytes: u64,
    nsteps: u32,
    cur_step: u32,
    cur_percent: u32,
    cur_image: Seq<char>,
    hnd_name: Seq<char>,
    info: Seq<char>,
) -> bool {
    match ev {
        ProgressEvent::Idle => status == 0,
        ProgressEvent::Started => status == 1,
        ProgressEvent::Downloading { percent, bytes_total } => status == 5 && percent
            == dwl_percent && bytes_total == dwl_bytes,
        ProgressEvent::Installing { step, total_steps, percent, image, handler } => (status == 2
            || status == 7 || status == 8) && step == cur_step && total_steps == nsteps && percent
            == cur_percent && image@ == cur_image && handler@ == hnd_name,
        ProgressEvent::Success => status == 3 || status == 6,
        ProgressEvent::Failed(msg) => (status == 4 && msg@ == info) || (status > 8 && msg@
            == "unknown status: "@ + decimal(status as nat)),
    }
}

/// The log line for an event; idle events get none.
pub open spec fn progress_line(ev: ProgressEvent) -> Option<Seq<char>> {
    match ev {
        ProgressEvent::Started => Some("Started"@),
        ProgressEvent::Downloading { percent, bytes_total } => Some(
            "Downloading: "@ + decimal(percent as nat) + "% ("@ + decimal(bytes_total as nat)
                + " bytes total)"@,
        ),
        ProgressEvent::Installing { step, total_steps, percent, image, handler } => Some(
            "Installing ["@ + handler@ + "] "@ + image@ + ": step "@ + decimal(step as nat) + "/"@
                + decimal(total_steps as nat) + " ("@ + decimal(percent as nat) + "%)"@,
        ),
        ProgressEvent::Success => Some("Success"@),
        ProgressEvent::Failed(msg) => Some("Failed: "@ + msg@),
        ProgressEvent::Idle => None,
    }
}

/// Intermediate representation with all fields extracted from wire format.
/// Used to share parsing logic between packed and unpacked layouts.
pub struct ProgressFields {
    pub status: u32,
    pub dwl_percent: u32,
    pub dwl_bytes: u64,
    pub nsteps: u32,
    pub cur_step: u32,
    pub cur_percent: u32,
    pub cur_image: String,
    pub hnd_name: String,
    pub info: String,
}

fn info_prefix(info: &[u8; 2048], infolen: u32) -> (s: String)
    ensures
        s@ == c_string(info@.take(info_len(infolen))),
{
    let n: usize = if (infolen as u64) < (PRINFOSIZE as u64) {
        infolen as usize
    } else {
        PRINFOSIZE
    };
    let part = vstd::slice::slice_subrange(info.as_slice(), 0, n);
    assert(part@ =~= info@.take(info_len(infolen)));
    cstr_from_bytes(part)
}

impl ProgressFields {
    /// The fields of a packed progress message, strings decoded.
    pub fn from_packed(raw: &RawProgressMsg) -> (f: Self)
        ensures
            f.status == raw.status && f.dwl_percent == raw.dwl_percent && f.dwl_bytes
                == raw.dwl_bytes && f.nsteps == raw.nsteps && f.cur_step == raw.cur_step
                && f.cur_percent == raw.cur_percent,
            f.cur_image@ == c_string(raw.cur_image@),
            f.hnd_name@ == c_string(raw.hnd_name@),
            f.info@ == c_string(raw.info@.take(info_len(raw.infolen))),
    {
        ProgressFields {
            status: raw.status,
            dwl_percent: raw.dwl_percent,
            dwl_bytes: raw.dwl_bytes,
            nsteps: raw.nsteps,
            cur_step: raw.cur_step,
            cur_percent: raw.cur_percent,
            cur_image: cstr_from_bytes(raw.cur_image.as_slice()),
            hnd_name: cstr_from_bytes(raw.hnd_name.as_slice()),
            info: info_prefix(&raw.info, raw.infolen),
        }
    }

    /// The fields of an unpacked progress message, strings decoded.
    pub fn from_unpacked(raw: &RawProgressMsgUnpacked) -> (f: Self)
        ensures
            f.status == raw.status && f.dwl_percent == raw.dwl_percent && f.dwl_bytes
                == raw.dwl_bytes && f.nsteps == raw.nsteps && f.cur_step == raw.cur_step
                && f.cur_percent == raw.cur_percent,
            f.cur_image@ == c_string(raw.cur_image@),
            f.hnd_name@ == c_string(raw.hnd_name@),
            f.info@ == c_string(raw.info@.take(info_len(raw.infolen))),
    {
        ProgressFields {
            status: raw.status,
            dwl_percent: raw.dwl_percent,
            dwl_bytes: raw.dwl_bytes,
            nsteps: raw.nsteps,
            cur_step: raw.cur_step,
            cur_percent: raw.cur_percent,
            cur_image: cstr_from_bytes(raw.cur_image.as_slice()),
            hnd_name: cstr_from_bytes(raw.hnd_name.as_slice()),
            info: info_prefix(&raw.info, raw.infolen),
        }
    }
}

impl ProgressEvent {
    /// Convert from a packed raw progress message (swupdate >= 2025.12).
    pub fn from_raw(raw: &RawProgressMsg) -> (ev: Self)
        ensures
            event_for(
                ev,
                raw.status,
                raw.dwl_percent,
                raw.dwl_bytes,
                raw.nsteps,
                raw.cur_step,
                raw.cur_percent,
                c_string(raw.cur_image@),
                c_string(raw.hnd_name@),
                c_string(raw.info@.take(info_len(raw.infolen))),
            ),
    {
        Self::from_fields(ProgressFields::from_packed(raw))
    }

    /// Convert from an unpacked raw progress message (swupdate <= 2025.05).
    pub fn from_raw_unpacked(raw: &RawProgressMsgUnpacked) -> (ev: Self)
        ensures
            event_for(
                ev,
                raw.status,
                raw.dwl_percent,
                raw.dwl_bytes,
                raw.nsteps,
                raw.cur_step,
                raw.cur_percent,
                c_string(raw.cur_image@),
                c_string(raw.hnd_name@),
                c_string(raw.info@.take(info_len(raw.infolen))),
            ),
    {
        Self::from_fields(ProgressFields::from_unpacked(raw))
    }

    /// The event that the extracted fields describe.
    pub fn from_fields(f: ProgressFields) -> (ev: Self)
        ensures
            event_for(
                ev,
                f.status,
                f.dwl_percent,
                f.dwl_bytes,
                f.nsteps,
                f.cur_step,
                f.cur_percent,
                f.cur_image@,
                f.hnd_name@,
                f.info@,
            ),
    {
        match wire::RecoveryStatus::from_u32(f.status) {
            Some(wire::RecoveryStatus::Idle) => Self::Idle,
            Some(wire::RecoveryStatus::Start) => Self::Started,
            Some(wire::RecoveryStatus::Download) => Self::Downloading {
                percent: f.dwl_percent,
                bytes_total: f.dwl_bytes,
            },
            Some(wire::RecoveryStatus::Run)
            | Some(wire::RecoveryStatus::Progress)
            | Some(wire::RecoveryStatus::Subprocess) => Self::Installing {
                step: f.cur_step,
                total_steps: f.nsteps,
                percent: f.cur_percent,
                image: f.cur_image,
                handler: f.hnd_name,
            },
            Some(wire::RecoveryStatus::Success) | Some(wire::RecoveryStatus::Done) => Self::Success,
            Some(wire::RecoveryStatus::Failure) => Self::Failed(f.info),
            None => Self::Failed(with_decimal("unknown status: ", f.status as u64)),
        }
    }

    /// The log line for this event, if it is worth one: what a client prints
    /// while it follows an installation.
    pub fn describe(&self) -> (line: Option<String>)
        ensures
            match line {
                Some(l) => progress_line(*self) == Some(l@),
                None => progress_line(*self) is None,
            },
    {
        match self {
            Self::Started => Some(String::from_str("Started")),
            Self::Downloading { percent, bytes_total } => {
                let mut l = String::from_str("Downloading: ");
                push_decimal(&mut l, *percent as u64);
                l.append("% (");
                push_decimal(&mut l, *bytes_total);
                l.append(" bytes total)");
                Some(l)
            },
            Self::Installing { step, total_steps, percent, image, handler } => {
                let mut l = String::from_str("Installing [");
                l.append(handler.as_str());
                l.append("] ");
                l.append(image.as_str());
                l.append(": step ");
                push_decimal(&mut l, *step as u64);
                l.append("/");
                push_decimal(&mut l, *total_steps as u64);
                l.append(" (");
                push_decimal(&mut l, *percent as u64);
                l.append("%)");
                Some(l)
            },
            Self::Success => Some(String::from_str("Success")),
            Self::Failed(msg) => {
                let mut l = String::from_str("Failed: ");
                l.append(msg.as_str());
                Some(l)
            },
            Self::Idle => None,
        }
    }

    /// Whether this event indicates the update is complete (success or failure).
    pub fn is_terminal(&self) -> (b: bool)
        ensures
            b <==> (self is Success || self is Failed),
    {
        match self {
            Self::Success | Self::Failed(_) => true,
            _ => false,
        }
    }
}

// ---------------------------------------------------------------------------
// InstallRequest — builder for REQ_INSTALL
// ---------------------------------------------------------------------------

/// Configuration for an install request sent to SWUpdate.
#[derive(Debug, Clone)]
pub struct InstallRequest {
    pub source: Source,
    pub mode: RunMode,
    pub info: String,
    pub software_set: Option<String>,
    pub running_mode: Option<String>,
    pub len: Option<u64>,
    pub store_swu: bool,
}

impl Default for InstallRequest {
    fn default() -> (r: Self)
        ensures
            r.source == Source::Local,
            r.mode == RunMode::Default,
            r.info@ == Seq::<char>::empty(),
            r.software_set is None,
            r.running_mode is None,
            r.len is None,
            r.store_swu,
    {
        Self {
            source: Source::Local,
            mode: RunMode::Default,
            info: String::new(),
            software_set: None,
            running_mode: None,
            len: None,
            store_swu: true,
        }
    }
}

/// The bytes `write_cstr` leaves in a zeroed buffer of `n` bytes for `s`.
pub open spec fn cstr_field(n: nat, s: Seq<char>) -> Seq<u8> {
    cstr_written(zeros(n), encode_utf8(s))
}

impl InstallRequest {
    /// Create a new install request with default settings (local source).
    pub fn new() -> (r: Self)
        ensures
            r.source == Source::Local,
            r.mode == RunMode::Default,
            r.info@ == Seq::<char>::empty(),
            r.software_set is None,
            r.running_mode is None,
            r.len is None,
            r.store_swu,
    {
        Self::default()
    }

    /// Set the update source.
    pub fn source(self, source: Source) -> (r: Self)
        ensures
            r == (InstallRequest { source, ..self }),
    {
        let mut s = self;
        s.source = source;
        s
    }

    /// Set the execution mode (default, dry-run, or install).
    pub fn mode(self, mode: RunMode) -> (r: Self)
        ensures
            r == (InstallRequest { mode, ..self }),
    {
        let mut s = self;
        s.mode = mode;
        s
    }

    /// Set the info string (typically the firmware description).
    pub fn info(self, info: &str) -> (r: Self)
        ensures
            r.info@ == info@,
            r.source == self.source && r.mode == self.mode && r.software_set == self.software_set
                && r.running_mode == self.running_mode && r.len == self.len && r.store_swu
                == self.store_swu,
    {
        let mut s = self;
        s.info = String::from_str(info);
        s
    }

    /// Set the software set name.
    pub fn software_set(self, set: &str) -> (r: Self)
        ensures
            r.software_set matches Some(v) && v@ == set@,
            r.source == self.source && r.mode == self.mode && r.info == self.info
                && r.running_mode == self.running_mode && r.len == self.len && r.store_swu
                == self.store_swu,
    {
        let mut s = self;
        s.software_set = Some(String::from_str(set));
        s
    }

    /// Set the running mode name.
    pub fn running_mode(self, mode: &str) -> (r: Self)
        ensures
            r.running_mode matches Some(v) && v@ == mode@,
            r.source == self.source && r.mode == self.mode && r.info == self.info
                && r.software_set == self.software_set && r.len == self.len && r.store_swu
                == self.store_swu,
    {
        let mut s = self;
        s.running_mode = Some(String::from_str(mode));
        s
    }

    /// Set the expected image length in bytes.
    pub fn len(self, len: u64) -> (r: Self)
        ensures
            r == (InstallRequest { len: Some(len), ..self }),
    {
        let mut s = self;
        s.len = Some(len);
        s
    }

    /// Whether to store the SWU file (default: true).
    pub fn store_swu(self, store: bool) -> (r: Self)
        ensures
            r == (InstallRequest { store_swu: store, ..self }),
    {
        let mut s = self;
        s.store_swu = store;
        s
    }

    /// Convert to wire format.
    pub fn to_raw(&self) -> (r: RawSwupdateRequest)
        ensures
            r.apiversion == SWUPDATE_API_VERSION,
            r.source == self.source.wire_code(),
            r.dry_run == self.mode.wire_code(),
            r.len == (match self.len {
                Some(l) => l,
                None => 0,
            }),
            r.info@ == cstr_field(512, self.info@),
            r.software_set@ == (match self.software_set {
                Some(s) => cstr_field(256, s@),
                None => zeros(256),
            }),
            r.running_mode@ == (match self.running_mode {
                Some(m) => cstr_field(256, m@),
                None => zeros(256),
            }),
            r.disable_store_swu == (if self.store_swu {
                0u8
            } else {
                1u8
            }),
    {
        let mut req = RawSwupdateRequest::zeroed();
        req.apiversion = SWUPDATE_API_VERSION;
        req.source = self.source.to_wire();
        req.dry_run = self.mode.to_wire();
        req.len = match self.len {
            Some(l) => l,
            None => 0,
        };
        write_cstr(&mut req.info, self.info.as_str());
        match &self.software_set {
            Some(set) => write_cstr(&mut req.software_set, set.as_str()),
            None => {},
        }
        match &self.running_mode {
            Some(mode) => write_cstr(&mut req.running_mode, mode.as_str()),
            None => {},
        }
        req.disable_store_swu = if self.store_swu {
            0
        } else {
            1
        };
        req
    }
}

// ---------------------------------------------------------------------------
// Response types for query operations
// ---------------------------------------------------------------------------

/// Recovery status, used in `get_status()` responses.
///
/// Maps to `RECOVERY_STATUS` in SWUpdate (swupdate_status.h). Not to be
/// confused with [`UpdateState`] which maps to `update_state_t`.
#[derive(Debug, Clone, Copy, PartialEq, Eq, Structural)]
pub enum RecoveryStatus {
    Idle,
    Start,
    Run,
    Success,
    Failure,
    Download,
    Done,
    Subprocess,
    Progress,
}

impl RecoveryStatus {
    /// The C `RECOVERY_STATUS` value.
    pub open spec fn wire_code(self) -> i32 {
        match self {
            RecoveryStatus::Idle => 0,
            RecoveryStatus::Start => 1,
            RecoveryStatus::Run => 2,
            RecoveryStatus::Success => 3,
            RecoveryStatus::Failure => 4,
            RecoveryStatus::Download => 5,
            RecoveryStatus::Done => 6,
            RecoveryStatus::Subprocess => 7,
            RecoveryStatus::Progress => 8,
        }
    }

    /// The status whose C value is `v`, if any.
    pub open spec fn from_code(v: i32) -> Option<RecoveryStatus> {
        match v {
            0 => Some(RecoveryStatus::Idle),
            1 => Some(RecoveryStatus::Start),
            2 => Some(RecoveryStatus::Run),
            3 => Some(RecoveryStatus::Success),
            4 => Some(RecoveryStatus::Failure),
            5 => Some(RecoveryStatus::Download),
            6 => Some(RecoveryStatus::Done),
            7 => Some(RecoveryStatus::Subprocess),
            8 => Some(RecoveryStatus::Progress),
            _ => None,
        }
    }

    /// The status with C value `v`, if there is one.
    pub fn from_wire(v: i32) -> (s: Option<Self>)
        ensures
            s == RecoveryStatus::from_code(v),
    {
        match v {
            0 => Some(Self::Idle),
            1 => Some(Self::Start),
            2 => Some(Self::Run),
            3 => Some(Self::Success),
            4 => Some(Self::Failure),
            5 => Some(Self::Download),
            6 => Some(Self::Done),
            7 => Some(Self::Subprocess),
            8 => Some(Self::Progress),
            _ => None,
        }
    }
}

/// Every status is recovered from its C value, and a C value that names a
/// status is that status's value; the values are 0 to 8.
pub proof fn law_recovery_status_wire_roundtrip(s: RecoveryStatus, v: i32)
    ensures
        RecoveryStatus::from_code(s.wire_code()) == Some(s),
        RecoveryStatus::from_code(v) matches Some(r) ==> r.wire_code() == v,
        RecoveryStatus::from_code(v) is Some <==> 0 <= v <= 8,
{
}

/// Current update status returned by `get_status()`.
#[derive(Debug, Clone, PartialEq, Eq)]
pub struct UpdateStatus {
    pub current: RecoveryStatus,
    pub last_result: RecoveryStatus,
    pub error: i32,
    pub description: String,
}

/// Hardware revision info returned by `get_hw_revision()`.
#[derive(Debug, Clone, PartialEq, Eq)]
pub struct HwRevision {
    pub boardname: String,
    pub revision: String,
}

/// SWUpdate variable (namespace, name, value).
#[derive(Debug, Clone, PartialEq, Eq)]
pub struct SwupdateVar {
    pub namespace: String,
    pub name: String,
    pub value: String,
}

} // verus!
