//! Progress socket logic: choosing the progress message layout from the
//! installed swupdate version, checking the connection handshake, and
//! turning received bytes into events.
//!
//! The socket I/O itself (connecting, reading exactly one message, the
//! handshake timeout, reconnecting) is done by the caller, which hands the
//! bytes it read to these functions.

use vstd::prelude::*;

use crate::c_abi::{law_progress_msg_offsets, law_progress_msg_unpacked_offsets};
use crate::codec::{lemma_prefix_len, lemma_prefix_len_bounds, prefix_len, u32_at, u64_at};
use crate::error::Error;
use crate::text::{
    decimal, lemma_decimal_parses, byte_list, chars_of, is_whitespace, is_ws, parse_u32, parse_u32_range, push_byte_list,
    string_from_utf8_lossy, utf8_lossy,
};
use crate::types::{c_string, event_for, info_len, ProgressEvent};
use crate::wire::{
    ProgressLayout, RawProgressAck, RawProgressMsg, RawProgressMsgUnpacked, WireLayout,
    PROGRESS_API_VERSION, PROGRESS_CONNECT_ACK_MAGIC,
};

verus! {

// ---------------------------------------------------------------------------
// Version string → layout
// ---------------------------------------------------------------------------

/// The predicate "is white space".
pub open spec fn ws() -> spec_fn(char) -> bool {
    |c: char| is_ws(c)
}

/// The predicate "is not white space".
pub open spec fn non_ws() -> spec_fn(char) -> bool {
    |c: char| !is_ws(c)
}

/// The predicate "is not a dot".
pub open spec fn non_dot() -> spec_fn(char) -> bool {
    |c: char| c != '.'
}

/// A word of the form `v...` with a dot in it.
pub open spec fn is_version_token(t: Seq<char>) -> bool {
    t.len() > 0 && t[0] == 'v' && t.contains('.')
}

/// The first whitespace-separated word of `s` that looks like a version
/// (`s.split_whitespace().find(..)`).
pub open spec fn first_version_token(s: Seq<char>) -> Option<Seq<char>>
    decreases s.len(),
{
    let k = prefix_len(s, ws());
    if k >= s.len() {
        None
    } else {
        let r = s.skip(k as int);
        let n = prefix_len(r, non_ws());
        let t = r.take(n as int);
        if is_version_token(t) {
            Some(t)
        } else {
            proof {
                lemma_prefix_len_bounds(s, ws());
                lemma_prefix_len_bounds(r, non_ws());
                assert(r[0] == s[k as int]);
            }
            first_version_token(r.skip(n as int))
        }
    }
}

/// What `parse_swupdate_version` makes of a `swupdate --version` output: the
/// first two dot-separated numbers of the first word `vYYYY.MM...`.
pub open spec fn spec_parse_version(s: Seq<char>) -> Option<(u32, u32)> {
    match first_version_token(s) {
        None => None,
        Some(t) => {
            let w = t.drop_first();
            let k = prefix_len(w, non_dot());
            if k >= w.len() {
                None
            } else {
                let rest = w.skip(k + 1int);
                let m = prefix_len(rest, non_dot());
                match parse_u32(w.take(k as int)) {
                    None => None,
                    Some(year) => match parse_u32(rest.take(m as int)) {
                        None => None,
                        Some(month) => Some((year, month)),
                    },
                }
            }
        },
    }
}

/// Whether `cs[a..b]` holds a dot.
fn contains_dot(cs: &Vec<char>, a: usize, b: usize) -> (r: bool)
    requires
        a <= b <= cs@.len(),
    ensures
        r == cs@.subrange(a as int, b as int).contains('.'),
{
    let mut i = a;
    while i < b
        invariant
            a <= i <= b <= cs@.len(),
            forall|j: int| a <= j < i ==> cs@[j] != '.',
        decreases b - i,
    {
        if cs[i] == '.' {
            assert(cs@.subrange(a as int, b as int)[i - a] == '.');
            return true;
        }
        i = i + 1;
    }
    assert forall|j: int| 0 <= j < b - a implies cs@.subrange(a as int, b as int)[j] != '.' by {
        assert(cs@.subrange(a as int, b as int)[j] == cs@[a + j]);
    }
    false
}

/// The bounds of the first version word of `cs`.
fn find_version_token(cs: &Vec<char>) -> (r: Option<(usize, usize)>)
    ensures
        match r {
            None => first_version_token(cs@) is None,
            Some((a, b)) => a < b <= cs@.len() && first_version_token(cs@) == Some(
                cs@.subrange(a as int, b as int),
            ),
        },
{
    let n = cs.len();
    let mut i: usize = 0;
    assert(cs@.skip(0) =~= cs@);
    while i < n
        invariant
            n == cs@.len(),
            i <= n,
            first_version_token(cs@.skip(i as int)) == first_version_token(cs@),
        decreases n - i,
    {
        let ws_start = i;
        let ghost s = cs@.skip(ws_start as int);
        while i < n && is_whitespace(cs[i])
            invariant
                n == cs@.len(),
                ws_start <= i <= n,
                forall|j: int| ws_start <= j < i ==> is_ws(cs@[j]),
            decreases n - i,
        {
            i = i + 1;
        }
        proof {
            assert forall|j: int| 0 <= j < i - ws_start implies ws()(#[trigger] s[j]) by {
                assert(s[j] == cs@[ws_start + j]);
            }
            if i < n {
                assert(s[i - ws_start] == cs@[i as int]);
            }
            lemma_prefix_len(s, ws(), i - ws_start);
        }
        if i == n {
            return None;
        }
        let start = i;
        let ghost r = s.skip(i - ws_start);
        assert(r =~= cs@.skip(start as int));
        while i < n && !is_whitespace(cs[i])
            invariant
                n == cs@.len(),
                start < n,
                !is_ws(cs@[start as int]),
                start <= i <= n,
                forall|j: int| start <= j < i ==> !is_ws(cs@[j]),
            decreases n - i,
        {
            i = i + 1;
        }
        proof {
            assert forall|j: int| 0 <= j < i - start implies non_ws()(#[trigger] r[j]) by {
                assert(r[j] == cs@[start + j]);
            }
            if i < n {
                assert(r[i - start] == cs@[i as int]);
            }
            lemma_prefix_len(r, non_ws(), i - start);
            assert(r.take(i - start) =~= cs@.subrange(start as int, i as int));
            assert(r.skip(i - start) =~= cs@.skip(i as int));
        }
        if cs[start] == 'v' && contains_dot(cs, start, i) {
            return Some((start, i));
        }
    }
    proof {
        assert(prefix_len(cs@.skip(n as int), ws()) == 0);
    }
    None
}

/// Bounds of the longest run of `cs[a..b]` without a dot.
fn dot_free_end(cs: &Vec<char>, a: usize, b: usize) -> (e: usize)
    requires
        a <= b <= cs@.len(),
    ensures
        a <= e <= b,
        e - a == prefix_len(cs@.subrange(a as int, b as int), non_dot()),
{
    let mut i = a;
    while i < b && cs[i] != '.'
        invariant
            a <= i <= b <= cs@.len(),
            forall|j: int| a <= j < i ==> cs@[j] != '.',
        decreases b - i,
    {
        i = i + 1;
    }
    proof {
        let w = cs@.subrange(a as int, b as int);
        assert forall|j: int| 0 <= j < i - a implies non_dot()(#[trigger] w[j]) by {
            assert(w[j] == cs@[a + j]);
        }
        if i < b {
            assert(w[i - a] == cs@[i as int]);
        }
        lemma_prefix_len(w, non_dot(), i - a);
    }
    i
}

/// Parse "SWUpdate vYYYY.MM" or "SWUpdate vYYYY.MM.P" into (year, month).
pub fn parse_swupdate_version(output: &str) -> (r: Option<(u32, u32)>)
    ensures
        r == spec_parse_version(output@),
{
    let cs = chars_of(output);
    match find_version_token(&cs) {
        None => None,
        Some((a, b)) => {
            let ghost t = cs@.subrange(a as int, b as int);
            let ghost w = t.drop_first();
            let w0 = a + 1;
            assert(w =~= cs@.subrange(w0 as int, b as int));
            let k = dot_free_end(&cs, w0, b);
            if k >= b {
                return None;
            }
            let r0 = k + 1;
            let ghost rest = w.skip(k - w0 + 1);
            assert(rest =~= cs@.subrange(r0 as int, b as int));
            let m = dot_free_end(&cs, r0, b);
            assert(w.take(k - w0) =~= cs@.subrange(w0 as int, k as int));
            assert(rest.take(m - r0) =~= cs@.subrange(r0 as int, m as int));
            match parse_u32_range(&cs, w0, k) {
                None => None,
                Some(year) => match parse_u32_range(&cs, r0, m) {
                    None => None,
                    Some(month) => Some((year, month)),
                },
            }
        },
    }
}

/// The text `swupdate --version` prints: `SWUpdate v<year>.<month>`, with an
/// optional `.<patch>`.
pub open spec fn version_banner(year: u32, month: u32, patch: Option<u32>) -> Seq<char> {
    seq!['S', 'W', 'U', 'p', 'd', 'a', 't', 'e', ' ', 'v'] + decimal(year as nat) + seq!['.']
        + decimal(month as nat) + match patch {
        Some(p) => seq!['.'] + decimal(p as nat),
        None => Seq::empty(),
    }
}

/// In `SWUpdate <v>`, where `<v>` is a word without white space that looks
/// like a version, `<v>` is the first version word.
proof fn lemma_banner_token(v: Seq<char>)
    requires
        is_version_token(v),
        forall|i: int| 0 <= i < v.len() ==> non_ws()(#[trigger] v[i]),
    ensures
        first_version_token(seq!['S', 'W', 'U', 'p', 'd', 'a', 't', 'e', ' '] + v) == Some(v),
{
    let s = seq!['S', 'W', 'U', 'p', 'd', 'a', 't', 'e', ' '] + v;
    assert(' ' as u32 == 32 && 'S' as u32 == 83 && 'W' as u32 == 87 && 'U' as u32 == 85 && 'p' as u32
        == 112 && 'd' as u32 == 100 && 'a' as u32 == 97 && 't' as u32 == 116 && 'e' as u32 == 101);
    assert(!ws()(s[0]));
    lemma_prefix_len(s, ws(), 0);
    assert(s.skip(0) =~= s);
    assert forall|i: int| 0 <= i < 8 implies non_ws()(#[trigger] s[i]) by {}
    lemma_prefix_len(s, non_ws(), 8);
    assert(s.take(8)[0] == 'S');
    assert(!is_version_token(s.take(8)));
    let r1 = s.skip(8);
    assert(r1 =~= seq![' '] + v);
    assert(ws()(r1[0]));
    if v.len() > 0 {
        assert(r1[1] == v[0]);
    }
    lemma_prefix_len(r1, ws(), 1);
    assert(r1.skip(1) =~= v);
    lemma_prefix_len(v, non_ws(), v.len() as int);
    assert(v.take(v.len() as int) =~= v);
    assert(first_version_token(r1) == Some(v));
    assert(s.skip(0).skip(8) =~= r1);
    assert(s.skip(0).take(8) =~= s.take(8));
    assert(first_version_token(s) == first_version_token(r1));
}

/// The documented forms `SWUpdate vYYYY.MM` and `SWUpdate vYYYY.MM.P` parse
/// to (year, month), for every year, month and patch.
pub proof fn law_parse_version_banner(year: u32, month: u32, patch: Option<u32>)
    ensures
        spec_parse_version(version_banner(year, month, patch)) == Some((year, month)),
{
    let dy = decimal(year as nat);
    let dm = decimal(month as nat);
    let tail: Seq<char> = match patch {
        Some(p) => seq!['.'] + decimal(p as nat),
        None => Seq::empty(),
    };
    lemma_decimal_parses(year);
    lemma_decimal_parses(month);
    if let Some(p) = patch {
        lemma_decimal_parses(p);
    }
    let v = seq!['v'] + dy + seq!['.'] + dm + tail;
    let s = version_banner(year, month, patch);
    assert(s =~= seq!['S', 'W', 'U', 'p', 'd', 'a', 't', 'e', ' '] + v);
    assert('v' as u32 == 118 && '.' as u32 == 46);
    assert forall|i: int| 0 <= i < v.len() implies non_ws()(#[trigger] v[i]) by {
        if 1 <= i < 1 + dy.len() {
            assert(v[i] == dy[i - 1]);
        } else if 1 + dy.len() + 1 <= i < 1 + dy.len() + 1 + dm.len() {
            assert(v[i] == dm[i - 2 - dy.len()]);
        } else if i >= 1 + dy.len() + 1 + dm.len() + 1 {
            if let Some(p) = patch {
                assert(v[i] == decimal(p as nat)[i - 3 - dy.len() - dm.len()]);
            }
        }
    }
    assert(v[1 + dy.len() as int] == '.');
    assert(is_version_token(v));
    lemma_banner_token(v);
    let w = v.drop_first();
    assert(w =~= dy + seq!['.'] + dm + tail);
    assert forall|i: int| 0 <= i < dy.len() implies non_dot()(#[trigger] w[i]) by {
        assert(w[i] == dy[i]);
    }
    lemma_prefix_len(w, non_dot(), dy.len() as int);
    assert(w.take(dy.len() as int) =~= dy);
    let rest = w.skip(dy.len() + 1int);
    assert(rest =~= dm + tail);
    assert forall|i: int| 0 <= i < dm.len() implies non_dot()(#[trigger] rest[i]) by {
        assert(rest[i] == dm[i]);
    }
    if let Some(p) = patch {
        assert(rest[dm.len() as int] == '.');
    }
    lemma_prefix_len(rest, non_dot(), dm.len() as int);
    assert(rest.take(dm.len() as int) =~= dm);
}

/// The layout that a swupdate of this version uses: packed from 2025.12 on,
/// unpacked before, packed when the version is unknown.
pub open spec fn spec_layout_for_version(v: Option<(u32, u32)>) -> ProgressLayout {
    match v {
        Some((year, month)) => if year > 2025 || (year == 2025 && month >= 12) {
            ProgressLayout::Packed
        } else {
            ProgressLayout::Unpacked
        },
        None => ProgressLayout::Packed,
    }
}

/// Versions from 2025.12 on use the packed layout, every earlier version
/// (2025.05, 2024.x, 2023.x, ...) the unpacked one, and an unknown version
/// the packed one.
pub proof fn law_layout_threshold(year: u32, month: u32)
    ensures
        (spec_layout_for_version(Some((year, month))) == ProgressLayout::Packed) <==> (year > 2025
            || (year == 2025 && month >= 12)),
        (spec_layout_for_version(Some((year, month))) == ProgressLayout::Unpacked) <==> (year
            < 2025 || (year == 2025 && month < 12)),
        spec_layout_for_version(None) == ProgressLayout::Packed,
{
}

/// The progress message layout for a swupdate version (year, month).
///
/// Packed layout (`__attribute__((__packed__))`) was added upstream in commit
/// `485fd2be` (June 2025), after the v2025.05 release. Therefore:
/// - swupdate >= 2025.12 → Packed (2408 bytes)
/// - swupdate <= 2025.05 → Unpacked (2416 bytes)
///
/// Defaults to Packed if the version cannot be determined.
pub fn layout_for_version(v: Option<(u32, u32)>) -> (l: ProgressLayout)
    ensures
        l == spec_layout_for_version(v),
        v matches Some((year, month)) ==> (l == ProgressLayout::Packed <==> (year > 2025 || (year
            == 2025 && month >= 12))),
        v matches Some((year, month)) ==> (l == ProgressLayout::Unpacked <==> (year < 2025 || (year
            == 2025 && month < 12))),
        v is None ==> l == ProgressLayout::Packed,
{
    match v {
        Some((year, month)) => {
            if year > 2025 || (year == 2025 && month >= 12) {
                ProgressLayout::Packed
            } else {
                ProgressLayout::Unpacked
            }
        },
        None => ProgressLayout::Packed,
    }
}

/// The layout to use given the standard output of `swupdate --version`
/// (empty when the command could not be run).
pub fn layout_from_version_output(stdout: &[u8]) -> (l: ProgressLayout)
    ensures
        l == spec_layout_for_version(spec_parse_version(utf8_lossy(stdout@))),
{
    let text = string_from_utf8_lossy(stdout);
    layout_for_version(parse_swupdate_version(text.as_str()))
}

// ---------------------------------------------------------------------------
// Handshake
// ---------------------------------------------------------------------------

/// The major part of a progress API version.
pub open spec fn api_major(v: u32) -> u32 {
    (v >> 16u32) & 0xFFFF
}

/// Check the acknowledgement the progress socket sends on connection: its
/// magic must be `ACK\0` and its major API version must be ours.
pub fn check_progress_ack(ack: &RawProgressAck) -> (r: Result<(), Error>)
    ensures
        match r {
            Ok(()) => ack.magic@ == PROGRESS_CONNECT_ACK_MAGIC@ && api_major(ack.apiversion)
                == api_major(PROGRESS_API_VERSION),
            Err(Error::Protocol(msg)) => ack.magic@ != PROGRESS_CONNECT_ACK_MAGIC@ && msg@
                == "invalid ACK magic: "@ + byte_list(ack.magic@),
            Err(Error::VersionMismatch { expected, actual }) => ack.magic@
                == PROGRESS_CONNECT_ACK_MAGIC@ && api_major(ack.apiversion) != api_major(
                PROGRESS_API_VERSION,
            ) && expected == PROGRESS_API_VERSION && actual == ack.apiversion,
            Err(_) => false,
        },
{
    let expected_magic = PROGRESS_CONNECT_ACK_MAGIC;
    let magic_ok = ack.magic[0] == expected_magic[0] && ack.magic[1] == expected_magic[1]
        && ack.magic[2] == expected_magic[2] && ack.magic[3] == expected_magic[3];
    if !magic_ok {
        let mut msg = String::from_str("invalid ACK magic: ");
        push_byte_list(&mut msg, ack.magic.as_slice());
        return Err(Error::Protocol(msg));
    }
    assert(ack.magic@ =~= PROGRESS_CONNECT_ACK_MAGIC@);
    let server_major = (ack.apiversion >> 16u32) & 0xFFFF;
    let client_major = (PROGRESS_API_VERSION >> 16u32) & 0xFFFF;
    if server_major != client_major {
        return Err(Error::VersionMismatch { expected: PROGRESS_API_VERSION, actual: ack.apiversion });
    }
    Ok(())
}

// ---------------------------------------------------------------------------
// Receiving
// ---------------------------------------------------------------------------

/// The smaller of `a` and `b`.
pub open spec fn min_int(a: int, b: int) -> int {
    if a < b {
        a
    } else {
        b
    }
}

/// The event that the packed `progress_msg` `b` (swupdate >= 2025.12)
/// describes, each field read at its C offset: `status` at 4, `dwl_percent`
/// at 8, `dwl_bytes` at 12, `nsteps` at 20, `cur_step` at 24, `cur_percent`
/// at 28, `cur_image` at 32..288, `hnd_name` at 288..352, `infolen` at 356
/// and `info` from 360, `infolen` bytes of it at most.
pub open spec fn packed_progress_event(ev: ProgressEvent, b: Seq<u8>) -> bool {
    let status = u32_at(b, 4);
    match ev {
        ProgressEvent::Idle => status == 0,
        ProgressEvent::Started => status == 1,
        ProgressEvent::Downloading { percent, bytes_total } => status == 5 && percent == u32_at(
            b,
            8,
        ) && bytes_total == u64_at(b, 12),
        ProgressEvent::Installing { step, total_steps, percent, image, handler } => (status == 2
            || status == 7 || status == 8) && total_steps == u32_at(b, 20) && step == u32_at(b, 24)
            && percent == u32_at(b, 28) && image@ == c_string(b.subrange(32, 288)) && handler@
            == c_string(b.subrange(288, 352)),
        ProgressEvent::Success => status == 3 || status == 6,
        ProgressEvent::Failed(msg) => (status == 4 && msg@ == c_string(
            b.subrange(360, 360 + min_int(u32_at(b, 356) as int, 2048)),
        )) || (status > 8 && msg@ == "unknown status: "@ + decimal(status as nat)),
    }
}

/// The event that the unpacked `progress_msg` `b` (swupdate <= 2025.05)
/// describes, each field read at its C offset: `status` at 4, `dwl_percent`
/// at 8, `dwl_bytes` at 16, `nsteps` at 24, `cur_step` at 28, `cur_percent`
/// at 32, `cur_image` at 36..292, `hnd_name` at 292..356, `infolen` at 360
/// and `info` from 364, `infolen` bytes of it at most.
pub open spec fn unpacked_progress_event(ev: ProgressEvent, b: Seq<u8>) -> bool {
    let status = u32_at(b, 4);
    match ev {
        ProgressEvent::Idle => status == 0,
        ProgressEvent::Started => status == 1,
        ProgressEvent::Downloading { percent, bytes_total } => status == 5 && percent == u32_at(
            b,
            8,
        ) && bytes_total == u64_at(b, 16),
        ProgressEvent::Installing { step, total_steps, percent, image, handler } => (status == 2
            || status == 7 || status == 8) && total_steps == u32_at(b, 24) && step == u32_at(b, 28)
            && percent == u32_at(b, 32) && image@ == c_string(b.subrange(36, 292)) && handler@
            == c_string(b.subrange(292, 356)),
        ProgressEvent::Success => status == 3 || status == 6,
        ProgressEvent::Failed(msg) => (status == 4 && msg@ == c_string(
            b.subrange(364, 364 + min_int(u32_at(b, 360) as int, 2048)),
        )) || (status > 8 && msg@ == "unknown status: "@ + decimal(status as nat)),
    }
}

/// The event that one progress message, received as bytes in the given
/// layout, describes; `None` when the bytes are not exactly one message.
pub fn progress_event_from_bytes(layout: ProgressLayout, buf: &[u8]) -> (r: Option<ProgressEvent>)
    ensures
        r is Some <==> buf@.len() == layout.spec_msg_size(),
        layout is Packed ==> (r matches Some(ev) ==> exists|raw: RawProgressMsg|
            #![auto]
            raw.spec_bytes() == buf@ && event_for(
                ev,
                raw.status,
                raw.dwl_percent,
                raw.dwl_bytes,
                raw.nsteps,
                raw.cur_step,
                raw.cur_percent,
                c_string(raw.cur_image@),
                c_string(raw.hnd_name@),
                c_string(raw.info@.take(info_len(raw.infolen))),
            )),
        layout is Unpacked ==> (r matches Some(ev) ==> exists|raw: RawProgressMsgUnpacked|
            #![auto]
            raw.spec_bytes() == buf@ && event_for(
                ev,
                raw.status,
                raw.dwl_percent,
                raw.dwl_bytes,
                raw.nsteps,
                raw.cur_step,
                raw.cur_percent,
                c_string(raw.cur_image@),
                c_string(raw.hnd_name@),
                c_string(raw.info@.take(info_len(raw.infolen))),
            )),
        layout is Packed ==> (r matches Some(ev) ==> packed_progress_event(ev, buf@)),
        layout is Unpacked ==> (r matches Some(ev) ==> unpacked_progress_event(ev, buf@)),
{
    match layout {
        ProgressLayout::Packed => match RawProgressMsg::from_bytes(buf) {
            Some(raw) => {
                proof {
                    raw.lemma_bytes_agree(Seq::empty());
                    assert(raw.spec_bytes() + Seq::<u8>::empty() =~= buf@);
                    law_progress_msg_offsets(raw, buf@);
                    assert(raw.info@.take(info_len(raw.infolen)) =~= buf@.subrange(
                        360,
                        360 + info_len(raw.infolen),
                    ));
                }
                Some(ProgressEvent::from_raw(&raw))
            },
            None => None,
        },
        ProgressLayout::Unpacked => match RawProgressMsgUnpacked::from_bytes(buf) {
            Some(raw) => {
                proof {
                    raw.lemma_bytes_agree(Seq::empty());
                    assert(raw.spec_bytes() + Seq::<u8>::empty() =~= buf@);
                    law_progress_msg_unpacked_offsets(raw, buf@);
                    assert(raw.info@.take(info_len(raw.infolen)) =~= buf@.subrange(
                        364,
                        364 + info_len(raw.infolen),
                    ));
                }
                Some(ProgressEvent::from_raw_unpacked(&raw))
            },
            None => None,
        },
    }
}

// ---------------------------------------------------------------------------
// Receiving with one reconnection
// ---------------------------------------------------------------------------

/// What to do after an attempt to receive a progress event.
#[derive(Debug)]
pub enum ReceiveAction {
    /// The connection was lost on the first attempt: reconnect (with a new
    /// handshake) and receive once more.
    Reconnect,
    /// Hand this outcome to the caller.
    Return(Result<ProgressEvent, Error>),
}

/// The decision of `receive_or_reconnect` after one attempt: a connection
/// error on the first attempt asks for one reconnection; anything else, and
/// any outcome of the attempt after reconnecting, is returned as it is.
pub fn after_receive(first_attempt: bool, outcome: Result<ProgressEvent, Error>) -> (a:
    ReceiveAction)
    ensures
        (first_attempt && outcome matches Err(Error::Connection(_))) ==> a is Reconnect,
        !(first_attempt && outcome matches Err(Error::Connection(_))) ==> a == ReceiveAction::Return(
            outcome,
        ),
{
    match outcome {
        Err(Error::Connection(e)) => {
            if first_attempt {
                ReceiveAction::Reconnect
            } else {
                ReceiveAction::Return(Err(Error::Connection(e)))
            }
        },
        other => ReceiveAction::Return(other),
    }
}

} // verus!
