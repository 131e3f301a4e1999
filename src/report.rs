use vstd::prelude::*;
use vstd::string::*;
use crate::device::{Device, describes_host, same_device, text_or_empty};
use crate::text::{decimal, decimal_text, hex, hex_text};

verus! {

/// What the stack unwinder resolved for one symbol of one frame.
pub struct ResolvedSymbol {
    pub name: Option<String>,
    pub line: Option<u32>,
    pub file: Option<String>,
}

/// One frame of the call stack as captured: its instruction pointer (0 when
/// none is known) and the symbols resolved for it, possibly none.
pub struct CapturedFrame {
    pub ip: usize,
    pub symbols: Vec<ResolvedSymbol>,
}

/// One entry of a captured call stack; each field is absent when the runtime
/// could not resolve it.
pub struct ExceptionFrame {
    pub method_name: Option<String>,
    pub line_number: Option<u32>,
    pub file_name: Option<String>,
    pub address: Option<String>,
}

/// The text of an optional string, kept optional.
pub open spec fn opt_text(o: Option<String>) -> Option<Seq<char>> {
    match o {
        Some(s) => Some(s@),
        None => None,
    }
}

/// `0x` and the hexadecimal digits of an instruction pointer; absent for the
/// null pointer, which stands for an address that could not be resolved.
pub open spec fn address_text(ip: usize) -> Option<Seq<char>> {
    if ip == 0 {
        None
    } else {
        Some(seq!['0', 'x'] + hex(ip as nat))
    }
}

/// What one frame of the stack contributes: its pointer with each of its
/// symbols, or its pointer alone when no symbol was resolved.
pub open spec fn frame_slots(c: CapturedFrame) -> Seq<(usize, Option<ResolvedSymbol>)> {
    if c.symbols@.len() == 0 {
        seq![(c.ip, None)]
    } else {
        c.symbols@.map_values(|s: ResolvedSymbol| (c.ip, Some(s)))
    }
}

/// The slots of all frames, innermost frame first.
pub open spec fn all_slots(rows: Seq<CapturedFrame>) -> Seq<(usize, Option<ResolvedSymbol>)>
    decreases rows.len(),
{
    if rows.len() == 0 {
        Seq::empty()
    } else {
        all_slots(rows.drop_last()) + frame_slots(rows.last())
    }
}

/// A frame records the address of its slot and exactly what was resolved for
/// its symbol; with no symbol, only the address.
pub open spec fn frame_of_slot(f: ExceptionFrame, slot: (usize, Option<ResolvedSymbol>)) -> bool {
    &&& opt_text(f.address) == address_text(slot.0)
    &&& match slot.1 {
        Some(s) => {
            &&& opt_text(f.method_name) == opt_text(s.name)
            &&& f.line_number == s.line
            &&& opt_text(f.file_name) == opt_text(s.file)
        },
        None => f.method_name is None && f.line_number is None && f.file_name is None,
    }
}

/// The frames are those of the given captured stack, in its order.
pub open spec fn frames_of_stack(frames: Seq<ExceptionFrame>, rows: Seq<CapturedFrame>) -> bool {
    &&& frames.len() == all_slots(rows).len()
    &&& forall|k: int| 0 <= k < frames.len() ==> frame_of_slot(#[trigger] frames[k], all_slots(rows)[k])
}

/// The frames are those of some captured stack.
pub open spec fn stack_frames(frames: Seq<ExceptionFrame>) -> bool {
    exists|rows: Seq<CapturedFrame>| frames_of_stack(frames, rows)
}

fn copy_text(o: &Option<String>) -> (r: Option<String>)
    ensures
        opt_text(r) == opt_text(*o),
{
    match o {
        Some(s) => Some(s.clone()),
        None => None,
    }
}

fn address_of(ip: usize) -> (r: Option<String>)
    ensures
        opt_text(r) == address_text(ip),
{
    if ip == 0 {
        None
    } else {
        proof {
            reveal_strlit("0x");
        }
        let mut s = String::from_str("0x");
        let digits = hex_text(ip);
        s.append(digits.as_str());
        assert(s@ =~= seq!['0', 'x'] + hex(ip as nat));
        Some(s)
    }
}

/// Relies on backtrace::Backtrace::new, with `frames`, `ip` and `symbols`: the
/// call stack of the current thread, innermost frame first, with what could be
/// resolved of each frame.
#[verifier::external_body]
fn capture_stack() -> (r: Vec<CapturedFrame>) {
    backtrace::Backtrace::new().frames().iter().map(|f| CapturedFrame {
        ip: f.ip().addr(),
        symbols: f.symbols().iter().map(|s| ResolvedSymbol {
            name: s.name().map(|n| format!("{}", n)),
            line: s.lineno(),
            file: s.filename().and_then(|p| p.to_str()).map(|p| p.to_string()),
        }).collect(),
    }).collect()
}

impl ExceptionFrame {
    /// One frame for each resolved symbol, and one for each stack frame of
    /// which no symbol was resolved, in the order of the stack.
    pub fn frames_from_stack(rows: &Vec<CapturedFrame>) -> (r: Vec<ExceptionFrame>)
        ensures
            r@.len() == all_slots(rows@).len(),
            forall|k: int| 0 <= k < r@.len() ==> frame_of_slot(#[trigger] r@[k], all_slots(rows@)[k]),
    {
        let mut out: Vec<ExceptionFrame> = Vec::new();
        let mut i: usize = 0;
        while i < rows.len()
            invariant
                0 <= i <= rows@.len(),
                out@.len() == all_slots(rows@.take(i as int)).len(),
                forall|k: int|
                    0 <= k < out@.len() ==> frame_of_slot(
                        #[trigger] out@[k],
                        all_slots(rows@.take(i as int))[k],
                    ),
            decreases rows@.len() - i,
        {
            let row = &rows[i];
            let ghost done = all_slots(rows@.take(i as int));
            proof {
                assert(rows@.take(i + 1).drop_last() =~= rows@.take(i as int));
                assert(rows@.take(i + 1).last() == *row);
            }
            if row.symbols.len() == 0 {
                out.push(
                    ExceptionFrame {
                        method_name: None,
                        line_number: None,
                        file_name: None,
                        address: address_of(row.ip),
                    },
                );
                assert(done + frame_slots(*row) =~= done.push((row.ip, None)));
            } else {
                let mut j: usize = 0;
                while j < row.symbols.len()
                    invariant
                        0 <= i < rows@.len(),
                        *row == rows@[i as int],
                        row.symbols@.len() > 0,
                        0 <= j <= row.symbols@.len(),
                        out@.len() == done.len() + j,
                        forall|k: int|
                            0 <= k < out@.len() ==> frame_of_slot(
                                #[trigger] out@[k],
                                (done + frame_slots(*row).take(j as int))[k],
                            ),
                    decreases row.symbols@.len() - j,
                {
                    let s = &row.symbols[j];
                    out.push(
                        ExceptionFrame {
                            method_name: copy_text(&s.name),
                            line_number: s.line,
                            file_name: copy_text(&s.file),
                            address: address_of(row.ip),
                        },
                    );
                    proof {
                        assert(done + frame_slots(*row).take(j + 1) =~= (done + frame_slots(
                            *row,
                        ).take(j as int)).push((row.ip, Some(row.symbols@[j as int]))));
                    }
                    j += 1;
                }
                assert(frame_slots(*row).take(j as int) =~= frame_slots(*row));
            }
            i += 1;
        }
        proof {
            assert(rows@.take(rows@.len() as int) =~= rows@);
        }
        out
    }

    /// The current call stack, innermost frame first: one frame for each
    /// resolved symbol, and one for each stack frame of which none was.
    pub fn collect_backtrace() -> (r: Vec<ExceptionFrame>)
        ensures
            stack_frames(r@),
    {
        let rows = capture_stack();
        let r = ExceptionFrame::frames_from_stack(&rows);
        assert(frames_of_stack(r@, rows@));
        r
    }
}

/// Where a failure was raised.
pub struct SourceLocation {
    pub file: String,
    pub line: u32,
}

/// What the runtime tells of a failure: the payload's text, when the payload
/// is text, and the place it was raised, when known.
pub struct FailureInfo {
    pub payload_text: Option<String>,
    pub location: Option<SourceLocation>,
}

/// `" at <file>:<line>"` for a known location, nothing otherwise.
pub open spec fn location_suffix(loc: Option<SourceLocation>) -> Seq<char> {
    match loc {
        Some(l) => seq![' ', 'a', 't', ' '] + l.file@ + seq![':'] + decimal(l.line as nat),
        None => Seq::empty(),
    }
}

/// The message of the exception raised for a failure.
pub open spec fn exception_message(f: FailureInfo) -> Seq<char> {
    text_or_empty(f.payload_text) + location_suffix(f.location)
}

/// The exception part of a failure record.
pub struct AppCenterException {
    pub kind: String,
    pub message: String,
    pub frames: Vec<ExceptionFrame>,
}

impl AppCenterException {
    /// The exception of a failure with the given call stack.
    pub fn with_frames(failure: &FailureInfo, frames: Vec<ExceptionFrame>) -> (r: AppCenterException)
        ensures
            r.kind@ == "panic"@,
            r.message@ == exception_message(*failure),
            r.frames@ == frames@,
    {
        let mut message = String::new();
        match &failure.payload_text {
            Some(p) => message.append(p.as_str()),
            None => {},
        }
        match &failure.location {
            Some(l) => {
                proof {
                    reveal_strlit(" at ");
                    reveal_strlit(":");
                }
                message.append(" at ");
                message.append(l.file.as_str());
                message.append(":");
                let line = decimal_text(l.line);
                message.append(line.as_str());
                assert(message@ =~= exception_message(*failure));
            },
            None => {
                assert(message@ =~= exception_message(*failure));
            },
        }
        AppCenterException { kind: String::from_str("panic"), message, frames }
    }

    /// The exception of a failure, with the call stack captured now.
    pub fn new(failure: &FailureInfo) -> (r: AppCenterException)
        ensures
            r.kind@ == "panic"@,
            r.message@ == exception_message(*failure),
            stack_frames(r.frames@),
    {
        AppCenterException::with_frames(failure, ExceptionFrame::collect_backtrace())
    }
}

/// One entry of a crash report.
pub enum AppCenterLog {
    /// The failure itself.
    ManagedError {
        id: u128,
        user_id: Option<String>,
        app_launch_timestamp: String,
        timestamp: String,
        fatal: bool,
        process_id: u32,
        process_name: String,
        device: Device,
        exception: AppCenterException,
    },
    /// Extra evidence attached to the failure.
    ErrorAttachment {
        id: u128,
        error_id: u128,
        device: Device,
        content_type: String,
        data: Vec<u8>,
        file_name: Option<String>,
    },
}

/// The text of an optional string slice, kept optional.
pub open spec fn opt_str_text(o: Option<&str>) -> Option<Seq<char>> {
    match o {
        Some(s) => Some(s@),
        None => None,
    }
}

/// `e` is an attachment of the failure record `failure` with the given
/// content type, bytes and file name.
pub open spec fn attachment_of(
    e: AppCenterLog,
    failure: AppCenterLog,
    content_type: Seq<char>,
    data: Seq<u8>,
    file_name: Option<Seq<char>>,
) -> bool {
    &&& e is ErrorAttachment
    &&& failure is ManagedError
    &&& e->ErrorAttachment_error_id == failure->ManagedError_id
    &&& same_device(e->ErrorAttachment_device, failure->ManagedError_device)
    &&& e->ErrorAttachment_content_type@ == content_type
    &&& e->ErrorAttachment_data@ == data
    &&& opt_text(e->ErrorAttachment_file_name) == file_name
}

/// The bytes read as one unsigned number, most significant byte first.
pub open spec fn big_endian_value(b: Seq<u8>) -> nat
    decreases b.len(),
{
    if b.len() == 0 {
        0
    } else {
        big_endian_value(b.drop_last()) * 256 + b.last() as nat
    }
}

/// The value of the random (version 4, RFC 4122 variant) UUID built from
/// sixteen bytes: the version in the high half of byte 6, the variant in the
/// top two bits of byte 8, read most significant byte first.
pub open spec fn uuid_v4_of(bytes: Seq<u8>) -> u128 {
    big_endian_value(
        bytes.update(6, (bytes[6] & 0x0fu8) | 0x40u8).update(8, (bytes[8] & 0x3fu8) | 0x80u8),
    ) as u128
}

/// An identifier that a report may carry: a random UUID built from some
/// sixteen bytes, or the nil UUID when no random bytes could be drawn.
pub open spec fn possible_identifier(id: u128) -> bool {
    id == 0 || exists|b: Seq<u8>| b.len() == 16 && id == #[trigger] uuid_v4_of(b)
}

/// The text of the epoch, used when the clock gives no time chrono can write.
pub open spec fn epoch_text() -> Seq<char> {
    "1970-01-01T00:00:00Z"@
}

/// A timestamp text that a report may carry: the RFC 3339 text of some time,
/// or the text of the epoch.
pub open spec fn possible_time_text(t: Seq<char>) -> bool {
    t == epoch_text() || exists|secs: i64, nanos: u32| t == #[trigger] rfc3339_of(secs, nanos)
}

/// Times that chrono can write: years 1 to 9999, nanoseconds below a second.
pub open spec fn writable_time(secs: i64, nanos: u32) -> bool {
    nanos < 1_000_000_000 && -62_135_596_800 <= secs <= 253_402_300_799
}

/// The RFC 3339 text, in UTC with `Z`, of a time given as seconds and
/// nanoseconds since the Unix epoch.
pub uninterp spec fn rfc3339_of(secs: i64, nanos: u32) -> Seq<char>;

/// Relies on getrandom::getrandom: sixteen bytes from the operating system's
/// random source, or nothing when that source fails.
#[verifier::external_body]
fn random_bytes() -> (r: Option<[u8; 16]>) {
    let mut bytes = [0u8; 16];
    getrandom::getrandom(&mut bytes).ok().map(|_| bytes)
}

/// Relies on uuid::Builder::from_random_bytes: the bytes with the version and
/// variant bits of a random UUID set, as a 128-bit value.
#[verifier::external_body]
fn uuid_from_random_bytes(bytes: [u8; 16]) -> (r: u128)
    ensures
        r == uuid_v4_of(bytes@),
{
    uuid::Builder::from_random_bytes(bytes).into_uuid().as_u128()
}

/// The identifier for freshly drawn random bytes: a random UUID, or the nil
/// UUID when no bytes could be drawn.
pub fn identifier_from(drawn: Option<[u8; 16]>) -> (r: u128)
    ensures
        r == match drawn {
            Some(b) => uuid_v4_of(b@),
            None => 0u128,
        },
{
    match drawn {
        Some(b) => uuid_from_random_bytes(b),
        None => 0,
    }
}

/// A new random identifier; the nil identifier when the random source fails.
fn new_identifier() -> (r: u128)
    ensures
        possible_identifier(r),
{
    let drawn = random_bytes();
    let r = identifier_from(drawn);
    proof {
        if let Some(b) = drawn {
            assert(b@.len() == 16 && r == uuid_v4_of(b@));
        }
    }
    r
}

/// Relies on std::time::SystemTime::now with duration_since(UNIX_EPOCH): the
/// distance of the clock from the epoch, whether the clock reads after it
/// (`true`) or before it (`false`).
#[verifier::external_body]
fn clock_reading() -> (r: (bool, u64, u32))
    ensures
        r.2 < 1_000_000_000,
{
    match std::time::SystemTime::now().duration_since(std::time::UNIX_EPOCH) {
        Ok(d) => (true, d.as_secs(), d.subsec_nanos()),
        Err(e) => (false, e.duration().as_secs(), e.duration().subsec_nanos()),
    }
}

/// Relies on chrono::DateTime::<Utc>::from_timestamp and to_rfc3339_opts
/// (seconds shown as needed, `Z` for UTC); nothing for a time out of chrono's
/// range.
#[verifier::external_body]
fn rfc3339_text(secs: i64, nanos: u32) -> (r: Option<String>)
    ensures
        r matches Some(t) ==> t@ == rfc3339_of(secs, nanos),
        writable_time(secs, nanos) ==> r is Some,
{
    chrono::DateTime::<chrono::Utc>::from_timestamp(secs, nanos)
        .map(|d| d.to_rfc3339_opts(chrono::SecondsFormat::AutoSi, true))
}

/// Seconds and nanoseconds since the epoch, the nanoseconds counted forward,
/// for a clock reading `secs.nanos` after the epoch (`after`) or before it;
/// nothing when the seconds do not fit.
pub fn unix_time(after: bool, secs: u64, nanos: u32) -> (r: Option<(i64, u32)>)
    requires
        nanos < 1_000_000_000,
    ensures
        secs > i64::MAX ==> r is None,
        secs <= i64::MAX ==> r is Some,
        r matches Some(t) ==> {
            &&& after ==> t.0 == secs && t.1 == nanos
            &&& (!after && nanos == 0) ==> t.0 == -(secs as int) && t.1 == 0
            &&& (!after && nanos > 0) ==> t.0 == -(secs as int) - 1 && t.1 == 1_000_000_000 - nanos
        },
{
    if secs > i64::MAX as u64 {
        return None;
    }
    let s = secs as i64;
    if after {
        Some((s, nanos))
    } else if nanos == 0 {
        Some((-s, 0))
    } else {
        Some((-s - 1, 1_000_000_000 - nanos))
    }
}

/// The RFC 3339 text of a time, or the text of the epoch when the time is
/// out of range.
pub fn time_text(t: Option<(i64, u32)>) -> (r: String)
    ensures
        t matches Some(v) ==> (r@ == rfc3339_of(v.0, v.1) || r@ == epoch_text()),
        t matches Some(v) ==> (writable_time(v.0, v.1) ==> r@ == rfc3339_of(v.0, v.1)),
        t is None ==> r@ == epoch_text(),
{
    match t {
        Some(v) => match rfc3339_text(v.0, v.1) {
            Some(text) => text,
            None => String::from_str("1970-01-01T00:00:00Z"),
        },
        None => String::from_str("1970-01-01T00:00:00Z"),
    }
}

/// The current UTC time as RFC 3339 text.
fn utc_now_text() -> (r: String)
    ensures
        possible_time_text(r@),
{
    let (after, secs, nanos) = clock_reading();
    let t = unix_time(after, secs, nanos);
    let r = time_text(t);
    proof {
        if let Some(v) = t {
            if r@ != epoch_text() {
                assert(r@ == rfc3339_of(v.0, v.1));
            }
        }
    }
    r
}

/// What the agent knows for the lifetime of the process.
pub struct AgentSettings {
    pub app_secret: String,
    pub app_version: String,
    pub app_build: Option<String>,
    pub app_launch_timestamp: String,
}

impl AgentSettings {
    /// Settings for an application launched now, with no build string.
    pub fn new(app_secret: String, app_version: &str) -> (r: AgentSettings)
        ensures
            r.app_secret@ == app_secret@,
            r.app_version@ == app_version@,
            r.app_build is None,
            possible_time_text(r.app_launch_timestamp@),
    {
        AgentSettings {
            app_secret,
            app_version: String::from_str(app_version),
            app_build: None,
            app_launch_timestamp: utc_now_text(),
        }
    }
}

/// The first entry is the failure record; every later entry is an attachment
/// that refers to it and carries its device descriptor.
pub open spec fn well_formed_entries(s: Seq<AppCenterLog>) -> bool {
    &&& s.len() >= 1
    &&& s[0] is ManagedError
    &&& forall|i: int|
        1 <= i < s.len() ==> {
            &&& (#[trigger] s[i]) is ErrorAttachment
            &&& s[i]->ErrorAttachment_error_id == s[0]->ManagedError_id
            &&& same_device(s[i]->ErrorAttachment_device, s[0]->ManagedError_device)
        }
}

/// A crash report: the failure record first, then its attachments.
pub struct AppCenterLogs {
    logs: Vec<AppCenterLog>,
}

impl View for AppCenterLogs {
    type V = Seq<AppCenterLog>;

    closed spec fn view(&self) -> Seq<AppCenterLog> {
        self.logs@
    }
}

impl AppCenterLogs {
    /// The first entry is the failure record; every later entry is an
    /// attachment that refers to it and carries its device descriptor.
    pub open spec fn wf(&self) -> bool {
        well_formed_entries(self@)
    }

    /// The entries of the report, in order.
    pub fn logs(&self) -> (r: &Vec<AppCenterLog>)
        ensures
            r@ == self@,
    {
        &self.logs
    }

    /// A report that holds the failure record alone.
    pub fn from_failure(
        user_id: Option<String>,
        app_launch_timestamp: String,
        process_id: u32,
        device: Device,
        exception: AppCenterException,
    ) -> (r: AppCenterLogs)
        ensures
            r.wf(),
            r@.len() == 1,
            opt_text(r@[0]->ManagedError_user_id) == opt_text(user_id),
            r@[0]->ManagedError_app_launch_timestamp@ == app_launch_timestamp@,
            r@[0]->ManagedError_fatal,
            r@[0]->ManagedError_process_id == process_id,
            r@[0]->ManagedError_process_name@.len() == 0,
            r@[0]->ManagedError_device == device,
            r@[0]->ManagedError_exception == exception,
            possible_identifier(r@[0]->ManagedError_id),
            possible_time_text(r@[0]->ManagedError_timestamp@),
    {
        let mut logs: Vec<AppCenterLog> = Vec::new();
        logs.push(
            AppCenterLog::ManagedError {
                id: new_identifier(),
                user_id,
                app_launch_timestamp,
                timestamp: utc_now_text(),
                fatal: true,
                process_id,
                process_name: String::new(),
                device,
                exception,
            },
        );
        AppCenterLogs { logs }
    }

    /// The report of a failure that happens now, for the given agent, user
    /// and process.
    pub fn new_payload(
        settings: &AgentSettings,
        user_id: Option<String>,
        process_id: u32,
        failure: &FailureInfo,
    ) -> (r: AppCenterLogs)
        ensures
            r.wf(),
            r@.len() == 1,
            opt_text(r@[0]->ManagedError_user_id) == opt_text(user_id),
            r@[0]->ManagedError_app_launch_timestamp@ == settings.app_launch_timestamp@,
            r@[0]->ManagedError_fatal,
            r@[0]->ManagedError_process_id == process_id,
            r@[0]->ManagedError_process_name@.len() == 0,
            describes_host(r@[0]->ManagedError_device, settings.app_version@, settings.app_build),
            r@[0]->ManagedError_exception.kind@ == "panic"@,
            r@[0]->ManagedError_exception.message@ == exception_message(*failure),
            stack_frames(r@[0]->ManagedError_exception.frames@),
            possible_identifier(r@[0]->ManagedError_id),
            possible_time_text(r@[0]->ManagedError_timestamp@),
    {
        AppCenterLogs::from_failure(
            user_id,
            settings.app_launch_timestamp.clone(),
            process_id,
            Device::current_device(settings.app_version.as_str(), &settings.app_build),
            AppCenterException::new(failure),
        )
    }

    /// Attaches bytes with the given content type to the report.
    pub fn add_attachement_inner(&mut self, data: Vec<u8>, file_name: Option<&str>, content_type: &str)
        requires
            old(self).wf(),
        ensures
            final(self).wf(),
            final(self)@.len() == old(self)@.len() + 1,
            forall|i: int| 0 <= i < old(self)@.len() ==> final(self)@[i] == old(self)@[i],
            attachment_of(
                final(self)@.last(),
                final(self)@[0],
                content_type@,
                data@,
                opt_str_text(file_name),
            ),
            possible_identifier(final(self)@.last()->ErrorAttachment_id),
    {
        let (device, error_id) = match &self.logs[0] {
            AppCenterLog::ManagedError { device, id, .. } => (device.duplicate(), *id),
            AppCenterLog::ErrorAttachment { device, error_id, .. } => {
                proof {
                    assert(false);
                }
                (device.duplicate(), *error_id)
            },
        };
        let file_name = match file_name {
            Some(n) => Some(String::from_str(n)),
            None => None,
        };
        self.logs.push(
            AppCenterLog::ErrorAttachment {
                id: new_identifier(),
                error_id,
                device,
                content_type: String::from_str(content_type),
                data,
                file_name,
            },
        );
    }

    /// Attaches raw bytes to the report.
    pub fn add_binary_attachement(&mut self, data: Vec<u8>, file_name: Option<&str>)
        requires
            old(self).wf(),
        ensures
            final(self).wf(),
            final(self)@.len() == old(self)@.len() + 1,
            forall|i: int| 0 <= i < old(self)@.len() ==> final(self)@[i] == old(self)@[i],
            attachment_of(
                final(self)@.last(),
                final(self)@[0],
                "application/octet_stream"@,
                data@,
                opt_str_text(file_name),
            ),
            possible_identifier(final(self)@.last()->ErrorAttachment_id),
    {
        self.add_attachement_inner(data, file_name, "application/octet_stream");
    }

    /// Attaches text to the report, as its UTF-8 bytes.
    pub fn add_text_attachement(&mut self, data: &str, file_name: Option<&str>)
        requires
            old(self).wf(),
        ensures
            final(self).wf(),
            final(self)@.len() == old(self)@.len() + 1,
            forall|i: int| 0 <= i < old(self)@.len() ==> final(self)@[i] == old(self)@[i],
            attachment_of(
                final(self)@.last(),
                final(self)@[0],
                "text/plain"@,
                data.spec_bytes(),
                opt_str_text(file_name),
            ),
            possible_identifier(final(self)@.last()->ErrorAttachment_id),
    {
        let bytes = vstd::slice::slice_to_vec(data.as_bytes());
        self.add_attachement_inner(bytes, file_name, "text/plain");
    }
}

/// When the payload of a failure is text, the exception message starts with
/// that text, verbatim.
pub proof fn lemma_message_starts_with_payload(f: FailureInfo)
    requires
        f.payload_text is Some,
    ensures
        exception_message(f).len() >= f.payload_text->0@.len(),
        exception_message(f).take(f.payload_text->0@.len() as int) == f.payload_text->0@,
{
    let p = f.payload_text->0@;
    assert(exception_message(f).take(p.len() as int) =~= p);
}

/// When the location of a failure is known, the exception message ends with
/// `" at <file>:<line>"` for exactly that file and line.
pub proof fn lemma_message_ends_with_location(f: FailureInfo)
    requires
        f.location is Some,
    ensures
        ({
            let l = f.location->0;
            let suffix = seq![' ', 'a', 't', ' '] + l.file@ + seq![':'] + decimal(l.line as nat);
            let m = exception_message(f);
            m.len() >= suffix.len() && m.skip(m.len() - suffix.len()) == suffix
        }),
{
    let l = f.location->0;
    let suffix = seq![' ', 'a', 't', ' '] + l.file@ + seq![':'] + decimal(l.line as nat);
    let m = exception_message(f);
    assert(m.skip(m.len() - suffix.len()) =~= suffix);
}

/// In a well-formed report the first entry is the failure record and every
/// other entry is an attachment whose back-reference is that record's
/// identifier, whatever the number of attachments.
pub proof fn lemma_attachments_reference_failure(logs: AppCenterLogs)
    requires
        logs.wf(),
    ensures
        logs@[0] is ManagedError,
        forall|i: int|
            1 <= i < logs@.len() ==> (#[trigger] logs@[i]) is ErrorAttachment
                && logs@[i]->ErrorAttachment_error_id == logs@[0]->ManagedError_id,
{
}

/// Appending any number of attachments of a report's failure record, each
/// with that record's identifier and device, keeps the report well formed:
/// the failure record stays first and every attachment refers to it.
pub proof fn lemma_appended_attachments_refer_to_failure(
    entries: Seq<AppCenterLog>,
    extra: Seq<AppCenterLog>,
)
    requires
        well_formed_entries(entries),
        forall|i: int|
            0 <= i < extra.len() ==> {
                &&& (#[trigger] extra[i]) is ErrorAttachment
                &&& extra[i]->ErrorAttachment_error_id == entries[0]->ManagedError_id
                &&& same_device(extra[i]->ErrorAttachment_device, entries[0]->ManagedError_device)
            },
    ensures
        well_formed_entries(entries + extra),
        (entries + extra)[0] == entries[0],
{
    let all = entries + extra;
    assert forall|i: int| 1 <= i < all.len() implies {
        &&& (#[trigger] all[i]) is ErrorAttachment
        &&& all[i]->ErrorAttachment_error_id == all[0]->ManagedError_id
        &&& same_device(all[i]->ErrorAttachment_device, all[0]->ManagedError_device)
    } by {
        if i >= entries.len() {
            assert(all[i] == extra[i - entries.len()]);
        }
    }
}

} // verus!
