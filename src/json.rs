use vstd::prelude::*;
use vstd::string::*;
use crate::device::Device;
use crate::report::{AppCenterException, AppCenterLog, AppCenterLogs, ExceptionFrame, attachment_of};
use crate::text::{decimal, decimal_text, hex_digit_char};

verus! {

/// The escaped contents of a JSON string literal for the given text.
pub uninterp spec fn json_escaped_of(s: Seq<char>) -> Seq<char>;

/// The standard base64 encoding, with padding, of the given bytes.
pub uninterp spec fn base64_of(b: Seq<u8>) -> Seq<char>;

/// The last `width` hexadecimal digits of `v`, in lower case, with leading
/// zeros.
pub open spec fn hex_digits(v: nat, width: nat) -> Seq<char>
    decreases width,
{
    if width == 0 {
        Seq::empty()
    } else {
        hex_digits(v / 16, (width - 1) as nat).push(hex_digit_char(v % 16))
    }
}

/// The hyphenated text of a UUID with the given 128-bit value: its 32
/// lower-case hexadecimal digits, most significant first, in groups of 8, 4,
/// 4, 4 and 12.
pub open spec fn uuid_text_of(v: u128) -> Seq<char> {
    let d = hex_digits(v as nat, 32);
    d.subrange(0, 8) + seq!['-'] + d.subrange(8, 12) + seq!['-'] + d.subrange(12, 16) + seq!['-']
        + d.subrange(16, 20) + seq!['-'] + d.subrange(20, 32)
}

/// Relies on serde_json::to_string on a string slice: the text between
/// quotation marks, escaped. Writing a string slice does not fail.
#[verifier::external_body]
fn json_string(s: &str) -> (r: String)
    ensures
        r@ == seq!['"'] + json_escaped_of(s@) + seq!['"'],
{
    serde_json::to_string(s).unwrap_or_default()
}

/// Relies on base64::encode (standard alphabet, padded).
#[verifier::external_body]
fn base64_text(b: &Vec<u8>) -> (r: String)
    ensures
        r@ == base64_of(b@),
{
    base64::encode(b)
}

/// Relies on uuid::Uuid::from_u128 (the value's bytes, most significant
/// first) and its hyphenated text form (lower-case hex digits, groups of 8, 4,
/// 4, 4 and 12).
#[verifier::external_body]
fn uuid_text(v: u128) -> (r: String)
    ensures
        r@ == uuid_text_of(v),
{
    uuid::Uuid::from_u128(v).hyphenated().to_string()
}

/// A JSON string literal holding the given text.
pub open spec fn string_value(s: Seq<char>) -> Seq<char> {
    seq!['"'] + json_escaped_of(s) + seq!['"']
}

/// `"key":value`.
pub open spec fn member_text(m: (Seq<char>, Seq<char>)) -> Seq<char> {
    "\""@ + m.0 + "\":"@ + m.1
}

/// The items separated by commas.
pub open spec fn joined(items: Seq<Seq<char>>) -> Seq<char>
    decreases items.len(),
{
    if items.len() == 0 {
        Seq::empty()
    } else if items.len() == 1 {
        items[0]
    } else {
        joined(items.drop_last()) + ","@ + items.last()
    }
}

pub open spec fn texts(items: Seq<String>) -> Seq<Seq<char>> {
    items.map_values(|t: String| t@)
}

/// A JSON object with the given members, in order.
pub open spec fn object_text(members: Seq<(Seq<char>, Seq<char>)>) -> Seq<char> {
    "{"@ + joined(members.map_values(|m: (Seq<char>, Seq<char>)| member_text(m))) + "}"@
}

/// A JSON array with the given items, in order.
pub open spec fn array_text(items: Seq<Seq<char>>) -> Seq<char> {
    "["@ + joined(items) + "]"@
}

/// A member for a present value, none for an absent one.
pub open spec fn optional_member(key: Seq<char>, v: Option<Seq<char>>) -> Seq<(Seq<char>, Seq<char>)> {
    match v {
        Some(x) => seq![(key, x)],
        None => Seq::empty(),
    }
}

pub open spec fn optional_string(o: Option<String>) -> Option<Seq<char>> {
    match o {
        Some(s) => Some(string_value(s@)),
        None => None,
    }
}

pub open spec fn optional_number(o: Option<u32>) -> Option<Seq<char>> {
    match o {
        Some(n) => Some(decimal(n as nat)),
        None => None,
    }
}

/// The members of a frame object: one for each field that is present.
pub open spec fn frame_members(f: ExceptionFrame) -> Seq<(Seq<char>, Seq<char>)> {
    optional_member("methodName"@, optional_string(f.method_name))
        + optional_member("lineNumber"@, optional_number(f.line_number))
        + optional_member("fileName"@, optional_string(f.file_name))
        + optional_member("address"@, optional_string(f.address))
}

pub open spec fn frame_json(f: ExceptionFrame) -> Seq<char> {
    object_text(frame_members(f))
}

/// `"key":value`.
fn member(key: &str, value: String) -> (r: String)
    ensures
        r@ == member_text((key@, value@)),
{
    let mut r = String::from_str("\"");
    r.append(key);
    r.append("\":");
    r.append(value.as_str());
    assert(r@ =~= member_text((key@, value@)));
    r
}

fn write_joined(items: &Vec<String>) -> (r: String)
    ensures
        r@ == joined(texts(items@)),
{
    let mut r = String::new();
    let mut i: usize = 0;
    while i < items.len()
        invariant
            0 <= i <= items@.len(),
            r@ == joined(texts(items@.take(i as int))),
        decreases items@.len() - i,
    {
        proof {
            assert(texts(items@.take(i + 1)).drop_last() =~= texts(items@.take(i as int)));
        }
        if i > 0 {
            r.append(",");
        }
        r.append(items[i].as_str());
        i += 1;
    }
    proof {
        assert(items@.take(items@.len() as int) =~= items@);
    }
    r
}

fn write_object(members: &Vec<String>) -> (r: String)
    ensures
        r@ == "{"@ + joined(texts(members@)) + "}"@,
{
    let mut r = String::from_str("{");
    let inner = write_joined(members);
    r.append(inner.as_str());
    r.append("}");
    r
}

fn write_array(items: &Vec<String>) -> (r: String)
    ensures
        r@ == array_text(texts(items@)),
{
    let mut r = String::from_str("[");
    let inner = write_joined(items);
    r.append(inner.as_str());
    r.append("]");
    r
}

fn push_optional_string(ms: &mut Vec<String>, key: &str, value: &Option<String>)
    ensures
        texts(final(ms)@) == texts(old(ms)@) + optional_member(key@, optional_string(*value)).map_values(
            |m: (Seq<char>, Seq<char>)| member_text(m),
        ),
{
    match value {
        Some(v) => {
            let m = member(key, json_string(v.as_str()));
            ms.push(m);
        },
        None => {},
    }
    assert(texts(final(ms)@) =~= texts(old(ms)@) + optional_member(key@, optional_string(*value)).map_values(
        |m: (Seq<char>, Seq<char>)| member_text(m),
    ));
}

impl ExceptionFrame {
    /// The frame as a JSON object, with no member for an absent field.
    pub fn to_json(&self) -> (r: String)
        ensures
            r@ == frame_json(*self),
    {
        let mut ms: Vec<String> = Vec::new();
        push_optional_string(&mut ms, "methodName", &self.method_name);
        let ghost a = ms@;
        match self.line_number {
            Some(n) => {
                let m = member("lineNumber", decimal_text(n));
                ms.push(m);
            },
            None => {},
        }
        assert(texts(ms@) =~= texts(a) + optional_member("lineNumber"@, optional_number(self.line_number)).map_values(
            |m: (Seq<char>, Seq<char>)| member_text(m),
        ));
        push_optional_string(&mut ms, "fileName", &self.file_name);
        push_optional_string(&mut ms, "address", &self.address);
        assert(texts(ms@) =~= frame_members(*self).map_values(|m: (Seq<char>, Seq<char>)| member_text(m)));
        write_object(&ms)
    }
}

/// `true` or `false`.
pub open spec fn bool_text(b: bool) -> Seq<char> {
    if b { "true"@ } else { "false"@ }
}

/// The members of a device object.
pub open spec fn device_members(d: Device) -> Seq<(Seq<char>, Seq<char>)> {
    seq![
        ("model"@, string_value(d.model@)),
        ("sdkName"@, string_value(d.sdk_name@)),
        ("sdkVersion"@, string_value(d.sdk_version@)),
        ("osName"@, string_value(d.os_name@)),
        ("osVersion"@, string_value(d.os_version@)),
        ("locale"@, string_value(d.locale@)),
        ("appVersion"@, string_value(d.app_version@)),
        ("appBuild"@, string_value(d.app_build@)),
    ]
}

pub open spec fn device_json(d: Device) -> Seq<char> {
    object_text(device_members(d))
}

/// The members of an exception object.
pub open spec fn exception_members(e: AppCenterException) -> Seq<(Seq<char>, Seq<char>)> {
    seq![
        ("type"@, string_value(e.kind@)),
        ("message"@, string_value(e.message@)),
        ("frames"@, array_text(e.frames@.map_values(|f: ExceptionFrame| frame_json(f)))),
    ]
}

pub open spec fn exception_json(e: AppCenterException) -> Seq<char> {
    object_text(exception_members(e))
}

/// The members of a log entry object, its `type` first.
pub open spec fn entry_members(e: AppCenterLog) -> Seq<(Seq<char>, Seq<char>)> {
    match e {
        AppCenterLog::ManagedError {
            id,
            user_id,
            app_launch_timestamp,
            timestamp,
            fatal,
            process_id,
            process_name,
            device,
            exception,
        } => seq![
            ("type"@, string_value("managedError"@)),
            ("id"@, string_value(uuid_text_of(id))),
        ] + optional_member("userId"@, optional_string(user_id)) + seq![
            ("appLaunchTimestamp"@, string_value(app_launch_timestamp@)),
            ("timestamp"@, string_value(timestamp@)),
            ("fatal"@, bool_text(fatal)),
            ("processId"@, decimal(process_id as nat)),
            ("processName"@, string_value(process_name@)),
            ("device"@, device_json(device)),
            ("exception"@, exception_json(exception)),
        ],
        AppCenterLog::ErrorAttachment { id, error_id, device, content_type, data, file_name } => seq![
            ("type"@, string_value("errorAttachment"@)),
            ("id"@, string_value(uuid_text_of(id))),
            ("errorId"@, string_value(uuid_text_of(error_id))),
            ("device"@, device_json(device)),
            ("contentType"@, string_value(content_type@)),
            ("data"@, string_value(base64_of(data@))),
        ] + optional_member("fileName"@, optional_string(file_name)),
    }
}

pub open spec fn entry_json(e: AppCenterLog) -> Seq<char> {
    object_text(entry_members(e))
}

/// The request body for a report: an object whose `logs` member holds the
/// entries in order.
pub open spec fn report_json(entries: Seq<AppCenterLog>) -> Seq<char> {
    object_text(seq![("logs"@, array_text(entries.map_values(|e: AppCenterLog| entry_json(e))))])
}

pub open spec fn member_texts(ms: Seq<(Seq<char>, Seq<char>)>) -> Seq<Seq<char>> {
    ms.map_values(|m: (Seq<char>, Seq<char>)| member_text(m))
}

fn push_member(ms: &mut Vec<String>, key: &str, value: String)
    ensures
        texts(final(ms)@) == texts(old(ms)@).push(member_text((key@, value@))),
{
    let m = member(key, value);
    ms.push(m);
    assert(texts(final(ms)@) =~= texts(old(ms)@).push(member_text((key@, value@))));
}

fn quoted(s: &String) -> (r: String)
    ensures
        r@ == string_value(s@),
{
    json_string(s.as_str())
}

impl Device {
    /// The descriptor as a JSON object.
    pub fn to_json(&self) -> (r: String)
        ensures
            r@ == device_json(*self),
    {
        let mut ms: Vec<String> = Vec::new();
        push_member(&mut ms, "model", quoted(&self.model));
        push_member(&mut ms, "sdkName", quoted(&self.sdk_name));
        push_member(&mut ms, "sdkVersion", quoted(&self.sdk_version));
        push_member(&mut ms, "osName", quoted(&self.os_name));
        push_member(&mut ms, "osVersion", quoted(&self.os_version));
        push_member(&mut ms, "locale", quoted(&self.locale));
        push_member(&mut ms, "appVersion", quoted(&self.app_version));
        push_member(&mut ms, "appBuild", quoted(&self.app_build));
        assert(texts(ms@) =~= member_texts(device_members(*self)));
        write_object(&ms)
    }
}

fn frames_json(frames: &Vec<ExceptionFrame>) -> (r: String)
    ensures
        r@ == array_text(frames@.map_values(|f: ExceptionFrame| frame_json(f))),
{
    let mut items: Vec<String> = Vec::new();
    let mut i: usize = 0;
    while i < frames.len()
        invariant
            0 <= i <= frames@.len(),
            texts(items@) == frames@.take(i as int).map_values(|f: ExceptionFrame| frame_json(f)),
        decreases frames@.len() - i,
    {
        let t = frames[i].to_json();
        let ghost before = items@;
        items.push(t);
        proof {
            assert(texts(items@) =~= texts(before).push(t@));
            assert(frames@.take(i + 1).map_values(|f: ExceptionFrame| frame_json(f)) =~= frames@.take(
                i as int,
            ).map_values(|f: ExceptionFrame| frame_json(f)).push(frame_json(frames@[i as int])));
        }
        i += 1;
    }
    proof {
        assert(frames@.take(frames@.len() as int) =~= frames@);
    }
    write_array(&items)
}

impl AppCenterException {
    /// The exception as a JSON object.
    pub fn to_json(&self) -> (r: String)
        ensures
            r@ == exception_json(*self),
    {
        let mut ms: Vec<String> = Vec::new();
        push_member(&mut ms, "type", quoted(&self.kind));
        push_member(&mut ms, "message", quoted(&self.message));
        push_member(&mut ms, "frames", frames_json(&self.frames));
        assert(texts(ms@) =~= member_texts(exception_members(*self)));
        write_object(&ms)
    }
}

fn bool_json(b: bool) -> (r: String)
    ensures
        r@ == bool_text(b),
{
    if b {
        String::from_str("true")
    } else {
        String::from_str("false")
    }
}

impl AppCenterLog {
    /// The entry as a JSON object, its `type` first, with no member for an
    /// absent user id or file name.
    pub fn to_json(&self) -> (r: String)
        ensures
            r@ == entry_json(*self),
    {
        let mut ms: Vec<String> = Vec::new();
        match self {
            AppCenterLog::ManagedError {
                id,
                user_id,
                app_launch_timestamp,
                timestamp,
                fatal,
                process_id,
                process_name,
                device,
                exception,
            } => {
                push_member(&mut ms, "type", json_string("managedError"));
                push_member(&mut ms, "id", json_string(uuid_text(*id).as_str()));
                push_optional_string(&mut ms, "userId", user_id);
                push_member(&mut ms, "appLaunchTimestamp", quoted(app_launch_timestamp));
                push_member(&mut ms, "timestamp", quoted(timestamp));
                push_member(&mut ms, "fatal", bool_json(*fatal));
                push_member(&mut ms, "processId", decimal_text(*process_id));
                push_member(&mut ms, "processName", quoted(process_name));
                push_member(&mut ms, "device", device.to_json());
                push_member(&mut ms, "exception", exception.to_json());
            },
            AppCenterLog::ErrorAttachment { id, error_id, device, content_type, data, file_name } => {
                push_member(&mut ms, "type", json_string("errorAttachment"));
                push_member(&mut ms, "id", json_string(uuid_text(*id).as_str()));
                push_member(&mut ms, "errorId", json_string(uuid_text(*error_id).as_str()));
                push_member(&mut ms, "device", device.to_json());
                push_member(&mut ms, "contentType", quoted(content_type));
                push_member(&mut ms, "data", json_string(base64_text(data).as_str()));
                push_optional_string(&mut ms, "fileName", file_name);
            },
        }
        assert(texts(ms@) =~= member_texts(entry_members(*self)));
        write_object(&ms)
    }
}

impl AppCenterLogs {
    /// The request body: `{"logs":[...]}` with every entry in order.
    pub fn to_json(&self) -> (r: String)
        ensures
            r@ == report_json(self@),
    {
        let entries = self.logs();
        let mut items: Vec<String> = Vec::new();
        let mut i: usize = 0;
        while i < entries.len()
            invariant
                entries@ == self@,
                0 <= i <= entries@.len(),
                texts(items@) == entries@.take(i as int).map_values(|e: AppCenterLog| entry_json(e)),
            decreases entries@.len() - i,
        {
            let t = entries[i].to_json();
            let ghost before = items@;
            items.push(t);
            proof {
                assert(texts(items@) =~= texts(before).push(t@));
                assert(entries@.take(i + 1).map_values(|e: AppCenterLog| entry_json(e)) =~= entries@.take(
                    i as int,
                ).map_values(|e: AppCenterLog| entry_json(e)).push(entry_json(entries@[i as int])));
            }
            i += 1;
        }
        proof {
            assert(entries@.take(entries@.len() as int) =~= entries@);
        }
        let mut ms: Vec<String> = Vec::new();
        push_member(&mut ms, "logs", write_array(&items));
        assert(texts(ms@) =~= member_texts(
            seq![("logs"@, array_text(self@.map_values(|e: AppCenterLog| entry_json(e))))],
        ));
        write_object(&ms)
    }
}

/// Some member of the object has the key.
pub open spec fn has_key(ms: Seq<(Seq<char>, Seq<char>)>, key: Seq<char>) -> bool {
    exists|i: int| 0 <= i < ms.len() && (#[trigger] ms[i]).0 == key
}

/// No member's value is the JSON literal `null`.
pub open spec fn no_null_value(ms: Seq<(Seq<char>, Seq<char>)>) -> bool {
    forall|i: int| 0 <= i < ms.len() ==> (#[trigger] ms[i]).1 != "null"@
}

proof fn lemma_decimal_not_null(n: nat)
    ensures
        decimal(n).len() >= 1,
        decimal(n)[0] != 'n',
    decreases n,
{
    if n >= 10 {
        lemma_decimal_not_null(n / 10);
    }
}

proof fn lemma_optional_member_keys(
    key: Seq<char>,
    v: Option<Seq<char>>,
    other: Seq<char>,
)
    requires
        other != key,
    ensures
        has_key(optional_member(key, v), key) <==> v is Some,
        !has_key(optional_member(key, v), other),
{
    if v is Some {
        assert(optional_member(key, v)[0].0 == key);
    }
}

/// A frame object has a member for a field exactly when that field is
/// present, and no member of it is `null`.
pub proof fn lemma_frame_omits_absent_fields(f: ExceptionFrame)
    ensures
        no_null_value(frame_members(f)),
        has_key(frame_members(f), "methodName"@) <==> f.method_name is Some,
        has_key(frame_members(f), "lineNumber"@) <==> f.line_number is Some,
        has_key(frame_members(f), "fileName"@) <==> f.file_name is Some,
        has_key(frame_members(f), "address"@) <==> f.address is Some,
{
    reveal_strlit("null");
    reveal_strlit("methodName");
    reveal_strlit("lineNumber");
    reveal_strlit("fileName");
    reveal_strlit("address");
    let a = optional_member("methodName"@, optional_string(f.method_name));
    let b = optional_member("lineNumber"@, optional_number(f.line_number));
    let c = optional_member("fileName"@, optional_string(f.file_name));
    let d = optional_member("address"@, optional_string(f.address));
    let ms = frame_members(f);
    assert(ms == a + b + c + d);
    if let Some(n) = f.line_number {
        lemma_decimal_not_null(n as nat);
    }
    assert forall|i: int| 0 <= i < ms.len() implies (#[trigger] ms[i]).1 != "null"@ by {
        assert(ms[i].1[0] != "null"@[0]);
    }
    assert forall|k: Seq<char>|
        k == "methodName"@ || k == "lineNumber"@ || k == "fileName"@ || k == "address"@ implies
        (has_key(ms, k) <==> (has_key(a, k) || has_key(b, k) || has_key(c, k) || has_key(d, k))) by {
        if has_key(ms, k) {
            let i = choose|i: int| 0 <= i < ms.len() && (#[trigger] ms[i]).0 == k;
            if i < a.len() {
                assert(a[i] == ms[i]);
            } else if i < a.len() + b.len() {
                assert(b[i - a.len()] == ms[i]);
            } else if i < a.len() + b.len() + c.len() {
                assert(c[i - a.len() - b.len()] == ms[i]);
            } else {
                assert(d[i - a.len() - b.len() - c.len()] == ms[i]);
            }
        }
        if has_key(a, k) {
            let i = choose|i: int| 0 <= i < a.len() && (#[trigger] a[i]).0 == k;
            assert(ms[i] == a[i]);
        }
        if has_key(b, k) {
            let i = choose|i: int| 0 <= i < b.len() && (#[trigger] b[i]).0 == k;
            assert(ms[a.len() + i] == b[i]);
        }
        if has_key(c, k) {
            let i = choose|i: int| 0 <= i < c.len() && (#[trigger] c[i]).0 == k;
            assert(ms[a.len() + b.len() + i] == c[i]);
        }
        if has_key(d, k) {
            let i = choose|i: int| 0 <= i < d.len() && (#[trigger] d[i]).0 == k;
            assert(ms[a.len() + b.len() + c.len() + i] == d[i]);
        }
    }
    assert("methodName"@[0] != "lineNumber"@[0]);
    assert("methodName"@[0] != "fileName"@[0]);
    assert("methodName"@[0] != "address"@[0]);
    assert("lineNumber"@[0] != "fileName"@[0]);
    assert("lineNumber"@[0] != "address"@[0]);
    assert("fileName"@[0] != "address"@[0]);
    lemma_optional_member_keys("methodName"@, optional_string(f.method_name), "lineNumber"@);
    lemma_optional_member_keys("methodName"@, optional_string(f.method_name), "fileName"@);
    lemma_optional_member_keys("methodName"@, optional_string(f.method_name), "address"@);
    lemma_optional_member_keys("lineNumber"@, optional_number(f.line_number), "methodName"@);
    lemma_optional_member_keys("lineNumber"@, optional_number(f.line_number), "fileName"@);
    lemma_optional_member_keys("lineNumber"@, optional_number(f.line_number), "address"@);
    lemma_optional_member_keys("fileName"@, optional_string(f.file_name), "methodName"@);
    lemma_optional_member_keys("fileName"@, optional_string(f.file_name), "lineNumber"@);
    lemma_optional_member_keys("fileName"@, optional_string(f.file_name), "address"@);
    lemma_optional_member_keys("address"@, optional_string(f.address), "methodName"@);
    lemma_optional_member_keys("address"@, optional_string(f.address), "lineNumber"@);
    lemma_optional_member_keys("address"@, optional_string(f.address), "fileName"@);
}

proof fn lemma_has_key_concat(x: Seq<(Seq<char>, Seq<char>)>, y: Seq<(Seq<char>, Seq<char>)>, k: Seq<char>)
    ensures
        has_key(x + y, k) <==> (has_key(x, k) || has_key(y, k)),
{
    let xy = x + y;
    if has_key(xy, k) {
        let i = choose|i: int| 0 <= i < xy.len() && (#[trigger] xy[i]).0 == k;
        if i < x.len() {
            assert(x[i] == xy[i]);
        } else {
            assert(y[i - x.len()] == xy[i]);
        }
    }
    if has_key(x, k) {
        let i = choose|i: int| 0 <= i < x.len() && (#[trigger] x[i]).0 == k;
        assert(xy[i] == x[i]);
    }
    if has_key(y, k) {
        let i = choose|i: int| 0 <= i < y.len() && (#[trigger] y[i]).0 == k;
        assert(xy[x.len() + i] == y[i]);
    }
}

proof fn lemma_no_key_by_first_char(ms: Seq<(Seq<char>, Seq<char>)>, k: Seq<char>)
    requires
        k.len() > 0,
        forall|i: int| 0 <= i < ms.len() ==> (#[trigger] ms[i]).0.len() > 0 && ms[i].0[0] != k[0],
    ensures
        !has_key(ms, k),
{
    if has_key(ms, k) {
        let i = choose|i: int| 0 <= i < ms.len() && (#[trigger] ms[i]).0 == k;
        assert(ms[i].0[0] != k[0]);
    }
}

proof fn lemma_object_not_null(ms: Seq<(Seq<char>, Seq<char>)>)
    ensures
        object_text(ms) != "null"@,
{
    reveal_strlit("{");
    reveal_strlit("null");
    assert(object_text(ms)[0] != "null"@[0]);
}

/// An entry object has a `userId` member exactly when the failure record has
/// a user id, a `fileName` member exactly when the attachment has a file
/// name, and no member of it is `null`.
pub proof fn lemma_entry_omits_absent_fields(e: AppCenterLog)
    ensures
        no_null_value(entry_members(e)),
        e is ManagedError ==> (has_key(entry_members(e), "userId"@) <==> e->ManagedError_user_id is Some),
        e is ErrorAttachment ==> (has_key(entry_members(e), "fileName"@)
            <==> e->ErrorAttachment_file_name is Some),
{
    reveal_strlit("null");
    reveal_strlit("true");
    reveal_strlit("false");
    reveal_strlit("type");
    reveal_strlit("id");
    reveal_strlit("userId");
    reveal_strlit("appLaunchTimestamp");
    reveal_strlit("timestamp");
    reveal_strlit("fatal");
    reveal_strlit("processId");
    reveal_strlit("processName");
    reveal_strlit("device");
    reveal_strlit("exception");
    reveal_strlit("errorId");
    reveal_strlit("contentType");
    reveal_strlit("data");
    reveal_strlit("fileName");
    let ms = entry_members(e);
    match e {
        AppCenterLog::ManagedError {
            id,
            user_id,
            app_launch_timestamp,
            timestamp,
            fatal,
            process_id,
            process_name,
            device,
            exception,
        } => {
            let x = seq![
                ("type"@, string_value("managedError"@)),
                ("id"@, string_value(uuid_text_of(id))),
            ];
            let o = optional_member("userId"@, optional_string(user_id));
            let y = seq![
                ("appLaunchTimestamp"@, string_value(app_launch_timestamp@)),
                ("timestamp"@, string_value(timestamp@)),
                ("fatal"@, bool_text(fatal)),
                ("processId"@, decimal(process_id as nat)),
                ("processName"@, string_value(process_name@)),
                ("device"@, device_json(device)),
                ("exception"@, exception_json(exception)),
            ];
            assert(ms == x + o + y);
            lemma_decimal_not_null(process_id as nat);
            lemma_object_not_null(device_members(device));
            lemma_object_not_null(exception_members(exception));
            assert forall|i: int| 0 <= i < ms.len() implies (#[trigger] ms[i]).1 != "null"@ by {
                if ms[i].1 != device_json(device) && ms[i].1 != exception_json(exception) {
                    assert(ms[i].1[0] != "null"@[0]);
                }
            }
            lemma_has_key_concat(x + o, y, "userId"@);
            lemma_has_key_concat(x, o, "userId"@);
            lemma_no_key_by_first_char(x, "userId"@);
            lemma_no_key_by_first_char(y, "userId"@);
            lemma_optional_member_keys("userId"@, optional_string(user_id), "fileName"@);
        },
        AppCenterLog::ErrorAttachment { id, error_id, device, content_type, data, file_name } => {
            let x = seq![
                ("type"@, string_value("errorAttachment"@)),
                ("id"@, string_value(uuid_text_of(id))),
                ("errorId"@, string_value(uuid_text_of(error_id))),
                ("device"@, device_json(device)),
                ("contentType"@, string_value(content_type@)),
                ("data"@, string_value(base64_of(data@))),
            ];
            let o = optional_member("fileName"@, optional_string(file_name));
            assert(ms == x + o);
            lemma_object_not_null(device_members(device));
            assert forall|i: int| 0 <= i < ms.len() implies (#[trigger] ms[i]).1 != "null"@ by {
                if ms[i].1 != device_json(device) {
                    assert(ms[i].1[0] != "null"@[0]);
                }
            }
            lemma_has_key_concat(x, o, "fileName"@);
            lemma_no_key_by_first_char(x, "fileName"@);
            lemma_optional_member_keys("fileName"@, optional_string(file_name), "userId"@);
        },
    }
}

/// A binary attachment of bytes `b` with no file name is sent with content
/// type `application/octet_stream`, the base64 text of exactly `b` as its
/// data, and no `fileName` member.
pub proof fn lemma_binary_attachment_wire_form(e: AppCenterLog, failure: AppCenterLog, b: Seq<u8>)
    requires
        attachment_of(e, failure, "application/octet_stream"@, b, None),
    ensures
        entry_members(e)[4] == ("contentType"@, string_value("application/octet_stream"@)),
        entry_members(e)[5] == ("data"@, string_value(base64_of(b))),
        !has_key(entry_members(e), "fileName"@),
        no_null_value(entry_members(e)),
{
    lemma_entry_omits_absent_fields(e);
}

} // verus!
