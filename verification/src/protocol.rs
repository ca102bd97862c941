//! The UDP discovery protocol on port 53535.
//!
//! A message is `COMMAND\nJSON_PAYLOAD`, UTF-8 encoded. The commands are
//! `AI_DISCOVER_REQ` (a scanner's query), `AI_DISCOVER_RES` (a service's
//! answer), `AI_SERVICE_ANNOUNCE` (a service coming online) and
//! `AI_SERVICE_GOODBYE` (a service going offline).
//!
//! This module frames and splits messages and builds and reads their payloads;
//! the JSON text of a payload is produced and read by the JSON codec.
use vstd::prelude::*;
use vstd::slice::slice_to_vec;
use vstd::utf8::{decode_utf8, encode_utf8, encode_utf8_decode_utf8, encode_utf8_valid_utf8, valid_utf8};
use crate::json::{
    get_field, field_or_null, lemma_members_get_absent, lemma_members_get_at, lemma_members_model,
    lemma_str_items_of_strings, members_model, str_array, str_field_or, str_list_field,
    u64_field_or, JsonModel, JsonValue, NumberModel,
};
use crate::text::{
    all_digits, append_chars, chars_of, decimal, decimal_chars, digits_value, law_decimal_reads_back, decode_utf8_text, is_ws,
    lemma_trim_end_append, lemma_trim_fixed, string_of, string_views, trim, trim_chars, trim_end,
    trim_start, utf8_prefix, utf8_prefix_chars,
};

verus! {

/// The UDP port of discovery traffic.
pub const DISCOVERY_PORT: u16 = 53535;

/// A scanner's discovery request.
pub const DISCOVER_REQ: &'static str = "AI_DISCOVER_REQ";

/// A service's answer to a discovery request.
pub const DISCOVER_RES: &'static str = "AI_DISCOVER_RES";

/// A service announcing that it is online.
pub const SERVICE_ANNOUNCE: &'static str = "AI_SERVICE_ANNOUNCE";

/// A service announcing that it goes offline.
pub const SERVICE_GOODBYE: &'static str = "AI_SERVICE_GOODBYE";

/// The protocol version that payloads carry.
pub const PROTOCOL_VERSION: &'static str = "1.0";

/// The broadcast address that requests and announcements are sent to.
pub const BROADCAST_ADDR: &'static str = "255.255.255.255";

/// Why a datagram is not a protocol message.
pub enum ProtocolError {
    /// The bytes are not UTF-8.
    InvalidEncoding(String),
    /// The text has no line break between command and payload.
    InvalidFormat(String),
    /// The payload is not JSON.
    InvalidJson(String),
}

/// The text of `ProtocolError::message`.
pub open spec fn protocol_error_text(e: ProtocolError) -> Seq<char> {
    match e {
        ProtocolError::InvalidEncoding(s) => "Invalid encoding: "@ + s@,
        ProtocolError::InvalidFormat(s) => "Invalid format: "@ + s@,
        ProtocolError::InvalidJson(s) => "Invalid JSON: "@ + s@,
    }
}

impl ProtocolError {
    /// The human-readable text of the error.
    pub fn message(&self) -> (r: String)
        ensures
            r@ == protocol_error_text(*self),
    {
        let (mut head, detail) = match self {
            ProtocolError::InvalidEncoding(s) => (chars_of("Invalid encoding: "), s),
            ProtocolError::InvalidFormat(s) => (chars_of("Invalid format: "), s),
            ProtocolError::InvalidJson(s) => (chars_of("Invalid JSON: "), s),
        };
        let tail = chars_of(detail.as_str());
        append_chars(&mut head, &tail);
        string_of(head.as_slice())
    }
}

/// `k` is the position of the first line break of `t`.
pub open spec fn is_first_newline(t: Seq<char>, k: int) -> bool {
    &&& 0 <= k < t.len()
    &&& t[k] == '\n'
    &&& forall|j: int| 0 <= j < k ==> t[j] != '\n'
}

/// `t` holds a line break.
pub open spec fn has_newline(t: Seq<char>) -> bool {
    exists|k: int| 0 <= k < t.len() && t[k] == '\n'
}

/// The position of the first line break of `t`.
pub open spec fn first_newline(t: Seq<char>) -> int {
    choose|k: int| is_first_newline(t, k)
}

/// The text of the `InvalidFormat` error for the (trimmed) message text `t`:
/// its first 100 bytes at most, cut at a character boundary.
pub open spec fn format_error_detail(t: Seq<char>) -> Seq<char> {
    "Expected COMMAND\\nJSON, got: "@ + utf8_prefix(t, 100)
}

/// What `split_message` gives for the datagram `data`: the trimmed command and
/// the payload text that follow the first line break of the trimmed text.
pub open spec fn split_message_result(data: Seq<u8>) -> Option<(Seq<char>, Seq<char>)> {
    let t = trim(decode_utf8(data));
    if valid_utf8(data) && has_newline(t) {
        let k = first_newline(t);
        Some((trim(t.take(k)), t.skip(k + 1)))
    } else {
        None
    }
}

proof fn lemma_first_newline_unique(t: Seq<char>, k: int)
    requires
        is_first_newline(t, k),
    ensures
        has_newline(t),
        first_newline(t) == k,
{
    assert(has_newline(t));
    let k2 = first_newline(t);
    assert(is_first_newline(t, k2));
    if k2 < k {
        assert(t[k2] != '\n');
    }
    if k < k2 {
        assert(t[k] != '\n');
    }
}

/// Splits a datagram into its command and the text of its payload, without
/// reading the payload.
///
/// The bytes are decoded as UTF-8, the text is trimmed, and it is cut at its
/// first line break: the command is the trimmed part before it, the payload the
/// rest. Bytes that are not UTF-8 give `InvalidEncoding`; a text without a line
/// break gives `InvalidFormat`, quoting the text. This is the framing half of
/// parsing a message; the other half reads the payload text as JSON, and a
/// payload that is not JSON is `InvalidJson` there.
pub fn split_message(data: &[u8]) -> (r: Result<(String, String), ProtocolError>)
    ensures
        !valid_utf8(data@) <==> r matches Err(ProtocolError::InvalidEncoding(_)),
        valid_utf8(data@) && !has_newline(trim(decode_utf8(data@))) <==> r matches Err(
            ProtocolError::InvalidFormat(_),
        ),
        r matches Err(ProtocolError::InvalidFormat(m)) ==> m@ == format_error_detail(
            trim(decode_utf8(data@)),
        ),
        r is Ok <==> split_message_result(data@) is Some,
        r matches Ok((c, p)) ==> split_message_result(data@) == Some((c@, p@)),
        !(r matches Err(ProtocolError::InvalidJson(_))),
{
    let text = match decode_utf8_text(data) {
        Ok(s) => s,
        Err(e) => {
            return Err(ProtocolError::InvalidEncoding(e));
        },
    };
    let all = chars_of(text.as_str());
    let t = trim_chars(&all);
    let mut k: usize = 0;
    while k < t.len() && t[k] != '\n'
        invariant
            k <= t@.len(),
            forall|j: int| 0 <= j < k ==> t@[j] != '\n',
        decreases t@.len() - k,
    {
        k = k + 1;
    }
    if k == t.len() {
        assert(!has_newline(t@));
        let mut m = chars_of("Expected COMMAND\\nJSON, got: ");
        let preview = utf8_prefix_chars(&t, 100);
        append_chars(&mut m, &preview);
        return Err(ProtocolError::InvalidFormat(string_of(m.as_slice())));
    }
    proof {
        lemma_first_newline_unique(t@, k as int);
    }
    let mut head: Vec<char> = Vec::new();
    let mut i: usize = 0;
    while i < k
        invariant
            i <= k < t@.len(),
            head@ =~= t@.take(i as int),
        decreases k - i,
    {
        head.push(t[i]);
        i = i + 1;
    }
    let mut rest: Vec<char> = Vec::new();
    let mut j: usize = k + 1;
    while j < t.len()
        invariant
            k < j <= t@.len(),
            rest@ =~= t@.subrange(k + 1, j as int),
        decreases t@.len() - j,
    {
        rest.push(t[j]);
        j = j + 1;
    }
    let cmd = trim_chars(&head);
    Ok((string_of(cmd.as_slice()), string_of(rest.as_slice())))
}

/// Frames a message: `cmd`, a line break and the payload text, UTF-8 encoded.
pub fn frame_message(cmd: &str, payload: &str) -> (r: Vec<u8>)
    ensures
        r@ == encode_utf8(cmd@ + seq!['\n'] + payload@),
{
    let mut m = chars_of(cmd);
    m.push('\n');
    let p = chars_of(payload);
    append_chars(&mut m, &p);
    assert(m@ =~= cmd@ + seq!['\n'] + payload@);
    let s = string_of(m.as_slice());
    slice_to_vec(s.as_str().as_bytes())
}


/// `n as u16`: the low 16 bits.
pub open spec fn low_u16(n: u64) -> u16 {
    (n % 0x10000) as u16
}

/// `n as u8`: the low 8 bits.
pub open spec fn low_u8(n: u64) -> u8 {
    (n % 0x100) as u8
}

/// A JSON non-negative integer.
pub open spec fn uint_model(n: u64) -> JsonModel {
    JsonModel::Number(NumberModel::PosInt(n))
}

/// The payload of a discovery request.
pub open spec fn discover_req_model(query_id: Seq<char>) -> JsonModel {
    JsonModel::Object(seq![("query_id"@, JsonModel::Str(query_id)), ("version"@, JsonModel::Str("1.0"@))])
}

/// A lowercase hexadecimal digit.
pub open spec fn is_lower_hex(c: char) -> bool {
    ('0' as u32 <= c as u32 <= '9' as u32) || ('a' as u32 <= c as u32 <= 'f' as u32)
}

/// The hyphenated lowercase text of a random (version 4, RFC 4122 variant) UUID.
pub open spec fn is_v4_uuid_text(s: Seq<char>) -> bool {
    &&& s.len() == 36
    &&& forall|i: int|
        0 <= i < 36 ==> if i == 8 || i == 13 || i == 18 || i == 23 {
            #[trigger] s[i] == '-'
        } else {
            is_lower_hex(s[i])
        }
    &&& s[14] == '4'
    &&& (s[19] == '8' || s[19] == '9' || s[19] == 'a' || s[19] == 'b')
}

/// A fresh random query id: `uuid::Uuid::new_v4()` in its `Display` form, the
/// hyphenated lowercase text. The value is random; only its shape is stated.
#[verifier::external_body]
fn random_query_id() -> (r: String)
    ensures
        is_v4_uuid_text(r@),
{
    uuid::Uuid::new_v4().to_string()
}

/// Appends the member `key: value` to an object's members.
fn push_member(ms: &mut Vec<(String, JsonValue)>, key: &str, value: JsonValue)
    ensures
        final(ms)@ == old(ms)@.push((final(ms)@.last().0, value)),
        final(ms)@.last().0@ == key@,
{
    ms.push((key.to_owned(), value));
}

/// The payload of a discovery request: the query id (a fresh random UUID when
/// none is given) and the protocol version.
pub fn discover_req_payload(query_id: Option<&str>) -> (r: JsonValue)
    ensures
        query_id matches Some(q) ==> r@ == discover_req_model(q@),
        query_id is None ==> exists|g: Seq<char>| is_v4_uuid_text(g) && r@ == #[trigger] discover_req_model(g),
{
    let q = match query_id {
        Some(q) => q.to_owned(),
        None => random_query_id(),
    };
    assert(query_id is None ==> is_v4_uuid_text(q@));
    let mut ms: Vec<(String, JsonValue)> = Vec::new();
    push_member(&mut ms, "query_id", JsonValue::Str(q));
    push_member(&mut ms, "version", JsonValue::string(PROTOCOL_VERSION));
    proof {
        lemma_members_model(ms@);
        assert(members_model(ms@) =~= seq![("query_id"@, JsonModel::Str(q@)), ("version"@, JsonModel::Str("1.0"@))]);
    }
    let r = JsonValue::Object(ms);
    assert(r@ == discover_req_model(q@));
    r
}

/// The fields of a discovery response.
pub struct DiscoverResParams<'a> {
    pub query_id: &'a str,
    pub status: &'a str,
    pub service_name: &'a str,
    pub service_id: &'a str,
    pub http_port: u16,
    pub manifest_path: &'a str,
    pub tags: &'a [String],
    pub priority: u8,
    pub manifest_data: &'a JsonValue,
}

/// The payload of a discovery response with the given fields.
pub open spec fn discover_res_model(
    query_id: Seq<char>,
    status: Seq<char>,
    service_name: Seq<char>,
    service_id: Seq<char>,
    http_port: u16,
    manifest_path: Seq<char>,
    tags: Seq<Seq<char>>,
    priority: u8,
    manifest: JsonModel,
) -> JsonModel {
    JsonModel::Object(
        seq![
            ("query_id"@, JsonModel::Str(query_id)),
            ("status"@, JsonModel::Str(status)),
            ("service_name"@, JsonModel::Str(service_name)),
            ("service_id"@, JsonModel::Str(service_id)),
            ("http_port"@, uint_model(http_port as u64)),
            ("manifest_path"@, JsonModel::Str(manifest_path)),
            ("tags"@, str_array(tags)),
            ("priority"@, uint_model(priority as u64)),
            ("manifest"@, manifest),
            ("version"@, JsonModel::Str("1.0"@)),
        ],
    )
}

/// The payload that `params` describe.
pub open spec fn discover_res_params_model(params: DiscoverResParams) -> JsonModel {
    discover_res_model(
        params.query_id@,
        params.status@,
        params.service_name@,
        params.service_id@,
        params.http_port,
        params.manifest_path@,
        string_views(params.tags@),
        params.priority,
        params.manifest_data@,
    )
}

/// The payload of a discovery response: the request's query id, the status,
/// the service's name, id, HTTP port, manifest path, tags, priority and
/// manifest, and the protocol version.
pub fn discover_res_payload(params: &DiscoverResParams) -> (r: JsonValue)
    ensures
        r@ == discover_res_params_model(*params),
        get_field(r@, "query_id"@) == Some(JsonModel::Str(params.query_id@)),
        get_field(r@, "status"@) == Some(JsonModel::Str(params.status@)),
        get_field(r@, "service_name"@) == Some(JsonModel::Str(params.service_name@)),
        get_field(r@, "service_id"@) == Some(JsonModel::Str(params.service_id@)),
        get_field(r@, "http_port"@) == Some(JsonModel::Number(NumberModel::PosInt(params.http_port as u64))),
        get_field(r@, "manifest_path"@) == Some(JsonModel::Str(params.manifest_path@)),
        get_field(r@, "priority"@) == Some(JsonModel::Number(NumberModel::PosInt(params.priority as u64))),
        get_field(r@, "manifest"@) == Some(params.manifest_data@),
{
    let mut ms: Vec<(String, JsonValue)> = Vec::new();
    push_member(&mut ms, "query_id", JsonValue::string(params.query_id));
    push_member(&mut ms, "status", JsonValue::string(params.status));
    push_member(&mut ms, "service_name", JsonValue::string(params.service_name));
    push_member(&mut ms, "service_id", JsonValue::string(params.service_id));
    push_member(&mut ms, "http_port", JsonValue::uint(params.http_port as u64));
    push_member(&mut ms, "manifest_path", JsonValue::string(params.manifest_path));
    push_member(&mut ms, "tags", JsonValue::str_array(params.tags));
    push_member(&mut ms, "priority", JsonValue::uint(params.priority as u64));
    push_member(&mut ms, "manifest", params.manifest_data.copy());
    push_member(&mut ms, "version", JsonValue::string(PROTOCOL_VERSION));
    proof {
        lemma_members_model(ms@);
        assert(members_model(ms@) =~= discover_res_params_model(*params)->Object_0);
        law_discover_res_wire_form(
            params.query_id@,
            params.status@,
            params.service_name@,
            params.service_id@,
            params.http_port,
            params.manifest_path@,
            string_views(params.tags@),
            params.priority,
            params.manifest_data@,
        );
    }
    JsonValue::Object(ms)
}

/// The payload of an online announcement.
pub open spec fn announce_model(
    service_id: Seq<char>,
    service_name: Seq<char>,
    http_port: u16,
    manifest_path: Seq<char>,
    tags: Seq<Seq<char>>,
    priority: u8,
    timestamp: u64,
) -> JsonModel {
    JsonModel::Object(
        seq![
            ("event"@, JsonModel::Str("online"@)),
            ("service_id"@, JsonModel::Str(service_id)),
            ("service_name"@, JsonModel::Str(service_name)),
            ("http_port"@, uint_model(http_port as u64)),
            ("manifest_path"@, JsonModel::Str(manifest_path)),
            ("tags"@, str_array(tags)),
            ("priority"@, uint_model(priority as u64)),
            ("timestamp"@, uint_model(timestamp)),
        ],
    )
}

/// The payload of an online announcement: event `online`, the service's id,
/// name, HTTP port, manifest path, tags and priority, and the time of sending
/// in seconds since the Unix epoch.
pub fn announce_payload(
    service_id: &str,
    service_name: &str,
    http_port: u16,
    manifest_path: &str,
    tags: &[String],
    priority: u8,
    timestamp: u64,
) -> (r: JsonValue)
    ensures
        r@ == announce_model(
            service_id@,
            service_name@,
            http_port,
            manifest_path@,
            string_views(tags@),
            priority,
            timestamp,
        ),
{
    let mut ms: Vec<(String, JsonValue)> = Vec::new();
    push_member(&mut ms, "event", JsonValue::string("online"));
    push_member(&mut ms, "service_id", JsonValue::string(service_id));
    push_member(&mut ms, "service_name", JsonValue::string(service_name));
    push_member(&mut ms, "http_port", JsonValue::uint(http_port as u64));
    push_member(&mut ms, "manifest_path", JsonValue::string(manifest_path));
    push_member(&mut ms, "tags", JsonValue::str_array(tags));
    push_member(&mut ms, "priority", JsonValue::uint(priority as u64));
    push_member(&mut ms, "timestamp", JsonValue::uint(timestamp));
    proof {
        lemma_members_model(ms@);
        assert(members_model(ms@) =~= announce_model(
            service_id@,
            service_name@,
            http_port,
            manifest_path@,
            string_views(tags@),
            priority,
            timestamp,
        )->Object_0);
    }
    JsonValue::Object(ms)
}

/// The payload of an offline announcement.
pub open spec fn goodbye_model(service_id: Seq<char>, service_name: Seq<char>, timestamp: u64) -> JsonModel {
    JsonModel::Object(
        seq![
            ("event"@, JsonModel::Str("offline"@)),
            ("service_id"@, JsonModel::Str(service_id)),
            ("service_name"@, JsonModel::Str(service_name)),
            ("timestamp"@, uint_model(timestamp)),
            ("version"@, JsonModel::Str("1.0"@)),
        ],
    )
}

/// The payload of an offline announcement: event `offline`, the service's id
/// and name, the time of sending and the protocol version.
pub fn goodbye_payload(service_id: &str, service_name: &str, timestamp: u64) -> (r: JsonValue)
    ensures
        r@ == goodbye_model(service_id@, service_name@, timestamp),
{
    let mut ms: Vec<(String, JsonValue)> = Vec::new();
    push_member(&mut ms, "event", JsonValue::string("offline"));
    push_member(&mut ms, "service_id", JsonValue::string(service_id));
    push_member(&mut ms, "service_name", JsonValue::string(service_name));
    push_member(&mut ms, "timestamp", JsonValue::uint(timestamp));
    push_member(&mut ms, "version", JsonValue::string(PROTOCOL_VERSION));
    proof {
        lemma_members_model(ms@);
        assert(members_model(ms@) =~= goodbye_model(service_id@, service_name@, timestamp)->Object_0);
    }
    JsonValue::Object(ms)
}

/// `http://{ip}:{port}`.
pub open spec fn http_base_url(host: Seq<char>, port: u16) -> Seq<char> {
    "http://"@ + host + ":"@ + decimal(port as nat)
}

/// A base URL is `http://`, the host, a colon, and then nothing but decimal
/// digits that read back as the port.
pub proof fn law_base_url_port(host: Seq<char>, port: u16)
    ensures
        ({
            let u = http_base_url(host, port);
            let tail = u.subrange(host.len() as int + 8, u.len() as int);
            &&& u.take(7) == "http://"@
            &&& u.subrange(7, host.len() as int + 7) == host
            &&& u[host.len() as int + 7] == ':'
            &&& tail.len() >= 1
            &&& all_digits(tail)
            &&& digits_value(tail) == port as int
        }),
{
    reveal_strlit("http://");
    reveal_strlit(":");
    law_decimal_reads_back(port as nat);
    let u = http_base_url(host, port);
    assert(u.take(7) =~= "http://"@);
    assert(u.subrange(7, host.len() as int + 7) =~= host);
    assert(u.subrange(host.len() as int + 8, u.len() as int) =~= decimal(port as nat));
}

/// Builds `http://{host}:{port}`.
pub fn make_base_url(host: &str, port: u16) -> (r: String)
    ensures
        r@ == http_base_url(host@, port),
{
    let mut m = chars_of("http://");
    let h = chars_of(host);
    append_chars(&mut m, &h);
    let colon = chars_of(":");
    append_chars(&mut m, &colon);
    let d = decimal_chars(port as u64);
    append_chars(&mut m, &d);
    string_of(m.as_slice())
}

/// Builds `{base}{path}`.
pub fn join_url(base: &str, path: &str) -> (r: String)
    ensures
        r@ == base@ + path@,
{
    let mut m = chars_of(base);
    let p = chars_of(path);
    append_chars(&mut m, &p);
    string_of(m.as_slice())
}

/// A service that answered a discovery request.
pub struct ServiceInfo {
    pub query_id: String,
    pub status: String,
    pub service_name: String,
    pub service_id: String,
    pub http_port: u16,
    pub manifest_path: String,
    pub tags: Vec<String>,
    pub priority: u8,
    /// The address that the answer came from.
    pub ip: String,
    pub version: String,
    pub manifest: JsonValue,
}

/// The mathematical model of a [`ServiceInfo`].
pub struct ServiceInfoModel {
    pub query_id: Seq<char>,
    pub status: Seq<char>,
    pub service_name: Seq<char>,
    pub service_id: Seq<char>,
    pub http_port: u16,
    pub manifest_path: Seq<char>,
    pub tags: Seq<Seq<char>>,
    pub priority: u8,
    pub ip: Seq<char>,
    pub version: Seq<char>,
    pub manifest: JsonModel,
}

impl View for ServiceInfo {
    type V = ServiceInfoModel;

    open spec fn view(&self) -> ServiceInfoModel {
        ServiceInfoModel {
            query_id: self.query_id@,
            status: self.status@,
            service_name: self.service_name@,
            service_id: self.service_id@,
            http_port: self.http_port,
            manifest_path: self.manifest_path@,
            tags: string_views(self.tags@),
            priority: self.priority,
            ip: self.ip@,
            version: self.version@,
            manifest: self.manifest@,
        }
    }
}

/// The service that the discovery response `p`, received from `ip`, describes.
/// A missing field, or one of another type, takes its default: `""` for the
/// query id, name and id, `ok` for the status, 80 for the port,
/// `/ai_manifest` for the manifest path, no tags, priority 1, the protocol
/// version and a `null` manifest. The port and the priority keep the low 16
/// and 8 bits of the number.
pub open spec fn service_info_model(p: JsonModel, ip: Seq<char>) -> ServiceInfoModel {
    ServiceInfoModel {
        query_id: str_field_or(p, "query_id"@, ""@),
        status: str_field_or(p, "status"@, "ok"@),
        service_name: str_field_or(p, "service_name"@, ""@),
        service_id: str_field_or(p, "service_id"@, ""@),
        http_port: low_u16(u64_field_or(p, "http_port"@, 80)),
        manifest_path: str_field_or(p, "manifest_path"@, "/ai_manifest"@),
        tags: str_list_field(p, "tags"@),
        priority: low_u8(u64_field_or(p, "priority"@, 1)),
        ip,
        version: str_field_or(p, "version"@, "1.0"@),
        manifest: field_or_null(p, "manifest"@),
    }
}

impl ServiceInfo {
    /// `http://{ip}:{http_port}`.
    pub fn base_url(&self) -> (r: String)
        ensures
            r@ == http_base_url(self.ip@, self.http_port),
    {
        make_base_url(self.ip.as_str(), self.http_port)
    }

    /// The base URL followed by the manifest path.
    pub fn manifest_url(&self) -> (r: String)
        ensures
            r@ == http_base_url(self.ip@, self.http_port) + self.manifest_path@,
    {
        let base = self.base_url();
        join_url(base.as_str(), self.manifest_path.as_str())
    }

    /// Reads a discovery response payload received from `ip`.
    pub fn from_payload(payload: &JsonValue, ip: &str) -> (r: ServiceInfo)
        ensures
            r@ == service_info_model(payload@, ip@),
            r.query_id@ == (match text_member(payload@, "query_id"@) {
                Some(q) => q,
                None => ""@,
            }),
            r.status@ == (match text_member(payload@, "status"@) {
                Some(q) => q,
                None => "ok"@,
            }),
            r.service_name@ == (match text_member(payload@, "service_name"@) {
                Some(q) => q,
                None => ""@,
            }),
            r.service_id@ == (match text_member(payload@, "service_id"@) {
                Some(q) => q,
                None => ""@,
            }),
            r.manifest_path@ == (match text_member(payload@, "manifest_path"@) {
                Some(q) => q,
                None => "/ai_manifest"@,
            }),
            (r.http_port as int) == (match uint_member(payload@, "http_port"@) {
                Some(n) => n % 0x10000,
                None => 80,
            }),
            r.ip@ == ip@,
    {
        let manifest = match payload.get("manifest") {
            Some(m) => m.copy(),
            None => JsonValue::Null,
        };
        proof {
            law_service_info_reads_members(payload@, ip@);
        }
        ServiceInfo {
            query_id: payload.str_field_or("query_id", ""),
            status: payload.str_field_or("status", "ok"),
            service_name: payload.str_field_or("service_name", ""),
            service_id: payload.str_field_or("service_id", ""),
            http_port: (payload.u64_field_or("http_port", 80) % 0x10000) as u16,
            manifest_path: payload.str_field_or("manifest_path", "/ai_manifest"),
            tags: payload.str_list_field("tags"),
            priority: (payload.u64_field_or("priority", 1) % 0x100) as u8,
            ip: ip.to_owned(),
            version: payload.str_field_or("version", PROTOCOL_VERSION),
            manifest,
        }
    }
}

/// A service's online or offline announcement.
pub struct ServiceEvent {
    /// `online` or `offline`.
    pub event: String,
    pub service_id: String,
    pub service_name: String,
    pub http_port: u16,
    pub manifest_path: String,
    pub tags: Vec<String>,
    pub priority: u8,
    /// The address that the announcement came from.
    pub ip: String,
    /// Seconds since the Unix epoch when it was sent.
    pub timestamp: u64,
    pub version: String,
}

/// The mathematical model of a [`ServiceEvent`].
pub struct ServiceEventModel {
    pub event: Seq<char>,
    pub service_id: Seq<char>,
    pub service_name: Seq<char>,
    pub http_port: u16,
    pub manifest_path: Seq<char>,
    pub tags: Seq<Seq<char>>,
    pub priority: u8,
    pub ip: Seq<char>,
    pub timestamp: u64,
    pub version: Seq<char>,
}

impl View for ServiceEvent {
    type V = ServiceEventModel;

    open spec fn view(&self) -> ServiceEventModel {
        ServiceEventModel {
            event: self.event@,
            service_id: self.service_id@,
            service_name: self.service_name@,
            http_port: self.http_port,
            manifest_path: self.manifest_path@,
            tags: string_views(self.tags@),
            priority: self.priority,
            ip: self.ip@,
            timestamp: self.timestamp,
            version: self.version@,
        }
    }
}

/// The event that the announcement payload `p`, received from `ip`, describes.
/// Missing fields take their defaults: `""` for the event, id and name, 80 for
/// the port, `/ai_manifest` for the path, no tags, priority 1, timestamp 0 and
/// the protocol version.
pub open spec fn service_event_model(p: JsonModel, ip: Seq<char>) -> ServiceEventModel {
    ServiceEventModel {
        event: str_field_or(p, "event"@, ""@),
        service_id: str_field_or(p, "service_id"@, ""@),
        service_name: str_field_or(p, "service_name"@, ""@),
        http_port: low_u16(u64_field_or(p, "http_port"@, 80)),
        manifest_path: str_field_or(p, "manifest_path"@, "/ai_manifest"@),
        tags: str_list_field(p, "tags"@),
        priority: low_u8(u64_field_or(p, "priority"@, 1)),
        ip,
        timestamp: u64_field_or(p, "timestamp"@, 0),
        version: str_field_or(p, "version"@, "1.0"@),
    }
}

impl ServiceEvent {
    /// `http://{ip}:{http_port}`.
    pub fn base_url(&self) -> (r: String)
        ensures
            r@ == http_base_url(self.ip@, self.http_port),
    {
        make_base_url(self.ip.as_str(), self.http_port)
    }

    /// The base URL followed by the manifest path.
    pub fn manifest_url(&self) -> (r: String)
        ensures
            r@ == http_base_url(self.ip@, self.http_port) + self.manifest_path@,
    {
        let base = self.base_url();
        join_url(base.as_str(), self.manifest_path.as_str())
    }

    /// Reads an announcement payload received from `ip`.
    pub fn from_payload(payload: &JsonValue, ip: &str) -> (r: ServiceEvent)
        ensures
            r@ == service_event_model(payload@, ip@),
            r.event@ == (match text_member(payload@, "event"@) {
                Some(q) => q,
                None => ""@,
            }),
            r.service_id@ == (match text_member(payload@, "service_id"@) {
                Some(q) => q,
                None => ""@,
            }),
            r.service_name@ == (match text_member(payload@, "service_name"@) {
                Some(q) => q,
                None => ""@,
            }),
            (r.http_port as int) == (match uint_member(payload@, "http_port"@) {
                Some(n) => n % 0x10000,
                None => 80,
            }),
            r.timestamp == (match uint_member(payload@, "timestamp"@) {
                Some(n) => n,
                None => 0,
            }),
            r.ip@ == ip@,
    {
        proof {
            law_service_event_reads_members(payload@, ip@);
        }
        ServiceEvent {
            event: payload.str_field_or("event", ""),
            service_id: payload.str_field_or("service_id", ""),
            service_name: payload.str_field_or("service_name", ""),
            http_port: (payload.u64_field_or("http_port", 80) % 0x10000) as u16,
            manifest_path: payload.str_field_or("manifest_path", "/ai_manifest"),
            tags: payload.str_list_field("tags"),
            priority: (payload.u64_field_or("priority", 1) % 0x100) as u8,
            ip: ip.to_owned(),
            timestamp: payload.u64_field_or("timestamp", 0),
            version: payload.str_field_or("version", PROTOCOL_VERSION),
        }
    }
}

/// What a scanner reads from a discovery response is what the answering
/// service put in it: every field, the sender's address, and the protocol
/// version.
pub proof fn law_discover_response_round_trip(
    query_id: Seq<char>,
    status: Seq<char>,
    service_name: Seq<char>,
    service_id: Seq<char>,
    http_port: u16,
    manifest_path: Seq<char>,
    tags: Seq<Seq<char>>,
    priority: u8,
    manifest: JsonModel,
    ip: Seq<char>,
)
    ensures
        service_info_model(
            discover_res_model(
                query_id,
                status,
                service_name,
                service_id,
                http_port,
                manifest_path,
                tags,
                priority,
                manifest,
            ),
            ip,
        ) == (ServiceInfoModel {
            query_id,
            status,
            service_name,
            service_id,
            http_port,
            manifest_path,
            tags,
            priority,
            ip,
            version: "1.0"@,
            manifest,
        }),
{
    reveal_strlit("query_id");
    reveal_strlit("status");
    reveal_strlit("service_name");
    reveal_strlit("service_id");
    reveal_strlit("http_port");
    reveal_strlit("manifest_path");
    reveal_strlit("tags");
    reveal_strlit("priority");
    reveal_strlit("manifest");
    reveal_strlit("version");
    let ms = discover_res_model(
        query_id,
        status,
        service_name,
        service_id,
        http_port,
        manifest_path,
        tags,
        priority,
        manifest,
    )->Object_0;
    assert(ms[0].0 == "query_id"@);
    assert(ms[1].0 == "status"@);
    assert(ms[2].0 == "service_name"@);
    assert(ms[3].0 == "service_id"@);
    assert(ms[4].0 == "http_port"@);
    assert(ms[5].0 == "manifest_path"@);
    assert(ms[6].0 == "tags"@);
    assert(ms[7].0 == "priority"@);
    assert(ms[8].0 == "manifest"@);
    assert(ms[9].0 == "version"@);
    lemma_members_get_at(ms, "query_id"@, 0);
    lemma_members_get_at(ms, "status"@, 1);
    lemma_members_get_at(ms, "service_name"@, 2);
    lemma_members_get_at(ms, "service_id"@, 3);
    lemma_members_get_at(ms, "http_port"@, 4);
    lemma_members_get_at(ms, "manifest_path"@, 5);
    lemma_members_get_at(ms, "tags"@, 6);
    assert forall|j: int| 0 <= j < 7 implies ms[j].0 != "priority"@ by {
        assert(ms[j].0[0] != "priority"@[0]);
    }
    lemma_members_get_at(ms, "priority"@, 7);
    assert forall|j: int| 0 <= j < 8 implies ms[j].0 != "manifest"@ by {
        assert(ms[j].0.len() != 8 || ms[j].0[0] != "manifest"@[0]);
    }
    lemma_members_get_at(ms, "manifest"@, 8);
    lemma_members_get_at(ms, "version"@, 9);
    lemma_str_items_of_strings(tags);
}

/// What a listener reads from an online announcement is what the announcing
/// service put in it, with the event `online` and the protocol version that a
/// reader assumes.
pub proof fn law_announce_round_trip(
    service_id: Seq<char>,
    service_name: Seq<char>,
    http_port: u16,
    manifest_path: Seq<char>,
    tags: Seq<Seq<char>>,
    priority: u8,
    timestamp: u64,
    ip: Seq<char>,
)
    ensures
        service_event_model(
            announce_model(service_id, service_name, http_port, manifest_path, tags, priority, timestamp),
            ip,
        ) == (ServiceEventModel {
            event: "online"@,
            service_id,
            service_name,
            http_port,
            manifest_path,
            tags,
            priority,
            ip,
            timestamp,
            version: "1.0"@,
        }),
{
    reveal_strlit("service_name");
    reveal_strlit("service_id");
    reveal_strlit("http_port");
    reveal_strlit("manifest_path");
    reveal_strlit("tags");
    reveal_strlit("priority");
    reveal_strlit("version");
    reveal_strlit("event");
    reveal_strlit("timestamp");
    let ms = announce_model(service_id, service_name, http_port, manifest_path, tags, priority, timestamp)->Object_0;
    assert(ms[0].0 == "event"@);
    assert(ms[1].0 == "service_id"@);
    assert(ms[2].0 == "service_name"@);
    assert(ms[3].0 == "http_port"@);
    assert(ms[4].0 == "manifest_path"@);
    assert(ms[5].0 == "tags"@);
    assert(ms[6].0 == "priority"@);
    assert(ms[7].0 == "timestamp"@);
    lemma_members_get_at(ms, "event"@, 0);
    lemma_members_get_at(ms, "service_id"@, 1);
    lemma_members_get_at(ms, "service_name"@, 2);
    lemma_members_get_at(ms, "http_port"@, 3);
    lemma_members_get_at(ms, "manifest_path"@, 4);
    lemma_members_get_at(ms, "tags"@, 5);
    assert forall|j: int| 0 <= j < 6 implies ms[j].0 != "priority"@ by {
        assert(ms[j].0[0] != "priority"@[0]);
    }
    lemma_members_get_at(ms, "priority"@, 6);
    assert forall|j: int| 0 <= j < 7 implies ms[j].0 != "timestamp"@ by {
        assert(ms[j].0.len() != 9 || ms[j].0[0] != "timestamp"@[0]);
    }
    lemma_members_get_at(ms, "timestamp"@, 7);
    assert forall|j: int| 0 <= j < ms.len() implies ms[j].0 != "version"@ by {
        assert(ms[j].0.len() != 7 || ms[j].0[0] != "version"@[0]);
    }
    lemma_members_get_absent(ms, "version"@);
    lemma_str_items_of_strings(tags);
}

/// What a listener reads from an offline announcement: the event `offline`,
/// the service's id and name, the time, and the defaults for what a goodbye
/// does not carry.
pub proof fn law_goodbye_round_trip(service_id: Seq<char>, service_name: Seq<char>, timestamp: u64, ip: Seq<char>)
    ensures
        service_event_model(goodbye_model(service_id, service_name, timestamp), ip) == (ServiceEventModel {
            event: "offline"@,
            service_id,
            service_name,
            http_port: 80,
            manifest_path: "/ai_manifest"@,
            tags: Seq::empty(),
            priority: 1,
            ip,
            timestamp,
            version: "1.0"@,
        }),
{
    reveal_strlit("service_name");
    reveal_strlit("service_id");
    reveal_strlit("http_port");
    reveal_strlit("manifest_path");
    reveal_strlit("tags");
    reveal_strlit("priority");
    reveal_strlit("version");
    reveal_strlit("event");
    reveal_strlit("timestamp");
    let ms = goodbye_model(service_id, service_name, timestamp)->Object_0;
    assert(ms[0].0 == "event"@);
    assert(ms[1].0 == "service_id"@);
    assert(ms[2].0 == "service_name"@);
    assert(ms[3].0 == "timestamp"@);
    assert(ms[4].0 == "version"@);
    lemma_members_get_at(ms, "event"@, 0);
    lemma_members_get_at(ms, "service_id"@, 1);
    lemma_members_get_at(ms, "service_name"@, 2);
    lemma_members_get_at(ms, "timestamp"@, 3);
    lemma_members_get_at(ms, "version"@, 4);
    assert forall|j: int| 0 <= j < ms.len() implies ms[j].0 != "http_port"@ && ms[j].0 != "manifest_path"@
        && ms[j].0 != "tags"@ && ms[j].0 != "priority"@ by {
        assert(ms[j].0.len() != 9 || ms[j].0[0] != 'h');
    }
    lemma_members_get_absent(ms, "http_port"@);
    lemma_members_get_absent(ms, "manifest_path"@);
    lemma_members_get_absent(ms, "tags"@);
    lemma_members_get_absent(ms, "priority"@);
}


/// A framed message splits back into what was framed: the command, and the
/// payload without trailing whitespace. This holds for a non-empty command
/// without whitespace (as every command of the protocol is) and a payload that
/// is not blank (as no JSON text is).
pub proof fn law_frame_parse_round_trip(cmd: Seq<char>, payload: Seq<char>)
    requires
        cmd.len() > 0,
        forall|i: int| 0 <= i < cmd.len() ==> !is_ws(#[trigger] cmd[i]),
        exists|i: int| 0 <= i < payload.len() && !is_ws(payload[i]),
    ensures
        split_message_result(encode_utf8(cmd + seq!['\n'] + payload)) == Some((cmd, trim_end(payload))),
{
    let x = cmd + seq!['\n'] + payload;
    encode_utf8_valid_utf8(x);
    encode_utf8_decode_utf8(x);
    assert(x[0] == cmd[0]);
    assert(trim_start(x) == x);
    let head = cmd + seq!['\n'];
    assert(x =~= head + payload);
    lemma_trim_end_append(head, payload);
    let t = head + trim_end(payload);
    assert(trim(decode_utf8(encode_utf8(x))) == t);
    let k = cmd.len() as int;
    assert(is_ws('\n'));
    assert(is_first_newline(t, k)) by {
        assert(t[k] == '\n');
        assert forall|j: int| 0 <= j < k implies t[j] != '\n' by {
            assert(t[j] == cmd[j]);
        }
    }
    lemma_first_newline_unique(t, k);
    assert(t.take(k) =~= cmd);
    assert(t.skip(k + 1) =~= trim_end(payload));
    assert(!is_ws(cmd.last()));
    lemma_trim_fixed(cmd);
}


/// The characters of a protocol command: capital letters and underscores.
pub open spec fn is_command_char(c: char) -> bool {
    ('A' as u32 <= c as u32 <= 'Z' as u32) || c == '_'
}

proof fn lemma_command_chars_frame(cmd: Seq<char>, payload: Seq<char>)
    requires
        cmd.len() > 0,
        forall|i: int| 0 <= i < cmd.len() ==> is_command_char(#[trigger] cmd[i]),
        exists|i: int| 0 <= i < payload.len() && !is_ws(payload[i]),
    ensures
        split_message_result(encode_utf8(cmd + seq!['\n'] + payload)) == Some((cmd, trim_end(payload))),
{
    assert forall|i: int| 0 <= i < cmd.len() implies !is_ws(#[trigger] cmd[i]) by {
        assert(is_command_char(cmd[i]));
    }
    law_frame_parse_round_trip(cmd, payload);
}

/// Each of the four commands of the protocol, framed with a (non-blank)
/// payload, splits back into that command and the payload.
pub proof fn law_commands_round_trip(payload: Seq<char>)
    requires
        exists|i: int| 0 <= i < payload.len() && !is_ws(payload[i]),
    ensures
        split_message_result(encode_utf8(DISCOVER_REQ@ + seq!['\n'] + payload)) == Some((DISCOVER_REQ@, trim_end(payload))),
        split_message_result(encode_utf8(DISCOVER_RES@ + seq!['\n'] + payload)) == Some((DISCOVER_RES@, trim_end(payload))),
        split_message_result(encode_utf8(SERVICE_ANNOUNCE@ + seq!['\n'] + payload)) == Some((SERVICE_ANNOUNCE@, trim_end(payload))),
        split_message_result(encode_utf8(SERVICE_GOODBYE@ + seq!['\n'] + payload)) == Some((SERVICE_GOODBYE@, trim_end(payload))),
{
    reveal_strlit("AI_DISCOVER_REQ");
    reveal_strlit("AI_DISCOVER_RES");
    reveal_strlit("AI_SERVICE_ANNOUNCE");
    reveal_strlit("AI_SERVICE_GOODBYE");
    lemma_command_chars_frame(DISCOVER_REQ@, payload);
    lemma_command_chars_frame(DISCOVER_RES@, payload);
    lemma_command_chars_frame(SERVICE_ANNOUNCE@, payload);
    lemma_command_chars_frame(SERVICE_GOODBYE@, payload);
}

/// The strings `tags` as JSON strings, in order.
pub open spec fn json_strings(tags: Seq<Seq<char>>) -> Seq<JsonModel> {
    Seq::new(tags.len(), |i: int| JsonModel::Str(tags[i]))
}

/// On the wire, a discovery response carries each field under its own
/// documented key: `query_id`, `status`, `service_name`, `service_id`,
/// `http_port`, `manifest_path`, `tags`, `priority`, `manifest` and `version`.
pub proof fn law_discover_res_wire_form(
    query_id: Seq<char>,
    status: Seq<char>,
    service_name: Seq<char>,
    service_id: Seq<char>,
    http_port: u16,
    manifest_path: Seq<char>,
    tags: Seq<Seq<char>>,
    priority: u8,
    manifest: JsonModel,
)
    ensures
        ({
            let m = discover_res_model(
                query_id,
                status,
                service_name,
                service_id,
                http_port,
                manifest_path,
                tags,
                priority,
                manifest,
            );
            &&& get_field(m, "query_id"@) == Some(JsonModel::Str(query_id))
            &&& get_field(m, "status"@) == Some(JsonModel::Str(status))
            &&& get_field(m, "service_name"@) == Some(JsonModel::Str(service_name))
            &&& get_field(m, "service_id"@) == Some(JsonModel::Str(service_id))
            &&& get_field(m, "http_port"@) == Some(JsonModel::Number(NumberModel::PosInt(http_port as u64)))
            &&& get_field(m, "manifest_path"@) == Some(JsonModel::Str(manifest_path))
            &&& get_field(m, "tags"@) == Some(JsonModel::Array(json_strings(tags)))
            &&& get_field(m, "priority"@) == Some(JsonModel::Number(NumberModel::PosInt(priority as u64)))
            &&& get_field(m, "manifest"@) == Some(manifest)
            &&& get_field(m, "version"@) == Some(JsonModel::Str("1.0"@))
        }),
{
    reveal_strlit("query_id");
    reveal_strlit("status");
    reveal_strlit("service_name");
    reveal_strlit("service_id");
    reveal_strlit("http_port");
    reveal_strlit("manifest_path");
    reveal_strlit("tags");
    reveal_strlit("priority");
    reveal_strlit("manifest");
    reveal_strlit("version");
    let ms = discover_res_model(
        query_id,
        status,
        service_name,
        service_id,
        http_port,
        manifest_path,
        tags,
        priority,
        manifest,
    )->Object_0;
    assert(ms[0].0 == "query_id"@);
    assert(ms[1].0 == "status"@);
    assert(ms[2].0 == "service_name"@);
    assert(ms[3].0 == "service_id"@);
    assert(ms[4].0 == "http_port"@);
    assert(ms[5].0 == "manifest_path"@);
    assert(ms[6].0 == "tags"@);
    assert(ms[7].0 == "priority"@);
    assert(ms[8].0 == "manifest"@);
    assert(ms[9].0 == "version"@);
    lemma_members_get_at(ms, "query_id"@, 0);
    lemma_members_get_at(ms, "status"@, 1);
    lemma_members_get_at(ms, "service_name"@, 2);
    lemma_members_get_at(ms, "service_id"@, 3);
    lemma_members_get_at(ms, "http_port"@, 4);
    lemma_members_get_at(ms, "manifest_path"@, 5);
    lemma_members_get_at(ms, "tags"@, 6);
    assert forall|j: int| 0 <= j < 7 implies ms[j].0 != "priority"@ by {
        assert(ms[j].0[0] != "priority"@[0]);
    }
    lemma_members_get_at(ms, "priority"@, 7);
    assert forall|j: int| 0 <= j < 8 implies ms[j].0 != "manifest"@ by {
        assert(ms[j].0.len() != 8 || ms[j].0[0] != "manifest"@[0]);
    }
    lemma_members_get_at(ms, "manifest"@, 8);
    lemma_members_get_at(ms, "version"@, 9);
    assert(str_array(tags) == JsonModel::Array(json_strings(tags)));
}

/// On the wire, a discovery request carries its query id under `query_id` and
/// the protocol version under `version`.
pub proof fn law_discover_req_wire_form(query_id: Seq<char>)
    ensures
        get_field(discover_req_model(query_id), "query_id"@) == Some(JsonModel::Str(query_id)),
        get_field(discover_req_model(query_id), "version"@) == Some(JsonModel::Str("1.0"@)),
{
    reveal_strlit("query_id");
    reveal_strlit("version");
    let ms = discover_req_model(query_id)->Object_0;
    assert(ms[0].0 == "query_id"@);
    assert(ms[1].0 == "version"@);
    lemma_members_get_at(ms, "query_id"@, 0);
    lemma_members_get_at(ms, "version"@, 1);
}

/// On the wire, an online announcement carries `event` = `online` and each of
/// the service's fields and the time under its own key, and no `version`.
pub proof fn law_announce_wire_form(
    service_id: Seq<char>,
    service_name: Seq<char>,
    http_port: u16,
    manifest_path: Seq<char>,
    tags: Seq<Seq<char>>,
    priority: u8,
    timestamp: u64,
)
    ensures
        ({
            let m = announce_model(service_id, service_name, http_port, manifest_path, tags, priority, timestamp);
            &&& get_field(m, "event"@) == Some(JsonModel::Str("online"@))
            &&& get_field(m, "service_id"@) == Some(JsonModel::Str(service_id))
            &&& get_field(m, "service_name"@) == Some(JsonModel::Str(service_name))
            &&& get_field(m, "http_port"@) == Some(JsonModel::Number(NumberModel::PosInt(http_port as u64)))
            &&& get_field(m, "manifest_path"@) == Some(JsonModel::Str(manifest_path))
            &&& get_field(m, "tags"@) == Some(JsonModel::Array(json_strings(tags)))
            &&& get_field(m, "priority"@) == Some(JsonModel::Number(NumberModel::PosInt(priority as u64)))
            &&& get_field(m, "timestamp"@) == Some(JsonModel::Number(NumberModel::PosInt(timestamp)))
            &&& get_field(m, "version"@) is None
        }),
{
    reveal_strlit("service_name");
    reveal_strlit("service_id");
    reveal_strlit("http_port");
    reveal_strlit("manifest_path");
    reveal_strlit("tags");
    reveal_strlit("priority");
    reveal_strlit("version");
    reveal_strlit("event");
    reveal_strlit("timestamp");
    let ms = announce_model(service_id, service_name, http_port, manifest_path, tags, priority, timestamp)->Object_0;
    assert(ms[0].0 == "event"@);
    assert(ms[1].0 == "service_id"@);
    assert(ms[2].0 == "service_name"@);
    assert(ms[3].0 == "http_port"@);
    assert(ms[4].0 == "manifest_path"@);
    assert(ms[5].0 == "tags"@);
    assert(ms[6].0 == "priority"@);
    assert(ms[7].0 == "timestamp"@);
    lemma_members_get_at(ms, "event"@, 0);
    lemma_members_get_at(ms, "service_id"@, 1);
    lemma_members_get_at(ms, "service_name"@, 2);
    lemma_members_get_at(ms, "http_port"@, 3);
    lemma_members_get_at(ms, "manifest_path"@, 4);
    lemma_members_get_at(ms, "tags"@, 5);
    assert forall|j: int| 0 <= j < 6 implies ms[j].0 != "priority"@ by {
        assert(ms[j].0[0] != "priority"@[0]);
    }
    lemma_members_get_at(ms, "priority"@, 6);
    assert forall|j: int| 0 <= j < 7 implies ms[j].0 != "timestamp"@ by {
        assert(ms[j].0.len() != 9 || ms[j].0[0] != "timestamp"@[0]);
    }
    lemma_members_get_at(ms, "timestamp"@, 7);
    assert forall|j: int| 0 <= j < ms.len() implies ms[j].0 != "version"@ by {
        assert(ms[j].0.len() != 7 || ms[j].0[0] != "version"@[0]);
    }
    lemma_members_get_absent(ms, "version"@);
    assert(str_array(tags) == JsonModel::Array(json_strings(tags)));
}

/// On the wire, an offline announcement carries `event` = `offline`, the
/// service's id and name, the time and the protocol version, each under its
/// own key.
pub proof fn law_goodbye_wire_form(service_id: Seq<char>, service_name: Seq<char>, timestamp: u64)
    ensures
        ({
            let m = goodbye_model(service_id, service_name, timestamp);
            &&& get_field(m, "event"@) == Some(JsonModel::Str("offline"@))
            &&& get_field(m, "service_id"@) == Some(JsonModel::Str(service_id))
            &&& get_field(m, "service_name"@) == Some(JsonModel::Str(service_name))
            &&& get_field(m, "timestamp"@) == Some(JsonModel::Number(NumberModel::PosInt(timestamp)))
            &&& get_field(m, "version"@) == Some(JsonModel::Str("1.0"@))
        }),
{
    reveal_strlit("service_name");
    reveal_strlit("service_id");
    reveal_strlit("version");
    reveal_strlit("event");
    reveal_strlit("timestamp");
    let ms = goodbye_model(service_id, service_name, timestamp)->Object_0;
    assert(ms[0].0 == "event"@);
    assert(ms[1].0 == "service_id"@);
    assert(ms[2].0 == "service_name"@);
    assert(ms[3].0 == "timestamp"@);
    assert(ms[4].0 == "version"@);
    lemma_members_get_at(ms, "event"@, 0);
    lemma_members_get_at(ms, "service_id"@, 1);
    lemma_members_get_at(ms, "service_name"@, 2);
    lemma_members_get_at(ms, "timestamp"@, 3);
    lemma_members_get_at(ms, "version"@, 4);
}

/// The text member `key` of `p`, when it is a JSON string.
pub open spec fn text_member(p: JsonModel, key: Seq<char>) -> Option<Seq<char>> {
    match get_field(p, key) {
        Some(JsonModel::Str(s)) => Some(s),
        _ => None,
    }
}

/// The non-negative integer member `key` of `p`, when there is one.
pub open spec fn uint_member(p: JsonModel, key: Seq<char>) -> Option<u64> {
    match get_field(p, key) {
        Some(JsonModel::Number(NumberModel::PosInt(n))) => Some(n),
        _ => None,
    }
}

/// A scanner reads every field of any response, whoever built it, from the
/// member of its own documented key, falling back to the documented default:
/// the query id from `query_id` (else `""`), the status from `status` (else
/// `ok`), name and id from `service_name` and `service_id` (else `""`), the
/// port from `http_port` (else 80, keeping the low 16 bits), the path from
/// `manifest_path` (else `/ai_manifest`), the priority from `priority` (else
/// 1, keeping the low 8 bits), the version from `version` (else `1.0`), the
/// manifest from `manifest` (else `null`); the address is where it came from.
pub proof fn law_service_info_reads_members(p: JsonModel, ip: Seq<char>)
    ensures
        ({
            let r = service_info_model(p, ip);
            &&& r.query_id == (match text_member(p, "query_id"@) { Some(s) => s, None => ""@ })
            &&& r.status == (match text_member(p, "status"@) { Some(s) => s, None => "ok"@ })
            &&& r.service_name == (match text_member(p, "service_name"@) { Some(s) => s, None => ""@ })
            &&& r.service_id == (match text_member(p, "service_id"@) { Some(s) => s, None => ""@ })
            &&& r.manifest_path == (match text_member(p, "manifest_path"@) {
                Some(s) => s,
                None => "/ai_manifest"@,
            })
            &&& r.version == (match text_member(p, "version"@) { Some(s) => s, None => "1.0"@ })
            &&& (r.http_port as int) == (match uint_member(p, "http_port"@) {
                Some(n) => n % 0x10000,
                None => 80,
            })
            &&& (r.priority as int) == (match uint_member(p, "priority"@) {
                Some(n) => n % 0x100,
                None => 1,
            })
            &&& r.manifest == (match get_field(p, "manifest"@) { Some(x) => x, None => JsonModel::Null })
            &&& r.ip == ip
        }),
{
}

/// A listener reads every field of any announcement from the member of its
/// own documented key, falling back to the documented default: `event`,
/// `service_id`, `service_name` (else `""`), `http_port` (else 80, low 16
/// bits), `manifest_path` (else `/ai_manifest`), `priority` (else 1, low 8
/// bits), `timestamp` (else 0) and `version` (else `1.0`).
pub proof fn law_service_event_reads_members(p: JsonModel, ip: Seq<char>)
    ensures
        ({
            let r = service_event_model(p, ip);
            &&& r.event == (match text_member(p, "event"@) { Some(s) => s, None => ""@ })
            &&& r.service_name == (match text_member(p, "service_name"@) { Some(s) => s, None => ""@ })
            &&& r.service_id == (match text_member(p, "service_id"@) { Some(s) => s, None => ""@ })
            &&& r.manifest_path == (match text_member(p, "manifest_path"@) {
                Some(s) => s,
                None => "/ai_manifest"@,
            })
            &&& r.version == (match text_member(p, "version"@) { Some(s) => s, None => "1.0"@ })
            &&& (r.http_port as int) == (match uint_member(p, "http_port"@) {
                Some(n) => n % 0x10000,
                None => 80,
            })
            &&& (r.priority as int) == (match uint_member(p, "priority"@) {
                Some(n) => n % 0x100,
                None => 1,
            })
            &&& r.timestamp == (match uint_member(p, "timestamp"@) { Some(n) => n, None => 0 })
            &&& r.ip == ip
        }),
{
}

} // verus!
