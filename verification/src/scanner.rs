//! The scanner's side: the services it has discovered, and the decisions it
//! takes while it collects answers to a discovery request.
use vstd::prelude::*;
use crate::json::{
    get_field, lemma_members_get_absent, lemma_members_get_at, lemma_members_model, members_model, str_array,
    JsonModel, JsonValue, NumberModel,
};
use crate::protocol::{
    uint_model, http_base_url, json_strings, service_info_model, ServiceInfo, ServiceInfoModel, DISCOVER_RES,
};
use crate::text::{append_chars, chars_of, str_eq, string_of};

verus! {

/// A service that answered the scanner's discovery request.
pub struct DiscoveredService {
    pub service_info: ServiceInfo,
}

impl DiscoveredService {
    /// The address that the answer came from.
    pub fn ip(&self) -> (r: &str)
        ensures
            r@ == self.service_info.ip@,
    {
        self.service_info.ip.as_str()
    }

    /// The service's HTTP port.
    pub fn port(&self) -> (r: u16)
        ensures
            r == self.service_info.http_port,
    {
        self.service_info.http_port
    }

    /// `http://{ip}:{port}`.
    pub fn base_url(&self) -> (r: String)
        ensures
            r@ == http_base_url(self.service_info.ip@, self.service_info.http_port),
    {
        self.service_info.base_url()
    }

    /// The record of this service in the scanner's JSON output.
    pub fn record(&self, with_manifest: bool, with_base_url: bool) -> (r: JsonValue)
        ensures
            r@ == scan_record_model(self.service_info@, with_manifest, with_base_url),
            get_field(r@, "base_url"@) is Some <==> with_base_url,
            with_base_url ==> get_field(r@, "base_url"@) == Some(
                JsonModel::Str(http_base_url(self.service_info.ip@, self.service_info.http_port)),
            ),
            get_field(r@, "manifest"@) == Some(
                if with_manifest {
                    self.service_info.manifest@
                } else {
                    JsonModel::Null
                },
            ),
    {
        let info = &self.service_info;
        let mut ms: Vec<(String, JsonValue)> = Vec::new();
        ms.push(("service_name".to_owned(), JsonValue::Str(info.service_name.clone())));
        ms.push(("service_id".to_owned(), JsonValue::Str(info.service_id.clone())));
        ms.push(("ip".to_owned(), JsonValue::Str(info.ip.clone())));
        ms.push(("port".to_owned(), JsonValue::uint(info.http_port as u64)));
        ms.push(("tags".to_owned(), JsonValue::str_array(info.tags.as_slice())));
        if with_base_url {
            ms.push(("base_url".to_owned(), JsonValue::Str(self.base_url())));
        }
        if with_manifest {
            ms.push(("manifest".to_owned(), info.manifest.copy()));
        } else {
            ms.push(("manifest".to_owned(), JsonValue::Null));
        }
        proof {
            lemma_members_model(ms@);
            assert(members_model(ms@) =~= scan_record_model(self.service_info@, with_manifest, with_base_url)->Object_0);
            law_record_members(self.service_info@, with_manifest, with_base_url);
        }
        JsonValue::Object(ms)
    }

    /// The manifest that the service sent in its answer.
    pub fn manifest(&self) -> (r: &JsonValue)
        ensures
            r@ == self.service_info.manifest@,
    {
        &self.service_info.manifest
    }
}

/// The record of a discovered service in the scanner's JSON output: its name,
/// id, address, port and tags, its base URL when `with_base_url`, and its
/// manifest when `with_manifest` (`null` otherwise).
pub open spec fn scan_record_model(s: ServiceInfoModel, with_manifest: bool, with_base_url: bool) -> JsonModel {
    let head = seq![
        ("service_name"@, JsonModel::Str(s.service_name)),
        ("service_id"@, JsonModel::Str(s.service_id)),
        ("ip"@, JsonModel::Str(s.ip)),
        ("port"@, uint_model(s.http_port as u64)),
        ("tags"@, str_array(s.tags)),
    ];
    let url = if with_base_url {
        seq![("base_url"@, JsonModel::Str(http_base_url(s.ip, s.http_port)))]
    } else {
        Seq::empty()
    };
    let manifest = if with_manifest {
        s.manifest
    } else {
        JsonModel::Null
    };
    JsonModel::Object(head + url + seq![("manifest"@, manifest)])
}

/// Each member of a scan record stands under its own key: name, id, address,
/// port and tags always; a `base_url` member exactly when the base URL was asked
/// for, holding `http://{ip}:{port}`; and a `manifest` member that holds the
/// service's manifest when manifests were asked for and `null` otherwise.
pub proof fn law_record_members(s: ServiceInfoModel, with_manifest: bool, with_base_url: bool)
    ensures
        ({
            let r = scan_record_model(s, with_manifest, with_base_url);
            &&& get_field(r, "service_name"@) == Some(JsonModel::Str(s.service_name))
            &&& get_field(r, "service_id"@) == Some(JsonModel::Str(s.service_id))
            &&& get_field(r, "ip"@) == Some(JsonModel::Str(s.ip))
            &&& get_field(r, "port"@) == Some(JsonModel::Number(NumberModel::PosInt(s.http_port as u64)))
            &&& get_field(r, "tags"@) == Some(JsonModel::Array(json_strings(s.tags)))
            &&& (get_field(r, "base_url"@) is Some <==> with_base_url)
            &&& with_base_url ==> get_field(r, "base_url"@) == Some(
                JsonModel::Str(http_base_url(s.ip, s.http_port)),
            )
            &&& get_field(r, "manifest"@) == Some(
                if with_manifest {
                    s.manifest
                } else {
                    JsonModel::Null
                },
            )
        }),
{
    reveal_strlit("service_name");
    reveal_strlit("service_id");
    reveal_strlit("ip");
    reveal_strlit("port");
    reveal_strlit("tags");
    reveal_strlit("base_url");
    reveal_strlit("manifest");
    let ms = scan_record_model(s, with_manifest, with_base_url)->Object_0;
    assert(ms[0].0 == "service_name"@);
    assert(ms[1].0 == "service_id"@);
    assert(ms[2].0 == "ip"@);
    assert(ms[3].0 == "port"@);
    assert(ms[4].0 == "tags"@);
    lemma_members_get_at(ms, "service_name"@, 0);
    lemma_members_get_at(ms, "service_id"@, 1);
    lemma_members_get_at(ms, "ip"@, 2);
    lemma_members_get_at(ms, "port"@, 3);
    assert forall|j: int| 0 <= j < 4 implies ms[j].0 != "tags"@ by {
        assert(ms[j].0[0] != "tags"@[0]);
    }
    lemma_members_get_at(ms, "tags"@, 4);
    let last: int = ms.len() - 1;
    assert(ms[last].0 == "manifest"@);
    assert forall|j: int| 0 <= j < last implies ms[j].0 != "manifest"@ by {
        assert(ms[j].0[0] != "manifest"@[0]);
    }
    lemma_members_get_at(ms, "manifest"@, last);
    if with_base_url {
        assert(ms[5].0 == "base_url"@);
        assert forall|j: int| 0 <= j < 5 implies ms[j].0 != "base_url"@ by {
            assert(ms[j].0[0] != "base_url"@[0]);
        }
        lemma_members_get_at(ms, "base_url"@, 5);
    } else {
        assert forall|j: int| 0 <= j < ms.len() implies ms[j].0 != "base_url"@ by {
            assert(ms[j].0[0] != "base_url"@[0]);
        }
        lemma_members_get_absent(ms, "base_url"@);
    }
    assert(str_array(s.tags) == JsonModel::Array(json_strings(s.tags)));
}

/// The models of the services in `s`.
pub open spec fn service_models(s: Seq<DiscoveredService>) -> Seq<ServiceInfoModel> {
    Seq::new(s.len(), |i: int| s[i].service_info@)
}

/// What the scanner's receive loop observed.
pub enum ScanEvent {
    /// A well-formed message from `ip`.
    Message { cmd: String, payload: JsonValue, ip: String },
    /// A datagram that is not a protocol message.
    Unreadable,
    /// The socket reported an error.
    ReceiveError,
    /// No datagram arrived before the remaining time ran out.
    Timeout,
}

/// What the receive loop does next.
pub enum ScanStep {
    /// Keep receiving while time is left.
    Continue,
    /// Stop and report what was collected.
    Finish,
}

/// The services collected so far in answer to one discovery request.
pub struct ScanCollector {
    pub services: Vec<DiscoveredService>,
}

impl ScanCollector {
    /// Nothing collected yet.
    pub fn new() -> (r: ScanCollector)
        ensures
            r.services@.len() == 0,
    {
        ScanCollector { services: Vec::new() }
    }

    /// Takes one observation of the receive loop into account.
    ///
    /// A discovery response adds the service that it describes; any other
    /// message, an unreadable datagram or a receive error changes nothing. A
    /// timeout finishes the scan once at least one service answered, and lets
    /// it go on waiting otherwise. Only a timeout ever finishes it.
    pub fn on_event(&mut self, event: ScanEvent) -> (step: ScanStep)
        ensures
            match event {
                ScanEvent::Message { cmd, payload, ip } => {
                    &&& step is Continue
                    &&& cmd@ == DISCOVER_RES@ ==> service_models(final(self).services@) == service_models(
                        old(self).services@,
                    ).push(service_info_model(payload@, ip@))
                    &&& cmd@ != DISCOVER_RES@ ==> service_models(final(self).services@) == service_models(
                        old(self).services@,
                    )
                },
                ScanEvent::Timeout => {
                    &&& service_models(final(self).services@) == service_models(old(self).services@)
                    &&& (step is Finish <==> old(self).services@.len() > 0)
                },
                _ => {
                    &&& step is Continue
                    &&& service_models(final(self).services@) == service_models(old(self).services@)
                },
            },
    {
        match event {
            ScanEvent::Message { cmd, payload, ip } => {
                if str_eq(cmd.as_str(), DISCOVER_RES) {
                    let service_info = ServiceInfo::from_payload(&payload, ip.as_str());
                    self.services.push(DiscoveredService { service_info });
                    assert(service_models(self.services@) =~= service_models(old(self).services@).push(
                        service_info_model(payload@, ip@),
                    ));
                }
                ScanStep::Continue
            },
            ScanEvent::Timeout => {
                if self.services.len() > 0 {
                    ScanStep::Finish
                } else {
                    ScanStep::Continue
                }
            },
            _ => ScanStep::Continue,
        }
    }
}

/// Why a scan failed.
pub enum ScannerError {
    BindError(String),
    SendError(String),
    AddressError(String),
    HttpError(String),
}

/// The text of `ScannerError::message`.
pub open spec fn scanner_error_text(e: ScannerError) -> Seq<char> {
    match e {
        ScannerError::BindError(s) => "Failed to bind to UDP port: "@ + s@,
        ScannerError::SendError(s) => "Failed to send UDP packet: "@ + s@,
        ScannerError::AddressError(s) => "Invalid address: "@ + s@,
        ScannerError::HttpError(s) => "HTTP error: "@ + s@,
    }
}

impl ScannerError {
    /// The human-readable text of the error.
    pub fn message(&self) -> (r: String)
        ensures
            r@ == scanner_error_text(*self),
    {
        let (mut head, detail) = match self {
            ScannerError::BindError(s) => (chars_of("Failed to bind to UDP port: "), s),
            ScannerError::SendError(s) => (chars_of("Failed to send UDP packet: "), s),
            ScannerError::AddressError(s) => (chars_of("Invalid address: "), s),
            ScannerError::HttpError(s) => (chars_of("HTTP error: "), s),
        };
        let tail = chars_of(detail.as_str());
        append_chars(&mut head, &tail);
        string_of(head.as_slice())
    }
}

} // verus!
