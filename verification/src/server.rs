//! The discovery agent's side: what it answers to a message and what it
//! broadcasts when its service goes online or offline.
use vstd::prelude::*;
use crate::config::{ServiceConfig, ServiceConfigModel};
use crate::json::{get_field, lemma_members_get_at, str_field_or, JsonModel, JsonValue, NumberModel};
use crate::protocol::{
    announce_model, announce_payload, discover_req_model, discover_res_model, discover_res_payload,
    goodbye_model, goodbye_payload, law_discover_res_wire_form, law_discover_response_round_trip, service_info_model,
    text_member,
    DiscoverResParams, ServiceInfoModel, DISCOVER_REQ,
};
use crate::text::{append_chars, chars_of, str_eq, string_of};

verus! {

/// The response payload that a service configured as `config` sends to the
/// discovery request `request`: the request's query id (or `""`), status `ok`,
/// and the configured service's description and manifest.
pub open spec fn response_model(config: ServiceConfigModel, request: JsonModel) -> JsonModel {
    discover_res_model(
        str_field_or(request, "query_id"@, ""@),
        "ok"@,
        config.service_name,
        config.service_id,
        config.http_port,
        config.manifest_path,
        config.tags,
        config.priority,
        config.manifest_data,
    )
}

/// What the agent for `config` answers to the message `cmd` with `payload`: a
/// discovery response payload to a discovery request, and nothing to any
/// other message.
pub fn handle_message(config: &ServiceConfig, cmd: &str, payload: &JsonValue) -> (r: Option<JsonValue>)
    ensures
        cmd@ == DISCOVER_REQ@ ==> (r matches Some(resp) && resp@ == response_model(config@, payload@)),
        cmd@ != DISCOVER_REQ@ ==> r is None,
        cmd@ == DISCOVER_REQ@ ==> (r matches Some(resp) && get_field(resp@, "query_id"@) == Some(
            JsonModel::Str(
                match text_member(payload@, "query_id"@) {
                    Some(q) => q,
                    None => ""@,
                },
            ),
        ) && get_field(resp@, "status"@) == Some(JsonModel::Str("ok"@))),
{
    if !str_eq(cmd, DISCOVER_REQ) {
        return None;
    }
    let query_id = payload.str_field_or("query_id", "");
    let params = DiscoverResParams {
        query_id: query_id.as_str(),
        status: "ok",
        service_name: config.service_name.as_str(),
        service_id: config.service_id.as_str(),
        http_port: config.http_port,
        manifest_path: config.manifest_path.as_str(),
        tags: config.tags.as_slice(),
        priority: config.priority,
        manifest_data: &config.manifest_data,
    };
    proof {
        law_response_wire_form(config@, payload@);
    }
    Some(discover_res_payload(&params))
}

/// The online announcement of the service configured as `config`, sent at
/// `timestamp` (seconds since the Unix epoch).
pub fn announcement(config: &ServiceConfig, timestamp: u64) -> (r: JsonValue)
    ensures
        r@ == announce_model(
            config@.service_id,
            config@.service_name,
            config.http_port,
            config@.manifest_path,
            config@.tags,
            config.priority,
            timestamp,
        ),
{
    announce_payload(
        config.service_id.as_str(),
        config.service_name.as_str(),
        config.http_port,
        config.manifest_path.as_str(),
        config.tags.as_slice(),
        config.priority,
        timestamp,
    )
}

/// The offline announcement of the service configured as `config`, sent at
/// `timestamp`.
pub fn farewell(config: &ServiceConfig, timestamp: u64) -> (r: JsonValue)
    ensures
        r@ == goodbye_model(config@.service_id, config@.service_name, timestamp),
{
    goodbye_payload(config.service_id.as_str(), config.service_name.as_str(), timestamp)
}

/// A scanner that sends a discovery request with query id `query_id` and
/// reads the answer of the agent for `config`, coming from `ip`, learns the
/// configured service exactly: its name, id, HTTP port, manifest path, tags,
/// priority and manifest, with its own query id echoed, status `ok` and the
/// protocol version.
pub proof fn law_request_answered_with_config(config: ServiceConfigModel, query_id: Seq<char>, ip: Seq<char>)
    ensures
        service_info_model(response_model(config, discover_req_model(query_id)), ip) == (ServiceInfoModel {
            query_id,
            status: "ok"@,
            service_name: config.service_name,
            service_id: config.service_id,
            http_port: config.http_port,
            manifest_path: config.manifest_path,
            tags: config.tags,
            priority: config.priority,
            ip,
            version: "1.0"@,
            manifest: config.manifest_data,
        }),
{
    reveal_strlit("query_id");
    reveal_strlit("version");
    let ms = discover_req_model(query_id)->Object_0;
    assert(ms[0].0 == "query_id"@);
    lemma_members_get_at(ms, "query_id"@, 0);
    law_discover_response_round_trip(
        query_id,
        "ok"@,
        config.service_name,
        config.service_id,
        config.http_port,
        config.manifest_path,
        config.tags,
        config.priority,
        config.manifest_data,
        ip,
    );
}

/// On the wire, the agent's answer to any discovery request carries the
/// request's own query id under `query_id` (`""` when the request has none
/// that is a string), `ok` under `status`, and the configured service's name,
/// id, HTTP port, manifest path, priority and manifest under their own keys.
pub proof fn law_response_wire_form(config: ServiceConfigModel, request: JsonModel)
    ensures
        ({
            let r = response_model(config, request);
            &&& get_field(r, "query_id"@) == Some(JsonModel::Str(match text_member(request, "query_id"@) {
                Some(q) => q,
                None => ""@,
            }))
            &&& get_field(r, "status"@) == Some(JsonModel::Str("ok"@))
            &&& get_field(r, "service_name"@) == Some(JsonModel::Str(config.service_name))
            &&& get_field(r, "service_id"@) == Some(JsonModel::Str(config.service_id))
            &&& get_field(r, "http_port"@) == Some(
                JsonModel::Number(NumberModel::PosInt(config.http_port as u64)),
            )
            &&& get_field(r, "manifest_path"@) == Some(JsonModel::Str(config.manifest_path))
            &&& get_field(r, "priority"@) == Some(
                JsonModel::Number(NumberModel::PosInt(config.priority as u64)),
            )
            &&& get_field(r, "manifest"@) == Some(config.manifest_data)
        }),
{
    law_discover_res_wire_form(
        str_field_or(request, "query_id"@, ""@),
        "ok"@,
        config.service_name,
        config.service_id,
        config.http_port,
        config.manifest_path,
        config.tags,
        config.priority,
        config.manifest_data,
    );
}

/// Why the agent failed.
pub enum ServerError {
    BindError(String),
    SendError(String),
    NotRunning,
}

/// The text of `ServerError::message`.
pub open spec fn server_error_text(e: ServerError) -> Seq<char> {
    match e {
        ServerError::BindError(s) => "Failed to bind to UDP port: "@ + s@,
        ServerError::SendError(s) => "Failed to send UDP packet: "@ + s@,
        ServerError::NotRunning => "Server not running"@,
    }
}

impl ServerError {
    /// The human-readable text of the error.
    pub fn message(&self) -> (r: String)
        ensures
            r@ == server_error_text(*self),
    {
        match self {
            ServerError::BindError(s) => {
                let mut head = chars_of("Failed to bind to UDP port: ");
                let tail = chars_of(s.as_str());
                append_chars(&mut head, &tail);
                string_of(head.as_slice())
            },
            ServerError::SendError(s) => {
                let mut head = chars_of("Failed to send UDP packet: ");
                let tail = chars_of(s.as_str());
                append_chars(&mut head, &tail);
                string_of(head.as_slice())
            },
            ServerError::NotRunning => "Server not running".to_owned(),
        }
    }
}

} // verus!
