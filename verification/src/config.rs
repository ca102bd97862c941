//! Configuration of a service that the discovery agent announces, and of the
//! `.echo` files that enable a service in a directory tree.
use vstd::prelude::*;
use crate::json::{get_field, items_model, lemma_items_model, str_field_or, JsonModel, JsonValue, members_model};
use crate::protocol::{http_base_url, join_url, make_base_url, DISCOVERY_PORT};
use crate::text::{append_chars, chars_of, decimal, decimal_chars, string_of, string_views};

verus! {

/// A service that the discovery agent announces and answers for.
pub struct ServiceConfig {
    /// Human-readable service name.
    pub service_name: String,
    /// Unique service identifier.
    pub service_id: String,
    /// HTTP service port.
    pub http_port: u16,
    /// Manifest endpoint path.
    pub manifest_path: String,
    /// Service tags for categorization.
    pub tags: Vec<String>,
    /// Service priority (higher is preferred).
    pub priority: u8,
    /// UDP discovery port.
    pub udp_port: u16,
    /// Announce the service on startup.
    pub announce_on_startup: bool,
    /// Announcement interval in seconds (0 disables it).
    pub announce_interval: u32,
    /// The service's manifest.
    pub manifest_data: JsonValue,
}

/// The mathematical model of a [`ServiceConfig`].
pub struct ServiceConfigModel {
    pub service_name: Seq<char>,
    pub service_id: Seq<char>,
    pub http_port: u16,
    pub manifest_path: Seq<char>,
    pub tags: Seq<Seq<char>>,
    pub priority: u8,
    pub udp_port: u16,
    pub announce_on_startup: bool,
    pub announce_interval: u32,
    pub manifest_data: JsonModel,
}

impl View for ServiceConfig {
    type V = ServiceConfigModel;

    open spec fn view(&self) -> ServiceConfigModel {
        ServiceConfigModel {
            service_name: self.service_name@,
            service_id: self.service_id@,
            http_port: self.http_port,
            manifest_path: self.manifest_path@,
            tags: string_views(self.tags@),
            priority: self.priority,
            udp_port: self.udp_port,
            announce_on_startup: self.announce_on_startup,
            announce_interval: self.announce_interval,
            manifest_data: self.manifest_data@,
        }
    }
}

/// The empty JSON object.
pub open spec fn empty_object() -> JsonModel {
    JsonModel::Object(Seq::empty())
}

/// A configuration with the given name, id, port and manifest, and the
/// defaults for the rest: manifest path `/ai_manifest`, no tags, priority 1,
/// UDP port 53535, announcement on startup, every 30 seconds.
pub open spec fn config_with_defaults(
    service_name: Seq<char>,
    service_id: Seq<char>,
    http_port: u16,
    manifest_path: Seq<char>,
    manifest_data: JsonModel,
) -> ServiceConfigModel {
    ServiceConfigModel {
        service_name,
        service_id,
        http_port,
        manifest_path,
        tags: Seq::empty(),
        priority: 1,
        udp_port: 53535,
        announce_on_startup: true,
        announce_interval: 30,
        manifest_data,
    }
}

/// The string at `outer.inner` of `m`, or `default`.
pub open spec fn nested_str_or(m: JsonModel, outer: Seq<char>, inner: Seq<char>, default: Seq<char>) -> Seq<char> {
    match get_field(m, outer) {
        Some(o) => str_field_or(o, inner, default),
        None => default,
    }
}

/// The configuration that a manifest describes: its `meta.name` (default
/// `Unknown`), `meta.service_id` (default `unknown`) and `endpoints.invoke`
/// (default `/ai_manifest`), with the manifest itself kept as its data.
pub open spec fn config_from_manifest(manifest: JsonModel, http_port: u16) -> ServiceConfigModel {
    config_with_defaults(
        nested_str_or(manifest, "meta"@, "name"@, "Unknown"@),
        nested_str_or(manifest, "meta"@, "service_id"@, "unknown"@),
        http_port,
        nested_str_or(manifest, "endpoints"@, "invoke"@, "/ai_manifest"@),
        manifest,
    )
}

/// The configuration for a `.echo` file without a manifest: named after its
/// port, identified by the name of the directory that holds the file (or
/// `unknown`) and its port.
pub open spec fn config_from_dir(dir_name: Option<Seq<char>>, http_port: u16) -> ServiceConfigModel {
    let d = match dir_name {
        Some(d) => d,
        None => "unknown"@,
    };
    config_with_defaults(
        "Service on port "@ + decimal(http_port as nat),
        d + "-"@ + decimal(http_port as nat),
        http_port,
        "/ai_manifest"@,
        empty_object(),
    )
}

/// Services registered on the same port by `.echo` files in directories of
/// different names get different ids.
pub proof fn law_echo_ids_follow_directories(dir1: Seq<char>, dir2: Seq<char>, port: u16)
    requires
        dir1 != dir2,
    ensures
        config_from_dir(Some(dir1), port).service_id != config_from_dir(Some(dir2), port).service_id,
{
    let tail = "-"@ + decimal(port as nat);
    let id1 = dir1 + tail;
    let id2 = dir2 + tail;
    assert(config_from_dir(Some(dir1), port).service_id =~= id1);
    assert(config_from_dir(Some(dir2), port).service_id =~= id2);
    if id1 == id2 {
        assert(dir1.len() == dir2.len());
        assert(id1.take(dir1.len() as int) =~= dir1);
        assert(id2.take(dir2.len() as int) =~= dir2);
    }
}

/// A configuration made of a name, id, port, manifest path and manifest takes
/// those as given and sets the rest to the documented defaults: no tags,
/// priority 1, discovery on UDP port 53535, an announcement on startup and
/// then every 30 seconds.
pub proof fn law_default_config_fields(
    service_name: Seq<char>,
    service_id: Seq<char>,
    http_port: u16,
    manifest_path: Seq<char>,
    manifest_data: JsonModel,
)
    ensures
        ({
            let c = config_with_defaults(service_name, service_id, http_port, manifest_path, manifest_data);
            &&& c.service_name == service_name
            &&& c.service_id == service_id
            &&& c.http_port == http_port
            &&& c.manifest_path == manifest_path
            &&& c.manifest_data == manifest_data
            &&& c.tags.len() == 0
            &&& c.priority == 1
            &&& c.udp_port == DISCOVERY_PORT
            &&& c.udp_port == 53535
            &&& c.announce_on_startup
            &&& c.announce_interval == 30
        }),
{
}

/// Every configuration built from a manifest listens for discovery requests on
/// the discovery port 53535 (not on its HTTP port), announces itself on
/// startup and every 30 seconds, has priority 1 and no tags, serves on the
/// given HTTP port and keeps the manifest as its data. Its name is the string
/// at `meta.name` (else `Unknown`), its id the string at `meta.service_id`
/// (else `unknown`), and its manifest path the string at `endpoints.invoke`
/// (else `/ai_manifest`).
pub proof fn law_manifest_config_fields(manifest: JsonModel, http_port: u16)
    ensures
        ({
            let c = config_from_manifest(manifest, http_port);
            &&& c.udp_port == DISCOVERY_PORT
            &&& c.udp_port == 53535
            &&& c.announce_on_startup
            &&& c.announce_interval == 30
            &&& c.priority == 1
            &&& c.tags.len() == 0
            &&& c.http_port == http_port
            &&& c.manifest_data == manifest
            &&& c.service_name == (match get_field(manifest, "meta"@) {
                Some(meta) => match get_field(meta, "name"@) {
                    Some(JsonModel::Str(s)) => s,
                    _ => "Unknown"@,
                },
                None => "Unknown"@,
            })
            &&& c.service_id == (match get_field(manifest, "meta"@) {
                Some(meta) => match get_field(meta, "service_id"@) {
                    Some(JsonModel::Str(s)) => s,
                    _ => "unknown"@,
                },
                None => "unknown"@,
            })
            &&& c.manifest_path == (match get_field(manifest, "endpoints"@) {
                Some(e) => match get_field(e, "invoke"@) {
                    Some(JsonModel::Str(s)) => s,
                    _ => "/ai_manifest"@,
                },
                None => "/ai_manifest"@,
            })
        }),
{
}

/// The configuration for a `.echo` file without a manifest announces the
/// service on startup and every 30 seconds, listens for discovery on port
/// 53535, has priority 1, no tags, an empty manifest served at
/// `/ai_manifest`, the given HTTP port, the name `Service on port {port}` and
/// the id `{directory}-{port}` (`unknown` standing for a missing directory).
pub proof fn law_dir_config_fields(dir_name: Option<Seq<char>>, http_port: u16)
    ensures
        ({
            let c = config_from_dir(dir_name, http_port);
            &&& c.announce_on_startup
            &&& c.udp_port == DISCOVERY_PORT
            &&& c.udp_port == 53535
            &&& c.priority == 1
            &&& c.announce_interval == 30
            &&& c.tags.len() == 0
            &&& c.manifest_data == JsonModel::Object(Seq::empty())
            &&& c.manifest_path == "/ai_manifest"@
            &&& c.http_port == http_port
            &&& c.service_name == "Service on port "@ + decimal(http_port as nat)
            &&& c.service_id == (match dir_name {
                Some(d) => d,
                None => "unknown"@,
            }) + "-"@ + decimal(http_port as nat)
        }),
{
}

/// A path component that every platform reads as an ordinary name: not empty,
/// not `.` or `..`, and without separators or drive colons.
pub open spec fn is_plain_component(s: Seq<char>) -> bool {
    &&& s.len() > 0
    &&& s != "."@
    &&& s != ".."@
    &&& forall|i: int| 0 <= i < s.len() ==> s[i] != '/' && s[i] != '\\' && s[i] != ':'
}

/// Path text that every platform splits at its `/` characters alone: it has no
/// backslash and no two slashes in a row (so no Windows prefix either).
pub open spec fn is_slash_path(s: Seq<char>) -> bool {
    &&& forall|i: int| 0 <= i < s.len() ==> s[i] != '\\'
    &&& forall|i: int| 0 <= i < s.len() - 1 ==> !(#[trigger] s[i] == '/' && s[i + 1] == '/')
}

/// `path` is `prefix` followed by the plain component `name`, where `prefix`
/// is empty or ends with `/`.
pub open spec fn ends_with_component(path: Seq<char>, prefix: Seq<char>, name: Seq<char>) -> bool {
    &&& is_slash_path(path)
    &&& prefix.len() == 0 || prefix.last() == '/'
    &&& is_plain_component(name)
    &&& path == prefix + name
}

/// `path` is `prefix`, the directory name `dir`, a `/` and the file name `file`,
/// where `prefix` is empty or ends with `/` and both names are plain.
pub open spec fn dir_and_file(path: Seq<char>, prefix: Seq<char>, dir: Seq<char>, file: Seq<char>) -> bool {
    &&& is_slash_path(path)
    &&& prefix.len() == 0 || prefix.last() == '/'
    &&& is_plain_component(dir)
    &&& is_plain_component(file)
    &&& path == prefix + dir + "/"@ + file
}

/// `path` is a plain name directly under the root: `/` and a plain component.
pub open spec fn is_rooted_name(path: Seq<char>) -> bool {
    path.len() > 0 && path[0] == '/' && is_plain_component(path.drop_first())
}

/// `path` names a file without naming the directory that holds it: it is a
/// plain name alone, or a plain name directly under the root.
pub open spec fn has_no_dir_name(path: Seq<char>) -> bool {
    is_plain_component(path) || is_rooted_name(path)
}

/// The path without its final component: `std::path::Path::parent` as text.
/// For a path made of a prefix, a plain directory name, `/` and a plain file
/// name, with no backslash and no doubled slash, that is the prefix and the
/// directory name; for a plain name alone it is the empty path, and for a
/// plain name under the root it is `/`. Nothing is stated of other paths, whose
/// reading depends on the platform.
#[verifier::external_body]
fn parent_of(path: &str) -> (r: Option<String>)
    ensures
        match r {
            Some(s) => {
                &&& forall|prefix: Seq<char>, dir: Seq<char>, file: Seq<char>|
                    #[trigger] dir_and_file(path@, prefix, dir, file) ==> s@ == prefix + dir
                &&& is_plain_component(path@) ==> s@ == Seq::<char>::empty()
                &&& is_rooted_name(path@) ==> s@ == seq!['/']
            },
            None => {
                &&& forall|prefix: Seq<char>, dir: Seq<char>, file: Seq<char>|
                    !#[trigger] dir_and_file(path@, prefix, dir, file)
                &&& !has_no_dir_name(path@)
            },
        },
{
    std::path::Path::new(path).parent().and_then(|p| p.to_str()).map(|p| p.to_owned())
}

/// The final component of the path: `std::path::Path::file_name` as text. For a
/// path that ends with a plain name after `/` (or is that name), with no
/// backslash and no doubled slash, that is the name; the empty path and `/`
/// have none. Nothing is stated of other paths.
#[verifier::external_body]
fn file_name_of(path: &str) -> (r: Option<String>)
    ensures
        match r {
            Some(s) => {
                &&& path@ != Seq::<char>::empty()
                &&& path@ != seq!['/']
                &&& forall|prefix: Seq<char>, name: Seq<char>|
                    #[trigger] ends_with_component(path@, prefix, name) ==> s@ == name
            },
            None => forall|prefix: Seq<char>, name: Seq<char>|
                !#[trigger] ends_with_component(path@, prefix, name),
        },
{
    std::path::Path::new(path).file_name().and_then(|n| n.to_str()).map(|n| n.to_owned())
}

proof fn lemma_slash_path_prefix(path: Seq<char>, k: int)
    requires
        is_slash_path(path),
        0 <= k <= path.len(),
    ensures
        is_slash_path(path.take(k)),
{
    let t = path.take(k);
    assert forall|i: int| 0 <= i < t.len() - 1 implies !(#[trigger] t[i] == '/' && t[i + 1] == '/') by {
        assert(t[i] == path[i] && t[i + 1] == path[i + 1]);
    }
}

/// The name of the directory that holds the file at `path`, when there is one.
fn dir_name_of(path: &str) -> (r: Option<String>)
    ensures
        forall|prefix: Seq<char>, dir: Seq<char>, file: Seq<char>|
            #[trigger] dir_and_file(path@, prefix, dir, file) ==> (r matches Some(s) && s@ == dir),
        has_no_dir_name(path@) ==> r is None,
{
    let r = match parent_of(path) {
        Some(p) => file_name_of(p.as_str()),
        None => None,
    };
    assert forall|prefix: Seq<char>, dir: Seq<char>, file: Seq<char>|
        #[trigger] dir_and_file(path@, prefix, dir, file) implies (r matches Some(s) && s@ == dir) by {
        let k: int = (prefix.len() + dir.len()) as int;
        assert(path@.take(k) =~= prefix + dir);
        lemma_slash_path_prefix(path@, k);
        assert(ends_with_component(prefix + dir, prefix, dir));
    }
    r
}

/// The string at `outer.inner` of `m`, or `default`.
fn nested_str(m: &JsonValue, outer: &str, inner: &str, default: &str) -> (r: String)
    ensures
        r@ == nested_str_or(m@, outer@, inner@, default@),
{
    match m.get(outer) {
        Some(o) => o.str_field_or(inner, default),
        None => default.to_owned(),
    }
}

impl ServiceConfig {
    /// A configuration for the service that `manifest` describes, on
    /// `http_port`.
    pub fn from_manifest_json(manifest: JsonValue, http_port: u16) -> (r: ServiceConfig)
        ensures
            r@ == config_from_manifest(manifest@, http_port),
            r.udp_port == DISCOVERY_PORT,
            r.announce_on_startup,
            r.announce_interval == 30,
            r.priority == 1,
            r.tags@.len() == 0,
            r.http_port == http_port,
    {
        let service_name = nested_str(&manifest, "meta", "name", "Unknown");
        let service_id = nested_str(&manifest, "meta", "service_id", "unknown");
        let manifest_path = nested_str(&manifest, "endpoints", "invoke", "/ai_manifest");
        let r = ServiceConfig {
            service_name,
            service_id,
            http_port,
            manifest_path,
            tags: Vec::new(),
            priority: 1,
            udp_port: DISCOVERY_PORT,
            announce_on_startup: true,
            announce_interval: 30,
            manifest_data: manifest,
        };
        assert(string_views(r.tags@) =~= Seq::<Seq<char>>::empty());
        r
    }

    /// The configuration for the `.echo` file in the directory named
    /// `dir_name`: the manifest's when there is one, else one named after the
    /// port and identified by the directory name (or `unknown`) and the port.
    pub fn from_echo_dir(dir_name: Option<&str>, manifest: Option<JsonValue>, http_port: u16) -> (r: ServiceConfig)
        ensures
            manifest matches Some(m) ==> r@ == config_from_manifest(m@, http_port),
            manifest is None ==> r@ == config_from_dir(
                match dir_name {
                    Some(d) => Some(d@),
                    None => None,
                },
                http_port,
            ),
            r.udp_port == DISCOVERY_PORT,
            r.announce_on_startup,
            r.announce_interval == 30,
            r.priority == 1,
            r.tags@.len() == 0,
            r.http_port == http_port,
            manifest is None ==> r.manifest_data@ == JsonModel::Object(Seq::empty()),
            manifest is None ==> r.manifest_path@ == "/ai_manifest"@,
    {
        if let Some(m) = manifest {
            return Self::from_manifest_json(m, http_port);
        }
        let port = decimal_chars(http_port as u64);
        let mut name = chars_of("Service on port ");
        append_chars(&mut name, &port);
        let mut id = match dir_name {
            Some(d) => chars_of(d),
            None => chars_of("unknown"),
        };
        let dash = chars_of("-");
        append_chars(&mut id, &dash);
        append_chars(&mut id, &port);
        let empty: Vec<(String, JsonValue)> = Vec::new();
        let r = ServiceConfig {
            service_name: string_of(name.as_slice()),
            service_id: string_of(id.as_slice()),
            http_port,
            manifest_path: "/ai_manifest".to_owned(),
            tags: Vec::new(),
            priority: 1,
            udp_port: DISCOVERY_PORT,
            announce_on_startup: true,
            announce_interval: 30,
            manifest_data: JsonValue::Object(empty),
        };
        assert(string_views(r.tags@) =~= Seq::<Seq<char>>::empty());
        assert(members_model(empty@) =~= Seq::<(Seq<char>, JsonModel)>::empty());
        r
    }

    /// The configuration for the `.echo` file at `echo_path`: the manifest's
    /// when there is one, else one named after the port and identified by the
    /// name of the directory that holds the file and the port. For a path like
    /// `/srv/pdf/.echo` (plain names separated by single `/`) that directory
    /// name is `pdf`; a file given by its name alone, or directly under the
    /// root, gives `unknown`.
    pub fn from_echo(echo_path: &str, manifest: Option<JsonValue>, http_port: u16) -> (r: ServiceConfig)
        ensures
            manifest matches Some(m) ==> r@ == config_from_manifest(m@, http_port),
            manifest is None ==> exists|dir: Option<Seq<char>>| r@ == #[trigger] config_from_dir(dir, http_port),
            manifest is None ==> forall|prefix: Seq<char>, dir: Seq<char>, file: Seq<char>|
                #[trigger] dir_and_file(echo_path@, prefix, dir, file) ==> r@ == config_from_dir(Some(dir), http_port),
            manifest is None && has_no_dir_name(echo_path@) ==> r@ == config_from_dir(None, http_port),
            r.udp_port == DISCOVERY_PORT,
            r.announce_on_startup,
            r.announce_interval == 30,
            r.priority == 1,
            r.tags@.len() == 0,
            r.http_port == http_port,
            manifest is None ==> r.manifest_data@ == JsonModel::Object(Seq::empty()),
            manifest is None ==> r.manifest_path@ == "/ai_manifest"@,
    {
        let dir = dir_name_of(echo_path);
        let r = match &dir {
            Some(d) => Self::from_echo_dir(Some(d.as_str()), manifest, http_port),
            None => Self::from_echo_dir(None, manifest, http_port),
        };
        proof {
            if manifest is None {
                let w: Option<Seq<char>> = match dir {
                    Some(d) => Some(d@),
                    None => None,
                };
                assert(r@ == config_from_dir(w, http_port));
            }
        }
        r
    }

    /// `http://localhost:{http_port}`.
    pub fn base_url(&self) -> (r: String)
        ensures
            r@ == http_base_url("localhost"@, self.http_port),
    {
        make_base_url("localhost", self.http_port)
    }

    /// The base URL followed by the manifest path.
    pub fn manifest_url(&self) -> (r: String)
        ensures
            r@ == http_base_url("localhost"@, self.http_port) + self.manifest_path@,
    {
        let base = self.base_url();
        join_url(base.as_str(), self.manifest_path.as_str())
    }

    /// A configuration with the given name, id and port and the defaults for
    /// the rest, with an empty manifest.
    pub fn new(service_name: &str, service_id: &str, http_port: u16) -> (r: ServiceConfig)
        ensures
            r@ == config_with_defaults(service_name@, service_id@, http_port, "/ai_manifest"@, empty_object()),
            r.service_name@ == service_name@,
            r.service_id@ == service_id@,
            r.udp_port == DISCOVERY_PORT,
            r.announce_on_startup,
            r.announce_interval == 30,
            r.priority == 1,
            r.tags@.len() == 0,
            r.http_port == http_port,
            r.manifest_path@ == "/ai_manifest"@,
            r.manifest_data@ == JsonModel::Object(Seq::empty()),
    {
        let empty: Vec<(String, JsonValue)> = Vec::new();
        let r = ServiceConfig {
            service_name: service_name.to_owned(),
            service_id: service_id.to_owned(),
            http_port,
            manifest_path: "/ai_manifest".to_owned(),
            tags: Vec::new(),
            priority: 1,
            udp_port: DISCOVERY_PORT,
            announce_on_startup: true,
            announce_interval: 30,
            manifest_data: JsonValue::Object(empty),
        };
        assert(string_views(r.tags@) =~= Seq::<Seq<char>>::empty());
        assert(members_model(empty@) =~= Seq::<(Seq<char>, JsonModel)>::empty());
        r
    }
}

impl Default for ServiceConfig {
    /// `ServiceConfig::new("Unknown Service", "unknown-001", 8080)`.
    fn default() -> (r: ServiceConfig)
        ensures
            r@ == config_with_defaults(
                "Unknown Service"@,
                "unknown-001"@,
                8080,
                "/ai_manifest"@,
                empty_object(),
            ),
    {
        ServiceConfig::new("Unknown Service", "unknown-001", 8080)
    }
}

/// The service entries of an agent configuration document: the elements of
/// its `services` array when it has one, else the document itself.
pub open spec fn service_entries_model(doc: JsonModel) -> Seq<JsonModel> {
    match get_field(doc, "services"@) {
        Some(JsonModel::Array(items)) => items,
        _ => seq![doc],
    }
}

/// The service entries of an agent configuration document: the elements of
/// its `services` array, or the document itself when it configures a single
/// service.
pub fn service_entries(doc: &JsonValue) -> (r: Vec<JsonValue>)
    ensures
        items_model(r@) == service_entries_model(doc@),
{
    let mut r: Vec<JsonValue> = Vec::new();
    match doc.get("services") {
        Some(JsonValue::Array(items)) => {
            let mut i: usize = 0;
            while i < items.len()
                invariant
                    i <= items@.len(),
                    r@.len() == i,
                    forall|j: int| 0 <= j < i ==> #[trigger] r@[j]@ == items@[j]@,
                decreases items@.len() - i,
            {
                r.push(items[i].copy());
                i = i + 1;
            }
            proof {
                lemma_items_model(r@);
                lemma_items_model(items@);
                assert forall|j: int| 0 <= j < r@.len() implies #[trigger] items_model(r@)[j] == items_model(items@)[j] by {
                    assert(r@[j]@ == items@[j]@);
                }
                assert(items_model(r@) =~= items_model(items@));
            }
        },
        _ => {
            r.push(doc.copy());
            proof {
                lemma_items_model(r@);
                assert(items_model(r@) =~= seq![doc@]);
            }
        },
    }
    r
}

/// The content of a `.echo` file: the port of the service in its directory,
/// and whether it is enabled.
pub struct EchoConfig {
    /// HTTP service port.
    pub port: u16,
    /// Whether the service is enabled.
    pub enable: bool,
}

impl Default for EchoConfig {
    /// Port 8080, enabled.
    fn default() -> (r: EchoConfig)
        ensures
            r.port == 8080,
            r.enable,
    {
        EchoConfig { port: 8080, enable: true }
    }
}

/// Why a `.echo` file could not be read.
pub enum ConfigError {
    FileNotFound(String),
    IoError(String),
    ParseError(String),
}

/// The text of `ConfigError::message`.
pub open spec fn config_error_text(e: ConfigError) -> Seq<char> {
    match e {
        ConfigError::FileNotFound(s) => "File not found: "@ + s@,
        ConfigError::IoError(s) => "IO error: "@ + s@,
        ConfigError::ParseError(s) => "Parse error: "@ + s@,
    }
}

impl ConfigError {
    /// The human-readable text of the error.
    pub fn message(&self) -> (r: String)
        ensures
            r@ == config_error_text(*self),
    {
        let (mut head, detail) = match self {
            ConfigError::FileNotFound(s) => (chars_of("File not found: "), s),
            ConfigError::IoError(s) => (chars_of("IO error: "), s),
            ConfigError::ParseError(s) => (chars_of("Parse error: "), s),
        };
        let tail = chars_of(detail.as_str());
        append_chars(&mut head, &tail);
        string_of(head.as_slice())
    }
}

} // verus!
