//! The settings the service reads at start-up, and what is derived from them
//! alone: bind addresses, the telemetry resource, the configuration file of an
//! environment.

use vstd::prelude::*;
use vstd::string::*;
use crate::text::{decimal, push_decimal, same_text};

verus! {

/// Everything the service is started with.
#[derive(Clone, Debug)]
pub struct Settings {
    pub application: ApplicationSettings,
    pub http: HttpSettings,
    pub otel: OpenTelemetrySettings,
    pub prometheus: PrometheusSettings,
    pub env: Environment,
}

/// Where the application listener binds and how it treats requests.
#[derive(Clone, Debug)]
pub struct HttpSettings {
    pub port: u16,
    pub host: String,
    /// Path under which the application routes are mounted.
    pub prefix: String,
    /// Seconds granted to a request, and to the reading of its body.
    pub timeout: u64,
}

#[derive(Clone, Debug)]
pub struct ApplicationSettings {
    pub name: String,
    pub version: String,
}

#[derive(Clone, Debug)]
pub struct OpenTelemetrySettings {
    /// Collector that receives spans and log records when `enable` is set.
    pub endpoint: String,
    pub enable: bool,
}

/// Where the metrics listener binds and under which path it answers.
#[derive(Clone, Debug)]
pub struct PrometheusSettings {
    pub port: u16,
    pub path: String,
}

/// Static attributes attached to every span and log record.
#[derive(Clone, Debug)]
pub struct Resource {
    pub attributes: Vec<(String, String)>,
}

impl View for Resource {
    type V = Seq<(Seq<char>, Seq<char>)>;

    open spec fn view(&self) -> Seq<(Seq<char>, Seq<char>)> {
        self.attributes.deep_view()
    }
}

/// The attributes that describe an application: its name, then its version.
pub open spec fn service_attributes(application: ApplicationSettings) -> Seq<(Seq<char>, Seq<char>)> {
    seq![
        ("service.name"@, application.name@),
        ("service.version"@, application.version@),
    ]
}

/// `resource::SERVICE_NAME` of `opentelemetry_semantic_conventions`: the
/// attribute key under which a service is named.
#[verifier::external_body]
fn service_name_key() -> (key: &'static str)
    ensures
        key@ == "service.name"@,
{
    opentelemetry_semantic_conventions::resource::SERVICE_NAME
}

/// `resource::SERVICE_VERSION` of `opentelemetry_semantic_conventions`: the
/// attribute key under which the version of a service is given.
#[verifier::external_body]
fn service_version_key() -> (key: &'static str)
    ensures
        key@ == "service.version"@,
{
    opentelemetry_semantic_conventions::resource::SERVICE_VERSION
}

impl Settings {
    /// The resource that identifies this service in traces and logs.
    pub fn get_resource(&self) -> (resource: Resource)
        ensures
            resource@ == service_attributes(self.application),
    {
        let mut attributes: Vec<(String, String)> = Vec::new();
        attributes.push((String::from_str(service_name_key()), self.application.name.clone()));
        attributes.push(
            (String::from_str(service_version_key()), self.application.version.clone()),
        );
        let resource = Resource { attributes };
        assert(resource@ =~= service_attributes(self.application));
        resource
    }
}

/// Host and port joined as a socket address is written.
pub open spec fn socket_address(host: Seq<char>, port: u16) -> Seq<char> {
    host + ":"@ + decimal(port as nat)
}

impl HttpSettings {
    /// The address the application listener binds, `host:port`.
    pub fn address(&self) -> (address: String)
        ensures
            address@ == socket_address(self.host@, self.port),
    {
        let mut address = self.host.clone();
        address.append(":");
        push_decimal(&mut address, self.port as u64);
        address
    }
}

impl PrometheusSettings {
    /// The address the metrics listener binds: every interface, on `port`.
    pub fn address(&self) -> (address: String)
        ensures
            address@ == socket_address("0.0.0.0"@, self.port),
    {
        let mut address = String::from_str("0.0.0.0");
        address.append(":");
        push_decimal(&mut address, self.port as u64);
        address
    }
}

/// The possible runtime environment for our application.
#[derive(Clone, Copy, Debug, PartialEq, Eq, Structural)]
pub enum Environment {
    Local,
    Production,
}

/// What Unicode gives as the lowercase of a text.
pub uninterp spec fn lowercase(text: Seq<char>) -> Seq<char>;

/// `str::to_lowercase` of std: the returned string is the lowercase of the
/// argument, a function of its characters alone.
pub assume_specification[ str::to_lowercase ](text: &str) -> (lowered: String)
    ensures
        lowered@ == lowercase(text@),
;

/// The complaint about a name that is no environment.
pub open spec fn unsupported_environment(name: Seq<char>) -> Seq<char> {
    name + " is not a supported environment. Use either `local` or `production`."@
}

impl Environment {
    /// The name of the environment as configuration spells it.
    pub open spec fn name(self) -> Seq<char> {
        match self {
            Environment::Local => "local"@,
            Environment::Production => "production"@,
        }
    }

    /// The environment that `name` spells, exactly as written.
    pub open spec fn named(name: Seq<char>) -> Option<Environment> {
        if name == "local"@ {
            Some(Environment::Local)
        } else if name == "production"@ {
            Some(Environment::Production)
        } else {
            None
        }
    }

    pub fn as_str(&self) -> (name: &'static str)
        ensures
            name@ == self.name(),
    {
        match self {
            Environment::Local => "local",
            Environment::Production => "production",
        }
    }

    /// The environment that `name` spells, or the complaint about `name`.
    pub fn from_name(name: &str) -> (parsed: Result<Environment, String>)
        ensures
            match Environment::named(name@) {
                Some(environment) => parsed == Ok::<Environment, String>(environment),
                None => parsed is Err && parsed->Err_0@ == unsupported_environment(name@),
            },
    {
        if same_text(name, "local") {
            Ok(Environment::Local)
        } else if same_text(name, "production") {
            Ok(Environment::Production)
        } else {
            let mut complaint = String::from_str(name);
            complaint.append(" is not a supported environment. Use either `local` or `production`.");
            Err(complaint)
        }
    }

    /// Reads an environment whatever the case of its letters.
    pub fn try_from(s: String) -> (parsed: Result<Environment, String>)
        ensures
            match Environment::named(lowercase(s@)) {
                Some(environment) => parsed == Ok::<Environment, String>(environment),
                None => parsed is Err && parsed->Err_0@ == unsupported_environment(lowercase(s@)),
            },
    {
        let lowered = s.as_str().to_lowercase();
        Environment::from_name(lowered.as_str())
    }

    /// The configuration file that holds the overrides of this environment.
    pub fn file_name(&self) -> (file: String)
        ensures
            file@ == self.name() + ".yaml"@,
    {
        let mut file = String::from_str(self.as_str());
        file.append(".yaml");
        file
    }
}

/// No two environments share a name, and each is read back from its own.
pub proof fn lemma_environment_names(environment: Environment)
    ensures
        Environment::named(environment.name()) == Some(environment),
{
    reveal_strlit("local");
    reveal_strlit("production");
    assert("local"@.len() != "production"@.len());
}

} // verus!
