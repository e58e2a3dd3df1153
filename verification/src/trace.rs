//! Tracing set-up: the output formats a service can choose from, the selection
//! of the one format that stays fixed for the life of the process, and what
//! names requests and the spans made for them.

use crate::environment::EnvironmentConfig;
use crate::formatter::JsonFormatter;
use vstd::prelude::*;
use vstd::string::StringExecFns;

verus! {

/// The output formats.
#[derive(Clone, Debug)]
pub enum TracingFormat {
    Disabled,
    Hierarchical,
    Pretty,
    Json,
    JsonPretty,
}

/// The tracing settings.
#[derive(Debug, Clone)]
pub struct TracingConfig {
    pub disable_opentelemetry: bool,
    pub opentelemetry_endpoint: String,
    pub log_level: String,
    pub format: TracingFormat,
}

/// The tracing feature of a service.
#[derive(Debug)]
pub struct Tracing;

/// How the human-readable renderer is set up.
#[derive(Clone, Copy, Debug, PartialEq, Eq, Structural)]
pub struct PrettyOptions {
    pub thread_ids: bool,
    pub thread_names: bool,
    pub target: bool,
    pub file: bool,
    pub line_number: bool,
    pub ansi: bool,
}

/// How the renderer that indents spans as a tree is set up.
#[derive(Clone, Copy, Debug, PartialEq, Eq, Structural)]
pub struct HierarchicalOptions {
    pub indent: usize,
    pub targets: bool,
    pub bracketed_fields: bool,
    pub ansi: bool,
}

/// The output strategy of a process. Exactly one is selected at start-up.
pub enum FormatLayer {
    /// No formatter is attached.
    Disabled,
    /// Spans and events are rendered as an indented tree.
    Hierarchical(HierarchicalOptions),
    /// Events are rendered for a reader at a terminal.
    Pretty(PrettyOptions),
    /// Events are rendered as JSON records, one per line or indented.
    Structured(JsonFormatter),
}

/// Where spans are exported to.
pub struct TelemetryOptions {
    pub endpoint: String,
    pub service_name: String,
    pub tracked_inactivity: bool,
}

/// Everything the set-up of tracing has decided.
pub struct TracingSetup {
    /// The filter directive for the log level.
    pub log_level: String,
    /// The export of spans, `None` where it is switched off.
    pub telemetry: Option<TelemetryOptions>,
    /// The output strategy.
    pub format: FormatLayer,
}

impl TracingFormat {
    /// Whether `layer` is the output strategy this format selects for the
    /// service `service_name`, with color unless `no_color` is set.
    pub open spec fn selects(&self, service_name: Seq<char>, no_color: bool, layer: FormatLayer) -> bool {
        match self {
            TracingFormat::Disabled => layer is Disabled,
            TracingFormat::Hierarchical => layer == FormatLayer::Hierarchical(
                HierarchicalOptions {
                    indent: 2,
                    targets: true,
                    bracketed_fields: true,
                    ansi: !no_color,
                },
            ),
            TracingFormat::Pretty => layer == FormatLayer::Pretty(
                PrettyOptions {
                    thread_ids: true,
                    thread_names: true,
                    target: true,
                    file: true,
                    line_number: true,
                    ansi: !no_color,
                },
            ),
            TracingFormat::Json => layer matches FormatLayer::Structured(formatter)
                && formatter.service_name@ == service_name && !formatter.pretty,
            TracingFormat::JsonPretty => layer matches FormatLayer::Structured(formatter)
                && formatter.service_name@ == service_name && formatter.pretty,
        }
    }

    /// Selects the output strategy.
    pub fn layer(&self, service_name: &str, no_color: bool) -> (layer: FormatLayer)
        ensures
            self.selects(service_name@, no_color, layer),
    {
        match self {
            TracingFormat::Disabled => FormatLayer::Disabled,
            TracingFormat::Hierarchical => FormatLayer::Hierarchical(
                HierarchicalOptions {
                    indent: 2,
                    targets: true,
                    bracketed_fields: true,
                    ansi: !no_color,
                },
            ),
            TracingFormat::Pretty => FormatLayer::Pretty(
                PrettyOptions {
                    thread_ids: true,
                    thread_names: true,
                    target: true,
                    file: true,
                    line_number: true,
                    ansi: !no_color,
                },
            ),
            TracingFormat::Json => FormatLayer::Structured(
                JsonFormatter::new(service_name.to_owned(), false),
            ),
            TracingFormat::JsonPretty => FormatLayer::Structured(
                JsonFormatter::new(service_name.to_owned(), true),
            ),
        }
    }
}

impl Tracing {
    /// Decides how tracing is set up for the service `service_name`: the log
    /// level is the configured one, spans are exported to the configured
    /// endpoint unless the export is switched off, and the output strategy is
    /// the one the configured format selects.
    pub fn setup(service_name: &str, config: &EnvironmentConfig) -> (setup: TracingSetup)
        ensures
            setup.log_level@ == config.tracing.log_level@,
            setup.telemetry is None <==> config.tracing.disable_opentelemetry,
            setup.telemetry matches Some(telemetry) ==> {
                &&& telemetry.endpoint@ == config.tracing.opentelemetry_endpoint@
                &&& telemetry.service_name@ == service_name@
                &&& !telemetry.tracked_inactivity
            },
            config.tracing.format.selects(service_name@, config.core.no_color, setup.format),
    {
        let telemetry = if config.tracing.disable_opentelemetry {
            None
        } else {
            Some(
                TelemetryOptions {
                    endpoint: config.tracing.opentelemetry_endpoint.clone(),
                    service_name: service_name.to_owned(),
                    tracked_inactivity: false,
                },
            )
        };
        TracingSetup {
            log_level: config.tracing.log_level.clone(),
            telemetry,
            format: config.tracing.format.layer(service_name, config.core.no_color),
        }
    }
}

/// Names the span of a request after its method and route.
#[derive(Clone, Copy, Debug)]
pub struct MakeSpanWithContext;

/// The route of a request: the matched path where the router has matched one,
/// else the path of the original URI where the request was nested, else the
/// path of the request's own URI.
pub open spec fn route_of(
    matched_path: Option<Seq<char>>,
    original_path: Option<Seq<char>>,
    uri_path: Seq<char>,
) -> Seq<char> {
    match matched_path {
        Some(path) => path,
        None => match original_path {
            Some(path) => path,
            None => uri_path,
        },
    }
}

/// The name of the span of a request: method, one space, route.
pub open spec fn span_name_of(method: Seq<char>, route: Seq<char>) -> Seq<char> {
    method + seq![' '] + route
}

/// A text that may be absent, as a mathematical value.
pub open spec fn optional_str(text: Option<&str>) -> Option<Seq<char>> {
    match text {
        Some(t) => Some(t@),
        None => None,
    }
}

/// The name of an HTTP method as it enters a span name: the method's own
/// token, for the standard methods and for every extension method alike.
pub fn http_method(method: &str) -> (name: String)
    ensures
        name@ == method@,
{
    method.to_owned()
}

impl MakeSpanWithContext {
    /// The route of a request.
    pub fn route(&self, matched_path: Option<&str>, original_path: Option<&str>, uri_path: &str) -> (route:
        String)
        ensures
            route@ == route_of(optional_str(matched_path), optional_str(original_path), uri_path@),
    {
        match matched_path {
            Some(path) => path.to_owned(),
            None => match original_path {
                Some(path) => path.to_owned(),
                None => uri_path.to_owned(),
            },
        }
    }

    /// The name of the span made for a request.
    pub fn span_name(&self, method: &str, route: &str) -> (name: String)
        ensures
            name@ == span_name_of(method@, route@),
    {
        proof {
            reveal_strlit(" ");
        }
        let name = http_method(method).concat(" ").concat(route);
        assert(name@ =~= span_name_of(method@, route@));
        name
    }
}

/// Gives each request an id: the one it arrived with, or a new random one.
#[derive(Clone, Default)]
pub struct UuidMakeRequestId {}

/// Whether a character is a decimal digit or one of the letters `a` to `f`.
pub open spec fn is_lower_hex(c: char) -> bool {
    ('0' <= c && c <= '9') || ('a' <= c && c <= 'f')
}

/// Whether a text has the shape of a hyphenated UUID in lower case: 36
/// characters, hyphens behind the 8th, 12th, 16th and 20th hexadecimal digit.
pub open spec fn is_uuid_text(text: Seq<char>) -> bool {
    &&& text.len() == 36
    &&& forall|i: int|
        0 <= i < 36 ==> if i == 8 || i == 13 || i == 18 || i == 23 {
            #[trigger] text[i] == '-'
        } else {
            is_lower_hex(text[i])
        }
}

/// Whether a text is a random UUID, version 4 of the RFC 4122 variant: the
/// digit behind the second hyphen is 4, the one behind the third is 8, 9, a or
/// b.
pub open spec fn is_random_uuid_text(text: Seq<char>) -> bool {
    &&& is_uuid_text(text)
    &&& text[14] == '4'
    &&& (text[19] == '8' || text[19] == '9' || text[19] == 'a' || text[19] == 'b')
}

/// `uuid::Uuid::new_v4` followed by the `to_string` that its `Display` gives:
/// some version 4 UUID, picked at random, in its hyphenated lower-case form.
/// Of the random digits nothing is claimed, and two calls need not agree.
#[verifier::external_body]
fn new_uuid_text() -> (text: String)
    ensures
        is_random_uuid_text(text@),
{
    uuid::Uuid::new_v4().to_string()
}

impl UuidMakeRequestId {
    /// The id of a request: the value of its `x-request-id` header where it has
    /// one, a new random UUID where it has none.
    pub fn make_request_id(&mut self, header: Option<String>) -> (id: String)
        ensures
            match header {
                Some(given) => id@ == given@,
                None => is_random_uuid_text(id@),
            },
    {
        match header {
            Some(given) => given,
            None => new_uuid_text(),
        }
    }
}

} // verus!
