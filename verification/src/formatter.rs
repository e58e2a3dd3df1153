//! The structured formatter: it assembles one log record for each event, from
//! the event itself and from the chain of active spans, and renders the record
//! as one line of JSON.

use crate::json::{
    json_as_string, json_compact, json_into_object, json_map_new, json_map_remove, json_object,
    json_pretty, json_to_string, json_to_string_pretty, json_view, Json,
};
use crate::record::{LogMessage, LogRecord};
use crate::span::{
    aggregate, aggregate_of, chain_view, collect_fields, last_wins, selected_event, Aggregate,
    SpanContext, SpanData, SpanView,
};
use crate::text::{last_segment, optional_text, simple_name, starts_with};
use crate::timestamp::Timestamp;
use vstd::prelude::*;
use vstd::string::StringExecFns;

verus! {

/// What the formatter reads of a raw event.
pub struct EventData {
    pub level: String,
    pub target: String,
    pub file: Option<String>,
    pub line: Option<u32>,
    /// The event's own attribute set as a JSON object; `None` where it could
    /// not be turned into JSON.
    pub fields: Option<serde_json::Value>,
}

/// A raw event as a mathematical value.
pub struct EventDataView {
    pub level: Seq<char>,
    pub target: Seq<char>,
    pub file: Option<Seq<char>>,
    pub line: Option<u32>,
    pub fields: Option<Json>,
}

impl View for EventData {
    type V = EventDataView;

    open spec fn view(&self) -> EventDataView {
        EventDataView {
            level: self.level@,
            target: self.target@,
            file: optional_text(self.file),
            line: self.line,
            fields: match self.fields {
                Some(fields) => Some(json_view(fields)),
                None => None,
            },
        }
    }
}

/// The message of a raw event: its `message` attribute where the attribute set
/// is a JSON object and holds a string under that key, empty otherwise.
pub open spec fn event_message(fields: Json) -> Seq<char> {
    match fields {
        Json::Object(members) => if members.dom().contains("message"@) {
            match members["message"@] {
                Json::Text(text) => text,
                _ => Seq::empty(),
            }
        } else {
            Seq::empty()
        },
        _ => Seq::empty(),
    }
}

/// The fields of a raw event: its attribute set without `message`; the empty
/// object where the attribute set is no JSON object.
pub open spec fn event_fields(fields: Json) -> Json {
    match fields {
        Json::Object(members) => Json::Object(members.remove("message"@)),
        _ => Json::Object(Map::empty()),
    }
}

/// A record that may be absent, as a mathematical value.
pub open spec fn optional_record(record: Option<LogMessage>) -> Option<LogRecord> {
    match record {
        Some(message) => Some(message@),
        None => None,
    }
}

/// The structured formatter, configured once with the name of the service that
/// runs it and the style of its output.
pub struct JsonFormatter {
    pub service_name: String,
    pub pretty: bool,
}

impl JsonFormatter {
    /// The service-origin flag of a target: 1 where the target begins with the
    /// service name, 0 otherwise.
    pub open spec fn from_service(&self, target: Seq<char>) -> u8 {
        if self.service_name@.is_prefix_of(target) {
            1
        } else {
            0
        }
    }

    /// The record of an event that is formatted without span context: from the
    /// event alone, the name of the running thread and the rendered time.
    pub open spec fn plain_record(
        &self,
        event: EventDataView,
        thread_name: Seq<char>,
        timestamp: Seq<char>,
    ) -> LogRecord
        recommends
            event.fields is Some,
    {
        LogRecord {
            from_service: self.from_service(event.target),
            level: event.level,
            timestamp,
            target_simple: simple_name(event.target),
            target: event.target,
            file: event.file,
            line: event.line,
            thread_id: Seq::empty(),
            thread_name,
            root_span_simple: Seq::empty(),
            root_span: Seq::empty(),
            root_span_id: 0,
            current_span_simple: Seq::empty(),
            current_span: Seq::empty(),
            current_span_id: 0,
            message: event_message(event.fields.unwrap()),
            fields: event_fields(event.fields.unwrap()),
            context: Json::Object(Map::empty()),
        }
    }

    /// The record of an event that is formatted with the aggregate of a chain.
    pub open spec fn context_record(
        &self,
        event: EventDataView,
        aggregate: Aggregate,
        timestamp: Seq<char>,
    ) -> LogRecord {
        LogRecord {
            from_service: self.from_service(event.target),
            level: event.level,
            timestamp,
            target_simple: simple_name(event.target),
            target: event.target,
            file: event.file,
            line: event.line,
            thread_id: aggregate.thread_id,
            thread_name: aggregate.thread_name,
            root_span_simple: simple_name(aggregate.root_span_name),
            root_span: aggregate.root_span_name,
            root_span_id: aggregate.root_span_id,
            current_span_simple: simple_name(aggregate.current_span_name),
            current_span: aggregate.current_span_name,
            current_span_id: aggregate.current_span_id,
            message: aggregate.event.name,
            fields: Json::Object(last_wins(aggregate.event.attributes)),
            context: Json::Object(aggregate.context),
        }
    }

    /// The record without span context for a given rendered time, `None` where
    /// the event's attribute set is missing.
    pub open spec fn plain_at(
        &self,
        event: EventDataView,
        thread_name: Seq<char>,
        timestamp: Seq<char>,
    ) -> Option<LogRecord> {
        if event.fields is Some {
            Some(self.plain_record(event, thread_name, timestamp))
        } else {
            None
        }
    }

    /// The record without span context, `None` where the event's attribute set
    /// is missing or the time cannot be rendered.
    pub open spec fn plain(&self, event: EventDataView, thread_name: Seq<char>, now: Timestamp) -> Option<
        LogRecord,
    > {
        match now.rendered() {
            Some(timestamp) => self.plain_at(event, thread_name, timestamp),
            None => None,
        }
    }

    /// The record with span context, `None` where the time of the selected
    /// event cannot be rendered.
    pub open spec fn contextual(&self, event: EventDataView, aggregate: Aggregate) -> Option<LogRecord> {
        match aggregate.event.timestamp.rendered() {
            Some(timestamp) => Some(self.context_record(event, aggregate, timestamp)),
            None => None,
        }
    }

    /// The record of an event on a chain: with context where the chain selects
    /// an event, from the raw event alone where it does not.
    pub open spec fn record(
        &self,
        chain: Seq<SpanView>,
        event: EventDataView,
        thread_name: Seq<char>,
        now: Timestamp,
    ) -> Option<LogRecord> {
        if selected_event(chain) is Some {
            self.contextual(event, aggregate_of(chain))
        } else {
            self.plain(event, thread_name, now)
        }
    }

    /// The JSON text of a document in the formatter's style, `None` where it
    /// cannot be serialized.
    pub open spec fn serialized(&self, document: Json) -> Option<Seq<char>> {
        if self.pretty {
            json_pretty(document)
        } else {
            json_compact(document)
        }
    }

    /// The line a record is written as: its JSON text and one newline; `None`
    /// where the record cannot be serialized.
    pub open spec fn line(&self, record: LogRecord) -> Option<Seq<char>> {
        match self.serialized(record.json()) {
            Some(text) => Some(text.push('\n')),
            None => None,
        }
    }

    /// What is written for a record that may be absent: its line, or nothing.
    pub open spec fn written(&self, record: Option<LogRecord>) -> Option<Seq<char>> {
        match record {
            Some(record) => self.line(record),
            None => None,
        }
    }

    /// The line an event on a chain is written as; `None` where nothing is
    /// written.
    pub open spec fn formatted(
        &self,
        chain: Seq<SpanView>,
        event: EventDataView,
        thread_name: Seq<char>,
        now: Timestamp,
    ) -> Option<Seq<char>> {
        self.written(self.record(chain, event, thread_name, now))
    }

    /// A formatter for the service `service_name`, with indented output where
    /// `pretty` is set and single-line output where it is not.
    pub fn new(service_name: String, pretty: bool) -> (formatter: Self)
        ensures
            formatter.service_name == service_name,
            formatter.pretty == pretty,
    {
        Self { service_name, pretty }
    }

    /// The service-origin flag of `target`.
    pub fn parse_from_service(&self, target: &str) -> (flag: u8)
        ensures
            flag == self.from_service(target@),
            flag == 1 <==> self.service_name@.is_prefix_of(target@),
            flag == 0 || flag == 1,
    {
        if starts_with(target, self.service_name.as_str()) {
            1
        } else {
            0
        }
    }

    /// The simple name of a qualified name: what follows its last `::`.
    pub fn parse_simple_name(&self, name: String) -> (simple: String)
        ensures
            simple@ == simple_name(name@),
    {
        last_segment(name.as_str())
    }

    /// Assembles the record of an event without span context, for a time that
    /// has been rendered as `timestamp`: the message is the event's `message`
    /// attribute where that is a string, and the fields are its other
    /// attributes. There is no record where the attribute set is missing.
    pub fn assemble_without_context(
        &self,
        event: EventData,
        thread_name: String,
        timestamp: String,
    ) -> (record: Option<LogMessage>)
        ensures
            optional_record(record) == self.plain_at(event@, thread_name@, timestamp@),
    {
        let EventData { level, target, file, line, fields } = event;
        let fields = match fields {
            Some(fields) => fields,
            None => {
                return None;
            },
        };
        let (message, members) = match json_into_object(fields) {
            Some(mut members) => {
                let message = match json_map_remove(&mut members, "message") {
                    Some(value) => match json_as_string(&value) {
                        Some(text) => text,
                        None => String::new(),
                    },
                    None => String::new(),
                };
                (message, members)
            },
            None => (String::new(), json_map_new()),
        };
        let from_service = self.parse_from_service(target.as_str());
        let target_simple = self.parse_simple_name(target.clone());
        Some(
            LogMessage {
                from_service,
                level,
                timestamp,
                target_simple,
                target,
                file,
                line,
                thread_id: String::new(),
                thread_name,
                root_span_simple: String::new(),
                root_span: String::new(),
                root_span_id: 0,
                current_span_simple: String::new(),
                current_span: String::new(),
                current_span_id: 0,
                message,
                fields: json_object(members),
                context: json_object(json_map_new()),
            },
        )
    }

    /// Assembles the record of an event with the aggregate of its chain, for
    /// the time of the selected event rendered as `timestamp`.
    pub fn assemble_with_context(
        &self,
        event: EventData,
        context: SpanContext<'_>,
        timestamp: String,
    ) -> (record: LogMessage)
        ensures
            record@ == self.context_record(event@, context@, timestamp@),
    {
        let EventData { level, target, file, line, fields: _ } = event;
        let SpanContext {
            context: merged,
            event: selected,
            root_span_id,
            root_span_name,
            current_span_id,
            current_span_name,
            thread_id,
            thread_name,
        } = context;
        let from_service = self.parse_from_service(target.as_str());
        let target_simple = self.parse_simple_name(target.clone());
        let root_span_simple = self.parse_simple_name(root_span_name.clone());
        let current_span_simple = self.parse_simple_name(current_span_name.clone());
        LogMessage {
            from_service,
            level,
            timestamp,
            target_simple,
            target,
            file,
            line,
            thread_id,
            thread_name,
            root_span_simple,
            root_span: root_span_name,
            root_span_id,
            current_span_simple,
            current_span: current_span_name,
            current_span_id,
            message: selected.name.clone(),
            fields: json_object(collect_fields(selected)),
            context: json_object(merged),
        }
    }

    /// Assembles the record of an event without span context, at the time
    /// `now`. There is no record where the time cannot be rendered or the
    /// event's attribute set is missing.
    pub fn record_without_context(&self, event: EventData, thread_name: String, now: Timestamp) -> (record:
        Option<LogMessage>)
        ensures
            optional_record(record) == self.plain(event@, thread_name@, now),
    {
        match now.render() {
            Some(timestamp) => self.assemble_without_context(event, thread_name, timestamp),
            None => None,
        }
    }

    /// Assembles the record of an event with the aggregate of its chain, at
    /// the time of the selected event. There is no record where that time
    /// cannot be rendered.
    pub fn record_with_context(&self, event: EventData, context: SpanContext<'_>) -> (record: Option<
        LogMessage,
    >)
        ensures
            optional_record(record) == self.contextual(event@, context@),
    {
        match context.event.timestamp.render() {
            Some(timestamp) => Some(self.assemble_with_context(event, context, timestamp)),
            None => None,
        }
    }

    /// Ends a serialized record with a newline; a failed serialization yields
    /// no line.
    pub fn line_of(serialized: Result<String, serde_json::Error>) -> (line: Option<String>)
        ensures
            optional_text(line) == match serialized {
                Ok(text) => Some(text@.push('\n')),
                Err(_) => None,
            },
    {
        match serialized {
            Ok(mut text) => {
                proof {
                    reveal_strlit("\n");
                }
                let ghost before = text@;
                text.append("\n");
                assert(text@ =~= before.push('\n'));
                Some(text)
            },
            Err(_) => None,
        }
    }

    /// Renders a record as the line to write. A record that cannot be
    /// serialized yields no line and no error.
    pub fn log(&self, message: LogMessage) -> (line: Option<String>)
        ensures
            optional_text(line) == self.line(message@),
    {
        let document = message.into_json();
        let serialized = if self.pretty {
            json_to_string_pretty(&document)
        } else {
            json_to_string(&document)
        };
        Self::line_of(serialized)
    }

    /// Formats an event without span context.
    pub fn log_without_context(&self, event: EventData, thread_name: String, now: Timestamp) -> (line:
        Option<String>)
        ensures
            optional_text(line) == self.written(self.plain(event@, thread_name@, now)),
    {
        match self.record_without_context(event, thread_name, now) {
            Some(message) => self.log(message),
            None => None,
        }
    }

    /// Formats an event with the aggregate of its chain.
    pub fn log_with_context(&self, event: EventData, context: SpanContext<'_>) -> (line: Option<
        String,
    >)
        ensures
            optional_text(line) == self.written(self.contextual(event@, context@)),
    {
        match self.record_with_context(event, context) {
            Some(message) => self.log(message),
            None => None,
        }
    }

    /// Formats one event: `chain` is the ancestry of the current span from the
    /// root on, empty where no span is active; `thread_name` names the running
    /// thread and `now` is the time of the call, both read only where the chain
    /// selects no event. The result is the line to append to the sink, `None`
    /// where nothing is to be written. There is no other outcome.
    pub fn format_event(
        &self,
        chain: &Vec<SpanData>,
        event: EventData,
        thread_name: String,
        now: Timestamp,
    ) -> (line: Option<String>)
        ensures
            optional_text(line) == self.formatted(chain_view(chain@), event@, thread_name@, now),
    {
        match aggregate(chain) {
            Some(context) => self.log_with_context(event, context),
            None => self.log_without_context(event, thread_name, now),
        }
    }
}

/// An event outside every span is formatted from the event alone: its record
/// names no root span and no current span, carries no thread id, and has an
/// empty context.
pub proof fn lemma_record_without_span(
    formatter: JsonFormatter,
    event: EventDataView,
    thread_name: Seq<char>,
    now: Timestamp,
)
    ensures
        formatter.record(Seq::empty(), event, thread_name, now) == formatter.plain(
            event,
            thread_name,
            now,
        ),
        formatter.record(Seq::empty(), event, thread_name, now) matches Some(record) ==> {
            &&& record.root_span_id == 0
            &&& record.root_span == Seq::<char>::empty()
            &&& record.root_span_simple == Seq::<char>::empty()
            &&& record.current_span_id == 0
            &&& record.current_span == Seq::<char>::empty()
            &&& record.current_span_simple == Seq::<char>::empty()
            &&& record.thread_id == Seq::<char>::empty()
            &&& record.context == Json::Object(Map::empty())
            &&& record.message == event_message(event.fields.unwrap())
            &&& record.fields == event_fields(event.fields.unwrap())
        },
{
}

/// An event on a chain that selects no event is formatted exactly as an event
/// outside every span: the same record, and so the same line.
pub proof fn lemma_record_without_event(
    formatter: JsonFormatter,
    chain: Seq<SpanView>,
    event: EventDataView,
    thread_name: Seq<char>,
    now: Timestamp,
)
    requires
        selected_event(chain) is None,
    ensures
        formatter.record(chain, event, thread_name, now) == formatter.record(
            Seq::empty(),
            event,
            thread_name,
            now,
        ),
        formatter.formatted(chain, event, thread_name, now) == formatter.formatted(
            Seq::empty(),
            event,
            thread_name,
            now,
        ),
{
}

/// An event on a chain that selects an event takes its message, fields and
/// time from the selected event, its context from the whole chain, and its
/// thread from the current span.
pub proof fn lemma_record_with_event(
    formatter: JsonFormatter,
    chain: Seq<SpanView>,
    event: EventDataView,
    thread_name: Seq<char>,
    now: Timestamp,
)
    requires
        selected_event(chain) is Some,
    ensures
        formatter.record(chain, event, thread_name, now) is Some <==> selected_event(
            chain,
        ).unwrap().timestamp.rendered() is Some,
        formatter.record(chain, event, thread_name, now) matches Some(record) ==> {
            &&& record.message == selected_event(chain).unwrap().name
            &&& record.timestamp == selected_event(chain).unwrap().timestamp.rendered().unwrap()
            &&& record.fields == Json::Object(last_wins(selected_event(chain).unwrap().attributes))
            &&& record.context == Json::Object(crate::span::merged_context(chain))
            &&& record.thread_id == crate::span::thread_id(chain)
            &&& record.thread_name == crate::span::thread_name(chain)
            &&& record.current_span == chain.last().name
            &&& record.current_span_id == chain.last().id
            &&& record.current_span_simple == simple_name(chain.last().name)
            &&& record.root_span == crate::span::root_span_name(chain)
            &&& record.root_span_simple == simple_name(crate::span::root_span_name(chain))
            &&& record.root_span_id == crate::span::root_span_id(chain)
        },
{
}

} // verus!
