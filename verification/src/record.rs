//! The log record: the flat unit that is serialized once per event.

use crate::json::{
    json_map_insert, json_map_new, json_null, json_object, json_string, json_u64, json_view, Json,
};
use vstd::prelude::*;

verus! {

/// One log record.
pub struct LogMessage {
    pub from_service: u8,
    pub level: String,
    pub timestamp: String,
    pub target_simple: String,
    pub target: String,
    pub file: Option<String>,
    pub line: Option<u32>,
    pub thread_id: String,
    pub thread_name: String,
    pub root_span_simple: String,
    pub root_span: String,
    pub root_span_id: u64,
    pub current_span_simple: String,
    pub current_span: String,
    pub current_span_id: u64,
    pub message: String,
    pub fields: serde_json::Value,
    pub context: serde_json::Value,
}

/// A log record as a mathematical value.
pub struct LogRecord {
    pub from_service: u8,
    pub level: Seq<char>,
    pub timestamp: Seq<char>,
    pub target_simple: Seq<char>,
    pub target: Seq<char>,
    pub file: Option<Seq<char>>,
    pub line: Option<u32>,
    pub thread_id: Seq<char>,
    pub thread_name: Seq<char>,
    pub root_span_simple: Seq<char>,
    pub root_span: Seq<char>,
    pub root_span_id: u64,
    pub current_span_simple: Seq<char>,
    pub current_span: Seq<char>,
    pub current_span_id: u64,
    pub message: Seq<char>,
    pub fields: Json,
    pub context: Json,
}

/// A text that may be absent, as JSON: `null` where it is absent.
pub open spec fn optional_text_json(text: Option<Seq<char>>) -> Json {
    match text {
        Some(t) => Json::Text(t),
        None => Json::Null,
    }
}

/// A number that may be absent, as JSON: `null` where it is absent.
pub open spec fn optional_number_json(number: Option<u32>) -> Json {
    match number {
        Some(n) => Json::Integer(n as int),
        None => Json::Null,
    }
}

impl LogRecord {
    /// The members of the JSON object a record is written as.
    pub open spec fn members(self) -> Map<Seq<char>, Json> {
        Map::<Seq<char>, Json>::empty().insert(
            "from_service"@,
            Json::Integer(self.from_service as int),
        ).insert("level"@, Json::Text(self.level)).insert(
            "timestamp"@,
            Json::Text(self.timestamp),
        ).insert("target_simple"@, Json::Text(self.target_simple)).insert(
            "target"@,
            Json::Text(self.target),
        ).insert("file"@, optional_text_json(self.file)).insert(
            "line"@,
            optional_number_json(self.line),
        ).insert("thread_id"@, Json::Text(self.thread_id)).insert(
            "thread_name"@,
            Json::Text(self.thread_name),
        ).insert("root_span_simple"@, Json::Text(self.root_span_simple)).insert(
            "root_span"@,
            Json::Text(self.root_span),
        ).insert("root_span_id"@, Json::Integer(self.root_span_id as int)).insert(
            "current_span_simple"@,
            Json::Text(self.current_span_simple),
        ).insert("current_span"@, Json::Text(self.current_span)).insert(
            "current_span_id"@,
            Json::Integer(self.current_span_id as int),
        ).insert("message"@, Json::Text(self.message)).insert("fields"@, self.fields).insert(
            "context"@,
            self.context,
        )
    }

    /// The JSON document a record is written as.
    pub open spec fn json(self) -> Json {
        Json::Object(self.members())
    }
}

impl View for LogMessage {
    type V = LogRecord;

    open spec fn view(&self) -> LogRecord {
        LogRecord {
            from_service: self.from_service,
            level: self.level@,
            timestamp: self.timestamp@,
            target_simple: self.target_simple@,
            target: self.target@,
            file: match self.file {
                Some(f) => Some(f@),
                None => None,
            },
            line: self.line,
            thread_id: self.thread_id@,
            thread_name: self.thread_name@,
            root_span_simple: self.root_span_simple@,
            root_span: self.root_span@,
            root_span_id: self.root_span_id,
            current_span_simple: self.current_span_simple@,
            current_span: self.current_span@,
            current_span_id: self.current_span_id,
            message: self.message@,
            fields: json_view(self.fields),
            context: json_view(self.context),
        }
    }
}

impl LogMessage {
    /// Turns the record into the JSON object it is written as.
    pub fn into_json(self) -> (value: serde_json::Value)
        ensures
            json_view(value) == self@.json(),
    {
        let mut members = json_map_new();
        json_map_insert(&mut members, "from_service".to_owned(), json_u64(self.from_service as u64));
        json_map_insert(&mut members, "level".to_owned(), json_string(self.level));
        json_map_insert(&mut members, "timestamp".to_owned(), json_string(self.timestamp));
        json_map_insert(&mut members, "target_simple".to_owned(), json_string(self.target_simple));
        json_map_insert(&mut members, "target".to_owned(), json_string(self.target));
        let file = match self.file {
            Some(f) => json_string(f),
            None => json_null(),
        };
        json_map_insert(&mut members, "file".to_owned(), file);
        let line = match self.line {
            Some(n) => json_u64(n as u64),
            None => json_null(),
        };
        json_map_insert(&mut members, "line".to_owned(), line);
        json_map_insert(&mut members, "thread_id".to_owned(), json_string(self.thread_id));
        json_map_insert(&mut members, "thread_name".to_owned(), json_string(self.thread_name));
        json_map_insert(
            &mut members,
            "root_span_simple".to_owned(),
            json_string(self.root_span_simple),
        );
        json_map_insert(&mut members, "root_span".to_owned(), json_string(self.root_span));
        json_map_insert(&mut members, "root_span_id".to_owned(), json_u64(self.root_span_id));
        json_map_insert(
            &mut members,
            "current_span_simple".to_owned(),
            json_string(self.current_span_simple),
        );
        json_map_insert(&mut members, "current_span".to_owned(), json_string(self.current_span));
        json_map_insert(&mut members, "current_span_id".to_owned(), json_u64(self.current_span_id));
        json_map_insert(&mut members, "message".to_owned(), json_string(self.message));
        json_map_insert(&mut members, "fields".to_owned(), self.fields);
        json_map_insert(&mut members, "context".to_owned(), self.context);
        json_object(members)
    }
}

/// The names of the members of a record differ from one another, so that each
/// member of the JSON object holds what its name says: no member is lost to
/// another.
pub proof fn lemma_record_members(record: LogRecord)
    ensures
        record.json() is Object,
        record.members().dom().finite(),
        record.members().dom().len() == 18,
        record.members()["from_service"@] == Json::Integer(record.from_service as int),
        record.members()["level"@] == Json::Text(record.level),
        record.members()["timestamp"@] == Json::Text(record.timestamp),
        record.members()["target_simple"@] == Json::Text(record.target_simple),
        record.members()["target"@] == Json::Text(record.target),
        record.members()["file"@] == optional_text_json(record.file),
        record.members()["line"@] == optional_number_json(record.line),
        record.members()["thread_id"@] == Json::Text(record.thread_id),
        record.members()["thread_name"@] == Json::Text(record.thread_name),
        record.members()["root_span_simple"@] == Json::Text(record.root_span_simple),
        record.members()["root_span"@] == Json::Text(record.root_span),
        record.members()["root_span_id"@] == Json::Integer(record.root_span_id as int),
        record.members()["current_span_simple"@] == Json::Text(record.current_span_simple),
        record.members()["current_span"@] == Json::Text(record.current_span),
        record.members()["current_span_id"@] == Json::Integer(record.current_span_id as int),
        record.members()["message"@] == Json::Text(record.message),
        record.members()["fields"@] == record.fields,
        record.members()["context"@] == record.context,
{
    reveal_strlit("from_service");
    reveal_strlit("level");
    reveal_strlit("timestamp");
    reveal_strlit("target_simple");
    reveal_strlit("target");
    reveal_strlit("file");
    reveal_strlit("line");
    reveal_strlit("thread_id");
    reveal_strlit("thread_name");
    reveal_strlit("root_span_simple");
    reveal_strlit("root_span");
    reveal_strlit("root_span_id");
    reveal_strlit("current_span_simple");
    reveal_strlit("current_span");
    reveal_strlit("current_span_id");
    reveal_strlit("message");
    reveal_strlit("fields");
    reveal_strlit("context");
    // texts of one length differ in a character
    assert("line"@[0] != "file"@[0]);
    assert("fields"@[0] != "target"@[0]);
    assert("message"@[0] != "context"@[0]);
    assert("timestamp"@[1] != "thread_id"@[1]);
    assert("timestamp"@[0] != "root_span"@[0]);
    assert("thread_id"@[0] != "root_span"@[0]);
    assert("from_service"@[0] != "root_span_id"@[0]);
    assert("from_service"@[0] != "current_span"@[0]);
    assert("root_span_id"@[0] != "current_span"@[0]);
    let names = seq![
        "from_service"@,
        "level"@,
        "timestamp"@,
        "target_simple"@,
        "target"@,
        "file"@,
        "line"@,
        "thread_id"@,
        "thread_name"@,
        "root_span_simple"@,
        "root_span"@,
        "root_span_id"@,
        "current_span_simple"@,
        "current_span"@,
        "current_span_id"@,
        "message"@,
        "fields"@,
        "context"@,
    ];
    assert forall|i: int, j: int| 0 <= i < j < 18 implies #[trigger] names[i] != #[trigger] names[j] by {
        assert(names[i].len() != names[j].len() || names[i][0] != names[j][0] || names[i][1]
            != names[j][1]);
    }
    assert(names[0] == "from_service"@);
    assert(names[1] == "level"@);
    assert(names[2] == "timestamp"@);
    assert(names[3] == "target_simple"@);
    assert(names[4] == "target"@);
    assert(names[5] == "file"@);
    assert(names[6] == "line"@);
    assert(names[7] == "thread_id"@);
    assert(names[8] == "thread_name"@);
    assert(names[9] == "root_span_simple"@);
    assert(names[10] == "root_span"@);
    assert(names[11] == "root_span_id"@);
    assert(names[12] == "current_span_simple"@);
    assert(names[13] == "current_span"@);
    assert(names[14] == "current_span_id"@);
    assert(names[15] == "message"@);
    assert(names[16] == "fields"@);
    assert(names[17] == "context"@);
    let keys = names.to_set();
    assert(names.no_duplicates());
    names.unique_seq_to_set();
    assert(record.members().dom() =~= keys);
}

} // verus!
