//! The ancestry chain of active spans, and the aggregation of what the spans of
//! a chain carry: the merged context, the selected event, the identity of the
//! root and of the current span, and the thread the current span runs on.

use crate::attribute::{attributes_view, Attribute, AttributeView};
use crate::json::{json_entries, json_map_contains_key, json_map_insert, json_map_new, Json};
use crate::text::str_eq;
use crate::timestamp::Timestamp;
use vstd::prelude::*;

verus! {

/// An occurrence recorded against a span.
pub struct SpanEvent {
    pub name: String,
    pub timestamp: Timestamp,
    pub attributes: Vec<Attribute>,
}

/// The structured data a span carries where telemetry is attached to it.
pub struct SpanTelemetry {
    pub attributes: Option<Vec<Attribute>>,
    pub events: Option<Vec<SpanEvent>>,
}

/// One active span. A chain of spans is ordered from the root to the current
/// span; the empty chain means that no span is active.
pub struct SpanData {
    pub id: u64,
    pub name: String,
    pub telemetry: Option<SpanTelemetry>,
}

/// An event of a span as a mathematical value.
pub struct SpanEventView {
    pub name: Seq<char>,
    pub timestamp: Timestamp,
    pub attributes: Seq<AttributeView>,
}

/// The telemetry of a span as a mathematical value.
pub struct SpanTelemetryView {
    pub attributes: Option<Seq<AttributeView>>,
    pub events: Option<Seq<SpanEventView>>,
}

/// A span as a mathematical value.
pub struct SpanView {
    pub id: u64,
    pub name: Seq<char>,
    pub telemetry: Option<SpanTelemetryView>,
}

impl View for SpanEvent {
    type V = SpanEventView;

    open spec fn view(&self) -> SpanEventView {
        SpanEventView {
            name: self.name@,
            timestamp: self.timestamp,
            attributes: attributes_view(self.attributes@),
        }
    }
}

/// A list of events as a mathematical value.
pub open spec fn events_view(events: Seq<SpanEvent>) -> Seq<SpanEventView> {
    events.map_values(|event: SpanEvent| event@)
}

impl View for SpanTelemetry {
    type V = SpanTelemetryView;

    open spec fn view(&self) -> SpanTelemetryView {
        SpanTelemetryView {
            attributes: match self.attributes {
                Some(attributes) => Some(attributes_view(attributes@)),
                None => None,
            },
            events: match self.events {
                Some(events) => Some(events_view(events@)),
                None => None,
            },
        }
    }
}

impl View for SpanData {
    type V = SpanView;

    open spec fn view(&self) -> SpanView {
        SpanView {
            id: self.id,
            name: self.name@,
            telemetry: match self.telemetry {
                Some(telemetry) => Some(telemetry@),
                None => None,
            },
        }
    }
}

/// A chain of spans as a mathematical value.
pub open spec fn chain_view(chain: Seq<SpanData>) -> Seq<SpanView> {
    chain.map_values(|span: SpanData| span@)
}

/// The ignore list: the keys that enter neither the merged context nor the
/// fields of a record, whether a span or an event carries them. Call-site file,
/// line and namespace, thread id and thread name each have a field of their own
/// in the record.
pub open spec fn is_ignored(key: Seq<char>) -> bool {
    ||| key == "code.filepath"@
    ||| key == "code.lineno"@
    ||| key == "code.namespace"@
    ||| key == "thread.id"@
    ||| key == "thread.name"@
}

/// The attributes a span contributes: none where it carries no telemetry or no
/// attribute list.
pub open spec fn span_attributes(span: SpanView) -> Seq<AttributeView> {
    match span.telemetry {
        Some(telemetry) => match telemetry.attributes {
            Some(attributes) => attributes,
            None => Seq::empty(),
        },
        None => Seq::empty(),
    }
}

/// All attributes of a chain in the order they are visited: span by span from
/// the root, and within a span in the order they were attached.
pub open spec fn chain_attributes(chain: Seq<SpanView>) -> Seq<AttributeView>
    decreases chain.len(),
{
    if chain.len() == 0 {
        Seq::empty()
    } else {
        chain_attributes(chain.drop_last()) + span_attributes(chain.last())
    }
}

/// The mapping that results from writing the attributes in order, where a key
/// on the ignore list is never written and a key once written is never
/// written again.
pub open spec fn first_wins(attributes: Seq<AttributeView>) -> Map<Seq<char>, Json>
    decreases attributes.len(),
{
    if attributes.len() == 0 {
        Map::empty()
    } else {
        let before = first_wins(attributes.drop_last());
        let last = attributes.last();
        if is_ignored(last.key) || before.dom().contains(last.key) {
            before
        } else {
            before.insert(last.key, last.value.json())
        }
    }
}

/// The mapping that results from writing the attributes in order, where a key
/// on the ignore list is never written and a later write replaces an earlier
/// one.
pub open spec fn last_wins(attributes: Seq<AttributeView>) -> Map<Seq<char>, Json>
    decreases attributes.len(),
{
    if attributes.len() == 0 {
        Map::empty()
    } else {
        let before = last_wins(attributes.drop_last());
        let last = attributes.last();
        if is_ignored(last.key) {
            before
        } else {
            before.insert(last.key, last.value.json())
        }
    }
}

/// The merged context of a chain.
pub open spec fn merged_context(chain: Seq<SpanView>) -> Map<Seq<char>, Json> {
    first_wins(chain_attributes(chain))
}

/// The displayed value of the last attribute under `key`; empty where there is
/// none.
pub open spec fn last_display(attributes: Seq<AttributeView>, key: Seq<char>) -> Seq<char>
    decreases attributes.len(),
{
    if attributes.len() == 0 {
        Seq::empty()
    } else if attributes.last().key == key {
        attributes.last().value.display()
    } else {
        last_display(attributes.drop_last(), key)
    }
}

/// The event a record is about: the last event of the current span. There is
/// none where no span is active, or the current span carries no telemetry or
/// has recorded no event.
pub open spec fn selected_event(chain: Seq<SpanView>) -> Option<SpanEventView> {
    if chain.len() == 0 {
        None
    } else {
        match chain.last().telemetry {
            Some(telemetry) => match telemetry.events {
                Some(events) => if events.len() == 0 {
                    None
                } else {
                    Some(events.last())
                },
                None => None,
            },
            None => None,
        }
    }
}

/// The id of the root span, zero where the root carries no telemetry.
pub open spec fn root_span_id(chain: Seq<SpanView>) -> u64 {
    if chain.len() > 0 && chain[0].telemetry is Some {
        chain[0].id
    } else {
        0
    }
}

/// The name of the root span, empty where the root carries no telemetry.
pub open spec fn root_span_name(chain: Seq<SpanView>) -> Seq<char> {
    if chain.len() > 0 && chain[0].telemetry is Some {
        chain[0].name
    } else {
        Seq::empty()
    }
}

/// The thread id of a chain: the displayed `thread.id` attribute of the
/// current span, and of no other span.
pub open spec fn thread_id(chain: Seq<SpanView>) -> Seq<char> {
    if chain.len() == 0 {
        Seq::empty()
    } else {
        last_display(span_attributes(chain.last()), "thread.id"@)
    }
}

/// The thread name of a chain: the displayed `thread.name` attribute of the
/// current span, and of no other span.
pub open spec fn thread_name(chain: Seq<SpanView>) -> Seq<char> {
    if chain.len() == 0 {
        Seq::empty()
    } else {
        last_display(span_attributes(chain.last()), "thread.name"@)
    }
}

/// What the aggregation of a chain yields where an event is selected, as a
/// mathematical value.
pub struct Aggregate {
    pub context: Map<Seq<char>, Json>,
    pub event: SpanEventView,
    pub root_span_id: u64,
    pub root_span_name: Seq<char>,
    pub current_span_id: u64,
    pub current_span_name: Seq<char>,
    pub thread_id: Seq<char>,
    pub thread_name: Seq<char>,
}

/// The aggregate of a chain that selects an event.
pub open spec fn aggregate_of(chain: Seq<SpanView>) -> Aggregate
    recommends
        selected_event(chain) is Some,
{
    Aggregate {
        context: merged_context(chain),
        event: selected_event(chain).unwrap(),
        root_span_id: root_span_id(chain),
        root_span_name: root_span_name(chain),
        current_span_id: chain.last().id,
        current_span_name: chain.last().name,
        thread_id: thread_id(chain),
        thread_name: thread_name(chain),
    }
}

/// What the aggregation of a chain yields where an event is selected.
pub struct SpanContext<'a> {
    pub context: serde_json::Map<String, serde_json::Value>,
    pub event: &'a SpanEvent,
    pub root_span_id: u64,
    pub root_span_name: String,
    pub current_span_id: u64,
    pub current_span_name: String,
    pub thread_id: String,
    pub thread_name: String,
}

impl<'a> View for SpanContext<'a> {
    type V = Aggregate;

    open spec fn view(&self) -> Aggregate {
        Aggregate {
            context: json_entries(self.context),
            event: self.event@,
            root_span_id: self.root_span_id,
            root_span_name: self.root_span_name@,
            current_span_id: self.current_span_id,
            current_span_name: self.current_span_name@,
            thread_id: self.thread_id@,
            thread_name: self.thread_name@,
        }
    }
}

/// Whether a key is on the ignore list.
pub fn ignores(key: &str) -> (ignored: bool)
    ensures
        ignored == is_ignored(key@),
{
    str_eq(key, "code.filepath") || str_eq(key, "code.lineno") || str_eq(key, "code.namespace")
        || str_eq(key, "thread.id") || str_eq(key, "thread.name")
}

/// Writes the attributes of one span into the context, first write wins.
fn merge_attributes(
    context: &mut serde_json::Map<String, serde_json::Value>,
    attributes: &Vec<Attribute>,
    Ghost(before): Ghost<Seq<AttributeView>>,
)
    requires
        json_entries(*old(context)) == first_wins(before),
    ensures
        json_entries(*final(context)) == first_wins(before + attributes_view(attributes@)),
{
    let ghost all = attributes_view(attributes@);
    let mut j: usize = 0;
    assert(before + all.take(0) =~= before);
    while j < attributes.len()
        invariant
            0 <= j <= attributes.len(),
            all == attributes_view(attributes@),
            json_entries(*context) == first_wins(before + all.take(j as int)),
        decreases attributes.len() - j,
    {
        let attribute = &attributes[j];
        proof {
            let grown = before + all.take(j + 1);
            assert(grown.drop_last() =~= before + all.take(j as int));
            assert(grown.last() == attribute@);
        }
        if !ignores(attribute.key.as_str()) && !json_map_contains_key(
            context,
            attribute.key.as_str(),
        ) {
            json_map_insert(context, attribute.key.clone(), attribute.value.to_json());
        }
        j = j + 1;
    }
    assert(all.take(attributes.len() as int) =~= all);
}

/// The displayed value of the last attribute under `key`, empty where there is
/// none.
fn find_display(attributes: &Vec<Attribute>, key: &str) -> (text: String)
    ensures
        text@ == last_display(attributes_view(attributes@), key@),
{
    let ghost all = attributes_view(attributes@);
    let mut text = String::new();
    let mut j: usize = 0;
    while j < attributes.len()
        invariant
            0 <= j <= attributes.len(),
            all == attributes_view(attributes@),
            text@ == last_display(all.take(j as int), key@),
        decreases attributes.len() - j,
    {
        let attribute = &attributes[j];
        proof {
            let grown = all.take(j + 1);
            assert(grown.drop_last() =~= all.take(j as int));
            assert(grown.last() == attribute@);
        }
        if str_eq(attribute.key.as_str(), key) {
            text = attribute.value.to_text();
        }
        j = j + 1;
    }
    assert(all.take(attributes.len() as int) =~= all);
    text
}

/// The fields of a record about `event`: its attributes but those on the
/// ignore list, a later attribute replacing an earlier one of the same key.
pub fn collect_fields(event: &SpanEvent) -> (fields: serde_json::Map<String, serde_json::Value>)
    ensures
        json_entries(fields) == last_wins(event@.attributes),
{
    let attributes = &event.attributes;
    let ghost all = attributes_view(attributes@);
    let mut fields = json_map_new();
    let mut j: usize = 0;
    while j < attributes.len()
        invariant
            0 <= j <= attributes.len(),
            all == attributes_view(attributes@),
            json_entries(fields) == last_wins(all.take(j as int)),
        decreases attributes.len() - j,
    {
        let attribute = &attributes[j];
        proof {
            let grown = all.take(j + 1);
            assert(grown.drop_last() =~= all.take(j as int));
            assert(grown.last() == attribute@);
        }
        if !ignores(attribute.key.as_str()) {
            json_map_insert(&mut fields, attribute.key.clone(), attribute.value.to_json());
        }
        j = j + 1;
    }
    assert(all.take(attributes.len() as int) =~= all);
    fields
}

/// The merged context of a chain, as a JSON map.
pub fn merge_context(chain: &Vec<SpanData>) -> (context: serde_json::Map<String, serde_json::Value>)
    ensures
        json_entries(context) == merged_context(chain_view(chain@)),
{
    let ghost spans = chain_view(chain@);
    let mut context = json_map_new();
    let mut i: usize = 0;
    while i < chain.len()
        invariant
            0 <= i <= chain.len(),
            spans == chain_view(chain@),
            json_entries(context) == merged_context(spans.take(i as int)),
        decreases chain.len() - i,
    {
        let span = &chain[i];
        proof {
            let grown = spans.take(i + 1);
            assert(grown.drop_last() =~= spans.take(i as int));
            assert(grown.last() == span@);
        }
        let ghost before = chain_attributes(spans.take(i as int));
        match &span.telemetry {
            Some(telemetry) => match &telemetry.attributes {
                Some(attributes) => {
                    merge_attributes(&mut context, attributes, Ghost(before));
                },
                None => {
                    assert(before + Seq::<AttributeView>::empty() =~= before);
                },
            },
            None => {
                assert(before + Seq::<AttributeView>::empty() =~= before);
            },
        }
        i = i + 1;
    }
    assert(spans.take(chain.len() as int) =~= spans);
    context
}

/// Aggregates a chain. The result is `None` exactly where no event is
/// selected: the caller then formats the raw event alone.
pub fn aggregate<'a>(chain: &'a Vec<SpanData>) -> (found: Option<SpanContext<'a>>)
    ensures
        match found {
            Some(context) => selected_event(chain_view(chain@)) is Some && context@ == aggregate_of(
                chain_view(chain@),
            ),
            None => selected_event(chain_view(chain@)) is None,
        },
{
    if chain.len() == 0 {
        return None;
    }
    let current = &chain[chain.len() - 1];
    let root = &chain[0];
    assert(chain_view(chain@).last() == current@);
    assert(chain_view(chain@)[0] == root@);
    let telemetry = match &current.telemetry {
        Some(telemetry) => telemetry,
        None => {
            return None;
        },
    };
    let event = match &telemetry.events {
        Some(events) => {
            if events.len() == 0 {
                return None;
            }
            assert(events_view(events@).last() == events@[events.len() - 1]@);
            &events[events.len() - 1]
        },
        None => {
            return None;
        },
    };
    let (thread_id, thread_name) = match &telemetry.attributes {
        Some(attributes) => (
            find_display(attributes, "thread.id"),
            find_display(attributes, "thread.name"),
        ),
        None => (String::new(), String::new()),
    };
    let (root_span_id, root_span_name) = if root.telemetry.is_some() {
        (root.id, root.name.clone())
    } else {
        (0, String::new())
    };
    Some(
        SpanContext {
            context: merge_context(chain),
            event,
            root_span_id,
            root_span_name,
            current_span_id: current.id,
            current_span_name: current.name.clone(),
            thread_id,
            thread_name,
        },
    )
}

/// A key is in the mapping exactly if it is not on the ignore list and some
/// attribute carries it.
pub proof fn lemma_first_wins_domain(attributes: Seq<AttributeView>, key: Seq<char>)
    ensures
        first_wins(attributes).dom().contains(key) <==> !is_ignored(key) && exists|i: int|
            0 <= i < attributes.len() && #[trigger] attributes[i].key == key,
    decreases attributes.len(),
{
    if attributes.len() > 0 {
        let shorter = attributes.drop_last();
        lemma_first_wins_domain(shorter, key);
        if first_wins(attributes).dom().contains(key) {
            if first_wins(shorter).dom().contains(key) {
                let i = choose|i: int| 0 <= i < shorter.len() && #[trigger] shorter[i].key == key;
                assert(attributes[i].key == key);
            } else {
                assert(attributes[attributes.len() - 1].key == key);
            }
        }
        if !is_ignored(key) && exists|i: int|
            0 <= i < attributes.len() && #[trigger] attributes[i].key == key {
            let i = choose|i: int| 0 <= i < attributes.len() && #[trigger] attributes[i].key == key;
            if i < attributes.len() - 1 {
                assert(shorter[i].key == key);
            }
        }
    }
}

/// First write wins: the mapping holds under each key the value of the first
/// attribute that carries it.
pub proof fn lemma_first_wins_value(attributes: Seq<AttributeView>, first: int)
    requires
        0 <= first < attributes.len(),
        !is_ignored(attributes[first].key),
        forall|j: int| 0 <= j < first ==> #[trigger] attributes[j].key != attributes[first].key,
    ensures
        first_wins(attributes).dom().contains(attributes[first].key),
        first_wins(attributes)[attributes[first].key] == attributes[first].value.json(),
    decreases attributes.len(),
{
    let key = attributes[first].key;
    let shorter = attributes.drop_last();
    if first == attributes.len() - 1 {
        lemma_first_wins_domain(shorter, key);
        if first_wins(shorter).dom().contains(key) {
            let i = choose|i: int| 0 <= i < shorter.len() && #[trigger] shorter[i].key == key;
            assert(attributes[i].key == key);
        }
    } else {
        assert(shorter[first] == attributes[first]);
        assert forall|j: int| 0 <= j < first implies #[trigger] shorter[j].key != shorter[first].key by {
            assert(shorter[j] == attributes[j]);
        }
        lemma_first_wins_value(shorter, first);
    }
}

/// What is written stays: the mapping of a longer sequence agrees with the
/// mapping of each of its prefixes on every key of the prefix.
pub proof fn lemma_first_wins_keeps_prefix(attributes: Seq<AttributeView>, n: int, key: Seq<char>)
    requires
        0 <= n <= attributes.len(),
        first_wins(attributes.take(n)).dom().contains(key),
    ensures
        first_wins(attributes).dom().contains(key),
        first_wins(attributes)[key] == first_wins(attributes.take(n))[key],
    decreases attributes.len() - n,
{
    if n == attributes.len() {
        assert(attributes.take(n) =~= attributes);
    } else {
        let shorter = attributes.drop_last();
        assert(shorter.take(n) =~= attributes.take(n));
        lemma_first_wins_keeps_prefix(shorter, n, key);
    }
}

/// Where no key occurs twice and none is on the ignore list, the mapping has
/// one entry for each attribute.
pub proof fn lemma_first_wins_count(attributes: Seq<AttributeView>)
    requires
        forall|i: int| 0 <= i < attributes.len() ==> !is_ignored(#[trigger] attributes[i].key),
        forall|i: int, j: int|
            0 <= i < j < attributes.len() ==> #[trigger] attributes[i].key
                != #[trigger] attributes[j].key,
    ensures
        first_wins(attributes).dom().finite(),
        first_wins(attributes).dom().len() == attributes.len(),
    decreases attributes.len(),
{
    if attributes.len() > 0 {
        let shorter = attributes.drop_last();
        let last = attributes.last();
        assert forall|i: int| 0 <= i < shorter.len() implies !is_ignored(
            #[trigger] shorter[i].key,
        ) by {
            assert(shorter[i] == attributes[i]);
        }
        assert forall|i: int, j: int| 0 <= i < j < shorter.len() implies #[trigger] shorter[i].key
            != #[trigger] shorter[j].key by {
            assert(shorter[i] == attributes[i]);
            assert(shorter[j] == attributes[j]);
        }
        lemma_first_wins_count(shorter);
        lemma_first_wins_domain(shorter, last.key);
        if first_wins(shorter).dom().contains(last.key) {
            let i = choose|i: int| 0 <= i < shorter.len() && #[trigger] shorter[i].key == last.key;
            assert(attributes[i].key == attributes[attributes.len() - 1].key);
        }
        assert(first_wins(attributes).dom() =~= first_wins(shorter).dom().insert(last.key));
    }
}

/// The attributes of a chain begin with the attributes of each of its
/// prefixes: what an ancestor contributes is visited before what any of its
/// descendants contributes.
pub proof fn lemma_chain_attributes_prefix(chain: Seq<SpanView>, n: int)
    requires
        0 <= n <= chain.len(),
    ensures
        chain_attributes(chain.take(n)).len() <= chain_attributes(chain).len(),
        chain_attributes(chain.take(n)) == chain_attributes(chain).take(
            chain_attributes(chain.take(n)).len() as int,
        ),
    decreases chain.len() - n,
{
    if n == chain.len() {
        assert(chain.take(n) =~= chain);
        assert(chain_attributes(chain).take(chain_attributes(chain).len() as int)
            =~= chain_attributes(chain));
    } else {
        let shorter = chain.drop_last();
        assert(shorter.take(n) =~= chain.take(n));
        lemma_chain_attributes_prefix(shorter, n);
        let head = chain_attributes(chain.take(n));
        assert(chain_attributes(chain).take(head.len() as int) =~= chain_attributes(shorter).take(
            head.len() as int,
        ));
    }
}

/// An ancestor's entry is never replaced: the merged context of a chain agrees
/// with the merged context of each of its prefixes on every key of the prefix.
pub proof fn lemma_context_keeps_ancestors(chain: Seq<SpanView>, n: int, key: Seq<char>)
    requires
        0 <= n <= chain.len(),
        merged_context(chain.take(n)).dom().contains(key),
    ensures
        merged_context(chain).dom().contains(key),
        merged_context(chain)[key] == merged_context(chain.take(n))[key],
{
    lemma_chain_attributes_prefix(chain, n);
    lemma_first_wins_keeps_prefix(
        chain_attributes(chain),
        chain_attributes(chain.take(n)).len() as int,
        key,
    );
}

/// No key of the ignore list is in a merged context.
pub proof fn lemma_context_excludes_ignored(chain: Seq<SpanView>, key: Seq<char>)
    requires
        is_ignored(key),
    ensures
        !merged_context(chain).dom().contains(key),
{
    lemma_first_wins_domain(chain_attributes(chain), key);
}

/// Where each span of a chain contributes one attribute, `chain_attributes`
/// holds the attribute of the i-th span at index i.
pub proof fn lemma_chain_of_single_attributes(chain: Seq<SpanView>)
    requires
        forall|i: int| 0 <= i < chain.len() ==> (#[trigger] span_attributes(chain[i])).len() == 1,
    ensures
        chain_attributes(chain).len() == chain.len(),
        forall|i: int|
            0 <= i < chain.len() ==> #[trigger] chain_attributes(chain)[i] == span_attributes(
                chain[i],
            )[0],
    decreases chain.len(),
{
    if chain.len() > 0 {
        let shorter = chain.drop_last();
        assert forall|i: int| 0 <= i < shorter.len() implies (#[trigger] span_attributes(
            shorter[i],
        )).len() == 1 by {
            assert(shorter[i] == chain[i]);
        }
        lemma_chain_of_single_attributes(shorter);
        assert(span_attributes(chain[chain.len() - 1]).len() == 1);
        assert forall|i: int| 0 <= i < chain.len() implies #[trigger] chain_attributes(chain)[i]
            == span_attributes(chain[i])[0] by {
            if i < chain.len() - 1 {
                assert(shorter[i] == chain[i]);
                assert(chain_attributes(chain)[i] == chain_attributes(shorter)[i]);
            }
        }
    }
}

/// A chain of spans that contribute one attribute each, under keys that differ
/// from span to span and are not on the ignore list, has a merged context of
/// as many entries as it has spans, each span's key holding that span's value.
pub proof fn lemma_context_of_distinct_keys(chain: Seq<SpanView>)
    requires
        forall|i: int| 0 <= i < chain.len() ==> (#[trigger] span_attributes(chain[i])).len() == 1,
        forall|i: int|
            0 <= i < chain.len() ==> !is_ignored(
                (#[trigger] span_attributes(chain[i]))[0].key,
            ),
        forall|i: int, j: int|
            0 <= i < j < chain.len() ==> (#[trigger] span_attributes(chain[i]))[0].key != (
            #[trigger] span_attributes(chain[j]))[0].key,
    ensures
        merged_context(chain).dom().finite(),
        merged_context(chain).dom().len() == chain.len(),
        forall|i: int|
            0 <= i < chain.len() ==> {
                let attribute = (#[trigger] span_attributes(chain[i]))[0];
                &&& merged_context(chain).dom().contains(attribute.key)
                &&& merged_context(chain)[attribute.key] == attribute.value.json()
            },
        forall|key: Seq<char>|
            is_ignored(key) ==> !(#[trigger] merged_context(chain).dom().contains(key)),
{
    let all = chain_attributes(chain);
    lemma_chain_of_single_attributes(chain);
    assert forall|i: int| 0 <= i < all.len() implies !is_ignored(#[trigger] all[i].key) by {
        assert(all[i] == span_attributes(chain[i])[0]);
    }
    assert forall|i: int, j: int| 0 <= i < j < all.len() implies #[trigger] all[i].key
        != #[trigger] all[j].key by {
        assert(all[i] == span_attributes(chain[i])[0]);
        assert(all[j] == span_attributes(chain[j])[0]);
    }
    lemma_first_wins_count(all);
    assert forall|i: int| 0 <= i < chain.len() implies {
        let attribute = (#[trigger] span_attributes(chain[i]))[0];
        &&& merged_context(chain).dom().contains(attribute.key)
        &&& merged_context(chain)[attribute.key] == attribute.value.json()
    } by {
        assert(all[i] == span_attributes(chain[i])[0]);
        assert forall|j: int| 0 <= j < i implies #[trigger] all[j].key != all[i].key by {}
        lemma_first_wins_value(all, i);
    }
    assert forall|key: Seq<char>| is_ignored(key) implies !(#[trigger] merged_context(
        chain,
    ).dom().contains(key)) by {
        lemma_context_excludes_ignored(chain, key);
    }
}

/// Of two spans that carry the same key, the one nearer to the root decides:
/// where `ancestor` is the first span of the chain to carry `key`, as the
/// first of its attributes under that key at `position`, the merged context
/// holds that attribute's value, whatever the spans behind it carry.
pub proof fn lemma_context_prefers_ancestor(
    chain: Seq<SpanView>,
    ancestor: int,
    position: int,
    key: Seq<char>,
)
    requires
        0 <= ancestor < chain.len(),
        0 <= position < span_attributes(chain[ancestor]).len(),
        span_attributes(chain[ancestor])[position].key == key,
        !is_ignored(key),
        forall|p: int|
            0 <= p < position ==> (#[trigger] span_attributes(chain[ancestor])[p]).key != key,
        !merged_context(chain.take(ancestor)).dom().contains(key),
    ensures
        merged_context(chain).dom().contains(key),
        merged_context(chain)[key] == span_attributes(chain[ancestor])[position].value.json(),
{
    let upto = chain.take(ancestor + 1);
    let before = chain_attributes(chain.take(ancestor));
    let own = span_attributes(chain[ancestor]);
    assert(upto.drop_last() =~= chain.take(ancestor));
    assert(upto.last() == chain[ancestor]);
    let all = chain_attributes(upto);
    assert(all == before + own);
    let first = before.len() + position;
    assert(all[first] == own[position]);
    lemma_first_wins_domain(before, key);
    assert forall|j: int| 0 <= j < first implies #[trigger] all[j].key != all[first].key by {
        if j < before.len() {
            assert(all[j] == before[j]);
        } else {
            assert(all[j] == own[j - before.len()]);
        }
    }
    lemma_first_wins_value(all, first);
    lemma_context_keeps_ancestors(chain, ancestor + 1, key);
}

/// The thread of a record is that of the current span alone: two chains that
/// end in the same span have the same thread id and thread name.
pub proof fn lemma_thread_from_current_span(chain: Seq<SpanView>, other: Seq<SpanView>)
    requires
        chain.len() > 0,
        other.len() > 0,
        chain.last() == other.last(),
    ensures
        thread_id(chain) == thread_id(other),
        thread_name(chain) == thread_name(other),
{
}

/// Where no attribute carries `key`, nothing is displayed for it.
pub proof fn lemma_last_display_absent(attributes: Seq<AttributeView>, key: Seq<char>)
    requires
        forall|i: int| 0 <= i < attributes.len() ==> #[trigger] attributes[i].key != key,
    ensures
        last_display(attributes, key) == Seq::<char>::empty(),
    decreases attributes.len(),
{
    if attributes.len() > 0 {
        assert(attributes[attributes.len() - 1].key != key);
        let shorter = attributes.drop_last();
        assert forall|i: int| 0 <= i < shorter.len() implies #[trigger] shorter[i].key != key by {
            assert(shorter[i] == attributes[i]);
        }
        lemma_last_display_absent(shorter, key);
    }
}

/// A thread id or name that only an ancestor defines does not reach the
/// record: where the current span carries neither attribute, both are empty.
pub proof fn lemma_thread_ignores_ancestors(chain: Seq<SpanView>)
    requires
        chain.len() > 0,
        forall|i: int|
            0 <= i < span_attributes(chain.last()).len() ==> {
                &&& (#[trigger] span_attributes(chain.last())[i]).key != "thread.id"@
                &&& span_attributes(chain.last())[i].key != "thread.name"@
            },
    ensures
        thread_id(chain) == Seq::<char>::empty(),
        thread_name(chain) == Seq::<char>::empty(),
{
    lemma_last_display_absent(span_attributes(chain.last()), "thread.id"@);
    lemma_last_display_absent(span_attributes(chain.last()), "thread.name"@);
}

/// A key is among the fields exactly if it is not on the ignore list and some
/// attribute carries it.
pub proof fn lemma_last_wins_domain(attributes: Seq<AttributeView>, key: Seq<char>)
    ensures
        last_wins(attributes).dom().contains(key) <==> !is_ignored(key) && exists|i: int|
            0 <= i < attributes.len() && #[trigger] attributes[i].key == key,
    decreases attributes.len(),
{
    if attributes.len() > 0 {
        let shorter = attributes.drop_last();
        lemma_last_wins_domain(shorter, key);
        if last_wins(attributes).dom().contains(key) {
            if last_wins(shorter).dom().contains(key) {
                let i = choose|i: int| 0 <= i < shorter.len() && #[trigger] shorter[i].key == key;
                assert(attributes[i].key == key);
            } else {
                assert(attributes[attributes.len() - 1].key == key);
            }
        }
        if !is_ignored(key) && exists|i: int|
            0 <= i < attributes.len() && #[trigger] attributes[i].key == key {
            let i = choose|i: int| 0 <= i < attributes.len() && #[trigger] attributes[i].key == key;
            if i < attributes.len() - 1 {
                assert(shorter[i].key == key);
            }
        }
    }
}

/// Last write wins: the fields hold under each key the value of the last
/// attribute that carries it.
pub proof fn lemma_last_wins_value(attributes: Seq<AttributeView>, last: int)
    requires
        0 <= last < attributes.len(),
        !is_ignored(attributes[last].key),
        forall|j: int|
            last < j < attributes.len() ==> #[trigger] attributes[j].key != attributes[last].key,
    ensures
        last_wins(attributes).dom().contains(attributes[last].key),
        last_wins(attributes)[attributes[last].key] == attributes[last].value.json(),
    decreases attributes.len(),
{
    if last < attributes.len() - 1 {
        let shorter = attributes.drop_last();
        assert(shorter[last] == attributes[last]);
        assert(attributes[attributes.len() - 1].key != attributes[last].key);
        assert forall|j: int| last < j < shorter.len() implies #[trigger] shorter[j].key
            != shorter[last].key by {
            assert(shorter[j] == attributes[j]);
        }
        lemma_last_wins_value(shorter, last);
    }
}

/// What is displayed for a key is the value of the last attribute that
/// carries it.
pub proof fn lemma_last_display_value(attributes: Seq<AttributeView>, last: int)
    requires
        0 <= last < attributes.len(),
        forall|j: int|
            last < j < attributes.len() ==> #[trigger] attributes[j].key != attributes[last].key,
    ensures
        last_display(attributes, attributes[last].key) == attributes[last].value.display(),
    decreases attributes.len(),
{
    if last < attributes.len() - 1 {
        let shorter = attributes.drop_last();
        assert(shorter[last] == attributes[last]);
        assert(attributes[attributes.len() - 1].key != attributes[last].key);
        assert forall|j: int| last < j < shorter.len() implies #[trigger] shorter[j].key
            != shorter[last].key by {
            assert(shorter[j] == attributes[j]);
        }
        lemma_last_display_value(shorter, last);
    }
}

/// No key of the ignore list is among the fields of a record.
pub proof fn lemma_fields_exclude_ignored(attributes: Seq<AttributeView>, key: Seq<char>)
    requires
        is_ignored(key),
    ensures
        !last_wins(attributes).dom().contains(key),
{
    lemma_last_wins_domain(attributes, key);
}

/// Where no key occurs twice, the fields are the attributes without those on
/// the ignore list: each other attribute is a field under its key, with its
/// value, and there is no further field.
pub proof fn lemma_fields_of_distinct_keys(attributes: Seq<AttributeView>)
    requires
        forall|i: int, j: int|
            0 <= i < j < attributes.len() ==> #[trigger] attributes[i].key
                != #[trigger] attributes[j].key,
    ensures
        forall|i: int|
            0 <= i < attributes.len() && !is_ignored(#[trigger] attributes[i].key) ==> {
                &&& last_wins(attributes).dom().contains(attributes[i].key)
                &&& last_wins(attributes)[attributes[i].key] == attributes[i].value.json()
            },
        forall|key: Seq<char>| #[trigger]
            last_wins(attributes).dom().contains(key) ==> !is_ignored(key) && exists|i: int|
                0 <= i < attributes.len() && #[trigger] attributes[i].key == key,
{
    assert forall|i: int|
        0 <= i < attributes.len() && !is_ignored(#[trigger] attributes[i].key) implies {
        &&& last_wins(attributes).dom().contains(attributes[i].key)
        &&& last_wins(attributes)[attributes[i].key] == attributes[i].value.json()
    } by {
        lemma_last_wins_value(attributes, i);
    }
    assert forall|key: Seq<char>| #[trigger]
        last_wins(attributes).dom().contains(key) implies !is_ignored(key) && exists|i: int|
        0 <= i < attributes.len() && #[trigger] attributes[i].key == key by {
        lemma_last_wins_domain(attributes, key);
    }
}

} // verus!
