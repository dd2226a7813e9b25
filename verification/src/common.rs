//! Shared data carried by every emitted record: attributes, provider-wide
//! configuration, the identity of the emitting library, and the record itself.

use vstd::prelude::*;

verus! {

/// Default component name used when a logger is requested with an empty name.
pub open spec fn spec_default_component_name() -> Seq<char> {
    "rust.opentelemetry.io/sdk/logemitter"@
}

/// Fixed component name substituted for an empty logger name.
pub fn default_component_name() -> (r: &'static str)
    ensures
        r@ == spec_default_component_name(),
{
    "rust.opentelemetry.io/sdk/logemitter"
}

/// One attribute: a textual key with a textual value.
pub struct KeyValue {
    pub key: String,
    pub value: String,
}

/// Mathematical image of a [`KeyValue`].
pub struct KeyValueView {
    pub key: Seq<char>,
    pub value: Seq<char>,
}

impl View for KeyValue {
    type V = KeyValueView;

    open spec fn view(&self) -> KeyValueView {
        KeyValueView { key: self.key@, value: self.value@ }
    }
}

impl KeyValue {
    pub fn new(key: String, value: String) -> (r: Self)
        ensures
            r@ == (KeyValueView { key: key@, value: value@ }),
    {
        KeyValue { key, value }
    }
}

impl Clone for KeyValue {
    fn clone(&self) -> (r: Self)
        ensures
            r@ == self@,
    {
        KeyValue { key: self.key.clone(), value: self.value.clone() }
    }
}

/// Mathematical image of an attribute list.
pub open spec fn attrs_view(attrs: Seq<KeyValue>) -> Seq<KeyValueView> {
    attrs.map_values(|kv: KeyValue| kv@)
}

/// Copies an attribute list, preserving keys, values and order.
pub fn clone_attrs(attrs: &Vec<KeyValue>) -> (r: Vec<KeyValue>)
    ensures
        attrs_view(r@) == attrs_view(attrs@),
{
    let mut out: Vec<KeyValue> = Vec::new();
    let mut i: usize = 0;
    while i < attrs.len()
        invariant
            i <= attrs@.len(),
            out@.len() == i,
            forall|j: int| 0 <= j < i ==> out@[j]@ == attrs@[j]@,
        decreases attrs@.len() - i,
    {
        out.push(attrs[i].clone());
        i += 1;
    }
    proof {
        assert(attrs_view(out@) =~= attrs_view(attrs@));
    }
    out
}

/// Copies an optional string, preserving its characters.
pub fn clone_opt_string(s: &Option<String>) -> (r: Option<String>)
    ensures
        opt_string_view(r) == opt_string_view(*s),
{
    match s {
        Some(inner) => Some(inner.clone()),
        None => None,
    }
}

/// Mathematical image of an optional string.
pub open spec fn opt_string_view(s: Option<String>) -> Option<Seq<char>> {
    match s {
        Some(inner) => Some(inner@),
        None => None,
    }
}

/// Mathematical image of an optional attribute list.
pub open spec fn opt_attrs_view(attrs: Option<Vec<KeyValue>>) -> Option<Seq<KeyValueView>> {
    match attrs {
        Some(inner) => Some(attrs_view(inner@)),
        None => None,
    }
}

/// Provider-wide settings: the resource attributes that describe the
/// emitting process. Immutable once a provider is built; every emitted
/// record carries a copy of the resource.
pub struct Config {
    pub resource: Vec<KeyValue>,
}

impl Config {
    pub fn new(resource: Vec<KeyValue>) -> (r: Self)
        ensures
            r.resource == resource,
    {
        Config { resource }
    }
}

impl Default for Config {
    fn default() -> (r: Self)
        ensures
            r.resource@.len() == 0,
    {
        Config { resource: Vec::new() }
    }
}

/// Identity of the code that emits records: a non-empty name (an empty
/// request falls back to the default component name), with optional
/// version, schema URL and extra attributes.
pub struct InstrumentationLibrary {
    pub name: String,
    pub version: Option<String>,
    pub schema_url: Option<String>,
    pub attributes: Option<Vec<KeyValue>>,
}

/// Mathematical image of an [`InstrumentationLibrary`].
pub struct InstrumentationLibraryView {
    pub name: Seq<char>,
    pub version: Option<Seq<char>>,
    pub schema_url: Option<Seq<char>>,
    pub attributes: Option<Seq<KeyValueView>>,
}

impl View for InstrumentationLibrary {
    type V = InstrumentationLibraryView;

    open spec fn view(&self) -> InstrumentationLibraryView {
        InstrumentationLibraryView {
            name: self.name@,
            version: opt_string_view(self.version),
            schema_url: opt_string_view(self.schema_url),
            attributes: opt_attrs_view(self.attributes),
        }
    }
}

impl InstrumentationLibrary {
    pub fn new(
        name: String,
        version: Option<String>,
        schema_url: Option<String>,
        attributes: Option<Vec<KeyValue>>,
    ) -> (r: Self)
        ensures
            r@ == (InstrumentationLibraryView {
                name: name@,
                version: opt_string_view(version),
                schema_url: opt_string_view(schema_url),
                attributes: opt_attrs_view(attributes),
            }),
    {
        InstrumentationLibrary { name, version, schema_url, attributes }
    }
}

impl Clone for InstrumentationLibrary {
    fn clone(&self) -> (r: Self)
        ensures
            r@ == self@,
    {
        InstrumentationLibrary {
            name: self.name.clone(),
            version: clone_opt_string(&self.version),
            schema_url: clone_opt_string(&self.schema_url),
            attributes: match &self.attributes {
                Some(attrs) => Some(clone_attrs(attrs)),
                None => None,
            },
        }
    }
}

/// A single caller-supplied telemetry event.
pub struct LogRecord {
    /// Event time, in nanoseconds since an epoch the caller chooses.
    pub timestamp: u64,
    /// Numeric severity; larger is more severe.
    pub severity: u8,
    /// Human-readable body of the event.
    pub body: String,
    /// Extra attributes of this single event.
    pub attributes: Vec<KeyValue>,
}

/// Mathematical image of a [`LogRecord`].
pub struct LogRecordView {
    pub timestamp: u64,
    pub severity: u8,
    pub body: Seq<char>,
    pub attributes: Seq<KeyValueView>,
}

impl View for LogRecord {
    type V = LogRecordView;

    open spec fn view(&self) -> LogRecordView {
        LogRecordView {
            timestamp: self.timestamp,
            severity: self.severity,
            body: self.body@,
            attributes: attrs_view(self.attributes@),
        }
    }
}

impl LogRecord {
    pub fn new(timestamp: u64, severity: u8, body: String, attributes: Vec<KeyValue>) -> (r: Self)
        ensures
            r@ == (LogRecordView {
                timestamp,
                severity,
                body: body@,
                attributes: attrs_view(attributes@),
            }),
    {
        LogRecord { timestamp, severity, body, attributes }
    }
}

impl Clone for LogRecord {
    fn clone(&self) -> (r: Self)
        ensures
            r@ == self@,
    {
        LogRecord {
            timestamp: self.timestamp,
            severity: self.severity,
            body: self.body.clone(),
            attributes: clone_attrs(&self.attributes),
        }
    }
}

} // verus!
