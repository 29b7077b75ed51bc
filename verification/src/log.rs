//! The log record model: `Context`, `Message`, `Level`, `Filter` and the
//! composite `Log`, together with the value-level views their contracts
//! speak of.

use vstd::prelude::*;
use vstd::string::StringExecFns;

use crate::text::{spec_decimal, u64_to_decimal};

verus! {

/// The severity of a log record, in increasing declaration order.
#[derive(Debug, Clone, Copy, PartialEq, Eq, Structural)]
pub enum Level {
    Debug,
    Trace,
    Normal,
    Error,
    Critical,
}

impl Level {
    /// The display name of this severity.
    pub open spec fn spec_name(&self) -> Seq<char> {
        match self {
            Level::Debug => "Debug"@,
            Level::Trace => "Trace"@,
            Level::Normal => "Normal"@,
            Level::Error => "Error"@,
            Level::Critical => "Critical"@,
        }
    }

    /// The display name of this severity.
    pub fn name(&self) -> (r: String)
        ensures
            r@ == self.spec_name(),
    {
        match self {
            Level::Debug => "Debug".to_owned(),
            Level::Trace => "Trace".to_owned(),
            Level::Normal => "Normal".to_owned(),
            Level::Error => "Error".to_owned(),
            Level::Critical => "Critical".to_owned(),
        }
    }
}

/// A selector for retrieval queries. The single-slot store holds at most
/// one record, so retrieval currently returns that record whatever the
/// filter says; the variants are part of the declared contract.
#[derive(Debug, PartialEq, Eq, Structural)]
pub enum Filter {
    Time,
    Context,
    Text,
    Level(Level),
}

/// Free text naming the logical subsystem that emitted a log.
#[derive(Debug)]
pub struct Context {
    pub ctx: String,
}

impl View for Context {
    type V = Seq<char>;

    open spec fn view(&self) -> Seq<char> {
        self.ctx@
    }
}

impl Context {
    pub fn new(ctx: String) -> (r: Self)
        ensures
            r@ == ctx@,
    {
        Self { ctx }
    }
}

impl PartialEq for Context {
    fn eq(&self, other: &Context) -> (r: bool) {
        self.ctx == other.ctx
    }
}

impl vstd::std_specs::cmp::PartialEqSpecImpl for Context {
    open spec fn obeys_eq_spec() -> bool {
        true
    }

    open spec fn eq_spec(&self, other: &Context) -> bool {
        self@ == other@
    }
}

/// The mathematical value of a [`Message`]: its generated identifier and
/// its free-text body.
pub ghost struct MessageView {
    pub id: Seq<char>,
    pub message: Seq<char>,
}

/// A log message: a generated globally-unique identifier assigned at
/// construction plus a free-text body stored verbatim.
#[derive(Debug)]
pub struct Message {
    pub(crate) id: String,
    pub message: String,
}

impl View for Message {
    type V = MessageView;

    closed spec fn view(&self) -> MessageView {
        MessageView { id: self.id@, message: self.message@ }
    }
}

impl Message {
    /// Stores `message` verbatim, including the empty string, and assigns
    /// a freshly generated identifier.
    pub fn new(message: String) -> (r: Self)
        ensures
            r@.message == message@,
            r@.id.len() == 36,
    {
        Self { id: fresh_uuid_string(), message }
    }

    /// Rebuilds a message from stored parts; only the decoder uses this,
    /// to restore a record exactly as it was written.
    pub(crate) fn from_parts(id: String, message: String) -> (r: Self)
        ensures
            r@.id == id@,
            r@.message == message@,
    {
        Self { id, message }
    }

    /// The identifier assigned when this message was constructed.
    pub fn id(&self) -> (r: &String)
        ensures
            r@ == self@.id,
    {
        &self.id
    }
}

/// Relates a message to its view, for the modules that read its parts.
pub(crate) proof fn lemma_message_view(m: &Message)
    ensures
        m@.id == m.id@,
        m@.message == m.message@,
{
}

impl PartialEq for Message {
    fn eq(&self, other: &Message) -> (r: bool) {
        self.id == other.id && self.message == other.message
    }
}

impl vstd::std_specs::cmp::PartialEqSpecImpl for Message {
    open spec fn obeys_eq_spec() -> bool {
        true
    }

    open spec fn eq_spec(&self, other: &Message) -> bool {
        self@ == other@
    }
}

/// The mathematical value of a [`Log`]: every field, timestamp included.
pub ghost struct LogView {
    pub context: Seq<char>,
    pub message: MessageView,
    pub level: Level,
    pub timestamp: u64,
}

/// An immutable log record: context, message, severity and the wall-clock
/// time (in milliseconds since the Unix epoch) at which it was built.
#[derive(Debug)]
pub struct Log {
    pub context: Context,
    pub message: Message,
    pub level: Level,
    pub timestamp: u64,
}

impl View for Log {
    type V = LogView;

    open spec fn view(&self) -> LogView {
        LogView {
            context: self.context@,
            message: self.message@,
            level: self.level,
            timestamp: self.timestamp,
        }
    }
}

impl Log {
    /// Builds a record from the supplied parts, unmodified, and stamps the
    /// current wall-clock time. Total: it cannot fail.
    pub fn new(context: Context, message: Message, level: Level) -> (r: Self)
        ensures
            r@.context == context@,
            r@.message == message@,
            r@.level == level,
    {
        Self { context, message, level, timestamp: now_unix_millis() }
    }
}

impl Log {
    /// The record's display form: the severity name in brackets, the
    /// timestamp, then the message body.
    pub open spec fn spec_display(&self) -> Seq<char> {
        "["@ + self.level.spec_name() + "] "@ + spec_decimal(self.timestamp as nat) + ": "@
            + self@.message.message
    }

    /// Renders the record's display form.
    pub fn display_string(&self) -> (r: String)
        ensures
            r@ == self.spec_display(),
    {
        let mut s = "[".to_owned();
        let name = self.level.name();
        s.append(name.as_str());
        s.append("] ");
        let ts = u64_to_decimal(self.timestamp);
        s.append(ts.as_str());
        s.append(": ");
        s.append(self.message.message.as_str());
        proof {
            lemma_message_view(&self.message);
        }
        s
    }
}

impl Message {
    /// The message's display form: its body, verbatim.
    pub fn display_string(&self) -> (r: String)
        ensures
            r@ == self@.message,
    {
        self.message.clone()
    }
}

impl PartialEq for Log {
    fn eq(&self, other: &Log) -> (r: bool) {
        self.context == other.context && self.message == other.message && self.level
            == other.level && self.timestamp == other.timestamp
    }
}

impl vstd::std_specs::cmp::PartialEqSpecImpl for Log {
    open spec fn obeys_eq_spec() -> bool {
        true
    }

    open spec fn eq_spec(&self, other: &Log) -> bool {
        self@ == other@
    }
}

/// Relies on `uuid::Uuid::new_v4` and its hyphenated rendering: a freshly
/// generated random identifier, always 36 characters long. The value
/// depends on fresh randomness, so nothing further is claimed of it.
#[verifier::external_body]
fn fresh_uuid_string() -> (r: String)
    ensures
        r@.len() == 36,
{
    uuid::Uuid::new_v4().to_string()
}

/// Relies on `std::time::SystemTime::now` for the wall-clock reading; the
/// remaining calls only convert that reading to milliseconds since the
/// Unix epoch. The value depends on the clock, so nothing is claimed of it.
#[verifier::external_body]
fn now_unix_millis() -> u64 {
    match std::time::SystemTime::now().duration_since(std::time::UNIX_EPOCH) {
        Ok(d) => d.as_millis() as u64,
        Err(_) => 0,
    }
}

} // verus!
