//! A host that lives in the process of its adapters.
//!
//! It keeps messages in memory and writes down the calls that a transaction
//! gets, so that what an adapter does can be looked at afterwards.
use vstd::prelude::*;
use vstd::string::StringExecFns;
use crate::common::area::Area;
use crate::common::body::Body;
use crate::common::bytes::append_range;
use crate::common::delay::Delay;
use crate::common::fields::FieldList;
use crate::common::header::{FirstLine, FirstLineView, Header, RequestLine, StatusLine};
use crate::common::log::{DebugStream, LogVerbosity};
use crate::common::message::{Message, MessageView};
use crate::common::name::Name;
use crate::common::named_values::{Fields, NamedValueVisitor};
use crate::common::version::Version;
use crate::host::host::{Host, HostTag};
use crate::host::transaction::{shifted, window, HostCall, HostView, Transaction};

verus! {

/// A body of which only the size is kept.
pub struct LocalBody {
    pub size: Option<u64>,
}

impl Body for LocalBody {
    open spec fn spec_size(&self) -> Option<u64> {
        self.size
    }

    fn size(&self) -> (r: Option<u64>) {
        self.size
    }
}

/// A header kept as a list of fields.
pub struct LocalHeader {
    fields: FieldList,
    image: Area,
}

impl LocalHeader {
    /// A header without fields, with the given image.
    pub fn new(image: Area) -> (header: LocalHeader)
        ensures
            header.fields() == Seq::<(crate::common::name::NameView, Seq<u8>)>::empty(),
            header.spec_image() == image@,
    {
        LocalHeader { fields: FieldList::new(), image }
    }

    /// A header of its own with the same fields and image.
    pub fn duplicate(&self) -> (header: LocalHeader)
        ensures
            header.fields() == self.fields(),
            header.spec_image() == self.spec_image(),
    {
        LocalHeader { fields: self.fields.duplicate(), image: self.image.clone() }
    }

    /// The number of fields.
    pub fn len(&self) -> (n: usize)
        ensures
            n == self.fields().len(),
    {
        self.fields.len()
    }
}

impl Header for LocalHeader {
    closed spec fn fields(&self) -> Fields {
        self.fields@
    }

    closed spec fn spec_image(&self) -> Seq<u8> {
        self.image@
    }

    fn contains_field(&self, field: &Name) -> (r: bool) {
        self.fields.contains(field)
    }

    fn get(&self, field: &Name) -> (r: Option<Area>) {
        self.fields.get(field)
    }

    fn insert(&mut self, field: Name, value: Area) {
        self.fields.push(field, value);
    }

    fn remove_any(&mut self, field: &Name) {
        self.fields.remove_any(field);
    }

    fn visit_each<V: NamedValueVisitor>(&self, visitor: &mut V) {
        self.fields.visit_each(visitor);
    }

    fn image(&self) -> (r: Area) {
        self.image.clone()
    }

    /// A header of this host is made field by field: it parses nothing.
    fn parse(&mut self, buf: &Area) -> (r: Result<(), ()>)
        ensures
            r is Err,
    {
        Err(())
    }
}

/// A first line kept as its parts.
pub struct LocalFirstLine {
    version: Version,
    protocol: Name,
}

impl LocalFirstLine {
    pub fn new(version: Version, protocol: Name) -> (line: LocalFirstLine)
        ensures
            line@ == (FirstLineView { version, protocol: protocol@ }),
    {
        LocalFirstLine { version, protocol }
    }
}

impl FirstLine for LocalFirstLine {
    closed spec fn view(&self) -> FirstLineView {
        FirstLineView { version: self.version, protocol: self.protocol@ }
    }

    fn version(&self) -> (r: Version) {
        self.version
    }

    fn set_version(&mut self, version: Version) {
        self.version = version;
    }

    fn protocol(&self) -> (r: Name) {
        self.protocol.clone()
    }

    fn set_protocol(&mut self, protocol: Name) {
        self.protocol = protocol;
    }
}

/// The first line of a request, kept as its parts.
pub struct LocalRequestLine {
    line: LocalFirstLine,
    uri: Area,
    method: Name,
}

impl LocalRequestLine {
    pub fn new(line: LocalFirstLine, uri: Area, method: Name) -> (r: LocalRequestLine)
        ensures
            r@ == line@,
            r.spec_uri() == uri@,
            r.spec_method() == method@,
    {
        LocalRequestLine { line, uri, method }
    }
}

impl FirstLine for LocalRequestLine {
    closed spec fn view(&self) -> FirstLineView {
        self.line@
    }

    fn version(&self) -> (r: Version) {
        self.line.version()
    }

    fn set_version(&mut self, version: Version) {
        self.line.set_version(version);
    }

    fn protocol(&self) -> (r: Name) {
        self.line.protocol()
    }

    fn set_protocol(&mut self, protocol: Name) {
        self.line.set_protocol(protocol);
    }
}

impl RequestLine for LocalRequestLine {
    closed spec fn spec_uri(&self) -> Seq<u8> {
        self.uri@
    }

    closed spec fn spec_method(&self) -> crate::common::name::NameView {
        self.method@
    }

    fn uri(&self) -> (r: Area) {
        self.uri.clone()
    }

    fn set_uri(&mut self, area: Area) {
        self.uri = area;
    }

    fn method(&self) -> (r: Name) {
        self.method.clone()
    }

    fn set_method(&mut self, name: Name) {
        self.method = name;
    }
}

/// The first line of a response, kept as its parts.
pub struct LocalStatusLine {
    line: LocalFirstLine,
    status_code: u16,
    reason_phrase: Name,
}

impl LocalStatusLine {
    pub fn new(line: LocalFirstLine, status_code: u16, reason_phrase: Name) -> (r: LocalStatusLine)
        ensures
            r@ == line@,
            r.spec_status_code() == status_code,
            r.spec_reason_phrase() == reason_phrase@,
    {
        LocalStatusLine { line, status_code, reason_phrase }
    }
}

impl FirstLine for LocalStatusLine {
    closed spec fn view(&self) -> FirstLineView {
        self.line@
    }

    fn version(&self) -> (r: Version) {
        self.line.version()
    }

    fn set_version(&mut self, version: Version) {
        self.line.set_version(version);
    }

    fn protocol(&self) -> (r: Name) {
        self.line.protocol()
    }

    fn set_protocol(&mut self, protocol: Name) {
        self.line.set_protocol(protocol);
    }
}

impl StatusLine for LocalStatusLine {
    closed spec fn spec_status_code(&self) -> u16 {
        self.status_code
    }

    closed spec fn spec_reason_phrase(&self) -> crate::common::name::NameView {
        self.reason_phrase@
    }

    fn status_code(&self) -> (r: u16) {
        self.status_code
    }

    fn set_status_code(&mut self, code: u16) {
        self.status_code = code;
    }

    fn reason_phrase(&self) -> (r: Name) {
        self.reason_phrase.clone()
    }

    fn set_reason_phrase(&mut self, name: Name) {
        self.reason_phrase = name;
    }
}

/// The trailer of a message, where it has one.
pub open spec fn trailer_view(trailer: Option<LocalHeader>) -> Option<Fields> {
    match trailer {
        Some(t) => Some(t.fields()),
        None => None,
    }
}

/// The body of a message, where it has one.
pub open spec fn body_view(body: Option<LocalBody>) -> Option<Option<u64>> {
    match body {
        Some(b) => Some(b.size),
        None => None,
    }
}

/// A message kept in memory.
pub struct LocalMessage {
    first_line: LocalFirstLine,
    header: LocalHeader,
    body: Option<LocalBody>,
    trailer: Option<LocalHeader>,
}

impl LocalMessage {
    /// A message without fields, body or trailer.
    pub fn new(first_line: LocalFirstLine) -> (message: LocalMessage)
        ensures
            message@ == (MessageView {
                first_line: first_line@,
                header: Seq::empty(),
                body: None,
                trailer: None,
            }),
    {
        let nothing: Vec<u8> = Vec::new();
        LocalMessage {
            first_line,
            header: LocalHeader::new(Area::from_bytes(nothing.as_slice())),
            body: None,
            trailer: None,
        }
    }

    /// Gives the message a body of the given size, in place of the one it
    /// has.
    pub fn set_body(&mut self, size: Option<u64>)
        ensures
            final(self)@ == (MessageView { body: Some(size), ..old(self)@ }),
    {
        self.body = Some(LocalBody { size });
    }
}

impl Message for LocalMessage {
    type FirstLine = LocalFirstLine;

    type Header = LocalHeader;

    type Body = LocalBody;

    type Trailer = LocalHeader;

    closed spec fn view(&self) -> MessageView {
        MessageView {
            first_line: self.first_line@,
            header: self.header.fields(),
            body: body_view(self.body),
            trailer: trailer_view(self.trailer),
        }
    }

    fn clone(&self) -> (r: LocalMessage) {
        LocalMessage {
            first_line: LocalFirstLine {
                version: self.first_line.version,
                protocol: self.first_line.protocol.clone(),
            },
            header: self.header.duplicate(),
            body: match &self.body {
                Some(b) => Some(LocalBody { size: b.size }),
                None => None,
            },
            trailer: match &self.trailer {
                Some(t) => Some(t.duplicate()),
                None => None,
            },
        }
    }

    fn first_line_mut(&mut self) -> (r: &mut LocalFirstLine) {
        &mut self.first_line
    }

    fn first_line(&self) -> (r: &LocalFirstLine) {
        &self.first_line
    }

    fn header_mut(&mut self) -> (r: &mut LocalHeader) {
        &mut self.header
    }

    fn header(&self) -> (r: &LocalHeader) {
        &self.header
    }

    /// A new body has no known size.
    fn add_body(&mut self) {
        if self.body.is_none() {
            self.body = Some(LocalBody { size: None });
        }
    }

    fn body_mut(&mut self) -> (r: Option<&mut LocalBody>) {
        self.body.as_mut()
    }

    fn body(&self) -> (r: Option<&LocalBody>) {
        self.body.as_ref()
    }

    /// A new trailer has no fields.
    fn add_trailer(&mut self) {
        if self.trailer.is_none() {
            let nothing: Vec<u8> = Vec::new();
            self.trailer = Some(LocalHeader::new(Area::from_bytes(nothing.as_slice())));
        }
    }

    fn trailer_mut(&mut self) -> (r: &mut LocalHeader) {
        self.trailer.as_mut().unwrap()
    }

    fn trailer(&self) -> (r: &LocalHeader) {
        self.trailer.as_ref().unwrap()
    }
}

/// The message of an optional message.
pub open spec fn message_view(message: Option<LocalMessage>) -> Option<MessageView> {
    match message {
        Some(m) => Some(m@),
        None => None,
    }
}

/// The host's half of a transaction, with a record of the calls it got.
pub struct LocalTransaction {
    virgin: LocalMessage,
    cause: Option<LocalMessage>,
    adapted: Option<LocalMessage>,
    content: Vec<u8>,
    calls: Vec<HostCall>,
}

impl LocalTransaction {
    /// A transaction for `virgin`, of whose body the host has `content`
    /// on hand.
    pub fn new(virgin: LocalMessage, content: Vec<u8>) -> (t: LocalTransaction)
        ensures
            t@ == (HostView {
                calls: Seq::empty(),
                virgin: virgin@,
                cause: None,
                adapted: None,
                content: content@,
            }),
    {
        LocalTransaction { virgin, cause: None, adapted: None, content, calls: Vec::new() }
    }

    /// The calls that the transaction got, in order.
    pub fn calls(&self) -> (r: &Vec<HostCall>)
        ensures
            r@ == self@.calls,
    {
        &self.calls
    }

    /// The message that was given to `use_adapted`, once it was.
    pub fn adapted_message(&self) -> (r: Option<&LocalMessage>)
        ensures
            r is Some <==> self@.adapted is Some,
            r matches Some(m) ==> Some(m@) == self@.adapted,
    {
        self.adapted.as_ref()
    }

    /// The virgin message.
    pub fn virgin_message(&self) -> (r: &LocalMessage)
        ensures
            r@ == self@.virgin,
    {
        &self.virgin
    }

    /// The content of the virgin body that the host has on hand.
    pub fn content(&self) -> (r: &Vec<u8>)
        ensures
            r@ == self@.content,
    {
        &self.content
    }

    /// More of the virgin body arrives.
    pub fn feed(&mut self, more: &[u8])
        ensures
            final(self)@ == (HostView { content: old(self)@.content + more@, ..old(self)@ }),
    {
        append_range(&mut self.content, more, 0, more.len());
        assert(more@.subrange(0, more@.len() as int) =~= more@);
    }
}

impl Transaction for LocalTransaction {
    type Message = LocalMessage;

    closed spec fn view(&self) -> HostView {
        HostView {
            calls: self.calls@,
            virgin: self.virgin@,
            cause: message_view(self.cause),
            adapted: message_view(self.adapted),
            content: self.content@,
        }
    }

    fn virgin(&mut self) -> (r: &mut LocalMessage) {
        &mut self.virgin
    }

    fn cause(&self) -> (r: Option<&LocalMessage>) {
        self.cause.as_ref()
    }

    fn adapted(&mut self) -> (r: &mut LocalMessage) {
        self.adapted.as_mut().unwrap()
    }

    fn use_virgin(&mut self) {
        self.calls.push(HostCall::UseVirgin);
    }

    fn use_adapted(&mut self, msg: LocalMessage) {
        self.adapted = Some(msg);
        self.calls.push(HostCall::UseAdapted);
    }

    fn block_virgin(&mut self) {
        self.calls.push(HostCall::BlockVirgin);
    }

    fn adaptation_delayed(&mut self, delay: &Delay) {
        self.calls.push(HostCall::AdaptationDelayed);
    }

    fn adaptation_aborted(&mut self) {
        self.calls.push(HostCall::AdaptationAborted);
    }

    fn resume(&mut self) {
        self.calls.push(HostCall::Resume);
    }

    fn virgin_body_discard(&mut self) {
        self.calls.push(HostCall::VirginBodyDiscard);
    }

    fn virgin_body_make(&mut self) {
        self.calls.push(HostCall::VirginBodyMake);
    }

    fn virgin_body_make_more(&mut self) {
        self.calls.push(HostCall::VirginBodyMakeMore);
    }

    fn virgin_body_stop_making(&mut self) {
        self.calls.push(HostCall::VirginBodyStopMaking);
    }

    fn virgin_body_pause(&mut self) {
        self.calls.push(HostCall::VirginBodyPause);
    }

    fn virgin_body_resume(&mut self) {
        self.calls.push(HostCall::VirginBodyResume);
    }

    /// Gives all of the content that the request reaches.
    fn virgin_body_content(&mut self, offset: usize, size: usize) -> (r: Area)
        ensures
            r@ == window(old(self)@.content, offset, size),
    {
        self.calls.push(HostCall::VirginBodyContent { offset, size });
        let len: usize = self.content.len();
        let mut part: Vec<u8> = Vec::new();
        if offset < len {
            let end: usize = if size >= len - offset {
                len
            } else {
                offset + size
            };
            append_range(&mut part, self.content.as_slice(), offset, end);
        }
        assert(part@ =~= window(self.content@, offset, size));
        Area::from_bytes(part.as_slice())
    }

    fn virgin_body_content_shift(&mut self, size: usize) {
        self.calls.push(HostCall::VirginBodyContentShift { size });
        let len: usize = self.content.len();
        let mut rest: Vec<u8> = Vec::new();
        if size < len {
            append_range(&mut rest, self.content.as_slice(), size, len);
        }
        assert(rest@ =~= shifted(self.content@, size));
        self.content = rest;
    }

    fn adapted_body_content_done(&mut self, at_end: bool) {
        self.calls.push(HostCall::AdaptedBodyContentDone { at_end });
    }

    fn adapted_body_content_available(&mut self) {
        self.calls.push(HostCall::AdaptedBodyContentAvailable);
    }
}

/// A debug stream that keeps what is written to it.
pub struct LocalDebugStream {
    text: String,
}

impl LocalDebugStream {
    /// What was written.
    pub fn text(&self) -> (r: &String)
        ensures
            r@ == self.written(),
    {
        &self.text
    }
}

impl DebugStream for LocalDebugStream {
    closed spec fn written(&self) -> Seq<char> {
        self.text@
    }

    fn write_str(&mut self, s: &str) {
        self.text.append(s);
    }
}

/// The message that the host makes anew: of an unknown version and
/// protocol, without fields, body or trailer.
pub open spec fn blank_message() -> MessageView {
    MessageView {
        first_line: FirstLineView {
            version: Version { major: None, minor: None, micro: None },
            protocol: crate::common::name::NameView {
                image: None,
                id: crate::common::name::Id::Unknown,
                host_id: None,
            },
        },
        header: Seq::empty(),
        body: None,
        trailer: None,
    }
}

/// The host: it makes messages, and keeps the debug streams that were
/// closed.
pub struct LocalHost {
    closed: Vec<LocalDebugStream>,
}

impl LocalHost {
    pub fn new() -> (host: LocalHost)
        ensures
            host.closed() == Seq::<Seq<char>>::empty(),
    {
        let host = LocalHost { closed: Vec::new() };
        assert(host.closed() =~= Seq::empty());
        host
    }

    /// What was written to the streams that were closed, in the order in
    /// which they were closed.
    pub closed spec fn closed(&self) -> Seq<Seq<char>> {
        self.closed@.map_values(|s: LocalDebugStream| s.written())
    }

    /// The number of streams that were closed.
    pub fn closed_streams(&self) -> (n: usize)
        ensures
            n == self.closed().len(),
    {
        self.closed.len()
    }
}

impl Host for LocalHost {
    type DebugStream = LocalDebugStream;

    type Message = LocalMessage;

    type Transaction = LocalTransaction;

    type Options = FieldList;

    open spec fn spec_tag() -> HostTag {
        HostTag(1)
    }

    open spec fn spec_uri(&self) -> Seq<char> {
        "ecap://rust/host/local"@
    }

    open spec fn spec_describe(&self) -> Seq<char> {
        "A host in the process of its adapters"@
    }

    fn tag() -> (t: HostTag) {
        HostTag(1)
    }

    fn uri(&self) -> (r: String) {
        "ecap://rust/host/local".to_owned()
    }

    fn describe(&self) -> (r: String) {
        "A host in the process of its adapters".to_owned()
    }

    /// Every verbosity gets a stream.
    fn open_debug(&mut self, verbosity: LogVerbosity) -> (r: Option<LocalDebugStream>)
        ensures
            r is Some,
            final(self).closed() == old(self).closed(),
    {
        Some(LocalDebugStream { text: String::new() })
    }

    fn close_debug(&mut self, stream: LocalDebugStream)
        ensures
            final(self).closed() == old(self).closed().push(stream.written()),
    {
        self.closed.push(stream);
        assert(self.closed() =~= old(self).closed().push(stream.written()));
    }

    /// A request of an unknown version and protocol, without fields.
    fn new_request(&self) -> (r: LocalMessage)
        ensures
            r@ == blank_message(),
    {
        LocalMessage::new(
            LocalFirstLine::new(
                Version { major: None, minor: None, micro: None },
                Name::unknown(),
            ),
        )
    }

    /// A response of an unknown version and protocol, without fields.
    fn new_response(&self) -> (r: LocalMessage)
        ensures
            r@ == blank_message(),
    {
        LocalMessage::new(
            LocalFirstLine::new(
                Version { major: None, minor: None, micro: None },
                Name::unknown(),
            ),
        )
    }
}

} // verus!
