//! Messages: an optional source and an interpreted payload, either a client
//! message or a numeric reply.
use crate::climsg::{ClientMessage, ClientMessageError};
use crate::command::{Command, CommandView};
use crate::numfmt::{decimal_padded, push_decimal_padded};
use crate::paramlist::{render_params, ParameterList, ParamsView};
use crate::raw_message::{parse_raw, render_prefix, ParseRawMessageError, RawMessage, RawView};
use crate::replies::{check_reply, is_known_code, Reply, ReplyError, ReplyErrorView, ReplyParts};
use crate::source::{render_source, Source, SourceView};
use crate::text::{push_char, push_str};
use crate::validstr::TryFromStringError;
use vstd::prelude::*;
use vstd::std_specs::convert::FromSpecImpl;

verus! {

/// The payload of a message
#[derive(Clone, Debug, PartialEq, Eq)]
pub enum Payload {
    ClientMessage(ClientMessage),
    Reply(Reply),
}

/// Why a command and parameters do not form a payload
#[derive(Clone, Debug, PartialEq, Eq)]
pub enum MessageError {
    ClientMessage(ClientMessageError),
    Reply(ReplyError),
}

/// Why a line is not a valid message
#[derive(Clone, Debug, PartialEq, Eq)]
pub enum ParseMessageError {
    ParseRaw(ParseRawMessageError),
    Convert(MessageError),
}

/// Whether `p` is the reply whose code and parameters are `code` and `params`
pub open spec fn is_reply_payload(p: Payload, code: u16, params: ParamsView) -> bool {
    p matches Payload::Reply(r) && r@ == (code, params)
}

/// A payload read from a reply command and parameters is a reply and not a
/// client message, and its parts, as [`Payload::into_parts`] gives them, are
/// that command and those parameters
pub proof fn lemma_payload_parts(p: Payload, cmd: CommandView, params: ParamsView)
    requires
        cmd is Reply,
        is_reply_payload(p, cmd->Reply_0, params),
    ensures
        p is Reply,
        !(p is ClientMessage),
        CommandView::Reply(p->Reply_0@.0) == cmd,
        p->Reply_0@.1 == params,
{
}

impl Payload {
    pub fn is_client_message(&self) -> (r: bool)
        ensures
            r == (self is ClientMessage),
    {
        matches!(self, Payload::ClientMessage(_))
    }

    pub fn is_reply(&self) -> (r: bool)
        ensures
            r == (self is Reply),
    {
        matches!(self, Payload::Reply(_))
    }

    /// Reads a reply command and its parameters as a payload.  Client
    /// messages are not read yet, so the command must be a reply code.
    pub fn from_parts(cmd: Command, params: ParameterList) -> (r: Result<Payload, MessageError>)
        requires
            cmd is Reply,
        ensures
            match r {
                Ok(p) => check_reply(cmd->Reply_0, params@) is Ok && is_reply_payload(p, cmd->Reply_0, params@)
                    && (p->Reply_0 is Unknown <==> !is_known_code(cmd->Reply_0)),
                Err(e) => e matches MessageError::Reply(re) && check_reply(cmd->Reply_0, params@) == Err::<(), ReplyErrorView>(re@),
            },
    {
        match cmd {
            Command::Reply(code) => match Reply::from_parts(code, params) {
                Ok(reply) => Ok(Payload::Reply(reply)),
                Err(e) => Err(MessageError::Reply(e)),
            },
            Command::Verb(_) => {
                assert(false);
                unreached()
            },
        }
    }

    /// The command and parameters of a reply payload
    pub fn into_parts(self) -> (r: (Command, ParameterList))
        requires
            self is Reply,
        ensures
            r.0@ == CommandView::Reply(self->Reply_0@.0),
            r.1@ == self->Reply_0@.1,
            check_reply(self->Reply_0@.0, r.1@) is Ok,
    {
        match self {
            Payload::Reply(reply) => {
                let (code, params) = reply.into_parts();
                (Command::Reply(code), params)
            },
            Payload::ClientMessage(_) => {
                assert(false);
                unreached()
            },
        }
    }
}

/// A message: an optional source and a payload
#[derive(Clone, Debug, PartialEq, Eq)]
pub struct Message {
    pub source: Option<Source>,
    pub payload: Payload,
}

/// The view of an optional source
pub open spec fn opt_source_view(s: Option<Source>) -> Option<SourceView> {
    match s {
        Some(x) => Some(x@),
        None => None,
    }
}

/// The text of a reply message with source `source`: the source prefix, the
/// three-digit code, and the parameters right after it
pub open spec fn render_reply_message(source: Option<SourceView>, code: u16, params: ParamsView) -> Seq<char> {
    render_prefix(source) + decimal_padded(code as nat, 3) + render_params(params)
}

impl Message {
    /// A message without a source
    pub fn from_payload(payload: Payload) -> (r: Message)
        ensures
            r.source is None,
            r.payload == payload,
    {
        Message { source: None, payload }
    }

    /// A reply message without a source
    pub fn from_reply(reply: Reply) -> (r: Message)
        ensures
            r.source is None,
            r.payload == Payload::Reply(reply),
    {
        Message { source: None, payload: Payload::Reply(reply) }
    }

    /// Interprets a raw message whose command is a reply code
    pub fn try_from_raw(msg: RawMessage) -> (r: Result<Message, MessageError>)
        requires
            msg.command is Reply,
        ensures
            match r {
                Ok(m) => opt_source_view(m.source) == msg@.source && check_reply(msg.command->Reply_0, msg.parameters@) is Ok
                    && is_reply_payload(m.payload, msg.command->Reply_0, msg.parameters@),
                Err(e) => e matches MessageError::Reply(re) && check_reply(msg.command->Reply_0, msg.parameters@) == Err::<(), ReplyErrorView>(re@),
            },
    {
        let RawMessage { source, command, parameters } = msg;
        match Payload::from_parts(command, parameters) {
            Ok(payload) => Ok(Message { source, payload }),
            Err(e) => Err(e),
        }
    }

    /// The raw form of a reply message
    pub fn into_raw(self) -> (r: RawMessage)
        requires
            self.payload is Reply,
        ensures
            r@.source == opt_source_view(self.source),
            r@.command == CommandView::Reply(self.payload->Reply_0@.0),
            r@.parameters == self.payload->Reply_0@.1,
    {
        let Message { source, payload } = self;
        let (command, parameters) = payload.into_parts();
        RawMessage { source, command, parameters }
    }

    /// Parses a line whose command is a reply code as a message
    pub fn parse_str(s: &str) -> (r: Result<Message, ParseMessageError>)
        requires
            parse_raw(s@) matches Ok(m) ==> m.command is Reply,
        ensures
            match r {
                Ok(m) => parse_raw(s@) matches Ok(raw) && opt_source_view(m.source) == raw.source
                    && check_reply(raw.command->Reply_0, raw.parameters) is Ok
                    && is_reply_payload(m.payload, raw.command->Reply_0, raw.parameters),
                Err(ParseMessageError::ParseRaw(e)) => parse_raw(s@) == Err::<RawView, ParseRawMessageError>(e),
                Err(ParseMessageError::Convert(e)) => parse_raw(s@) matches Ok(raw) && e matches MessageError::Reply(re)
                    && check_reply(raw.command->Reply_0, raw.parameters) == Err::<(), ReplyErrorView>(re@),
            },
    {
        match RawMessage::parse_str(s) {
            Ok(raw) => match Message::try_from_raw(raw) {
                Ok(m) => Ok(m),
                Err(e) => Err(ParseMessageError::Convert(e)),
            },
            Err(e) => Err(ParseMessageError::ParseRaw(e)),
        }
    }

    /// Parses a line whose command is a reply code as a message, returning the
    /// line back on failure
    pub fn try_from_string(string: String) -> (r: Result<Message, TryFromStringError<ParseMessageError>>)
        requires
            parse_raw(string@) matches Ok(m) ==> m.command is Reply,
        ensures
            r is Ok <==> (parse_raw(string@) matches Ok(raw) && check_reply(raw.command->Reply_0, raw.parameters) is Ok),
            r matches Err(e) ==> e.string@ == string@,
    {
        match Message::parse_str(string.as_str()) {
            Ok(m) => Ok(m),
            Err(inner) => Err(TryFromStringError { inner, string }),
        }
    }

    /// The text of a reply message: the source prefix, the code with three
    /// digits, and the parameters right after the code
    pub fn to_string(&self) -> (r: String)
        requires
            self.payload is Reply,
        ensures
            r@ == render_reply_message(opt_source_view(self.source), self.payload->Reply_0@.0, self.payload->Reply_0@.1),
    {
        let mut s = String::new();
        match &self.source {
            Some(src) => {
                push_char(&mut s, ':');
                let t = src.to_string();
                push_str(&mut s, t.as_str());
                push_char(&mut s, ' ');
            },
            None => {},
        }
        match &self.payload {
            Payload::Reply(reply) => {
                let code = reply.code();
                push_decimal_padded(&mut s, code as u64, 3);
                let p = reply.parameters().to_string();
                push_str(&mut s, p.as_str());
            },
            Payload::ClientMessage(_) => {
                assert(false);
            },
        }
        assert(s@ =~= render_reply_message(opt_source_view(self.source), self.payload->Reply_0@.0, self.payload->Reply_0@.1));
        s
    }
}


impl From<ClientMessage> for Payload {
    fn from(value: ClientMessage) -> (r: Payload)
        ensures
            r == Payload::ClientMessage(value),
    {
        Payload::ClientMessage(value)
    }
}

impl FromSpecImpl<ClientMessage> for Payload {
    open spec fn obeys_from_spec() -> bool {
        true
    }

    open spec fn from_spec(v: ClientMessage) -> Payload {
        Payload::ClientMessage(v)
    }
}

impl From<Reply> for Payload {
    fn from(value: Reply) -> (r: Payload)
        ensures
            r == Payload::Reply(value),
    {
        Payload::Reply(value)
    }
}

impl FromSpecImpl<Reply> for Payload {
    open spec fn obeys_from_spec() -> bool {
        true
    }

    open spec fn from_spec(v: Reply) -> Payload {
        Payload::Reply(v)
    }
}

impl From<Payload> for Message {
    /// A message of the payload without a source
    fn from(payload: Payload) -> (r: Message)
        ensures
            r == (Message { source: None, payload }),
    {
        Message { source: None, payload }
    }
}

impl FromSpecImpl<Payload> for Message {
    open spec fn obeys_from_spec() -> bool {
        true
    }

    open spec fn from_spec(v: Payload) -> Message {
        Message { source: None, payload: v }
    }
}

impl From<Reply> for Message {
    /// A message of the reply without a source
    fn from(reply: Reply) -> (r: Message)
        ensures
            r == (Message { source: None, payload: Payload::Reply(reply) }),
    {
        Message { source: None, payload: Payload::Reply(reply) }
    }
}

impl FromSpecImpl<Reply> for Message {
    open spec fn obeys_from_spec() -> bool {
        true
    }

    open spec fn from_spec(v: Reply) -> Message {
        Message { source: None, payload: Payload::Reply(v) }
    }
}

impl From<Reply> for RawMessage {
    /// The raw form of the reply, without a source
    fn from(reply: Reply) -> (r: RawMessage)
        ensures
            r@ == (RawView { source: None, command: CommandView::Reply(reply@.0), parameters: reply@.1 }),
    {
        let (code, parameters) = reply.into_parts();
        RawMessage { source: None, command: Command::Reply(code), parameters }
    }
}

impl FromSpecImpl<Reply> for RawMessage {
    open spec fn obeys_from_spec() -> bool {
        false
    }

    open spec fn from_spec(v: Reply) -> RawMessage {
        arbitrary()
    }
}

} // verus!
