//! Parsing, validating, and rendering IRC protocol text.
pub mod parameters;
pub mod text;
pub mod validstr;

pub use crate::parameters::{
    FinalParam, MedialParam, MiddleParam, ParamRef, Parameter, ParseFinalParamError,
    ParseMedialParamError, ParseMiddleParamError, ParseTrailingParamError, TrailingParam,
};
pub use crate::validstr::TryFromStringError;
pub mod paramlist;
pub use crate::paramlist::{
    ParameterList, ParameterListBuilder, ParameterListIntoIter, ParseParameterListError,
    TryFromParameterListError,
};
pub mod names;
pub mod numfmt;
pub mod parameter;
pub use crate::names::{
    Channel, Key, KeyError, Modestring, Nickname, NicknameError, ParseChannelError,
    ParseModestringError, ParseUsernameError, Username, Verb,
};
pub mod command;
pub use crate::command::{Command, ParseCommandError};
pub mod host;
pub use crate::host::{Host, HostError, IpAddr};
pub mod source;
pub use crate::source::{ClientSource, ParseClientSourceError, ParseSourceError, Source};
pub mod raw_message;
pub use crate::raw_message::{ParseRawMessageError, RawMessage};
pub mod targets;
pub use crate::targets::{
    ModeTarget, ParseModeTargetError, ParseReplyTargetError, ParseTargetError, ReplyTarget, Target,
};
pub mod types;
pub use crate::types::{
    ChannelStatus, ISupportParam, ParseChannelStatusError, ParseISupportParamError,
    ParseUserHostReplyError, ParseWhoFlagsError, UserHostReply, WhoFlags,
};
pub mod replies;
pub use crate::replies::{Reply, ReplyError, ReplyParts};
pub mod formatting;
pub mod ctcp;
pub use crate::ctcp::{
    CtcpCommand, CtcpMessage, CtcpParams, ParseCtcpCommandError, ParseCtcpParamsError,
};
pub mod climsg;
pub use crate::climsg::{ClientMessage, ClientMessageError};
pub mod message;
pub use crate::message::{Message, MessageError, ParseMessageError, Payload};
