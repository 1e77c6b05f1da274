//! Conversions from each kind of reply into a [`Reply`], a [`Message`] and a
//! [`RawMessage`].
use super::{
    Welcome, YourHost, Created, MyInfo, ISupport, RemoteISupport, Bounce, StatsCommands, EndOfStats, UModeIs, StatsUptime, StatsConn, LuserClient, LuserOp, LuserUnknown, LuserChannels, LuserMe, AdminMe, AdminLoc1, AdminLoc2, AdminEmail, TryAgain, LocalUsers, GlobalUsers, WhoIsCertFP, NoneReply, Away, UserHostRpl, UnAway, NowAway, WhoIsRegNick, WhoIsUser, WhoIsServer, WhoIsOperator, WhoWasUser, EndOfWho, WhoIsIdle, EndOfWhoIs, WhoIsChannels, WhoIsSpecial, ListStart, List, ListEnd, ChannelModeIs, ChannelUrl, CreationTime, WhoIsAccount, NoTopic, Topic, TopicWhoTime, InviteList, EndOfInviteList, WhoIsActually, Inviting, InvExList, EndOfInvExList, ExceptList, EndOfExceptList, Version, WhoReply, NamReply, Links, EndOfLinks, EndOfNames, BanList, EndOfBanList, EndOfWhoWas, Info, Motd, EndOfInfo, MotdStart, EndOfMotd, WhoIsHost, WhoIsModes, YoureOper, Rehashing, Time, UnknownError, NoSuchNick, NoSuchServer, NoSuchChannel, CannotSendToChan, TooManyChannels, WasNoSuchNick, NoOrigin, InvalidCapCmd, NoRecipient, NoTextToSend, InputTooLong, UnknownCommand, NoMotd, NoNicknameGiven, ErroneousNickname, NicknameInUse, NickCollision, UserNotInChannel, NotOnChannel, UserOnChannel, NotRegistered, NeedMoreParams, AlreadyRegistered, PasswdMismatch, YoureBannedCreep, ChannelIsFull, UnknownMode, InviteOnlyChan, BannedFromChan, BadChannelKey, BadChanMask, NoPrivileges, ChanOPrivsNeeded, CantKillServer, NoOperHost, UmodeUnknownFlag, UsersDontMatch, HelpNotFound, InvalidKey, StartTLS, WhoIsSecure, StartTLSError, InvalidModeParam, HelpStart, HelpTxt, EndOfHelp, NoPrivs, LoggedIn, LoggedOut, NickLocked, SaslSuccess, SaslFail, SaslTooLong, SaslAborted, SaslAlready, SaslMechs, Reply, ReplyParts, UnknownReply,
};
use crate::command::CommandView;
use crate::message::{Message, Payload};
use crate::raw_message::{RawMessage, RawView};
use vstd::prelude::*;
use vstd::std_specs::convert::FromSpecImpl;

verus! {

impl From<Welcome> for Reply {
    fn from(value: Welcome) -> (r: Reply)
        ensures
            r == Reply::Welcome(value),
    {
        Reply::Welcome(value)
    }
}

impl FromSpecImpl<Welcome> for Reply {
    open spec fn obeys_from_spec() -> bool {
        true
    }

    open spec fn from_spec(v: Welcome) -> Reply {
        Reply::Welcome(v)
    }
}

impl From<Welcome> for Message {
    fn from(value: Welcome) -> (r: Message)
        ensures
            r == (Message { source: None, payload: Payload::Reply(Reply::Welcome(value)) }),
    {
        Message::from(Reply::Welcome(value))
    }
}

impl FromSpecImpl<Welcome> for Message {
    open spec fn obeys_from_spec() -> bool {
        true
    }

    open spec fn from_spec(v: Welcome) -> Message {
        Message { source: None, payload: Payload::Reply(Reply::Welcome(v)) }
    }
}

impl From<Welcome> for RawMessage {
    fn from(value: Welcome) -> (r: RawMessage)
        ensures
            r@ == (RawView {
                source: None,
                command: CommandView::Reply(value.reply_code()),
                parameters: value.reply_params(),
            }),
    {
        RawMessage::from(Reply::Welcome(value))
    }
}

impl FromSpecImpl<Welcome> for RawMessage {
    open spec fn obeys_from_spec() -> bool {
        false
    }

    open spec fn from_spec(v: Welcome) -> RawMessage {
        arbitrary()
    }
}

impl From<YourHost> for Reply {
    fn from(value: YourHost) -> (r: Reply)
        ensures
            r == Reply::YourHost(value),
    {
        Reply::YourHost(value)
    }
}

impl FromSpecImpl<YourHost> for Reply {
    open spec fn obeys_from_spec() -> bool {
        true
    }

    open spec fn from_spec(v: YourHost) -> Reply {
        Reply::YourHost(v)
    }
}

impl From<YourHost> for Message {
    fn from(value: YourHost) -> (r: Message)
        ensures
            r == (Message { source: None, payload: Payload::Reply(Reply::YourHost(value)) }),
    {
        Message::from(Reply::YourHost(value))
    }
}

impl FromSpecImpl<YourHost> for Message {
    open spec fn obeys_from_spec() -> bool {
        true
    }

    open spec fn from_spec(v: YourHost) -> Message {
        Message { source: None, payload: Payload::Reply(Reply::YourHost(v)) }
    }
}

impl From<YourHost> for RawMessage {
    fn from(value: YourHost) -> (r: RawMessage)
        ensures
            r@ == (RawView {
                source: None,
                command: CommandView::Reply(value.reply_code()),
                parameters: value.reply_params(),
            }),
    {
        RawMessage::from(Reply::YourHost(value))
    }
}

impl FromSpecImpl<YourHost> for RawMessage {
    open spec fn obeys_from_spec() -> bool {
        false
    }

    open spec fn from_spec(v: YourHost) -> RawMessage {
        arbitrary()
    }
}

impl From<Created> for Reply {
    fn from(value: Created) -> (r: Reply)
        ensures
            r == Reply::Created(value),
    {
        Reply::Created(value)
    }
}

impl FromSpecImpl<Created> for Reply {
    open spec fn obeys_from_spec() -> bool {
        true
    }

    open spec fn from_spec(v: Created) -> Reply {
        Reply::Created(v)
    }
}

impl From<Created> for Message {
    fn from(value: Created) -> (r: Message)
        ensures
            r == (Message { source: None, payload: Payload::Reply(Reply::Created(value)) }),
    {
        Message::from(Reply::Created(value))
    }
}

impl FromSpecImpl<Created> for Message {
    open spec fn obeys_from_spec() -> bool {
        true
    }

    open spec fn from_spec(v: Created) -> Message {
        Message { source: None, payload: Payload::Reply(Reply::Created(v)) }
    }
}

impl From<Created> for RawMessage {
    fn from(value: Created) -> (r: RawMessage)
        ensures
            r@ == (RawView {
                source: None,
                command: CommandView::Reply(value.reply_code()),
                parameters: value.reply_params(),
            }),
    {
        RawMessage::from(Reply::Created(value))
    }
}

impl FromSpecImpl<Created> for RawMessage {
    open spec fn obeys_from_spec() -> bool {
        false
    }

    open spec fn from_spec(v: Created) -> RawMessage {
        arbitrary()
    }
}

impl From<MyInfo> for Reply {
    fn from(value: MyInfo) -> (r: Reply)
        ensures
            r == Reply::MyInfo(value),
    {
        Reply::MyInfo(value)
    }
}

impl FromSpecImpl<MyInfo> for Reply {
    open spec fn obeys_from_spec() -> bool {
        true
    }

    open spec fn from_spec(v: MyInfo) -> Reply {
        Reply::MyInfo(v)
    }
}

impl From<MyInfo> for Message {
    fn from(value: MyInfo) -> (r: Message)
        ensures
            r == (Message { source: None, payload: Payload::Reply(Reply::MyInfo(value)) }),
    {
        Message::from(Reply::MyInfo(value))
    }
}

impl FromSpecImpl<MyInfo> for Message {
    open spec fn obeys_from_spec() -> bool {
        true
    }

    open spec fn from_spec(v: MyInfo) -> Message {
        Message { source: None, payload: Payload::Reply(Reply::MyInfo(v)) }
    }
}

impl From<MyInfo> for RawMessage {
    fn from(value: MyInfo) -> (r: RawMessage)
        ensures
            r@ == (RawView {
                source: None,
                command: CommandView::Reply(value.reply_code()),
                parameters: value.reply_params(),
            }),
    {
        RawMessage::from(Reply::MyInfo(value))
    }
}

impl FromSpecImpl<MyInfo> for RawMessage {
    open spec fn obeys_from_spec() -> bool {
        false
    }

    open spec fn from_spec(v: MyInfo) -> RawMessage {
        arbitrary()
    }
}

impl From<ISupport> for Reply {
    fn from(value: ISupport) -> (r: Reply)
        ensures
            r == Reply::ISupport(value),
    {
        Reply::ISupport(value)
    }
}

impl FromSpecImpl<ISupport> for Reply {
    open spec fn obeys_from_spec() -> bool {
        true
    }

    open spec fn from_spec(v: ISupport) -> Reply {
        Reply::ISupport(v)
    }
}

impl From<ISupport> for Message {
    fn from(value: ISupport) -> (r: Message)
        ensures
            r == (Message { source: None, payload: Payload::Reply(Reply::ISupport(value)) }),
    {
        Message::from(Reply::ISupport(value))
    }
}

impl FromSpecImpl<ISupport> for Message {
    open spec fn obeys_from_spec() -> bool {
        true
    }

    open spec fn from_spec(v: ISupport) -> Message {
        Message { source: None, payload: Payload::Reply(Reply::ISupport(v)) }
    }
}

impl From<ISupport> for RawMessage {
    fn from(value: ISupport) -> (r: RawMessage)
        ensures
            r@ == (RawView {
                source: None,
                command: CommandView::Reply(value.reply_code()),
                parameters: value.reply_params(),
            }),
    {
        RawMessage::from(Reply::ISupport(value))
    }
}

impl FromSpecImpl<ISupport> for RawMessage {
    open spec fn obeys_from_spec() -> bool {
        false
    }

    open spec fn from_spec(v: ISupport) -> RawMessage {
        arbitrary()
    }
}

impl From<RemoteISupport> for Reply {
    fn from(value: RemoteISupport) -> (r: Reply)
        ensures
            r == Reply::RemoteISupport(value),
    {
        Reply::RemoteISupport(value)
    }
}

impl FromSpecImpl<RemoteISupport> for Reply {
    open spec fn obeys_from_spec() -> bool {
        true
    }

    open spec fn from_spec(v: RemoteISupport) -> Reply {
        Reply::RemoteISupport(v)
    }
}

impl From<RemoteISupport> for Message {
    fn from(value: RemoteISupport) -> (r: Message)
        ensures
            r == (Message { source: None, payload: Payload::Reply(Reply::RemoteISupport(value)) }),
    {
        Message::from(Reply::RemoteISupport(value))
    }
}

impl FromSpecImpl<RemoteISupport> for Message {
    open spec fn obeys_from_spec() -> bool {
        true
    }

    open spec fn from_spec(v: RemoteISupport) -> Message {
        Message { source: None, payload: Payload::Reply(Reply::RemoteISupport(v)) }
    }
}

impl From<RemoteISupport> for RawMessage {
    fn from(value: RemoteISupport) -> (r: RawMessage)
        ensures
            r@ == (RawView {
                source: None,
                command: CommandView::Reply(value.reply_code()),
                parameters: value.reply_params(),
            }),
    {
        RawMessage::from(Reply::RemoteISupport(value))
    }
}

impl FromSpecImpl<RemoteISupport> for RawMessage {
    open spec fn obeys_from_spec() -> bool {
        false
    }

    open spec fn from_spec(v: RemoteISupport) -> RawMessage {
        arbitrary()
    }
}

impl From<Bounce> for Reply {
    fn from(value: Bounce) -> (r: Reply)
        ensures
            r == Reply::Bounce(value),
    {
        Reply::Bounce(value)
    }
}

impl FromSpecImpl<Bounce> for Reply {
    open spec fn obeys_from_spec() -> bool {
        true
    }

    open spec fn from_spec(v: Bounce) -> Reply {
        Reply::Bounce(v)
    }
}

impl From<Bounce> for Message {
    fn from(value: Bounce) -> (r: Message)
        ensures
            r == (Message { source: None, payload: Payload::Reply(Reply::Bounce(value)) }),
    {
        Message::from(Reply::Bounce(value))
    }
}

impl FromSpecImpl<Bounce> for Message {
    open spec fn obeys_from_spec() -> bool {
        true
    }

    open spec fn from_spec(v: Bounce) -> Message {
        Message { source: None, payload: Payload::Reply(Reply::Bounce(v)) }
    }
}

impl From<Bounce> for RawMessage {
    fn from(value: Bounce) -> (r: RawMessage)
        ensures
            r@ == (RawView {
                source: None,
                command: CommandView::Reply(value.reply_code()),
                parameters: value.reply_params(),
            }),
    {
        RawMessage::from(Reply::Bounce(value))
    }
}

impl FromSpecImpl<Bounce> for RawMessage {
    open spec fn obeys_from_spec() -> bool {
        false
    }

    open spec fn from_spec(v: Bounce) -> RawMessage {
        arbitrary()
    }
}

impl From<StatsCommands> for Reply {
    fn from(value: StatsCommands) -> (r: Reply)
        ensures
            r == Reply::StatsCommands(value),
    {
        Reply::StatsCommands(value)
    }
}

impl FromSpecImpl<StatsCommands> for Reply {
    open spec fn obeys_from_spec() -> bool {
        true
    }

    open spec fn from_spec(v: StatsCommands) -> Reply {
        Reply::StatsCommands(v)
    }
}

impl From<StatsCommands> for Message {
    fn from(value: StatsCommands) -> (r: Message)
        ensures
            r == (Message { source: None, payload: Payload::Reply(Reply::StatsCommands(value)) }),
    {
        Message::from(Reply::StatsCommands(value))
    }
}

impl FromSpecImpl<StatsCommands> for Message {
    open spec fn obeys_from_spec() -> bool {
        true
    }

    open spec fn from_spec(v: StatsCommands) -> Message {
        Message { source: None, payload: Payload::Reply(Reply::StatsCommands(v)) }
    }
}

impl From<StatsCommands> for RawMessage {
    fn from(value: StatsCommands) -> (r: RawMessage)
        ensures
            r@ == (RawView {
                source: None,
                command: CommandView::Reply(value.reply_code()),
                parameters: value.reply_params(),
            }),
    {
        RawMessage::from(Reply::StatsCommands(value))
    }
}

impl FromSpecImpl<StatsCommands> for RawMessage {
    open spec fn obeys_from_spec() -> bool {
        false
    }

    open spec fn from_spec(v: StatsCommands) -> RawMessage {
        arbitrary()
    }
}

impl From<EndOfStats> for Reply {
    fn from(value: EndOfStats) -> (r: Reply)
        ensures
            r == Reply::EndOfStats(value),
    {
        Reply::EndOfStats(value)
    }
}

impl FromSpecImpl<EndOfStats> for Reply {
    open spec fn obeys_from_spec() -> bool {
        true
    }

    open spec fn from_spec(v: EndOfStats) -> Reply {
        Reply::EndOfStats(v)
    }
}

impl From<EndOfStats> for Message {
    fn from(value: EndOfStats) -> (r: Message)
        ensures
            r == (Message { source: None, payload: Payload::Reply(Reply::EndOfStats(value)) }),
    {
        Message::from(Reply::EndOfStats(value))
    }
}

impl FromSpecImpl<EndOfStats> for Message {
    open spec fn obeys_from_spec() -> bool {
        true
    }

    open spec fn from_spec(v: EndOfStats) -> Message {
        Message { source: None, payload: Payload::Reply(Reply::EndOfStats(v)) }
    }
}

impl From<EndOfStats> for RawMessage {
    fn from(value: EndOfStats) -> (r: RawMessage)
        ensures
            r@ == (RawView {
                source: None,
                command: CommandView::Reply(value.reply_code()),
                parameters: value.reply_params(),
            }),
    {
        RawMessage::from(Reply::EndOfStats(value))
    }
}

impl FromSpecImpl<EndOfStats> for RawMessage {
    open spec fn obeys_from_spec() -> bool {
        false
    }

    open spec fn from_spec(v: EndOfStats) -> RawMessage {
        arbitrary()
    }
}

impl From<UModeIs> for Reply {
    fn from(value: UModeIs) -> (r: Reply)
        ensures
            r == Reply::UModeIs(value),
    {
        Reply::UModeIs(value)
    }
}

impl FromSpecImpl<UModeIs> for Reply {
    open spec fn obeys_from_spec() -> bool {
        true
    }

    open spec fn from_spec(v: UModeIs) -> Reply {
        Reply::UModeIs(v)
    }
}

impl From<UModeIs> for Message {
    fn from(value: UModeIs) -> (r: Message)
        ensures
            r == (Message { source: None, payload: Payload::Reply(Reply::UModeIs(value)) }),
    {
        Message::from(Reply::UModeIs(value))
    }
}

impl FromSpecImpl<UModeIs> for Message {
    open spec fn obeys_from_spec() -> bool {
        true
    }

    open spec fn from_spec(v: UModeIs) -> Message {
        Message { source: None, payload: Payload::Reply(Reply::UModeIs(v)) }
    }
}

impl From<UModeIs> for RawMessage {
    fn from(value: UModeIs) -> (r: RawMessage)
        ensures
            r@ == (RawView {
                source: None,
                command: CommandView::Reply(value.reply_code()),
                parameters: value.reply_params(),
            }),
    {
        RawMessage::from(Reply::UModeIs(value))
    }
}

impl FromSpecImpl<UModeIs> for RawMessage {
    open spec fn obeys_from_spec() -> bool {
        false
    }

    open spec fn from_spec(v: UModeIs) -> RawMessage {
        arbitrary()
    }
}

impl From<StatsUptime> for Reply {
    fn from(value: StatsUptime) -> (r: Reply)
        ensures
            r == Reply::StatsUptime(value),
    {
        Reply::StatsUptime(value)
    }
}

impl FromSpecImpl<StatsUptime> for Reply {
    open spec fn obeys_from_spec() -> bool {
        true
    }

    open spec fn from_spec(v: StatsUptime) -> Reply {
        Reply::StatsUptime(v)
    }
}

impl From<StatsUptime> for Message {
    fn from(value: StatsUptime) -> (r: Message)
        ensures
            r == (Message { source: None, payload: Payload::Reply(Reply::StatsUptime(value)) }),
    {
        Message::from(Reply::StatsUptime(value))
    }
}

impl FromSpecImpl<StatsUptime> for Message {
    open spec fn obeys_from_spec() -> bool {
        true
    }

    open spec fn from_spec(v: StatsUptime) -> Message {
        Message { source: None, payload: Payload::Reply(Reply::StatsUptime(v)) }
    }
}

impl From<StatsUptime> for RawMessage {
    fn from(value: StatsUptime) -> (r: RawMessage)
        ensures
            r@ == (RawView {
                source: None,
                command: CommandView::Reply(value.reply_code()),
                parameters: value.reply_params(),
            }),
    {
        RawMessage::from(Reply::StatsUptime(value))
    }
}

impl FromSpecImpl<StatsUptime> for RawMessage {
    open spec fn obeys_from_spec() -> bool {
        false
    }

    open spec fn from_spec(v: StatsUptime) -> RawMessage {
        arbitrary()
    }
}

impl From<StatsConn> for Reply {
    fn from(value: StatsConn) -> (r: Reply)
        ensures
            r == Reply::StatsConn(value),
    {
        Reply::StatsConn(value)
    }
}

impl FromSpecImpl<StatsConn> for Reply {
    open spec fn obeys_from_spec() -> bool {
        true
    }

    open spec fn from_spec(v: StatsConn) -> Reply {
        Reply::StatsConn(v)
    }
}

impl From<StatsConn> for Message {
    fn from(value: StatsConn) -> (r: Message)
        ensures
            r == (Message { source: None, payload: Payload::Reply(Reply::StatsConn(value)) }),
    {
        Message::from(Reply::StatsConn(value))
    }
}

impl FromSpecImpl<StatsConn> for Message {
    open spec fn obeys_from_spec() -> bool {
        true
    }

    open spec fn from_spec(v: StatsConn) -> Message {
        Message { source: None, payload: Payload::Reply(Reply::StatsConn(v)) }
    }
}

impl From<StatsConn> for RawMessage {
    fn from(value: StatsConn) -> (r: RawMessage)
        ensures
            r@ == (RawView {
                source: None,
                command: CommandView::Reply(value.reply_code()),
                parameters: value.reply_params(),
            }),
    {
        RawMessage::from(Reply::StatsConn(value))
    }
}

impl FromSpecImpl<StatsConn> for RawMessage {
    open spec fn obeys_from_spec() -> bool {
        false
    }

    open spec fn from_spec(v: StatsConn) -> RawMessage {
        arbitrary()
    }
}

impl From<LuserClient> for Reply {
    fn from(value: LuserClient) -> (r: Reply)
        ensures
            r == Reply::LuserClient(value),
    {
        Reply::LuserClient(value)
    }
}

impl FromSpecImpl<LuserClient> for Reply {
    open spec fn obeys_from_spec() -> bool {
        true
    }

    open spec fn from_spec(v: LuserClient) -> Reply {
        Reply::LuserClient(v)
    }
}

impl From<LuserClient> for Message {
    fn from(value: LuserClient) -> (r: Message)
        ensures
            r == (Message { source: None, payload: Payload::Reply(Reply::LuserClient(value)) }),
    {
        Message::from(Reply::LuserClient(value))
    }
}

impl FromSpecImpl<LuserClient> for Message {
    open spec fn obeys_from_spec() -> bool {
        true
    }

    open spec fn from_spec(v: LuserClient) -> Message {
        Message { source: None, payload: Payload::Reply(Reply::LuserClient(v)) }
    }
}

impl From<LuserClient> for RawMessage {
    fn from(value: LuserClient) -> (r: RawMessage)
        ensures
            r@ == (RawView {
                source: None,
                command: CommandView::Reply(value.reply_code()),
                parameters: value.reply_params(),
            }),
    {
        RawMessage::from(Reply::LuserClient(value))
    }
}

impl FromSpecImpl<LuserClient> for RawMessage {
    open spec fn obeys_from_spec() -> bool {
        false
    }

    open spec fn from_spec(v: LuserClient) -> RawMessage {
        arbitrary()
    }
}

impl From<LuserOp> for Reply {
    fn from(value: LuserOp) -> (r: Reply)
        ensures
            r == Reply::LuserOp(value),
    {
        Reply::LuserOp(value)
    }
}

impl FromSpecImpl<LuserOp> for Reply {
    open spec fn obeys_from_spec() -> bool {
        true
    }

    open spec fn from_spec(v: LuserOp) -> Reply {
        Reply::LuserOp(v)
    }
}

impl From<LuserOp> for Message {
    fn from(value: LuserOp) -> (r: Message)
        ensures
            r == (Message { source: None, payload: Payload::Reply(Reply::LuserOp(value)) }),
    {
        Message::from(Reply::LuserOp(value))
    }
}

impl FromSpecImpl<LuserOp> for Message {
    open spec fn obeys_from_spec() -> bool {
        true
    }

    open spec fn from_spec(v: LuserOp) -> Message {
        Message { source: None, payload: Payload::Reply(Reply::LuserOp(v)) }
    }
}

impl From<LuserOp> for RawMessage {
    fn from(value: LuserOp) -> (r: RawMessage)
        ensures
            r@ == (RawView {
                source: None,
                command: CommandView::Reply(value.reply_code()),
                parameters: value.reply_params(),
            }),
    {
        RawMessage::from(Reply::LuserOp(value))
    }
}

impl FromSpecImpl<LuserOp> for RawMessage {
    open spec fn obeys_from_spec() -> bool {
        false
    }

    open spec fn from_spec(v: LuserOp) -> RawMessage {
        arbitrary()
    }
}

impl From<LuserUnknown> for Reply {
    fn from(value: LuserUnknown) -> (r: Reply)
        ensures
            r == Reply::LuserUnknown(value),
    {
        Reply::LuserUnknown(value)
    }
}

impl FromSpecImpl<LuserUnknown> for Reply {
    open spec fn obeys_from_spec() -> bool {
        true
    }

    open spec fn from_spec(v: LuserUnknown) -> Reply {
        Reply::LuserUnknown(v)
    }
}

impl From<LuserUnknown> for Message {
    fn from(value: LuserUnknown) -> (r: Message)
        ensures
            r == (Message { source: None, payload: Payload::Reply(Reply::LuserUnknown(value)) }),
    {
        Message::from(Reply::LuserUnknown(value))
    }
}

impl FromSpecImpl<LuserUnknown> for Message {
    open spec fn obeys_from_spec() -> bool {
        true
    }

    open spec fn from_spec(v: LuserUnknown) -> Message {
        Message { source: None, payload: Payload::Reply(Reply::LuserUnknown(v)) }
    }
}

impl From<LuserUnknown> for RawMessage {
    fn from(value: LuserUnknown) -> (r: RawMessage)
        ensures
            r@ == (RawView {
                source: None,
                command: CommandView::Reply(value.reply_code()),
                parameters: value.reply_params(),
            }),
    {
        RawMessage::from(Reply::LuserUnknown(value))
    }
}

impl FromSpecImpl<LuserUnknown> for RawMessage {
    open spec fn obeys_from_spec() -> bool {
        false
    }

    open spec fn from_spec(v: LuserUnknown) -> RawMessage {
        arbitrary()
    }
}

impl From<LuserChannels> for Reply {
    fn from(value: LuserChannels) -> (r: Reply)
        ensures
            r == Reply::LuserChannels(value),
    {
        Reply::LuserChannels(value)
    }
}

impl FromSpecImpl<LuserChannels> for Reply {
    open spec fn obeys_from_spec() -> bool {
        true
    }

    open spec fn from_spec(v: LuserChannels) -> Reply {
        Reply::LuserChannels(v)
    }
}

impl From<LuserChannels> for Message {
    fn from(value: LuserChannels) -> (r: Message)
        ensures
            r == (Message { source: None, payload: Payload::Reply(Reply::LuserChannels(value)) }),
    {
        Message::from(Reply::LuserChannels(value))
    }
}

impl FromSpecImpl<LuserChannels> for Message {
    open spec fn obeys_from_spec() -> bool {
        true
    }

    open spec fn from_spec(v: LuserChannels) -> Message {
        Message { source: None, payload: Payload::Reply(Reply::LuserChannels(v)) }
    }
}

impl From<LuserChannels> for RawMessage {
    fn from(value: LuserChannels) -> (r: RawMessage)
        ensures
            r@ == (RawView {
                source: None,
                command: CommandView::Reply(value.reply_code()),
                parameters: value.reply_params(),
            }),
    {
        RawMessage::from(Reply::LuserChannels(value))
    }
}

impl FromSpecImpl<LuserChannels> for RawMessage {
    open spec fn obeys_from_spec() -> bool {
        false
    }

    open spec fn from_spec(v: LuserChannels) -> RawMessage {
        arbitrary()
    }
}

impl From<LuserMe> for Reply {
    fn from(value: LuserMe) -> (r: Reply)
        ensures
            r == Reply::LuserMe(value),
    {
        Reply::LuserMe(value)
    }
}

impl FromSpecImpl<LuserMe> for Reply {
    open spec fn obeys_from_spec() -> bool {
        true
    }

    open spec fn from_spec(v: LuserMe) -> Reply {
        Reply::LuserMe(v)
    }
}

impl From<LuserMe> for Message {
    fn from(value: LuserMe) -> (r: Message)
        ensures
            r == (Message { source: None, payload: Payload::Reply(Reply::LuserMe(value)) }),
    {
        Message::from(Reply::LuserMe(value))
    }
}

impl FromSpecImpl<LuserMe> for Message {
    open spec fn obeys_from_spec() -> bool {
        true
    }

    open spec fn from_spec(v: LuserMe) -> Message {
        Message { source: None, payload: Payload::Reply(Reply::LuserMe(v)) }
    }
}

impl From<LuserMe> for RawMessage {
    fn from(value: LuserMe) -> (r: RawMessage)
        ensures
            r@ == (RawView {
                source: None,
                command: CommandView::Reply(value.reply_code()),
                parameters: value.reply_params(),
            }),
    {
        RawMessage::from(Reply::LuserMe(value))
    }
}

impl FromSpecImpl<LuserMe> for RawMessage {
    open spec fn obeys_from_spec() -> bool {
        false
    }

    open spec fn from_spec(v: LuserMe) -> RawMessage {
        arbitrary()
    }
}

impl From<AdminMe> for Reply {
    fn from(value: AdminMe) -> (r: Reply)
        ensures
            r == Reply::AdminMe(value),
    {
        Reply::AdminMe(value)
    }
}

impl FromSpecImpl<AdminMe> for Reply {
    open spec fn obeys_from_spec() -> bool {
        true
    }

    open spec fn from_spec(v: AdminMe) -> Reply {
        Reply::AdminMe(v)
    }
}

impl From<AdminMe> for Message {
    fn from(value: AdminMe) -> (r: Message)
        ensures
            r == (Message { source: None, payload: Payload::Reply(Reply::AdminMe(value)) }),
    {
        Message::from(Reply::AdminMe(value))
    }
}

impl FromSpecImpl<AdminMe> for Message {
    open spec fn obeys_from_spec() -> bool {
        true
    }

    open spec fn from_spec(v: AdminMe) -> Message {
        Message { source: None, payload: Payload::Reply(Reply::AdminMe(v)) }
    }
}

impl From<AdminMe> for RawMessage {
    fn from(value: AdminMe) -> (r: RawMessage)
        ensures
            r@ == (RawView {
                source: None,
                command: CommandView::Reply(value.reply_code()),
                parameters: value.reply_params(),
            }),
    {
        RawMessage::from(Reply::AdminMe(value))
    }
}

impl FromSpecImpl<AdminMe> for RawMessage {
    open spec fn obeys_from_spec() -> bool {
        false
    }

    open spec fn from_spec(v: AdminMe) -> RawMessage {
        arbitrary()
    }
}

impl From<AdminLoc1> for Reply {
    fn from(value: AdminLoc1) -> (r: Reply)
        ensures
            r == Reply::AdminLoc1(value),
    {
        Reply::AdminLoc1(value)
    }
}

impl FromSpecImpl<AdminLoc1> for Reply {
    open spec fn obeys_from_spec() -> bool {
        true
    }

    open spec fn from_spec(v: AdminLoc1) -> Reply {
        Reply::AdminLoc1(v)
    }
}

impl From<AdminLoc1> for Message {
    fn from(value: AdminLoc1) -> (r: Message)
        ensures
            r == (Message { source: None, payload: Payload::Reply(Reply::AdminLoc1(value)) }),
    {
        Message::from(Reply::AdminLoc1(value))
    }
}

impl FromSpecImpl<AdminLoc1> for Message {
    open spec fn obeys_from_spec() -> bool {
        true
    }

    open spec fn from_spec(v: AdminLoc1) -> Message {
        Message { source: None, payload: Payload::Reply(Reply::AdminLoc1(v)) }
    }
}

impl From<AdminLoc1> for RawMessage {
    fn from(value: AdminLoc1) -> (r: RawMessage)
        ensures
            r@ == (RawView {
                source: None,
                command: CommandView::Reply(value.reply_code()),
                parameters: value.reply_params(),
            }),
    {
        RawMessage::from(Reply::AdminLoc1(value))
    }
}

impl FromSpecImpl<AdminLoc1> for RawMessage {
    open spec fn obeys_from_spec() -> bool {
        false
    }

    open spec fn from_spec(v: AdminLoc1) -> RawMessage {
        arbitrary()
    }
}

impl From<AdminLoc2> for Reply {
    fn from(value: AdminLoc2) -> (r: Reply)
        ensures
            r == Reply::AdminLoc2(value),
    {
        Reply::AdminLoc2(value)
    }
}

impl FromSpecImpl<AdminLoc2> for Reply {
    open spec fn obeys_from_spec() -> bool {
        true
    }

    open spec fn from_spec(v: AdminLoc2) -> Reply {
        Reply::AdminLoc2(v)
    }
}

impl From<AdminLoc2> for Message {
    fn from(value: AdminLoc2) -> (r: Message)
        ensures
            r == (Message { source: None, payload: Payload::Reply(Reply::AdminLoc2(value)) }),
    {
        Message::from(Reply::AdminLoc2(value))
    }
}

impl FromSpecImpl<AdminLoc2> for Message {
    open spec fn obeys_from_spec() -> bool {
        true
    }

    open spec fn from_spec(v: AdminLoc2) -> Message {
        Message { source: None, payload: Payload::Reply(Reply::AdminLoc2(v)) }
    }
}

impl From<AdminLoc2> for RawMessage {
    fn from(value: AdminLoc2) -> (r: RawMessage)
        ensures
            r@ == (RawView {
                source: None,
                command: CommandView::Reply(value.reply_code()),
                parameters: value.reply_params(),
            }),
    {
        RawMessage::from(Reply::AdminLoc2(value))
    }
}

impl FromSpecImpl<AdminLoc2> for RawMessage {
    open spec fn obeys_from_spec() -> bool {
        false
    }

    open spec fn from_spec(v: AdminLoc2) -> RawMessage {
        arbitrary()
    }
}

impl From<AdminEmail> for Reply {
    fn from(value: AdminEmail) -> (r: Reply)
        ensures
            r == Reply::AdminEmail(value),
    {
        Reply::AdminEmail(value)
    }
}

impl FromSpecImpl<AdminEmail> for Reply {
    open spec fn obeys_from_spec() -> bool {
        true
    }

    open spec fn from_spec(v: AdminEmail) -> Reply {
        Reply::AdminEmail(v)
    }
}

impl From<AdminEmail> for Message {
    fn from(value: AdminEmail) -> (r: Message)
        ensures
            r == (Message { source: None, payload: Payload::Reply(Reply::AdminEmail(value)) }),
    {
        Message::from(Reply::AdminEmail(value))
    }
}

impl FromSpecImpl<AdminEmail> for Message {
    open spec fn obeys_from_spec() -> bool {
        true
    }

    open spec fn from_spec(v: AdminEmail) -> Message {
        Message { source: None, payload: Payload::Reply(Reply::AdminEmail(v)) }
    }
}

impl From<AdminEmail> for RawMessage {
    fn from(value: AdminEmail) -> (r: RawMessage)
        ensures
            r@ == (RawView {
                source: None,
                command: CommandView::Reply(value.reply_code()),
                parameters: value.reply_params(),
            }),
    {
        RawMessage::from(Reply::AdminEmail(value))
    }
}

impl FromSpecImpl<AdminEmail> for RawMessage {
    open spec fn obeys_from_spec() -> bool {
        false
    }

    open spec fn from_spec(v: AdminEmail) -> RawMessage {
        arbitrary()
    }
}

impl From<TryAgain> for Reply {
    fn from(value: TryAgain) -> (r: Reply)
        ensures
            r == Reply::TryAgain(value),
    {
        Reply::TryAgain(value)
    }
}

impl FromSpecImpl<TryAgain> for Reply {
    open spec fn obeys_from_spec() -> bool {
        true
    }

    open spec fn from_spec(v: TryAgain) -> Reply {
        Reply::TryAgain(v)
    }
}

impl From<TryAgain> for Message {
    fn from(value: TryAgain) -> (r: Message)
        ensures
            r == (Message { source: None, payload: Payload::Reply(Reply::TryAgain(value)) }),
    {
        Message::from(Reply::TryAgain(value))
    }
}

impl FromSpecImpl<TryAgain> for Message {
    open spec fn obeys_from_spec() -> bool {
        true
    }

    open spec fn from_spec(v: TryAgain) -> Message {
        Message { source: None, payload: Payload::Reply(Reply::TryAgain(v)) }
    }
}

impl From<TryAgain> for RawMessage {
    fn from(value: TryAgain) -> (r: RawMessage)
        ensures
            r@ == (RawView {
                source: None,
                command: CommandView::Reply(value.reply_code()),
                parameters: value.reply_params(),
            }),
    {
        RawMessage::from(Reply::TryAgain(value))
    }
}

impl FromSpecImpl<TryAgain> for RawMessage {
    open spec fn obeys_from_spec() -> bool {
        false
    }

    open spec fn from_spec(v: TryAgain) -> RawMessage {
        arbitrary()
    }
}

impl From<LocalUsers> for Reply {
    fn from(value: LocalUsers) -> (r: Reply)
        ensures
            r == Reply::LocalUsers(value),
    {
        Reply::LocalUsers(value)
    }
}

impl FromSpecImpl<LocalUsers> for Reply {
    open spec fn obeys_from_spec() -> bool {
        true
    }

    open spec fn from_spec(v: LocalUsers) -> Reply {
        Reply::LocalUsers(v)
    }
}

impl From<LocalUsers> for Message {
    fn from(value: LocalUsers) -> (r: Message)
        ensures
            r == (Message { source: None, payload: Payload::Reply(Reply::LocalUsers(value)) }),
    {
        Message::from(Reply::LocalUsers(value))
    }
}

impl FromSpecImpl<LocalUsers> for Message {
    open spec fn obeys_from_spec() -> bool {
        true
    }

    open spec fn from_spec(v: LocalUsers) -> Message {
        Message { source: None, payload: Payload::Reply(Reply::LocalUsers(v)) }
    }
}

impl From<LocalUsers> for RawMessage {
    fn from(value: LocalUsers) -> (r: RawMessage)
        ensures
            r@ == (RawView {
                source: None,
                command: CommandView::Reply(value.reply_code()),
                parameters: value.reply_params(),
            }),
    {
        RawMessage::from(Reply::LocalUsers(value))
    }
}

impl FromSpecImpl<LocalUsers> for RawMessage {
    open spec fn obeys_from_spec() -> bool {
        false
    }

    open spec fn from_spec(v: LocalUsers) -> RawMessage {
        arbitrary()
    }
}

impl From<GlobalUsers> for Reply {
    fn from(value: GlobalUsers) -> (r: Reply)
        ensures
            r == Reply::GlobalUsers(value),
    {
        Reply::GlobalUsers(value)
    }
}

impl FromSpecImpl<GlobalUsers> for Reply {
    open spec fn obeys_from_spec() -> bool {
        true
    }

    open spec fn from_spec(v: GlobalUsers) -> Reply {
        Reply::GlobalUsers(v)
    }
}

impl From<GlobalUsers> for Message {
    fn from(value: GlobalUsers) -> (r: Message)
        ensures
            r == (Message { source: None, payload: Payload::Reply(Reply::GlobalUsers(value)) }),
    {
        Message::from(Reply::GlobalUsers(value))
    }
}

impl FromSpecImpl<GlobalUsers> for Message {
    open spec fn obeys_from_spec() -> bool {
        true
    }

    open spec fn from_spec(v: GlobalUsers) -> Message {
        Message { source: None, payload: Payload::Reply(Reply::GlobalUsers(v)) }
    }
}

impl From<GlobalUsers> for RawMessage {
    fn from(value: GlobalUsers) -> (r: RawMessage)
        ensures
            r@ == (RawView {
                source: None,
                command: CommandView::Reply(value.reply_code()),
                parameters: value.reply_params(),
            }),
    {
        RawMessage::from(Reply::GlobalUsers(value))
    }
}

impl FromSpecImpl<GlobalUsers> for RawMessage {
    open spec fn obeys_from_spec() -> bool {
        false
    }

    open spec fn from_spec(v: GlobalUsers) -> RawMessage {
        arbitrary()
    }
}

impl From<WhoIsCertFP> for Reply {
    fn from(value: WhoIsCertFP) -> (r: Reply)
        ensures
            r == Reply::WhoIsCertFP(value),
    {
        Reply::WhoIsCertFP(value)
    }
}

impl FromSpecImpl<WhoIsCertFP> for Reply {
    open spec fn obeys_from_spec() -> bool {
        true
    }

    open spec fn from_spec(v: WhoIsCertFP) -> Reply {
        Reply::WhoIsCertFP(v)
    }
}

impl From<WhoIsCertFP> for Message {
    fn from(value: WhoIsCertFP) -> (r: Message)
        ensures
            r == (Message { source: None, payload: Payload::Reply(Reply::WhoIsCertFP(value)) }),
    {
        Message::from(Reply::WhoIsCertFP(value))
    }
}

impl FromSpecImpl<WhoIsCertFP> for Message {
    open spec fn obeys_from_spec() -> bool {
        true
    }

    open spec fn from_spec(v: WhoIsCertFP) -> Message {
        Message { source: None, payload: Payload::Reply(Reply::WhoIsCertFP(v)) }
    }
}

impl From<WhoIsCertFP> for RawMessage {
    fn from(value: WhoIsCertFP) -> (r: RawMessage)
        ensures
            r@ == (RawView {
                source: None,
                command: CommandView::Reply(value.reply_code()),
                parameters: value.reply_params(),
            }),
    {
        RawMessage::from(Reply::WhoIsCertFP(value))
    }
}

impl FromSpecImpl<WhoIsCertFP> for RawMessage {
    open spec fn obeys_from_spec() -> bool {
        false
    }

    open spec fn from_spec(v: WhoIsCertFP) -> RawMessage {
        arbitrary()
    }
}

impl From<NoneReply> for Reply {
    fn from(value: NoneReply) -> (r: Reply)
        ensures
            r == Reply::NoneReply(value),
    {
        Reply::NoneReply(value)
    }
}

impl FromSpecImpl<NoneReply> for Reply {
    open spec fn obeys_from_spec() -> bool {
        true
    }

    open spec fn from_spec(v: NoneReply) -> Reply {
        Reply::NoneReply(v)
    }
}

impl From<NoneReply> for Message {
    fn from(value: NoneReply) -> (r: Message)
        ensures
            r == (Message { source: None, payload: Payload::Reply(Reply::NoneReply(value)) }),
    {
        Message::from(Reply::NoneReply(value))
    }
}

impl FromSpecImpl<NoneReply> for Message {
    open spec fn obeys_from_spec() -> bool {
        true
    }

    open spec fn from_spec(v: NoneReply) -> Message {
        Message { source: None, payload: Payload::Reply(Reply::NoneReply(v)) }
    }
}

impl From<NoneReply> for RawMessage {
    fn from(value: NoneReply) -> (r: RawMessage)
        ensures
            r@ == (RawView {
                source: None,
                command: CommandView::Reply(value.reply_code()),
                parameters: value.reply_params(),
            }),
    {
        RawMessage::from(Reply::NoneReply(value))
    }
}

impl FromSpecImpl<NoneReply> for RawMessage {
    open spec fn obeys_from_spec() -> bool {
        false
    }

    open spec fn from_spec(v: NoneReply) -> RawMessage {
        arbitrary()
    }
}

impl From<Away> for Reply {
    fn from(value: Away) -> (r: Reply)
        ensures
            r == Reply::Away(value),
    {
        Reply::Away(value)
    }
}

impl FromSpecImpl<Away> for Reply {
    open spec fn obeys_from_spec() -> bool {
        true
    }

    open spec fn from_spec(v: Away) -> Reply {
        Reply::Away(v)
    }
}

impl From<Away> for Message {
    fn from(value: Away) -> (r: Message)
        ensures
            r == (Message { source: None, payload: Payload::Reply(Reply::Away(value)) }),
    {
        Message::from(Reply::Away(value))
    }
}

impl FromSpecImpl<Away> for Message {
    open spec fn obeys_from_spec() -> bool {
        true
    }

    open spec fn from_spec(v: Away) -> Message {
        Message { source: None, payload: Payload::Reply(Reply::Away(v)) }
    }
}

impl From<Away> for RawMessage {
    fn from(value: Away) -> (r: RawMessage)
        ensures
            r@ == (RawView {
                source: None,
                command: CommandView::Reply(value.reply_code()),
                parameters: value.reply_params(),
            }),
    {
        RawMessage::from(Reply::Away(value))
    }
}

impl FromSpecImpl<Away> for RawMessage {
    open spec fn obeys_from_spec() -> bool {
        false
    }

    open spec fn from_spec(v: Away) -> RawMessage {
        arbitrary()
    }
}

impl From<UserHostRpl> for Reply {
    fn from(value: UserHostRpl) -> (r: Reply)
        ensures
            r == Reply::UserHostRpl(value),
    {
        Reply::UserHostRpl(value)
    }
}

impl FromSpecImpl<UserHostRpl> for Reply {
    open spec fn obeys_from_spec() -> bool {
        true
    }

    open spec fn from_spec(v: UserHostRpl) -> Reply {
        Reply::UserHostRpl(v)
    }
}

impl From<UserHostRpl> for Message {
    fn from(value: UserHostRpl) -> (r: Message)
        ensures
            r == (Message { source: None, payload: Payload::Reply(Reply::UserHostRpl(value)) }),
    {
        Message::from(Reply::UserHostRpl(value))
    }
}

impl FromSpecImpl<UserHostRpl> for Message {
    open spec fn obeys_from_spec() -> bool {
        true
    }

    open spec fn from_spec(v: UserHostRpl) -> Message {
        Message { source: None, payload: Payload::Reply(Reply::UserHostRpl(v)) }
    }
}

impl From<UserHostRpl> for RawMessage {
    fn from(value: UserHostRpl) -> (r: RawMessage)
        ensures
            r@ == (RawView {
                source: None,
                command: CommandView::Reply(value.reply_code()),
                parameters: value.reply_params(),
            }),
    {
        RawMessage::from(Reply::UserHostRpl(value))
    }
}

impl FromSpecImpl<UserHostRpl> for RawMessage {
    open spec fn obeys_from_spec() -> bool {
        false
    }

    open spec fn from_spec(v: UserHostRpl) -> RawMessage {
        arbitrary()
    }
}

impl From<UnAway> for Reply {
    fn from(value: UnAway) -> (r: Reply)
        ensures
            r == Reply::UnAway(value),
    {
        Reply::UnAway(value)
    }
}

impl FromSpecImpl<UnAway> for Reply {
    open spec fn obeys_from_spec() -> bool {
        true
    }

    open spec fn from_spec(v: UnAway) -> Reply {
        Reply::UnAway(v)
    }
}

impl From<UnAway> for Message {
    fn from(value: UnAway) -> (r: Message)
        ensures
            r == (Message { source: None, payload: Payload::Reply(Reply::UnAway(value)) }),
    {
        Message::from(Reply::UnAway(value))
    }
}

impl FromSpecImpl<UnAway> for Message {
    open spec fn obeys_from_spec() -> bool {
        true
    }

    open spec fn from_spec(v: UnAway) -> Message {
        Message { source: None, payload: Payload::Reply(Reply::UnAway(v)) }
    }
}

impl From<UnAway> for RawMessage {
    fn from(value: UnAway) -> (r: RawMessage)
        ensures
            r@ == (RawView {
                source: None,
                command: CommandView::Reply(value.reply_code()),
                parameters: value.reply_params(),
            }),
    {
        RawMessage::from(Reply::UnAway(value))
    }
}

impl FromSpecImpl<UnAway> for RawMessage {
    open spec fn obeys_from_spec() -> bool {
        false
    }

    open spec fn from_spec(v: UnAway) -> RawMessage {
        arbitrary()
    }
}

impl From<NowAway> for Reply {
    fn from(value: NowAway) -> (r: Reply)
        ensures
            r == Reply::NowAway(value),
    {
        Reply::NowAway(value)
    }
}

impl FromSpecImpl<NowAway> for Reply {
    open spec fn obeys_from_spec() -> bool {
        true
    }

    open spec fn from_spec(v: NowAway) -> Reply {
        Reply::NowAway(v)
    }
}

impl From<NowAway> for Message {
    fn from(value: NowAway) -> (r: Message)
        ensures
            r == (Message { source: None, payload: Payload::Reply(Reply::NowAway(value)) }),
    {
        Message::from(Reply::NowAway(value))
    }
}

impl FromSpecImpl<NowAway> for Message {
    open spec fn obeys_from_spec() -> bool {
        true
    }

    open spec fn from_spec(v: NowAway) -> Message {
        Message { source: None, payload: Payload::Reply(Reply::NowAway(v)) }
    }
}

impl From<NowAway> for RawMessage {
    fn from(value: NowAway) -> (r: RawMessage)
        ensures
            r@ == (RawView {
                source: None,
                command: CommandView::Reply(value.reply_code()),
                parameters: value.reply_params(),
            }),
    {
        RawMessage::from(Reply::NowAway(value))
    }
}

impl FromSpecImpl<NowAway> for RawMessage {
    open spec fn obeys_from_spec() -> bool {
        false
    }

    open spec fn from_spec(v: NowAway) -> RawMessage {
        arbitrary()
    }
}

impl From<WhoIsRegNick> for Reply {
    fn from(value: WhoIsRegNick) -> (r: Reply)
        ensures
            r == Reply::WhoIsRegNick(value),
    {
        Reply::WhoIsRegNick(value)
    }
}

impl FromSpecImpl<WhoIsRegNick> for Reply {
    open spec fn obeys_from_spec() -> bool {
        true
    }

    open spec fn from_spec(v: WhoIsRegNick) -> Reply {
        Reply::WhoIsRegNick(v)
    }
}

impl From<WhoIsRegNick> for Message {
    fn from(value: WhoIsRegNick) -> (r: Message)
        ensures
            r == (Message { source: None, payload: Payload::Reply(Reply::WhoIsRegNick(value)) }),
    {
        Message::from(Reply::WhoIsRegNick(value))
    }
}

impl FromSpecImpl<WhoIsRegNick> for Message {
    open spec fn obeys_from_spec() -> bool {
        true
    }

    open spec fn from_spec(v: WhoIsRegNick) -> Message {
        Message { source: None, payload: Payload::Reply(Reply::WhoIsRegNick(v)) }
    }
}

impl From<WhoIsRegNick> for RawMessage {
    fn from(value: WhoIsRegNick) -> (r: RawMessage)
        ensures
            r@ == (RawView {
                source: None,
                command: CommandView::Reply(value.reply_code()),
                parameters: value.reply_params(),
            }),
    {
        RawMessage::from(Reply::WhoIsRegNick(value))
    }
}

impl FromSpecImpl<WhoIsRegNick> for RawMessage {
    open spec fn obeys_from_spec() -> bool {
        false
    }

    open spec fn from_spec(v: WhoIsRegNick) -> RawMessage {
        arbitrary()
    }
}

impl From<WhoIsUser> for Reply {
    fn from(value: WhoIsUser) -> (r: Reply)
        ensures
            r == Reply::WhoIsUser(value),
    {
        Reply::WhoIsUser(value)
    }
}

impl FromSpecImpl<WhoIsUser> for Reply {
    open spec fn obeys_from_spec() -> bool {
        true
    }

    open spec fn from_spec(v: WhoIsUser) -> Reply {
        Reply::WhoIsUser(v)
    }
}

impl From<WhoIsUser> for Message {
    fn from(value: WhoIsUser) -> (r: Message)
        ensures
            r == (Message { source: None, payload: Payload::Reply(Reply::WhoIsUser(value)) }),
    {
        Message::from(Reply::WhoIsUser(value))
    }
}

impl FromSpecImpl<WhoIsUser> for Message {
    open spec fn obeys_from_spec() -> bool {
        true
    }

    open spec fn from_spec(v: WhoIsUser) -> Message {
        Message { source: None, payload: Payload::Reply(Reply::WhoIsUser(v)) }
    }
}

impl From<WhoIsUser> for RawMessage {
    fn from(value: WhoIsUser) -> (r: RawMessage)
        ensures
            r@ == (RawView {
                source: None,
                command: CommandView::Reply(value.reply_code()),
                parameters: value.reply_params(),
            }),
    {
        RawMessage::from(Reply::WhoIsUser(value))
    }
}

impl FromSpecImpl<WhoIsUser> for RawMessage {
    open spec fn obeys_from_spec() -> bool {
        false
    }

    open spec fn from_spec(v: WhoIsUser) -> RawMessage {
        arbitrary()
    }
}

impl From<WhoIsServer> for Reply {
    fn from(value: WhoIsServer) -> (r: Reply)
        ensures
            r == Reply::WhoIsServer(value),
    {
        Reply::WhoIsServer(value)
    }
}

impl FromSpecImpl<WhoIsServer> for Reply {
    open spec fn obeys_from_spec() -> bool {
        true
    }

    open spec fn from_spec(v: WhoIsServer) -> Reply {
        Reply::WhoIsServer(v)
    }
}

impl From<WhoIsServer> for Message {
    fn from(value: WhoIsServer) -> (r: Message)
        ensures
            r == (Message { source: None, payload: Payload::Reply(Reply::WhoIsServer(value)) }),
    {
        Message::from(Reply::WhoIsServer(value))
    }
}

impl FromSpecImpl<WhoIsServer> for Message {
    open spec fn obeys_from_spec() -> bool {
        true
    }

    open spec fn from_spec(v: WhoIsServer) -> Message {
        Message { source: None, payload: Payload::Reply(Reply::WhoIsServer(v)) }
    }
}

impl From<WhoIsServer> for RawMessage {
    fn from(value: WhoIsServer) -> (r: RawMessage)
        ensures
            r@ == (RawView {
                source: None,
                command: CommandView::Reply(value.reply_code()),
                parameters: value.reply_params(),
            }),
    {
        RawMessage::from(Reply::WhoIsServer(value))
    }
}

impl FromSpecImpl<WhoIsServer> for RawMessage {
    open spec fn obeys_from_spec() -> bool {
        false
    }

    open spec fn from_spec(v: WhoIsServer) -> RawMessage {
        arbitrary()
    }
}

impl From<WhoIsOperator> for Reply {
    fn from(value: WhoIsOperator) -> (r: Reply)
        ensures
            r == Reply::WhoIsOperator(value),
    {
        Reply::WhoIsOperator(value)
    }
}

impl FromSpecImpl<WhoIsOperator> for Reply {
    open spec fn obeys_from_spec() -> bool {
        true
    }

    open spec fn from_spec(v: WhoIsOperator) -> Reply {
        Reply::WhoIsOperator(v)
    }
}

impl From<WhoIsOperator> for Message {
    fn from(value: WhoIsOperator) -> (r: Message)
        ensures
            r == (Message { source: None, payload: Payload::Reply(Reply::WhoIsOperator(value)) }),
    {
        Message::from(Reply::WhoIsOperator(value))
    }
}

impl FromSpecImpl<WhoIsOperator> for Message {
    open spec fn obeys_from_spec() -> bool {
        true
    }

    open spec fn from_spec(v: WhoIsOperator) -> Message {
        Message { source: None, payload: Payload::Reply(Reply::WhoIsOperator(v)) }
    }
}

impl From<WhoIsOperator> for RawMessage {
    fn from(value: WhoIsOperator) -> (r: RawMessage)
        ensures
            r@ == (RawView {
                source: None,
                command: CommandView::Reply(value.reply_code()),
                parameters: value.reply_params(),
            }),
    {
        RawMessage::from(Reply::WhoIsOperator(value))
    }
}

impl FromSpecImpl<WhoIsOperator> for RawMessage {
    open spec fn obeys_from_spec() -> bool {
        false
    }

    open spec fn from_spec(v: WhoIsOperator) -> RawMessage {
        arbitrary()
    }
}

impl From<WhoWasUser> for Reply {
    fn from(value: WhoWasUser) -> (r: Reply)
        ensures
            r == Reply::WhoWasUser(value),
    {
        Reply::WhoWasUser(value)
    }
}

impl FromSpecImpl<WhoWasUser> for Reply {
    open spec fn obeys_from_spec() -> bool {
        true
    }

    open spec fn from_spec(v: WhoWasUser) -> Reply {
        Reply::WhoWasUser(v)
    }
}

impl From<WhoWasUser> for Message {
    fn from(value: WhoWasUser) -> (r: Message)
        ensures
            r == (Message { source: None, payload: Payload::Reply(Reply::WhoWasUser(value)) }),
    {
        Message::from(Reply::WhoWasUser(value))
    }
}

impl FromSpecImpl<WhoWasUser> for Message {
    open spec fn obeys_from_spec() -> bool {
        true
    }

    open spec fn from_spec(v: WhoWasUser) -> Message {
        Message { source: None, payload: Payload::Reply(Reply::WhoWasUser(v)) }
    }
}

impl From<WhoWasUser> for RawMessage {
    fn from(value: WhoWasUser) -> (r: RawMessage)
        ensures
            r@ == (RawView {
                source: None,
                command: CommandView::Reply(value.reply_code()),
                parameters: value.reply_params(),
            }),
    {
        RawMessage::from(Reply::WhoWasUser(value))
    }
}

impl FromSpecImpl<WhoWasUser> for RawMessage {
    open spec fn obeys_from_spec() -> bool {
        false
    }

    open spec fn from_spec(v: WhoWasUser) -> RawMessage {
        arbitrary()
    }
}

impl From<EndOfWho> for Reply {
    fn from(value: EndOfWho) -> (r: Reply)
        ensures
            r == Reply::EndOfWho(value),
    {
        Reply::EndOfWho(value)
    }
}

impl FromSpecImpl<EndOfWho> for Reply {
    open spec fn obeys_from_spec() -> bool {
        true
    }

    open spec fn from_spec(v: EndOfWho) -> Reply {
        Reply::EndOfWho(v)
    }
}

impl From<EndOfWho> for Message {
    fn from(value: EndOfWho) -> (r: Message)
        ensures
            r == (Message { source: None, payload: Payload::Reply(Reply::EndOfWho(value)) }),
    {
        Message::from(Reply::EndOfWho(value))
    }
}

impl FromSpecImpl<EndOfWho> for Message {
    open spec fn obeys_from_spec() -> bool {
        true
    }

    open spec fn from_spec(v: EndOfWho) -> Message {
        Message { source: None, payload: Payload::Reply(Reply::EndOfWho(v)) }
    }
}

impl From<EndOfWho> for RawMessage {
    fn from(value: EndOfWho) -> (r: RawMessage)
        ensures
            r@ == (RawView {
                source: None,
                command: CommandView::Reply(value.reply_code()),
                parameters: value.reply_params(),
            }),
    {
        RawMessage::from(Reply::EndOfWho(value))
    }
}

impl FromSpecImpl<EndOfWho> for RawMessage {
    open spec fn obeys_from_spec() -> bool {
        false
    }

    open spec fn from_spec(v: EndOfWho) -> RawMessage {
        arbitrary()
    }
}

impl From<WhoIsIdle> for Reply {
    fn from(value: WhoIsIdle) -> (r: Reply)
        ensures
            r == Reply::WhoIsIdle(value),
    {
        Reply::WhoIsIdle(value)
    }
}

impl FromSpecImpl<WhoIsIdle> for Reply {
    open spec fn obeys_from_spec() -> bool {
        true
    }

    open spec fn from_spec(v: WhoIsIdle) -> Reply {
        Reply::WhoIsIdle(v)
    }
}

impl From<WhoIsIdle> for Message {
    fn from(value: WhoIsIdle) -> (r: Message)
        ensures
            r == (Message { source: None, payload: Payload::Reply(Reply::WhoIsIdle(value)) }),
    {
        Message::from(Reply::WhoIsIdle(value))
    }
}

impl FromSpecImpl<WhoIsIdle> for Message {
    open spec fn obeys_from_spec() -> bool {
        true
    }

    open spec fn from_spec(v: WhoIsIdle) -> Message {
        Message { source: None, payload: Payload::Reply(Reply::WhoIsIdle(v)) }
    }
}

impl From<WhoIsIdle> for RawMessage {
    fn from(value: WhoIsIdle) -> (r: RawMessage)
        ensures
            r@ == (RawView {
                source: None,
                command: CommandView::Reply(value.reply_code()),
                parameters: value.reply_params(),
            }),
    {
        RawMessage::from(Reply::WhoIsIdle(value))
    }
}

impl FromSpecImpl<WhoIsIdle> for RawMessage {
    open spec fn obeys_from_spec() -> bool {
        false
    }

    open spec fn from_spec(v: WhoIsIdle) -> RawMessage {
        arbitrary()
    }
}

impl From<EndOfWhoIs> for Reply {
    fn from(value: EndOfWhoIs) -> (r: Reply)
        ensures
            r == Reply::EndOfWhoIs(value),
    {
        Reply::EndOfWhoIs(value)
    }
}

impl FromSpecImpl<EndOfWhoIs> for Reply {
    open spec fn obeys_from_spec() -> bool {
        true
    }

    open spec fn from_spec(v: EndOfWhoIs) -> Reply {
        Reply::EndOfWhoIs(v)
    }
}

impl From<EndOfWhoIs> for Message {
    fn from(value: EndOfWhoIs) -> (r: Message)
        ensures
            r == (Message { source: None, payload: Payload::Reply(Reply::EndOfWhoIs(value)) }),
    {
        Message::from(Reply::EndOfWhoIs(value))
    }
}

impl FromSpecImpl<EndOfWhoIs> for Message {
    open spec fn obeys_from_spec() -> bool {
        true
    }

    open spec fn from_spec(v: EndOfWhoIs) -> Message {
        Message { source: None, payload: Payload::Reply(Reply::EndOfWhoIs(v)) }
    }
}

impl From<EndOfWhoIs> for RawMessage {
    fn from(value: EndOfWhoIs) -> (r: RawMessage)
        ensures
            r@ == (RawView {
                source: None,
                command: CommandView::Reply(value.reply_code()),
                parameters: value.reply_params(),
            }),
    {
        RawMessage::from(Reply::EndOfWhoIs(value))
    }
}

impl FromSpecImpl<EndOfWhoIs> for RawMessage {
    open spec fn obeys_from_spec() -> bool {
        false
    }

    open spec fn from_spec(v: EndOfWhoIs) -> RawMessage {
        arbitrary()
    }
}

impl From<WhoIsChannels> for Reply {
    fn from(value: WhoIsChannels) -> (r: Reply)
        ensures
            r == Reply::WhoIsChannels(value),
    {
        Reply::WhoIsChannels(value)
    }
}

impl FromSpecImpl<WhoIsChannels> for Reply {
    open spec fn obeys_from_spec() -> bool {
        true
    }

    open spec fn from_spec(v: WhoIsChannels) -> Reply {
        Reply::WhoIsChannels(v)
    }
}

impl From<WhoIsChannels> for Message {
    fn from(value: WhoIsChannels) -> (r: Message)
        ensures
            r == (Message { source: None, payload: Payload::Reply(Reply::WhoIsChannels(value)) }),
    {
        Message::from(Reply::WhoIsChannels(value))
    }
}

impl FromSpecImpl<WhoIsChannels> for Message {
    open spec fn obeys_from_spec() -> bool {
        true
    }

    open spec fn from_spec(v: WhoIsChannels) -> Message {
        Message { source: None, payload: Payload::Reply(Reply::WhoIsChannels(v)) }
    }
}

impl From<WhoIsChannels> for RawMessage {
    fn from(value: WhoIsChannels) -> (r: RawMessage)
        ensures
            r@ == (RawView {
                source: None,
                command: CommandView::Reply(value.reply_code()),
                parameters: value.reply_params(),
            }),
    {
        RawMessage::from(Reply::WhoIsChannels(value))
    }
}

impl FromSpecImpl<WhoIsChannels> for RawMessage {
    open spec fn obeys_from_spec() -> bool {
        false
    }

    open spec fn from_spec(v: WhoIsChannels) -> RawMessage {
        arbitrary()
    }
}

impl From<WhoIsSpecial> for Reply {
    fn from(value: WhoIsSpecial) -> (r: Reply)
        ensures
            r == Reply::WhoIsSpecial(value),
    {
        Reply::WhoIsSpecial(value)
    }
}

impl FromSpecImpl<WhoIsSpecial> for Reply {
    open spec fn obeys_from_spec() -> bool {
        true
    }

    open spec fn from_spec(v: WhoIsSpecial) -> Reply {
        Reply::WhoIsSpecial(v)
    }
}

impl From<WhoIsSpecial> for Message {
    fn from(value: WhoIsSpecial) -> (r: Message)
        ensures
            r == (Message { source: None, payload: Payload::Reply(Reply::WhoIsSpecial(value)) }),
    {
        Message::from(Reply::WhoIsSpecial(value))
    }
}

impl FromSpecImpl<WhoIsSpecial> for Message {
    open spec fn obeys_from_spec() -> bool {
        true
    }

    open spec fn from_spec(v: WhoIsSpecial) -> Message {
        Message { source: None, payload: Payload::Reply(Reply::WhoIsSpecial(v)) }
    }
}

impl From<WhoIsSpecial> for RawMessage {
    fn from(value: WhoIsSpecial) -> (r: RawMessage)
        ensures
            r@ == (RawView {
                source: None,
                command: CommandView::Reply(value.reply_code()),
                parameters: value.reply_params(),
            }),
    {
        RawMessage::from(Reply::WhoIsSpecial(value))
    }
}

impl FromSpecImpl<WhoIsSpecial> for RawMessage {
    open spec fn obeys_from_spec() -> bool {
        false
    }

    open spec fn from_spec(v: WhoIsSpecial) -> RawMessage {
        arbitrary()
    }
}

impl From<ListStart> for Reply {
    fn from(value: ListStart) -> (r: Reply)
        ensures
            r == Reply::ListStart(value),
    {
        Reply::ListStart(value)
    }
}

impl FromSpecImpl<ListStart> for Reply {
    open spec fn obeys_from_spec() -> bool {
        true
    }

    open spec fn from_spec(v: ListStart) -> Reply {
        Reply::ListStart(v)
    }
}

impl From<ListStart> for Message {
    fn from(value: ListStart) -> (r: Message)
        ensures
            r == (Message { source: None, payload: Payload::Reply(Reply::ListStart(value)) }),
    {
        Message::from(Reply::ListStart(value))
    }
}

impl FromSpecImpl<ListStart> for Message {
    open spec fn obeys_from_spec() -> bool {
        true
    }

    open spec fn from_spec(v: ListStart) -> Message {
        Message { source: None, payload: Payload::Reply(Reply::ListStart(v)) }
    }
}

impl From<ListStart> for RawMessage {
    fn from(value: ListStart) -> (r: RawMessage)
        ensures
            r@ == (RawView {
                source: None,
                command: CommandView::Reply(value.reply_code()),
                parameters: value.reply_params(),
            }),
    {
        RawMessage::from(Reply::ListStart(value))
    }
}

impl FromSpecImpl<ListStart> for RawMessage {
    open spec fn obeys_from_spec() -> bool {
        false
    }

    open spec fn from_spec(v: ListStart) -> RawMessage {
        arbitrary()
    }
}

impl From<List> for Reply {
    fn from(value: List) -> (r: Reply)
        ensures
            r == Reply::List(value),
    {
        Reply::List(value)
    }
}

impl FromSpecImpl<List> for Reply {
    open spec fn obeys_from_spec() -> bool {
        true
    }

    open spec fn from_spec(v: List) -> Reply {
        Reply::List(v)
    }
}

impl From<List> for Message {
    fn from(value: List) -> (r: Message)
        ensures
            r == (Message { source: None, payload: Payload::Reply(Reply::List(value)) }),
    {
        Message::from(Reply::List(value))
    }
}

impl FromSpecImpl<List> for Message {
    open spec fn obeys_from_spec() -> bool {
        true
    }

    open spec fn from_spec(v: List) -> Message {
        Message { source: None, payload: Payload::Reply(Reply::List(v)) }
    }
}

impl From<List> for RawMessage {
    fn from(value: List) -> (r: RawMessage)
        ensures
            r@ == (RawView {
                source: None,
                command: CommandView::Reply(value.reply_code()),
                parameters: value.reply_params(),
            }),
    {
        RawMessage::from(Reply::List(value))
    }
}

impl FromSpecImpl<List> for RawMessage {
    open spec fn obeys_from_spec() -> bool {
        false
    }

    open spec fn from_spec(v: List) -> RawMessage {
        arbitrary()
    }
}

impl From<ListEnd> for Reply {
    fn from(value: ListEnd) -> (r: Reply)
        ensures
            r == Reply::ListEnd(value),
    {
        Reply::ListEnd(value)
    }
}

impl FromSpecImpl<ListEnd> for Reply {
    open spec fn obeys_from_spec() -> bool {
        true
    }

    open spec fn from_spec(v: ListEnd) -> Reply {
        Reply::ListEnd(v)
    }
}

impl From<ListEnd> for Message {
    fn from(value: ListEnd) -> (r: Message)
        ensures
            r == (Message { source: None, payload: Payload::Reply(Reply::ListEnd(value)) }),
    {
        Message::from(Reply::ListEnd(value))
    }
}

impl FromSpecImpl<ListEnd> for Message {
    open spec fn obeys_from_spec() -> bool {
        true
    }

    open spec fn from_spec(v: ListEnd) -> Message {
        Message { source: None, payload: Payload::Reply(Reply::ListEnd(v)) }
    }
}

impl From<ListEnd> for RawMessage {
    fn from(value: ListEnd) -> (r: RawMessage)
        ensures
            r@ == (RawView {
                source: None,
                command: CommandView::Reply(value.reply_code()),
                parameters: value.reply_params(),
            }),
    {
        RawMessage::from(Reply::ListEnd(value))
    }
}

impl FromSpecImpl<ListEnd> for RawMessage {
    open spec fn obeys_from_spec() -> bool {
        false
    }

    open spec fn from_spec(v: ListEnd) -> RawMessage {
        arbitrary()
    }
}

impl From<ChannelModeIs> for Reply {
    fn from(value: ChannelModeIs) -> (r: Reply)
        ensures
            r == Reply::ChannelModeIs(value),
    {
        Reply::ChannelModeIs(value)
    }
}

impl FromSpecImpl<ChannelModeIs> for Reply {
    open spec fn obeys_from_spec() -> bool {
        true
    }

    open spec fn from_spec(v: ChannelModeIs) -> Reply {
        Reply::ChannelModeIs(v)
    }
}

impl From<ChannelModeIs> for Message {
    fn from(value: ChannelModeIs) -> (r: Message)
        ensures
            r == (Message { source: None, payload: Payload::Reply(Reply::ChannelModeIs(value)) }),
    {
        Message::from(Reply::ChannelModeIs(value))
    }
}

impl FromSpecImpl<ChannelModeIs> for Message {
    open spec fn obeys_from_spec() -> bool {
        true
    }

    open spec fn from_spec(v: ChannelModeIs) -> Message {
        Message { source: None, payload: Payload::Reply(Reply::ChannelModeIs(v)) }
    }
}

impl From<ChannelModeIs> for RawMessage {
    fn from(value: ChannelModeIs) -> (r: RawMessage)
        ensures
            r@ == (RawView {
                source: None,
                command: CommandView::Reply(value.reply_code()),
                parameters: value.reply_params(),
            }),
    {
        RawMessage::from(Reply::ChannelModeIs(value))
    }
}

impl FromSpecImpl<ChannelModeIs> for RawMessage {
    open spec fn obeys_from_spec() -> bool {
        false
    }

    open spec fn from_spec(v: ChannelModeIs) -> RawMessage {
        arbitrary()
    }
}

impl From<ChannelUrl> for Reply {
    fn from(value: ChannelUrl) -> (r: Reply)
        ensures
            r == Reply::ChannelUrl(value),
    {
        Reply::ChannelUrl(value)
    }
}

impl FromSpecImpl<ChannelUrl> for Reply {
    open spec fn obeys_from_spec() -> bool {
        true
    }

    open spec fn from_spec(v: ChannelUrl) -> Reply {
        Reply::ChannelUrl(v)
    }
}

impl From<ChannelUrl> for Message {
    fn from(value: ChannelUrl) -> (r: Message)
        ensures
            r == (Message { source: None, payload: Payload::Reply(Reply::ChannelUrl(value)) }),
    {
        Message::from(Reply::ChannelUrl(value))
    }
}

impl FromSpecImpl<ChannelUrl> for Message {
    open spec fn obeys_from_spec() -> bool {
        true
    }

    open spec fn from_spec(v: ChannelUrl) -> Message {
        Message { source: None, payload: Payload::Reply(Reply::ChannelUrl(v)) }
    }
}

impl From<ChannelUrl> for RawMessage {
    fn from(value: ChannelUrl) -> (r: RawMessage)
        ensures
            r@ == (RawView {
                source: None,
                command: CommandView::Reply(value.reply_code()),
                parameters: value.reply_params(),
            }),
    {
        RawMessage::from(Reply::ChannelUrl(value))
    }
}

impl FromSpecImpl<ChannelUrl> for RawMessage {
    open spec fn obeys_from_spec() -> bool {
        false
    }

    open spec fn from_spec(v: ChannelUrl) -> RawMessage {
        arbitrary()
    }
}

impl From<CreationTime> for Reply {
    fn from(value: CreationTime) -> (r: Reply)
        ensures
            r == Reply::CreationTime(value),
    {
        Reply::CreationTime(value)
    }
}

impl FromSpecImpl<CreationTime> for Reply {
    open spec fn obeys_from_spec() -> bool {
        true
    }

    open spec fn from_spec(v: CreationTime) -> Reply {
        Reply::CreationTime(v)
    }
}

impl From<CreationTime> for Message {
    fn from(value: CreationTime) -> (r: Message)
        ensures
            r == (Message { source: None, payload: Payload::Reply(Reply::CreationTime(value)) }),
    {
        Message::from(Reply::CreationTime(value))
    }
}

impl FromSpecImpl<CreationTime> for Message {
    open spec fn obeys_from_spec() -> bool {
        true
    }

    open spec fn from_spec(v: CreationTime) -> Message {
        Message { source: None, payload: Payload::Reply(Reply::CreationTime(v)) }
    }
}

impl From<CreationTime> for RawMessage {
    fn from(value: CreationTime) -> (r: RawMessage)
        ensures
            r@ == (RawView {
                source: None,
                command: CommandView::Reply(value.reply_code()),
                parameters: value.reply_params(),
            }),
    {
        RawMessage::from(Reply::CreationTime(value))
    }
}

impl FromSpecImpl<CreationTime> for RawMessage {
    open spec fn obeys_from_spec() -> bool {
        false
    }

    open spec fn from_spec(v: CreationTime) -> RawMessage {
        arbitrary()
    }
}

impl From<WhoIsAccount> for Reply {
    fn from(value: WhoIsAccount) -> (r: Reply)
        ensures
            r == Reply::WhoIsAccount(value),
    {
        Reply::WhoIsAccount(value)
    }
}

impl FromSpecImpl<WhoIsAccount> for Reply {
    open spec fn obeys_from_spec() -> bool {
        true
    }

    open spec fn from_spec(v: WhoIsAccount) -> Reply {
        Reply::WhoIsAccount(v)
    }
}

impl From<WhoIsAccount> for Message {
    fn from(value: WhoIsAccount) -> (r: Message)
        ensures
            r == (Message { source: None, payload: Payload::Reply(Reply::WhoIsAccount(value)) }),
    {
        Message::from(Reply::WhoIsAccount(value))
    }
}

impl FromSpecImpl<WhoIsAccount> for Message {
    open spec fn obeys_from_spec() -> bool {
        true
    }

    open spec fn from_spec(v: WhoIsAccount) -> Message {
        Message { source: None, payload: Payload::Reply(Reply::WhoIsAccount(v)) }
    }
}

impl From<WhoIsAccount> for RawMessage {
    fn from(value: WhoIsAccount) -> (r: RawMessage)
        ensures
            r@ == (RawView {
                source: None,
                command: CommandView::Reply(value.reply_code()),
                parameters: value.reply_params(),
            }),
    {
        RawMessage::from(Reply::WhoIsAccount(value))
    }
}

impl FromSpecImpl<WhoIsAccount> for RawMessage {
    open spec fn obeys_from_spec() -> bool {
        false
    }

    open spec fn from_spec(v: WhoIsAccount) -> RawMessage {
        arbitrary()
    }
}

impl From<NoTopic> for Reply {
    fn from(value: NoTopic) -> (r: Reply)
        ensures
            r == Reply::NoTopic(value),
    {
        Reply::NoTopic(value)
    }
}

impl FromSpecImpl<NoTopic> for Reply {
    open spec fn obeys_from_spec() -> bool {
        true
    }

    open spec fn from_spec(v: NoTopic) -> Reply {
        Reply::NoTopic(v)
    }
}

impl From<NoTopic> for Message {
    fn from(value: NoTopic) -> (r: Message)
        ensures
            r == (Message { source: None, payload: Payload::Reply(Reply::NoTopic(value)) }),
    {
        Message::from(Reply::NoTopic(value))
    }
}

impl FromSpecImpl<NoTopic> for Message {
    open spec fn obeys_from_spec() -> bool {
        true
    }

    open spec fn from_spec(v: NoTopic) -> Message {
        Message { source: None, payload: Payload::Reply(Reply::NoTopic(v)) }
    }
}

impl From<NoTopic> for RawMessage {
    fn from(value: NoTopic) -> (r: RawMessage)
        ensures
            r@ == (RawView {
                source: None,
                command: CommandView::Reply(value.reply_code()),
                parameters: value.reply_params(),
            }),
    {
        RawMessage::from(Reply::NoTopic(value))
    }
}

impl FromSpecImpl<NoTopic> for RawMessage {
    open spec fn obeys_from_spec() -> bool {
        false
    }

    open spec fn from_spec(v: NoTopic) -> RawMessage {
        arbitrary()
    }
}

impl From<Topic> for Reply {
    fn from(value: Topic) -> (r: Reply)
        ensures
            r == Reply::Topic(value),
    {
        Reply::Topic(value)
    }
}

impl FromSpecImpl<Topic> for Reply {
    open spec fn obeys_from_spec() -> bool {
        true
    }

    open spec fn from_spec(v: Topic) -> Reply {
        Reply::Topic(v)
    }
}

impl From<Topic> for Message {
    fn from(value: Topic) -> (r: Message)
        ensures
            r == (Message { source: None, payload: Payload::Reply(Reply::Topic(value)) }),
    {
        Message::from(Reply::Topic(value))
    }
}

impl FromSpecImpl<Topic> for Message {
    open spec fn obeys_from_spec() -> bool {
        true
    }

    open spec fn from_spec(v: Topic) -> Message {
        Message { source: None, payload: Payload::Reply(Reply::Topic(v)) }
    }
}

impl From<Topic> for RawMessage {
    fn from(value: Topic) -> (r: RawMessage)
        ensures
            r@ == (RawView {
                source: None,
                command: CommandView::Reply(value.reply_code()),
                parameters: value.reply_params(),
            }),
    {
        RawMessage::from(Reply::Topic(value))
    }
}

impl FromSpecImpl<Topic> for RawMessage {
    open spec fn obeys_from_spec() -> bool {
        false
    }

    open spec fn from_spec(v: Topic) -> RawMessage {
        arbitrary()
    }
}

impl From<TopicWhoTime> for Reply {
    fn from(value: TopicWhoTime) -> (r: Reply)
        ensures
            r == Reply::TopicWhoTime(value),
    {
        Reply::TopicWhoTime(value)
    }
}

impl FromSpecImpl<TopicWhoTime> for Reply {
    open spec fn obeys_from_spec() -> bool {
        true
    }

    open spec fn from_spec(v: TopicWhoTime) -> Reply {
        Reply::TopicWhoTime(v)
    }
}

impl From<TopicWhoTime> for Message {
    fn from(value: TopicWhoTime) -> (r: Message)
        ensures
            r == (Message { source: None, payload: Payload::Reply(Reply::TopicWhoTime(value)) }),
    {
        Message::from(Reply::TopicWhoTime(value))
    }
}

impl FromSpecImpl<TopicWhoTime> for Message {
    open spec fn obeys_from_spec() -> bool {
        true
    }

    open spec fn from_spec(v: TopicWhoTime) -> Message {
        Message { source: None, payload: Payload::Reply(Reply::TopicWhoTime(v)) }
    }
}

impl From<TopicWhoTime> for RawMessage {
    fn from(value: TopicWhoTime) -> (r: RawMessage)
        ensures
            r@ == (RawView {
                source: None,
                command: CommandView::Reply(value.reply_code()),
                parameters: value.reply_params(),
            }),
    {
        RawMessage::from(Reply::TopicWhoTime(value))
    }
}

impl FromSpecImpl<TopicWhoTime> for RawMessage {
    open spec fn obeys_from_spec() -> bool {
        false
    }

    open spec fn from_spec(v: TopicWhoTime) -> RawMessage {
        arbitrary()
    }
}

impl From<InviteList> for Reply {
    fn from(value: InviteList) -> (r: Reply)
        ensures
            r == Reply::InviteList(value),
    {
        Reply::InviteList(value)
    }
}

impl FromSpecImpl<InviteList> for Reply {
    open spec fn obeys_from_spec() -> bool {
        true
    }

    open spec fn from_spec(v: InviteList) -> Reply {
        Reply::InviteList(v)
    }
}

impl From<InviteList> for Message {
    fn from(value: InviteList) -> (r: Message)
        ensures
            r == (Message { source: None, payload: Payload::Reply(Reply::InviteList(value)) }),
    {
        Message::from(Reply::InviteList(value))
    }
}

impl FromSpecImpl<InviteList> for Message {
    open spec fn obeys_from_spec() -> bool {
        true
    }

    open spec fn from_spec(v: InviteList) -> Message {
        Message { source: None, payload: Payload::Reply(Reply::InviteList(v)) }
    }
}

impl From<InviteList> for RawMessage {
    fn from(value: InviteList) -> (r: RawMessage)
        ensures
            r@ == (RawView {
                source: None,
                command: CommandView::Reply(value.reply_code()),
                parameters: value.reply_params(),
            }),
    {
        RawMessage::from(Reply::InviteList(value))
    }
}

impl FromSpecImpl<InviteList> for RawMessage {
    open spec fn obeys_from_spec() -> bool {
        false
    }

    open spec fn from_spec(v: InviteList) -> RawMessage {
        arbitrary()
    }
}

impl From<EndOfInviteList> for Reply {
    fn from(value: EndOfInviteList) -> (r: Reply)
        ensures
            r == Reply::EndOfInviteList(value),
    {
        Reply::EndOfInviteList(value)
    }
}

impl FromSpecImpl<EndOfInviteList> for Reply {
    open spec fn obeys_from_spec() -> bool {
        true
    }

    open spec fn from_spec(v: EndOfInviteList) -> Reply {
        Reply::EndOfInviteList(v)
    }
}

impl From<EndOfInviteList> for Message {
    fn from(value: EndOfInviteList) -> (r: Message)
        ensures
            r == (Message { source: None, payload: Payload::Reply(Reply::EndOfInviteList(value)) }),
    {
        Message::from(Reply::EndOfInviteList(value))
    }
}

impl FromSpecImpl<EndOfInviteList> for Message {
    open spec fn obeys_from_spec() -> bool {
        true
    }

    open spec fn from_spec(v: EndOfInviteList) -> Message {
        Message { source: None, payload: Payload::Reply(Reply::EndOfInviteList(v)) }
    }
}

impl From<EndOfInviteList> for RawMessage {
    fn from(value: EndOfInviteList) -> (r: RawMessage)
        ensures
            r@ == (RawView {
                source: None,
                command: CommandView::Reply(value.reply_code()),
                parameters: value.reply_params(),
            }),
    {
        RawMessage::from(Reply::EndOfInviteList(value))
    }
}

impl FromSpecImpl<EndOfInviteList> for RawMessage {
    open spec fn obeys_from_spec() -> bool {
        false
    }

    open spec fn from_spec(v: EndOfInviteList) -> RawMessage {
        arbitrary()
    }
}

impl From<WhoIsActually> for Reply {
    fn from(value: WhoIsActually) -> (r: Reply)
        ensures
            r == Reply::WhoIsActually(value),
    {
        Reply::WhoIsActually(value)
    }
}

impl FromSpecImpl<WhoIsActually> for Reply {
    open spec fn obeys_from_spec() -> bool {
        true
    }

    open spec fn from_spec(v: WhoIsActually) -> Reply {
        Reply::WhoIsActually(v)
    }
}

impl From<WhoIsActually> for Message {
    fn from(value: WhoIsActually) -> (r: Message)
        ensures
            r == (Message { source: None, payload: Payload::Reply(Reply::WhoIsActually(value)) }),
    {
        Message::from(Reply::WhoIsActually(value))
    }
}

impl FromSpecImpl<WhoIsActually> for Message {
    open spec fn obeys_from_spec() -> bool {
        true
    }

    open spec fn from_spec(v: WhoIsActually) -> Message {
        Message { source: None, payload: Payload::Reply(Reply::WhoIsActually(v)) }
    }
}

impl From<WhoIsActually> for RawMessage {
    fn from(value: WhoIsActually) -> (r: RawMessage)
        ensures
            r@ == (RawView {
                source: None,
                command: CommandView::Reply(value.reply_code()),
                parameters: value.reply_params(),
            }),
    {
        RawMessage::from(Reply::WhoIsActually(value))
    }
}

impl FromSpecImpl<WhoIsActually> for RawMessage {
    open spec fn obeys_from_spec() -> bool {
        false
    }

    open spec fn from_spec(v: WhoIsActually) -> RawMessage {
        arbitrary()
    }
}

impl From<Inviting> for Reply {
    fn from(value: Inviting) -> (r: Reply)
        ensures
            r == Reply::Inviting(value),
    {
        Reply::Inviting(value)
    }
}

impl FromSpecImpl<Inviting> for Reply {
    open spec fn obeys_from_spec() -> bool {
        true
    }

    open spec fn from_spec(v: Inviting) -> Reply {
        Reply::Inviting(v)
    }
}

impl From<Inviting> for Message {
    fn from(value: Inviting) -> (r: Message)
        ensures
            r == (Message { source: None, payload: Payload::Reply(Reply::Inviting(value)) }),
    {
        Message::from(Reply::Inviting(value))
    }
}

impl FromSpecImpl<Inviting> for Message {
    open spec fn obeys_from_spec() -> bool {
        true
    }

    open spec fn from_spec(v: Inviting) -> Message {
        Message { source: None, payload: Payload::Reply(Reply::Inviting(v)) }
    }
}

impl From<Inviting> for RawMessage {
    fn from(value: Inviting) -> (r: RawMessage)
        ensures
            r@ == (RawView {
                source: None,
                command: CommandView::Reply(value.reply_code()),
                parameters: value.reply_params(),
            }),
    {
        RawMessage::from(Reply::Inviting(value))
    }
}

impl FromSpecImpl<Inviting> for RawMessage {
    open spec fn obeys_from_spec() -> bool {
        false
    }

    open spec fn from_spec(v: Inviting) -> RawMessage {
        arbitrary()
    }
}

impl From<InvExList> for Reply {
    fn from(value: InvExList) -> (r: Reply)
        ensures
            r == Reply::InvExList(value),
    {
        Reply::InvExList(value)
    }
}

impl FromSpecImpl<InvExList> for Reply {
    open spec fn obeys_from_spec() -> bool {
        true
    }

    open spec fn from_spec(v: InvExList) -> Reply {
        Reply::InvExList(v)
    }
}

impl From<InvExList> for Message {
    fn from(value: InvExList) -> (r: Message)
        ensures
            r == (Message { source: None, payload: Payload::Reply(Reply::InvExList(value)) }),
    {
        Message::from(Reply::InvExList(value))
    }
}

impl FromSpecImpl<InvExList> for Message {
    open spec fn obeys_from_spec() -> bool {
        true
    }

    open spec fn from_spec(v: InvExList) -> Message {
        Message { source: None, payload: Payload::Reply(Reply::InvExList(v)) }
    }
}

impl From<InvExList> for RawMessage {
    fn from(value: InvExList) -> (r: RawMessage)
        ensures
            r@ == (RawView {
                source: None,
                command: CommandView::Reply(value.reply_code()),
                parameters: value.reply_params(),
            }),
    {
        RawMessage::from(Reply::InvExList(value))
    }
}

impl FromSpecImpl<InvExList> for RawMessage {
    open spec fn obeys_from_spec() -> bool {
        false
    }

    open spec fn from_spec(v: InvExList) -> RawMessage {
        arbitrary()
    }
}

impl From<EndOfInvExList> for Reply {
    fn from(value: EndOfInvExList) -> (r: Reply)
        ensures
            r == Reply::EndOfInvExList(value),
    {
        Reply::EndOfInvExList(value)
    }
}

impl FromSpecImpl<EndOfInvExList> for Reply {
    open spec fn obeys_from_spec() -> bool {
        true
    }

    open spec fn from_spec(v: EndOfInvExList) -> Reply {
        Reply::EndOfInvExList(v)
    }
}

impl From<EndOfInvExList> for Message {
    fn from(value: EndOfInvExList) -> (r: Message)
        ensures
            r == (Message { source: None, payload: Payload::Reply(Reply::EndOfInvExList(value)) }),
    {
        Message::from(Reply::EndOfInvExList(value))
    }
}

impl FromSpecImpl<EndOfInvExList> for Message {
    open spec fn obeys_from_spec() -> bool {
        true
    }

    open spec fn from_spec(v: EndOfInvExList) -> Message {
        Message { source: None, payload: Payload::Reply(Reply::EndOfInvExList(v)) }
    }
}

impl From<EndOfInvExList> for RawMessage {
    fn from(value: EndOfInvExList) -> (r: RawMessage)
        ensures
            r@ == (RawView {
                source: None,
                command: CommandView::Reply(value.reply_code()),
                parameters: value.reply_params(),
            }),
    {
        RawMessage::from(Reply::EndOfInvExList(value))
    }
}

impl FromSpecImpl<EndOfInvExList> for RawMessage {
    open spec fn obeys_from_spec() -> bool {
        false
    }

    open spec fn from_spec(v: EndOfInvExList) -> RawMessage {
        arbitrary()
    }
}

impl From<ExceptList> for Reply {
    fn from(value: ExceptList) -> (r: Reply)
        ensures
            r == Reply::ExceptList(value),
    {
        Reply::ExceptList(value)
    }
}

impl FromSpecImpl<ExceptList> for Reply {
    open spec fn obeys_from_spec() -> bool {
        true
    }

    open spec fn from_spec(v: ExceptList) -> Reply {
        Reply::ExceptList(v)
    }
}

impl From<ExceptList> for Message {
    fn from(value: ExceptList) -> (r: Message)
        ensures
            r == (Message { source: None, payload: Payload::Reply(Reply::ExceptList(value)) }),
    {
        Message::from(Reply::ExceptList(value))
    }
}

impl FromSpecImpl<ExceptList> for Message {
    open spec fn obeys_from_spec() -> bool {
        true
    }

    open spec fn from_spec(v: ExceptList) -> Message {
        Message { source: None, payload: Payload::Reply(Reply::ExceptList(v)) }
    }
}

impl From<ExceptList> for RawMessage {
    fn from(value: ExceptList) -> (r: RawMessage)
        ensures
            r@ == (RawView {
                source: None,
                command: CommandView::Reply(value.reply_code()),
                parameters: value.reply_params(),
            }),
    {
        RawMessage::from(Reply::ExceptList(value))
    }
}

impl FromSpecImpl<ExceptList> for RawMessage {
    open spec fn obeys_from_spec() -> bool {
        false
    }

    open spec fn from_spec(v: ExceptList) -> RawMessage {
        arbitrary()
    }
}

impl From<EndOfExceptList> for Reply {
    fn from(value: EndOfExceptList) -> (r: Reply)
        ensures
            r == Reply::EndOfExceptList(value),
    {
        Reply::EndOfExceptList(value)
    }
}

impl FromSpecImpl<EndOfExceptList> for Reply {
    open spec fn obeys_from_spec() -> bool {
        true
    }

    open spec fn from_spec(v: EndOfExceptList) -> Reply {
        Reply::EndOfExceptList(v)
    }
}

impl From<EndOfExceptList> for Message {
    fn from(value: EndOfExceptList) -> (r: Message)
        ensures
            r == (Message { source: None, payload: Payload::Reply(Reply::EndOfExceptList(value)) }),
    {
        Message::from(Reply::EndOfExceptList(value))
    }
}

impl FromSpecImpl<EndOfExceptList> for Message {
    open spec fn obeys_from_spec() -> bool {
        true
    }

    open spec fn from_spec(v: EndOfExceptList) -> Message {
        Message { source: None, payload: Payload::Reply(Reply::EndOfExceptList(v)) }
    }
}

impl From<EndOfExceptList> for RawMessage {
    fn from(value: EndOfExceptList) -> (r: RawMessage)
        ensures
            r@ == (RawView {
                source: None,
                command: CommandView::Reply(value.reply_code()),
                parameters: value.reply_params(),
            }),
    {
        RawMessage::from(Reply::EndOfExceptList(value))
    }
}

impl FromSpecImpl<EndOfExceptList> for RawMessage {
    open spec fn obeys_from_spec() -> bool {
        false
    }

    open spec fn from_spec(v: EndOfExceptList) -> RawMessage {
        arbitrary()
    }
}

impl From<Version> for Reply {
    fn from(value: Version) -> (r: Reply)
        ensures
            r == Reply::Version(value),
    {
        Reply::Version(value)
    }
}

impl FromSpecImpl<Version> for Reply {
    open spec fn obeys_from_spec() -> bool {
        true
    }

    open spec fn from_spec(v: Version) -> Reply {
        Reply::Version(v)
    }
}

impl From<Version> for Message {
    fn from(value: Version) -> (r: Message)
        ensures
            r == (Message { source: None, payload: Payload::Reply(Reply::Version(value)) }),
    {
        Message::from(Reply::Version(value))
    }
}

impl FromSpecImpl<Version> for Message {
    open spec fn obeys_from_spec() -> bool {
        true
    }

    open spec fn from_spec(v: Version) -> Message {
        Message { source: None, payload: Payload::Reply(Reply::Version(v)) }
    }
}

impl From<Version> for RawMessage {
    fn from(value: Version) -> (r: RawMessage)
        ensures
            r@ == (RawView {
                source: None,
                command: CommandView::Reply(value.reply_code()),
                parameters: value.reply_params(),
            }),
    {
        RawMessage::from(Reply::Version(value))
    }
}

impl FromSpecImpl<Version> for RawMessage {
    open spec fn obeys_from_spec() -> bool {
        false
    }

    open spec fn from_spec(v: Version) -> RawMessage {
        arbitrary()
    }
}

impl From<WhoReply> for Reply {
    fn from(value: WhoReply) -> (r: Reply)
        ensures
            r == Reply::WhoReply(value),
    {
        Reply::WhoReply(value)
    }
}

impl FromSpecImpl<WhoReply> for Reply {
    open spec fn obeys_from_spec() -> bool {
        true
    }

    open spec fn from_spec(v: WhoReply) -> Reply {
        Reply::WhoReply(v)
    }
}

impl From<WhoReply> for Message {
    fn from(value: WhoReply) -> (r: Message)
        ensures
            r == (Message { source: None, payload: Payload::Reply(Reply::WhoReply(value)) }),
    {
        Message::from(Reply::WhoReply(value))
    }
}

impl FromSpecImpl<WhoReply> for Message {
    open spec fn obeys_from_spec() -> bool {
        true
    }

    open spec fn from_spec(v: WhoReply) -> Message {
        Message { source: None, payload: Payload::Reply(Reply::WhoReply(v)) }
    }
}

impl From<WhoReply> for RawMessage {
    fn from(value: WhoReply) -> (r: RawMessage)
        ensures
            r@ == (RawView {
                source: None,
                command: CommandView::Reply(value.reply_code()),
                parameters: value.reply_params(),
            }),
    {
        RawMessage::from(Reply::WhoReply(value))
    }
}

impl FromSpecImpl<WhoReply> for RawMessage {
    open spec fn obeys_from_spec() -> bool {
        false
    }

    open spec fn from_spec(v: WhoReply) -> RawMessage {
        arbitrary()
    }
}

impl From<NamReply> for Reply {
    fn from(value: NamReply) -> (r: Reply)
        ensures
            r == Reply::NamReply(value),
    {
        Reply::NamReply(value)
    }
}

impl FromSpecImpl<NamReply> for Reply {
    open spec fn obeys_from_spec() -> bool {
        true
    }

    open spec fn from_spec(v: NamReply) -> Reply {
        Reply::NamReply(v)
    }
}

impl From<NamReply> for Message {
    fn from(value: NamReply) -> (r: Message)
        ensures
            r == (Message { source: None, payload: Payload::Reply(Reply::NamReply(value)) }),
    {
        Message::from(Reply::NamReply(value))
    }
}

impl FromSpecImpl<NamReply> for Message {
    open spec fn obeys_from_spec() -> bool {
        true
    }

    open spec fn from_spec(v: NamReply) -> Message {
        Message { source: None, payload: Payload::Reply(Reply::NamReply(v)) }
    }
}

impl From<NamReply> for RawMessage {
    fn from(value: NamReply) -> (r: RawMessage)
        ensures
            r@ == (RawView {
                source: None,
                command: CommandView::Reply(value.reply_code()),
                parameters: value.reply_params(),
            }),
    {
        RawMessage::from(Reply::NamReply(value))
    }
}

impl FromSpecImpl<NamReply> for RawMessage {
    open spec fn obeys_from_spec() -> bool {
        false
    }

    open spec fn from_spec(v: NamReply) -> RawMessage {
        arbitrary()
    }
}

impl From<Links> for Reply {
    fn from(value: Links) -> (r: Reply)
        ensures
            r == Reply::Links(value),
    {
        Reply::Links(value)
    }
}

impl FromSpecImpl<Links> for Reply {
    open spec fn obeys_from_spec() -> bool {
        true
    }

    open spec fn from_spec(v: Links) -> Reply {
        Reply::Links(v)
    }
}

impl From<Links> for Message {
    fn from(value: Links) -> (r: Message)
        ensures
            r == (Message { source: None, payload: Payload::Reply(Reply::Links(value)) }),
    {
        Message::from(Reply::Links(value))
    }
}

impl FromSpecImpl<Links> for Message {
    open spec fn obeys_from_spec() -> bool {
        true
    }

    open spec fn from_spec(v: Links) -> Message {
        Message { source: None, payload: Payload::Reply(Reply::Links(v)) }
    }
}

impl From<Links> for RawMessage {
    fn from(value: Links) -> (r: RawMessage)
        ensures
            r@ == (RawView {
                source: None,
                command: CommandView::Reply(value.reply_code()),
                parameters: value.reply_params(),
            }),
    {
        RawMessage::from(Reply::Links(value))
    }
}

impl FromSpecImpl<Links> for RawMessage {
    open spec fn obeys_from_spec() -> bool {
        false
    }

    open spec fn from_spec(v: Links) -> RawMessage {
        arbitrary()
    }
}

impl From<EndOfLinks> for Reply {
    fn from(value: EndOfLinks) -> (r: Reply)
        ensures
            r == Reply::EndOfLinks(value),
    {
        Reply::EndOfLinks(value)
    }
}

impl FromSpecImpl<EndOfLinks> for Reply {
    open spec fn obeys_from_spec() -> bool {
        true
    }

    open spec fn from_spec(v: EndOfLinks) -> Reply {
        Reply::EndOfLinks(v)
    }
}

impl From<EndOfLinks> for Message {
    fn from(value: EndOfLinks) -> (r: Message)
        ensures
            r == (Message { source: None, payload: Payload::Reply(Reply::EndOfLinks(value)) }),
    {
        Message::from(Reply::EndOfLinks(value))
    }
}

impl FromSpecImpl<EndOfLinks> for Message {
    open spec fn obeys_from_spec() -> bool {
        true
    }

    open spec fn from_spec(v: EndOfLinks) -> Message {
        Message { source: None, payload: Payload::Reply(Reply::EndOfLinks(v)) }
    }
}

impl From<EndOfLinks> for RawMessage {
    fn from(value: EndOfLinks) -> (r: RawMessage)
        ensures
            r@ == (RawView {
                source: None,
                command: CommandView::Reply(value.reply_code()),
                parameters: value.reply_params(),
            }),
    {
        RawMessage::from(Reply::EndOfLinks(value))
    }
}

impl FromSpecImpl<EndOfLinks> for RawMessage {
    open spec fn obeys_from_spec() -> bool {
        false
    }

    open spec fn from_spec(v: EndOfLinks) -> RawMessage {
        arbitrary()
    }
}

impl From<EndOfNames> for Reply {
    fn from(value: EndOfNames) -> (r: Reply)
        ensures
            r == Reply::EndOfNames(value),
    {
        Reply::EndOfNames(value)
    }
}

impl FromSpecImpl<EndOfNames> for Reply {
    open spec fn obeys_from_spec() -> bool {
        true
    }

    open spec fn from_spec(v: EndOfNames) -> Reply {
        Reply::EndOfNames(v)
    }
}

impl From<EndOfNames> for Message {
    fn from(value: EndOfNames) -> (r: Message)
        ensures
            r == (Message { source: None, payload: Payload::Reply(Reply::EndOfNames(value)) }),
    {
        Message::from(Reply::EndOfNames(value))
    }
}

impl FromSpecImpl<EndOfNames> for Message {
    open spec fn obeys_from_spec() -> bool {
        true
    }

    open spec fn from_spec(v: EndOfNames) -> Message {
        Message { source: None, payload: Payload::Reply(Reply::EndOfNames(v)) }
    }
}

impl From<EndOfNames> for RawMessage {
    fn from(value: EndOfNames) -> (r: RawMessage)
        ensures
            r@ == (RawView {
                source: None,
                command: CommandView::Reply(value.reply_code()),
                parameters: value.reply_params(),
            }),
    {
        RawMessage::from(Reply::EndOfNames(value))
    }
}

impl FromSpecImpl<EndOfNames> for RawMessage {
    open spec fn obeys_from_spec() -> bool {
        false
    }

    open spec fn from_spec(v: EndOfNames) -> RawMessage {
        arbitrary()
    }
}

impl From<BanList> for Reply {
    fn from(value: BanList) -> (r: Reply)
        ensures
            r == Reply::BanList(value),
    {
        Reply::BanList(value)
    }
}

impl FromSpecImpl<BanList> for Reply {
    open spec fn obeys_from_spec() -> bool {
        true
    }

    open spec fn from_spec(v: BanList) -> Reply {
        Reply::BanList(v)
    }
}

impl From<BanList> for Message {
    fn from(value: BanList) -> (r: Message)
        ensures
            r == (Message { source: None, payload: Payload::Reply(Reply::BanList(value)) }),
    {
        Message::from(Reply::BanList(value))
    }
}

impl FromSpecImpl<BanList> for Message {
    open spec fn obeys_from_spec() -> bool {
        true
    }

    open spec fn from_spec(v: BanList) -> Message {
        Message { source: None, payload: Payload::Reply(Reply::BanList(v)) }
    }
}

impl From<BanList> for RawMessage {
    fn from(value: BanList) -> (r: RawMessage)
        ensures
            r@ == (RawView {
                source: None,
                command: CommandView::Reply(value.reply_code()),
                parameters: value.reply_params(),
            }),
    {
        RawMessage::from(Reply::BanList(value))
    }
}

impl FromSpecImpl<BanList> for RawMessage {
    open spec fn obeys_from_spec() -> bool {
        false
    }

    open spec fn from_spec(v: BanList) -> RawMessage {
        arbitrary()
    }
}

impl From<EndOfBanList> for Reply {
    fn from(value: EndOfBanList) -> (r: Reply)
        ensures
            r == Reply::EndOfBanList(value),
    {
        Reply::EndOfBanList(value)
    }
}

impl FromSpecImpl<EndOfBanList> for Reply {
    open spec fn obeys_from_spec() -> bool {
        true
    }

    open spec fn from_spec(v: EndOfBanList) -> Reply {
        Reply::EndOfBanList(v)
    }
}

impl From<EndOfBanList> for Message {
    fn from(value: EndOfBanList) -> (r: Message)
        ensures
            r == (Message { source: None, payload: Payload::Reply(Reply::EndOfBanList(value)) }),
    {
        Message::from(Reply::EndOfBanList(value))
    }
}

impl FromSpecImpl<EndOfBanList> for Message {
    open spec fn obeys_from_spec() -> bool {
        true
    }

    open spec fn from_spec(v: EndOfBanList) -> Message {
        Message { source: None, payload: Payload::Reply(Reply::EndOfBanList(v)) }
    }
}

impl From<EndOfBanList> for RawMessage {
    fn from(value: EndOfBanList) -> (r: RawMessage)
        ensures
            r@ == (RawView {
                source: None,
                command: CommandView::Reply(value.reply_code()),
                parameters: value.reply_params(),
            }),
    {
        RawMessage::from(Reply::EndOfBanList(value))
    }
}

impl FromSpecImpl<EndOfBanList> for RawMessage {
    open spec fn obeys_from_spec() -> bool {
        false
    }

    open spec fn from_spec(v: EndOfBanList) -> RawMessage {
        arbitrary()
    }
}

impl From<EndOfWhoWas> for Reply {
    fn from(value: EndOfWhoWas) -> (r: Reply)
        ensures
            r == Reply::EndOfWhoWas(value),
    {
        Reply::EndOfWhoWas(value)
    }
}

impl FromSpecImpl<EndOfWhoWas> for Reply {
    open spec fn obeys_from_spec() -> bool {
        true
    }

    open spec fn from_spec(v: EndOfWhoWas) -> Reply {
        Reply::EndOfWhoWas(v)
    }
}

impl From<EndOfWhoWas> for Message {
    fn from(value: EndOfWhoWas) -> (r: Message)
        ensures
            r == (Message { source: None, payload: Payload::Reply(Reply::EndOfWhoWas(value)) }),
    {
        Message::from(Reply::EndOfWhoWas(value))
    }
}

impl FromSpecImpl<EndOfWhoWas> for Message {
    open spec fn obeys_from_spec() -> bool {
        true
    }

    open spec fn from_spec(v: EndOfWhoWas) -> Message {
        Message { source: None, payload: Payload::Reply(Reply::EndOfWhoWas(v)) }
    }
}

impl From<EndOfWhoWas> for RawMessage {
    fn from(value: EndOfWhoWas) -> (r: RawMessage)
        ensures
            r@ == (RawView {
                source: None,
                command: CommandView::Reply(value.reply_code()),
                parameters: value.reply_params(),
            }),
    {
        RawMessage::from(Reply::EndOfWhoWas(value))
    }
}

impl FromSpecImpl<EndOfWhoWas> for RawMessage {
    open spec fn obeys_from_spec() -> bool {
        false
    }

    open spec fn from_spec(v: EndOfWhoWas) -> RawMessage {
        arbitrary()
    }
}

impl From<Info> for Reply {
    fn from(value: Info) -> (r: Reply)
        ensures
            r == Reply::Info(value),
    {
        Reply::Info(value)
    }
}

impl FromSpecImpl<Info> for Reply {
    open spec fn obeys_from_spec() -> bool {
        true
    }

    open spec fn from_spec(v: Info) -> Reply {
        Reply::Info(v)
    }
}

impl From<Info> for Message {
    fn from(value: Info) -> (r: Message)
        ensures
            r == (Message { source: None, payload: Payload::Reply(Reply::Info(value)) }),
    {
        Message::from(Reply::Info(value))
    }
}

impl FromSpecImpl<Info> for Message {
    open spec fn obeys_from_spec() -> bool {
        true
    }

    open spec fn from_spec(v: Info) -> Message {
        Message { source: None, payload: Payload::Reply(Reply::Info(v)) }
    }
}

impl From<Info> for RawMessage {
    fn from(value: Info) -> (r: RawMessage)
        ensures
            r@ == (RawView {
                source: None,
                command: CommandView::Reply(value.reply_code()),
                parameters: value.reply_params(),
            }),
    {
        RawMessage::from(Reply::Info(value))
    }
}

impl FromSpecImpl<Info> for RawMessage {
    open spec fn obeys_from_spec() -> bool {
        false
    }

    open spec fn from_spec(v: Info) -> RawMessage {
        arbitrary()
    }
}

impl From<Motd> for Reply {
    fn from(value: Motd) -> (r: Reply)
        ensures
            r == Reply::Motd(value),
    {
        Reply::Motd(value)
    }
}

impl FromSpecImpl<Motd> for Reply {
    open spec fn obeys_from_spec() -> bool {
        true
    }

    open spec fn from_spec(v: Motd) -> Reply {
        Reply::Motd(v)
    }
}

impl From<Motd> for Message {
    fn from(value: Motd) -> (r: Message)
        ensures
            r == (Message { source: None, payload: Payload::Reply(Reply::Motd(value)) }),
    {
        Message::from(Reply::Motd(value))
    }
}

impl FromSpecImpl<Motd> for Message {
    open spec fn obeys_from_spec() -> bool {
        true
    }

    open spec fn from_spec(v: Motd) -> Message {
        Message { source: None, payload: Payload::Reply(Reply::Motd(v)) }
    }
}

impl From<Motd> for RawMessage {
    fn from(value: Motd) -> (r: RawMessage)
        ensures
            r@ == (RawView {
                source: None,
                command: CommandView::Reply(value.reply_code()),
                parameters: value.reply_params(),
            }),
    {
        RawMessage::from(Reply::Motd(value))
    }
}

impl FromSpecImpl<Motd> for RawMessage {
    open spec fn obeys_from_spec() -> bool {
        false
    }

    open spec fn from_spec(v: Motd) -> RawMessage {
        arbitrary()
    }
}

impl From<EndOfInfo> for Reply {
    fn from(value: EndOfInfo) -> (r: Reply)
        ensures
            r == Reply::EndOfInfo(value),
    {
        Reply::EndOfInfo(value)
    }
}

impl FromSpecImpl<EndOfInfo> for Reply {
    open spec fn obeys_from_spec() -> bool {
        true
    }

    open spec fn from_spec(v: EndOfInfo) -> Reply {
        Reply::EndOfInfo(v)
    }
}

impl From<EndOfInfo> for Message {
    fn from(value: EndOfInfo) -> (r: Message)
        ensures
            r == (Message { source: None, payload: Payload::Reply(Reply::EndOfInfo(value)) }),
    {
        Message::from(Reply::EndOfInfo(value))
    }
}

impl FromSpecImpl<EndOfInfo> for Message {
    open spec fn obeys_from_spec() -> bool {
        true
    }

    open spec fn from_spec(v: EndOfInfo) -> Message {
        Message { source: None, payload: Payload::Reply(Reply::EndOfInfo(v)) }
    }
}

impl From<EndOfInfo> for RawMessage {
    fn from(value: EndOfInfo) -> (r: RawMessage)
        ensures
            r@ == (RawView {
                source: None,
                command: CommandView::Reply(value.reply_code()),
                parameters: value.reply_params(),
            }),
    {
        RawMessage::from(Reply::EndOfInfo(value))
    }
}

impl FromSpecImpl<EndOfInfo> for RawMessage {
    open spec fn obeys_from_spec() -> bool {
        false
    }

    open spec fn from_spec(v: EndOfInfo) -> RawMessage {
        arbitrary()
    }
}

impl From<MotdStart> for Reply {
    fn from(value: MotdStart) -> (r: Reply)
        ensures
            r == Reply::MotdStart(value),
    {
        Reply::MotdStart(value)
    }
}

impl FromSpecImpl<MotdStart> for Reply {
    open spec fn obeys_from_spec() -> bool {
        true
    }

    open spec fn from_spec(v: MotdStart) -> Reply {
        Reply::MotdStart(v)
    }
}

impl From<MotdStart> for Message {
    fn from(value: MotdStart) -> (r: Message)
        ensures
            r == (Message { source: None, payload: Payload::Reply(Reply::MotdStart(value)) }),
    {
        Message::from(Reply::MotdStart(value))
    }
}

impl FromSpecImpl<MotdStart> for Message {
    open spec fn obeys_from_spec() -> bool {
        true
    }

    open spec fn from_spec(v: MotdStart) -> Message {
        Message { source: None, payload: Payload::Reply(Reply::MotdStart(v)) }
    }
}

impl From<MotdStart> for RawMessage {
    fn from(value: MotdStart) -> (r: RawMessage)
        ensures
            r@ == (RawView {
                source: None,
                command: CommandView::Reply(value.reply_code()),
                parameters: value.reply_params(),
            }),
    {
        RawMessage::from(Reply::MotdStart(value))
    }
}

impl FromSpecImpl<MotdStart> for RawMessage {
    open spec fn obeys_from_spec() -> bool {
        false
    }

    open spec fn from_spec(v: MotdStart) -> RawMessage {
        arbitrary()
    }
}

impl From<EndOfMotd> for Reply {
    fn from(value: EndOfMotd) -> (r: Reply)
        ensures
            r == Reply::EndOfMotd(value),
    {
        Reply::EndOfMotd(value)
    }
}

impl FromSpecImpl<EndOfMotd> for Reply {
    open spec fn obeys_from_spec() -> bool {
        true
    }

    open spec fn from_spec(v: EndOfMotd) -> Reply {
        Reply::EndOfMotd(v)
    }
}

impl From<EndOfMotd> for Message {
    fn from(value: EndOfMotd) -> (r: Message)
        ensures
            r == (Message { source: None, payload: Payload::Reply(Reply::EndOfMotd(value)) }),
    {
        Message::from(Reply::EndOfMotd(value))
    }
}

impl FromSpecImpl<EndOfMotd> for Message {
    open spec fn obeys_from_spec() -> bool {
        true
    }

    open spec fn from_spec(v: EndOfMotd) -> Message {
        Message { source: None, payload: Payload::Reply(Reply::EndOfMotd(v)) }
    }
}

impl From<EndOfMotd> for RawMessage {
    fn from(value: EndOfMotd) -> (r: RawMessage)
        ensures
            r@ == (RawView {
                source: None,
                command: CommandView::Reply(value.reply_code()),
                parameters: value.reply_params(),
            }),
    {
        RawMessage::from(Reply::EndOfMotd(value))
    }
}

impl FromSpecImpl<EndOfMotd> for RawMessage {
    open spec fn obeys_from_spec() -> bool {
        false
    }

    open spec fn from_spec(v: EndOfMotd) -> RawMessage {
        arbitrary()
    }
}

impl From<WhoIsHost> for Reply {
    fn from(value: WhoIsHost) -> (r: Reply)
        ensures
            r == Reply::WhoIsHost(value),
    {
        Reply::WhoIsHost(value)
    }
}

impl FromSpecImpl<WhoIsHost> for Reply {
    open spec fn obeys_from_spec() -> bool {
        true
    }

    open spec fn from_spec(v: WhoIsHost) -> Reply {
        Reply::WhoIsHost(v)
    }
}

impl From<WhoIsHost> for Message {
    fn from(value: WhoIsHost) -> (r: Message)
        ensures
            r == (Message { source: None, payload: Payload::Reply(Reply::WhoIsHost(value)) }),
    {
        Message::from(Reply::WhoIsHost(value))
    }
}

impl FromSpecImpl<WhoIsHost> for Message {
    open spec fn obeys_from_spec() -> bool {
        true
    }

    open spec fn from_spec(v: WhoIsHost) -> Message {
        Message { source: None, payload: Payload::Reply(Reply::WhoIsHost(v)) }
    }
}

impl From<WhoIsHost> for RawMessage {
    fn from(value: WhoIsHost) -> (r: RawMessage)
        ensures
            r@ == (RawView {
                source: None,
                command: CommandView::Reply(value.reply_code()),
                parameters: value.reply_params(),
            }),
    {
        RawMessage::from(Reply::WhoIsHost(value))
    }
}

impl FromSpecImpl<WhoIsHost> for RawMessage {
    open spec fn obeys_from_spec() -> bool {
        false
    }

    open spec fn from_spec(v: WhoIsHost) -> RawMessage {
        arbitrary()
    }
}

impl From<WhoIsModes> for Reply {
    fn from(value: WhoIsModes) -> (r: Reply)
        ensures
            r == Reply::WhoIsModes(value),
    {
        Reply::WhoIsModes(value)
    }
}

impl FromSpecImpl<WhoIsModes> for Reply {
    open spec fn obeys_from_spec() -> bool {
        true
    }

    open spec fn from_spec(v: WhoIsModes) -> Reply {
        Reply::WhoIsModes(v)
    }
}

impl From<WhoIsModes> for Message {
    fn from(value: WhoIsModes) -> (r: Message)
        ensures
            r == (Message { source: None, payload: Payload::Reply(Reply::WhoIsModes(value)) }),
    {
        Message::from(Reply::WhoIsModes(value))
    }
}

impl FromSpecImpl<WhoIsModes> for Message {
    open spec fn obeys_from_spec() -> bool {
        true
    }

    open spec fn from_spec(v: WhoIsModes) -> Message {
        Message { source: None, payload: Payload::Reply(Reply::WhoIsModes(v)) }
    }
}

impl From<WhoIsModes> for RawMessage {
    fn from(value: WhoIsModes) -> (r: RawMessage)
        ensures
            r@ == (RawView {
                source: None,
                command: CommandView::Reply(value.reply_code()),
                parameters: value.reply_params(),
            }),
    {
        RawMessage::from(Reply::WhoIsModes(value))
    }
}

impl FromSpecImpl<WhoIsModes> for RawMessage {
    open spec fn obeys_from_spec() -> bool {
        false
    }

    open spec fn from_spec(v: WhoIsModes) -> RawMessage {
        arbitrary()
    }
}

impl From<YoureOper> for Reply {
    fn from(value: YoureOper) -> (r: Reply)
        ensures
            r == Reply::YoureOper(value),
    {
        Reply::YoureOper(value)
    }
}

impl FromSpecImpl<YoureOper> for Reply {
    open spec fn obeys_from_spec() -> bool {
        true
    }

    open spec fn from_spec(v: YoureOper) -> Reply {
        Reply::YoureOper(v)
    }
}

impl From<YoureOper> for Message {
    fn from(value: YoureOper) -> (r: Message)
        ensures
            r == (Message { source: None, payload: Payload::Reply(Reply::YoureOper(value)) }),
    {
        Message::from(Reply::YoureOper(value))
    }
}

impl FromSpecImpl<YoureOper> for Message {
    open spec fn obeys_from_spec() -> bool {
        true
    }

    open spec fn from_spec(v: YoureOper) -> Message {
        Message { source: None, payload: Payload::Reply(Reply::YoureOper(v)) }
    }
}

impl From<YoureOper> for RawMessage {
    fn from(value: YoureOper) -> (r: RawMessage)
        ensures
            r@ == (RawView {
                source: None,
                command: CommandView::Reply(value.reply_code()),
                parameters: value.reply_params(),
            }),
    {
        RawMessage::from(Reply::YoureOper(value))
    }
}

impl FromSpecImpl<YoureOper> for RawMessage {
    open spec fn obeys_from_spec() -> bool {
        false
    }

    open spec fn from_spec(v: YoureOper) -> RawMessage {
        arbitrary()
    }
}

impl From<Rehashing> for Reply {
    fn from(value: Rehashing) -> (r: Reply)
        ensures
            r == Reply::Rehashing(value),
    {
        Reply::Rehashing(value)
    }
}

impl FromSpecImpl<Rehashing> for Reply {
    open spec fn obeys_from_spec() -> bool {
        true
    }

    open spec fn from_spec(v: Rehashing) -> Reply {
        Reply::Rehashing(v)
    }
}

impl From<Rehashing> for Message {
    fn from(value: Rehashing) -> (r: Message)
        ensures
            r == (Message { source: None, payload: Payload::Reply(Reply::Rehashing(value)) }),
    {
        Message::from(Reply::Rehashing(value))
    }
}

impl FromSpecImpl<Rehashing> for Message {
    open spec fn obeys_from_spec() -> bool {
        true
    }

    open spec fn from_spec(v: Rehashing) -> Message {
        Message { source: None, payload: Payload::Reply(Reply::Rehashing(v)) }
    }
}

impl From<Rehashing> for RawMessage {
    fn from(value: Rehashing) -> (r: RawMessage)
        ensures
            r@ == (RawView {
                source: None,
                command: CommandView::Reply(value.reply_code()),
                parameters: value.reply_params(),
            }),
    {
        RawMessage::from(Reply::Rehashing(value))
    }
}

impl FromSpecImpl<Rehashing> for RawMessage {
    open spec fn obeys_from_spec() -> bool {
        false
    }

    open spec fn from_spec(v: Rehashing) -> RawMessage {
        arbitrary()
    }
}

impl From<Time> for Reply {
    fn from(value: Time) -> (r: Reply)
        ensures
            r == Reply::Time(value),
    {
        Reply::Time(value)
    }
}

impl FromSpecImpl<Time> for Reply {
    open spec fn obeys_from_spec() -> bool {
        true
    }

    open spec fn from_spec(v: Time) -> Reply {
        Reply::Time(v)
    }
}

impl From<Time> for Message {
    fn from(value: Time) -> (r: Message)
        ensures
            r == (Message { source: None, payload: Payload::Reply(Reply::Time(value)) }),
    {
        Message::from(Reply::Time(value))
    }
}

impl FromSpecImpl<Time> for Message {
    open spec fn obeys_from_spec() -> bool {
        true
    }

    open spec fn from_spec(v: Time) -> Message {
        Message { source: None, payload: Payload::Reply(Reply::Time(v)) }
    }
}

impl From<Time> for RawMessage {
    fn from(value: Time) -> (r: RawMessage)
        ensures
            r@ == (RawView {
                source: None,
                command: CommandView::Reply(value.reply_code()),
                parameters: value.reply_params(),
            }),
    {
        RawMessage::from(Reply::Time(value))
    }
}

impl FromSpecImpl<Time> for RawMessage {
    open spec fn obeys_from_spec() -> bool {
        false
    }

    open spec fn from_spec(v: Time) -> RawMessage {
        arbitrary()
    }
}

impl From<UnknownError> for Reply {
    fn from(value: UnknownError) -> (r: Reply)
        ensures
            r == Reply::UnknownError(value),
    {
        Reply::UnknownError(value)
    }
}

impl FromSpecImpl<UnknownError> for Reply {
    open spec fn obeys_from_spec() -> bool {
        true
    }

    open spec fn from_spec(v: UnknownError) -> Reply {
        Reply::UnknownError(v)
    }
}

impl From<UnknownError> for Message {
    fn from(value: UnknownError) -> (r: Message)
        ensures
            r == (Message { source: None, payload: Payload::Reply(Reply::UnknownError(value)) }),
    {
        Message::from(Reply::UnknownError(value))
    }
}

impl FromSpecImpl<UnknownError> for Message {
    open spec fn obeys_from_spec() -> bool {
        true
    }

    open spec fn from_spec(v: UnknownError) -> Message {
        Message { source: None, payload: Payload::Reply(Reply::UnknownError(v)) }
    }
}

impl From<UnknownError> for RawMessage {
    fn from(value: UnknownError) -> (r: RawMessage)
        ensures
            r@ == (RawView {
                source: None,
                command: CommandView::Reply(value.reply_code()),
                parameters: value.reply_params(),
            }),
    {
        RawMessage::from(Reply::UnknownError(value))
    }
}

impl FromSpecImpl<UnknownError> for RawMessage {
    open spec fn obeys_from_spec() -> bool {
        false
    }

    open spec fn from_spec(v: UnknownError) -> RawMessage {
        arbitrary()
    }
}

impl From<NoSuchNick> for Reply {
    fn from(value: NoSuchNick) -> (r: Reply)
        ensures
            r == Reply::NoSuchNick(value),
    {
        Reply::NoSuchNick(value)
    }
}

impl FromSpecImpl<NoSuchNick> for Reply {
    open spec fn obeys_from_spec() -> bool {
        true
    }

    open spec fn from_spec(v: NoSuchNick) -> Reply {
        Reply::NoSuchNick(v)
    }
}

impl From<NoSuchNick> for Message {
    fn from(value: NoSuchNick) -> (r: Message)
        ensures
            r == (Message { source: None, payload: Payload::Reply(Reply::NoSuchNick(value)) }),
    {
        Message::from(Reply::NoSuchNick(value))
    }
}

impl FromSpecImpl<NoSuchNick> for Message {
    open spec fn obeys_from_spec() -> bool {
        true
    }

    open spec fn from_spec(v: NoSuchNick) -> Message {
        Message { source: None, payload: Payload::Reply(Reply::NoSuchNick(v)) }
    }
}

impl From<NoSuchNick> for RawMessage {
    fn from(value: NoSuchNick) -> (r: RawMessage)
        ensures
            r@ == (RawView {
                source: None,
                command: CommandView::Reply(value.reply_code()),
                parameters: value.reply_params(),
            }),
    {
        RawMessage::from(Reply::NoSuchNick(value))
    }
}

impl FromSpecImpl<NoSuchNick> for RawMessage {
    open spec fn obeys_from_spec() -> bool {
        false
    }

    open spec fn from_spec(v: NoSuchNick) -> RawMessage {
        arbitrary()
    }
}

impl From<NoSuchServer> for Reply {
    fn from(value: NoSuchServer) -> (r: Reply)
        ensures
            r == Reply::NoSuchServer(value),
    {
        Reply::NoSuchServer(value)
    }
}

impl FromSpecImpl<NoSuchServer> for Reply {
    open spec fn obeys_from_spec() -> bool {
        true
    }

    open spec fn from_spec(v: NoSuchServer) -> Reply {
        Reply::NoSuchServer(v)
    }
}

impl From<NoSuchServer> for Message {
    fn from(value: NoSuchServer) -> (r: Message)
        ensures
            r == (Message { source: None, payload: Payload::Reply(Reply::NoSuchServer(value)) }),
    {
        Message::from(Reply::NoSuchServer(value))
    }
}

impl FromSpecImpl<NoSuchServer> for Message {
    open spec fn obeys_from_spec() -> bool {
        true
    }

    open spec fn from_spec(v: NoSuchServer) -> Message {
        Message { source: None, payload: Payload::Reply(Reply::NoSuchServer(v)) }
    }
}

impl From<NoSuchServer> for RawMessage {
    fn from(value: NoSuchServer) -> (r: RawMessage)
        ensures
            r@ == (RawView {
                source: None,
                command: CommandView::Reply(value.reply_code()),
                parameters: value.reply_params(),
            }),
    {
        RawMessage::from(Reply::NoSuchServer(value))
    }
}

impl FromSpecImpl<NoSuchServer> for RawMessage {
    open spec fn obeys_from_spec() -> bool {
        false
    }

    open spec fn from_spec(v: NoSuchServer) -> RawMessage {
        arbitrary()
    }
}

impl From<NoSuchChannel> for Reply {
    fn from(value: NoSuchChannel) -> (r: Reply)
        ensures
            r == Reply::NoSuchChannel(value),
    {
        Reply::NoSuchChannel(value)
    }
}

impl FromSpecImpl<NoSuchChannel> for Reply {
    open spec fn obeys_from_spec() -> bool {
        true
    }

    open spec fn from_spec(v: NoSuchChannel) -> Reply {
        Reply::NoSuchChannel(v)
    }
}

impl From<NoSuchChannel> for Message {
    fn from(value: NoSuchChannel) -> (r: Message)
        ensures
            r == (Message { source: None, payload: Payload::Reply(Reply::NoSuchChannel(value)) }),
    {
        Message::from(Reply::NoSuchChannel(value))
    }
}

impl FromSpecImpl<NoSuchChannel> for Message {
    open spec fn obeys_from_spec() -> bool {
        true
    }

    open spec fn from_spec(v: NoSuchChannel) -> Message {
        Message { source: None, payload: Payload::Reply(Reply::NoSuchChannel(v)) }
    }
}

impl From<NoSuchChannel> for RawMessage {
    fn from(value: NoSuchChannel) -> (r: RawMessage)
        ensures
            r@ == (RawView {
                source: None,
                command: CommandView::Reply(value.reply_code()),
                parameters: value.reply_params(),
            }),
    {
        RawMessage::from(Reply::NoSuchChannel(value))
    }
}

impl FromSpecImpl<NoSuchChannel> for RawMessage {
    open spec fn obeys_from_spec() -> bool {
        false
    }

    open spec fn from_spec(v: NoSuchChannel) -> RawMessage {
        arbitrary()
    }
}

impl From<CannotSendToChan> for Reply {
    fn from(value: CannotSendToChan) -> (r: Reply)
        ensures
            r == Reply::CannotSendToChan(value),
    {
        Reply::CannotSendToChan(value)
    }
}

impl FromSpecImpl<CannotSendToChan> for Reply {
    open spec fn obeys_from_spec() -> bool {
        true
    }

    open spec fn from_spec(v: CannotSendToChan) -> Reply {
        Reply::CannotSendToChan(v)
    }
}

impl From<CannotSendToChan> for Message {
    fn from(value: CannotSendToChan) -> (r: Message)
        ensures
            r == (Message { source: None, payload: Payload::Reply(Reply::CannotSendToChan(value)) }),
    {
        Message::from(Reply::CannotSendToChan(value))
    }
}

impl FromSpecImpl<CannotSendToChan> for Message {
    open spec fn obeys_from_spec() -> bool {
        true
    }

    open spec fn from_spec(v: CannotSendToChan) -> Message {
        Message { source: None, payload: Payload::Reply(Reply::CannotSendToChan(v)) }
    }
}

impl From<CannotSendToChan> for RawMessage {
    fn from(value: CannotSendToChan) -> (r: RawMessage)
        ensures
            r@ == (RawView {
                source: None,
                command: CommandView::Reply(value.reply_code()),
                parameters: value.reply_params(),
            }),
    {
        RawMessage::from(Reply::CannotSendToChan(value))
    }
}

impl FromSpecImpl<CannotSendToChan> for RawMessage {
    open spec fn obeys_from_spec() -> bool {
        false
    }

    open spec fn from_spec(v: CannotSendToChan) -> RawMessage {
        arbitrary()
    }
}

impl From<TooManyChannels> for Reply {
    fn from(value: TooManyChannels) -> (r: Reply)
        ensures
            r == Reply::TooManyChannels(value),
    {
        Reply::TooManyChannels(value)
    }
}

impl FromSpecImpl<TooManyChannels> for Reply {
    open spec fn obeys_from_spec() -> bool {
        true
    }

    open spec fn from_spec(v: TooManyChannels) -> Reply {
        Reply::TooManyChannels(v)
    }
}

impl From<TooManyChannels> for Message {
    fn from(value: TooManyChannels) -> (r: Message)
        ensures
            r == (Message { source: None, payload: Payload::Reply(Reply::TooManyChannels(value)) }),
    {
        Message::from(Reply::TooManyChannels(value))
    }
}

impl FromSpecImpl<TooManyChannels> for Message {
    open spec fn obeys_from_spec() -> bool {
        true
    }

    open spec fn from_spec(v: TooManyChannels) -> Message {
        Message { source: None, payload: Payload::Reply(Reply::TooManyChannels(v)) }
    }
}

impl From<TooManyChannels> for RawMessage {
    fn from(value: TooManyChannels) -> (r: RawMessage)
        ensures
            r@ == (RawView {
                source: None,
                command: CommandView::Reply(value.reply_code()),
                parameters: value.reply_params(),
            }),
    {
        RawMessage::from(Reply::TooManyChannels(value))
    }
}

impl FromSpecImpl<TooManyChannels> for RawMessage {
    open spec fn obeys_from_spec() -> bool {
        false
    }

    open spec fn from_spec(v: TooManyChannels) -> RawMessage {
        arbitrary()
    }
}

impl From<WasNoSuchNick> for Reply {
    fn from(value: WasNoSuchNick) -> (r: Reply)
        ensures
            r == Reply::WasNoSuchNick(value),
    {
        Reply::WasNoSuchNick(value)
    }
}

impl FromSpecImpl<WasNoSuchNick> for Reply {
    open spec fn obeys_from_spec() -> bool {
        true
    }

    open spec fn from_spec(v: WasNoSuchNick) -> Reply {
        Reply::WasNoSuchNick(v)
    }
}

impl From<WasNoSuchNick> for Message {
    fn from(value: WasNoSuchNick) -> (r: Message)
        ensures
            r == (Message { source: None, payload: Payload::Reply(Reply::WasNoSuchNick(value)) }),
    {
        Message::from(Reply::WasNoSuchNick(value))
    }
}

impl FromSpecImpl<WasNoSuchNick> for Message {
    open spec fn obeys_from_spec() -> bool {
        true
    }

    open spec fn from_spec(v: WasNoSuchNick) -> Message {
        Message { source: None, payload: Payload::Reply(Reply::WasNoSuchNick(v)) }
    }
}

impl From<WasNoSuchNick> for RawMessage {
    fn from(value: WasNoSuchNick) -> (r: RawMessage)
        ensures
            r@ == (RawView {
                source: None,
                command: CommandView::Reply(value.reply_code()),
                parameters: value.reply_params(),
            }),
    {
        RawMessage::from(Reply::WasNoSuchNick(value))
    }
}

impl FromSpecImpl<WasNoSuchNick> for RawMessage {
    open spec fn obeys_from_spec() -> bool {
        false
    }

    open spec fn from_spec(v: WasNoSuchNick) -> RawMessage {
        arbitrary()
    }
}

impl From<NoOrigin> for Reply {
    fn from(value: NoOrigin) -> (r: Reply)
        ensures
            r == Reply::NoOrigin(value),
    {
        Reply::NoOrigin(value)
    }
}

impl FromSpecImpl<NoOrigin> for Reply {
    open spec fn obeys_from_spec() -> bool {
        true
    }

    open spec fn from_spec(v: NoOrigin) -> Reply {
        Reply::NoOrigin(v)
    }
}

impl From<NoOrigin> for Message {
    fn from(value: NoOrigin) -> (r: Message)
        ensures
            r == (Message { source: None, payload: Payload::Reply(Reply::NoOrigin(value)) }),
    {
        Message::from(Reply::NoOrigin(value))
    }
}

impl FromSpecImpl<NoOrigin> for Message {
    open spec fn obeys_from_spec() -> bool {
        true
    }

    open spec fn from_spec(v: NoOrigin) -> Message {
        Message { source: None, payload: Payload::Reply(Reply::NoOrigin(v)) }
    }
}

impl From<NoOrigin> for RawMessage {
    fn from(value: NoOrigin) -> (r: RawMessage)
        ensures
            r@ == (RawView {
                source: None,
                command: CommandView::Reply(value.reply_code()),
                parameters: value.reply_params(),
            }),
    {
        RawMessage::from(Reply::NoOrigin(value))
    }
}

impl FromSpecImpl<NoOrigin> for RawMessage {
    open spec fn obeys_from_spec() -> bool {
        false
    }

    open spec fn from_spec(v: NoOrigin) -> RawMessage {
        arbitrary()
    }
}

impl From<InvalidCapCmd> for Reply {
    fn from(value: InvalidCapCmd) -> (r: Reply)
        ensures
            r == Reply::InvalidCapCmd(value),
    {
        Reply::InvalidCapCmd(value)
    }
}

impl FromSpecImpl<InvalidCapCmd> for Reply {
    open spec fn obeys_from_spec() -> bool {
        true
    }

    open spec fn from_spec(v: InvalidCapCmd) -> Reply {
        Reply::InvalidCapCmd(v)
    }
}

impl From<InvalidCapCmd> for Message {
    fn from(value: InvalidCapCmd) -> (r: Message)
        ensures
            r == (Message { source: None, payload: Payload::Reply(Reply::InvalidCapCmd(value)) }),
    {
        Message::from(Reply::InvalidCapCmd(value))
    }
}

impl FromSpecImpl<InvalidCapCmd> for Message {
    open spec fn obeys_from_spec() -> bool {
        true
    }

    open spec fn from_spec(v: InvalidCapCmd) -> Message {
        Message { source: None, payload: Payload::Reply(Reply::InvalidCapCmd(v)) }
    }
}

impl From<InvalidCapCmd> for RawMessage {
    fn from(value: InvalidCapCmd) -> (r: RawMessage)
        ensures
            r@ == (RawView {
                source: None,
                command: CommandView::Reply(value.reply_code()),
                parameters: value.reply_params(),
            }),
    {
        RawMessage::from(Reply::InvalidCapCmd(value))
    }
}

impl FromSpecImpl<InvalidCapCmd> for RawMessage {
    open spec fn obeys_from_spec() -> bool {
        false
    }

    open spec fn from_spec(v: InvalidCapCmd) -> RawMessage {
        arbitrary()
    }
}

impl From<NoRecipient> for Reply {
    fn from(value: NoRecipient) -> (r: Reply)
        ensures
            r == Reply::NoRecipient(value),
    {
        Reply::NoRecipient(value)
    }
}

impl FromSpecImpl<NoRecipient> for Reply {
    open spec fn obeys_from_spec() -> bool {
        true
    }

    open spec fn from_spec(v: NoRecipient) -> Reply {
        Reply::NoRecipient(v)
    }
}

impl From<NoRecipient> for Message {
    fn from(value: NoRecipient) -> (r: Message)
        ensures
            r == (Message { source: None, payload: Payload::Reply(Reply::NoRecipient(value)) }),
    {
        Message::from(Reply::NoRecipient(value))
    }
}

impl FromSpecImpl<NoRecipient> for Message {
    open spec fn obeys_from_spec() -> bool {
        true
    }

    open spec fn from_spec(v: NoRecipient) -> Message {
        Message { source: None, payload: Payload::Reply(Reply::NoRecipient(v)) }
    }
}

impl From<NoRecipient> for RawMessage {
    fn from(value: NoRecipient) -> (r: RawMessage)
        ensures
            r@ == (RawView {
                source: None,
                command: CommandView::Reply(value.reply_code()),
                parameters: value.reply_params(),
            }),
    {
        RawMessage::from(Reply::NoRecipient(value))
    }
}

impl FromSpecImpl<NoRecipient> for RawMessage {
    open spec fn obeys_from_spec() -> bool {
        false
    }

    open spec fn from_spec(v: NoRecipient) -> RawMessage {
        arbitrary()
    }
}

impl From<NoTextToSend> for Reply {
    fn from(value: NoTextToSend) -> (r: Reply)
        ensures
            r == Reply::NoTextToSend(value),
    {
        Reply::NoTextToSend(value)
    }
}

impl FromSpecImpl<NoTextToSend> for Reply {
    open spec fn obeys_from_spec() -> bool {
        true
    }

    open spec fn from_spec(v: NoTextToSend) -> Reply {
        Reply::NoTextToSend(v)
    }
}

impl From<NoTextToSend> for Message {
    fn from(value: NoTextToSend) -> (r: Message)
        ensures
            r == (Message { source: None, payload: Payload::Reply(Reply::NoTextToSend(value)) }),
    {
        Message::from(Reply::NoTextToSend(value))
    }
}

impl FromSpecImpl<NoTextToSend> for Message {
    open spec fn obeys_from_spec() -> bool {
        true
    }

    open spec fn from_spec(v: NoTextToSend) -> Message {
        Message { source: None, payload: Payload::Reply(Reply::NoTextToSend(v)) }
    }
}

impl From<NoTextToSend> for RawMessage {
    fn from(value: NoTextToSend) -> (r: RawMessage)
        ensures
            r@ == (RawView {
                source: None,
                command: CommandView::Reply(value.reply_code()),
                parameters: value.reply_params(),
            }),
    {
        RawMessage::from(Reply::NoTextToSend(value))
    }
}

impl FromSpecImpl<NoTextToSend> for RawMessage {
    open spec fn obeys_from_spec() -> bool {
        false
    }

    open spec fn from_spec(v: NoTextToSend) -> RawMessage {
        arbitrary()
    }
}

impl From<InputTooLong> for Reply {
    fn from(value: InputTooLong) -> (r: Reply)
        ensures
            r == Reply::InputTooLong(value),
    {
        Reply::InputTooLong(value)
    }
}

impl FromSpecImpl<InputTooLong> for Reply {
    open spec fn obeys_from_spec() -> bool {
        true
    }

    open spec fn from_spec(v: InputTooLong) -> Reply {
        Reply::InputTooLong(v)
    }
}

impl From<InputTooLong> for Message {
    fn from(value: InputTooLong) -> (r: Message)
        ensures
            r == (Message { source: None, payload: Payload::Reply(Reply::InputTooLong(value)) }),
    {
        Message::from(Reply::InputTooLong(value))
    }
}

impl FromSpecImpl<InputTooLong> for Message {
    open spec fn obeys_from_spec() -> bool {
        true
    }

    open spec fn from_spec(v: InputTooLong) -> Message {
        Message { source: None, payload: Payload::Reply(Reply::InputTooLong(v)) }
    }
}

impl From<InputTooLong> for RawMessage {
    fn from(value: InputTooLong) -> (r: RawMessage)
        ensures
            r@ == (RawView {
                source: None,
                command: CommandView::Reply(value.reply_code()),
                parameters: value.reply_params(),
            }),
    {
        RawMessage::from(Reply::InputTooLong(value))
    }
}

impl FromSpecImpl<InputTooLong> for RawMessage {
    open spec fn obeys_from_spec() -> bool {
        false
    }

    open spec fn from_spec(v: InputTooLong) -> RawMessage {
        arbitrary()
    }
}

impl From<UnknownCommand> for Reply {
    fn from(value: UnknownCommand) -> (r: Reply)
        ensures
            r == Reply::UnknownCommand(value),
    {
        Reply::UnknownCommand(value)
    }
}

impl FromSpecImpl<UnknownCommand> for Reply {
    open spec fn obeys_from_spec() -> bool {
        true
    }

    open spec fn from_spec(v: UnknownCommand) -> Reply {
        Reply::UnknownCommand(v)
    }
}

impl From<UnknownCommand> for Message {
    fn from(value: UnknownCommand) -> (r: Message)
        ensures
            r == (Message { source: None, payload: Payload::Reply(Reply::UnknownCommand(value)) }),
    {
        Message::from(Reply::UnknownCommand(value))
    }
}

impl FromSpecImpl<UnknownCommand> for Message {
    open spec fn obeys_from_spec() -> bool {
        true
    }

    open spec fn from_spec(v: UnknownCommand) -> Message {
        Message { source: None, payload: Payload::Reply(Reply::UnknownCommand(v)) }
    }
}

impl From<UnknownCommand> for RawMessage {
    fn from(value: UnknownCommand) -> (r: RawMessage)
        ensures
            r@ == (RawView {
                source: None,
                command: CommandView::Reply(value.reply_code()),
                parameters: value.reply_params(),
            }),
    {
        RawMessage::from(Reply::UnknownCommand(value))
    }
}

impl FromSpecImpl<UnknownCommand> for RawMessage {
    open spec fn obeys_from_spec() -> bool {
        false
    }

    open spec fn from_spec(v: UnknownCommand) -> RawMessage {
        arbitrary()
    }
}

impl From<NoMotd> for Reply {
    fn from(value: NoMotd) -> (r: Reply)
        ensures
            r == Reply::NoMotd(value),
    {
        Reply::NoMotd(value)
    }
}

impl FromSpecImpl<NoMotd> for Reply {
    open spec fn obeys_from_spec() -> bool {
        true
    }

    open spec fn from_spec(v: NoMotd) -> Reply {
        Reply::NoMotd(v)
    }
}

impl From<NoMotd> for Message {
    fn from(value: NoMotd) -> (r: Message)
        ensures
            r == (Message { source: None, payload: Payload::Reply(Reply::NoMotd(value)) }),
    {
        Message::from(Reply::NoMotd(value))
    }
}

impl FromSpecImpl<NoMotd> for Message {
    open spec fn obeys_from_spec() -> bool {
        true
    }

    open spec fn from_spec(v: NoMotd) -> Message {
        Message { source: None, payload: Payload::Reply(Reply::NoMotd(v)) }
    }
}

impl From<NoMotd> for RawMessage {
    fn from(value: NoMotd) -> (r: RawMessage)
        ensures
            r@ == (RawView {
                source: None,
                command: CommandView::Reply(value.reply_code()),
                parameters: value.reply_params(),
            }),
    {
        RawMessage::from(Reply::NoMotd(value))
    }
}

impl FromSpecImpl<NoMotd> for RawMessage {
    open spec fn obeys_from_spec() -> bool {
        false
    }

    open spec fn from_spec(v: NoMotd) -> RawMessage {
        arbitrary()
    }
}

impl From<NoNicknameGiven> for Reply {
    fn from(value: NoNicknameGiven) -> (r: Reply)
        ensures
            r == Reply::NoNicknameGiven(value),
    {
        Reply::NoNicknameGiven(value)
    }
}

impl FromSpecImpl<NoNicknameGiven> for Reply {
    open spec fn obeys_from_spec() -> bool {
        true
    }

    open spec fn from_spec(v: NoNicknameGiven) -> Reply {
        Reply::NoNicknameGiven(v)
    }
}

impl From<NoNicknameGiven> for Message {
    fn from(value: NoNicknameGiven) -> (r: Message)
        ensures
            r == (Message { source: None, payload: Payload::Reply(Reply::NoNicknameGiven(value)) }),
    {
        Message::from(Reply::NoNicknameGiven(value))
    }
}

impl FromSpecImpl<NoNicknameGiven> for Message {
    open spec fn obeys_from_spec() -> bool {
        true
    }

    open spec fn from_spec(v: NoNicknameGiven) -> Message {
        Message { source: None, payload: Payload::Reply(Reply::NoNicknameGiven(v)) }
    }
}

impl From<NoNicknameGiven> for RawMessage {
    fn from(value: NoNicknameGiven) -> (r: RawMessage)
        ensures
            r@ == (RawView {
                source: None,
                command: CommandView::Reply(value.reply_code()),
                parameters: value.reply_params(),
            }),
    {
        RawMessage::from(Reply::NoNicknameGiven(value))
    }
}

impl FromSpecImpl<NoNicknameGiven> for RawMessage {
    open spec fn obeys_from_spec() -> bool {
        false
    }

    open spec fn from_spec(v: NoNicknameGiven) -> RawMessage {
        arbitrary()
    }
}

impl From<ErroneousNickname> for Reply {
    fn from(value: ErroneousNickname) -> (r: Reply)
        ensures
            r == Reply::ErroneousNickname(value),
    {
        Reply::ErroneousNickname(value)
    }
}

impl FromSpecImpl<ErroneousNickname> for Reply {
    open spec fn obeys_from_spec() -> bool {
        true
    }

    open spec fn from_spec(v: ErroneousNickname) -> Reply {
        Reply::ErroneousNickname(v)
    }
}

impl From<ErroneousNickname> for Message {
    fn from(value: ErroneousNickname) -> (r: Message)
        ensures
            r == (Message { source: None, payload: Payload::Reply(Reply::ErroneousNickname(value)) }),
    {
        Message::from(Reply::ErroneousNickname(value))
    }
}

impl FromSpecImpl<ErroneousNickname> for Message {
    open spec fn obeys_from_spec() -> bool {
        true
    }

    open spec fn from_spec(v: ErroneousNickname) -> Message {
        Message { source: None, payload: Payload::Reply(Reply::ErroneousNickname(v)) }
    }
}

impl From<ErroneousNickname> for RawMessage {
    fn from(value: ErroneousNickname) -> (r: RawMessage)
        ensures
            r@ == (RawView {
                source: None,
                command: CommandView::Reply(value.reply_code()),
                parameters: value.reply_params(),
            }),
    {
        RawMessage::from(Reply::ErroneousNickname(value))
    }
}

impl FromSpecImpl<ErroneousNickname> for RawMessage {
    open spec fn obeys_from_spec() -> bool {
        false
    }

    open spec fn from_spec(v: ErroneousNickname) -> RawMessage {
        arbitrary()
    }
}

impl From<NicknameInUse> for Reply {
    fn from(value: NicknameInUse) -> (r: Reply)
        ensures
            r == Reply::NicknameInUse(value),
    {
        Reply::NicknameInUse(value)
    }
}

impl FromSpecImpl<NicknameInUse> for Reply {
    open spec fn obeys_from_spec() -> bool {
        true
    }

    open spec fn from_spec(v: NicknameInUse) -> Reply {
        Reply::NicknameInUse(v)
    }
}

impl From<NicknameInUse> for Message {
    fn from(value: NicknameInUse) -> (r: Message)
        ensures
            r == (Message { source: None, payload: Payload::Reply(Reply::NicknameInUse(value)) }),
    {
        Message::from(Reply::NicknameInUse(value))
    }
}

impl FromSpecImpl<NicknameInUse> for Message {
    open spec fn obeys_from_spec() -> bool {
        true
    }

    open spec fn from_spec(v: NicknameInUse) -> Message {
        Message { source: None, payload: Payload::Reply(Reply::NicknameInUse(v)) }
    }
}

impl From<NicknameInUse> for RawMessage {
    fn from(value: NicknameInUse) -> (r: RawMessage)
        ensures
            r@ == (RawView {
                source: None,
                command: CommandView::Reply(value.reply_code()),
                parameters: value.reply_params(),
            }),
    {
        RawMessage::from(Reply::NicknameInUse(value))
    }
}

impl FromSpecImpl<NicknameInUse> for RawMessage {
    open spec fn obeys_from_spec() -> bool {
        false
    }

    open spec fn from_spec(v: NicknameInUse) -> RawMessage {
        arbitrary()
    }
}

impl From<NickCollision> for Reply {
    fn from(value: NickCollision) -> (r: Reply)
        ensures
            r == Reply::NickCollision(value),
    {
        Reply::NickCollision(value)
    }
}

impl FromSpecImpl<NickCollision> for Reply {
    open spec fn obeys_from_spec() -> bool {
        true
    }

    open spec fn from_spec(v: NickCollision) -> Reply {
        Reply::NickCollision(v)
    }
}

impl From<NickCollision> for Message {
    fn from(value: NickCollision) -> (r: Message)
        ensures
            r == (Message { source: None, payload: Payload::Reply(Reply::NickCollision(value)) }),
    {
        Message::from(Reply::NickCollision(value))
    }
}

impl FromSpecImpl<NickCollision> for Message {
    open spec fn obeys_from_spec() -> bool {
        true
    }

    open spec fn from_spec(v: NickCollision) -> Message {
        Message { source: None, payload: Payload::Reply(Reply::NickCollision(v)) }
    }
}

impl From<NickCollision> for RawMessage {
    fn from(value: NickCollision) -> (r: RawMessage)
        ensures
            r@ == (RawView {
                source: None,
                command: CommandView::Reply(value.reply_code()),
                parameters: value.reply_params(),
            }),
    {
        RawMessage::from(Reply::NickCollision(value))
    }
}

impl FromSpecImpl<NickCollision> for RawMessage {
    open spec fn obeys_from_spec() -> bool {
        false
    }

    open spec fn from_spec(v: NickCollision) -> RawMessage {
        arbitrary()
    }
}

impl From<UserNotInChannel> for Reply {
    fn from(value: UserNotInChannel) -> (r: Reply)
        ensures
            r == Reply::UserNotInChannel(value),
    {
        Reply::UserNotInChannel(value)
    }
}

impl FromSpecImpl<UserNotInChannel> for Reply {
    open spec fn obeys_from_spec() -> bool {
        true
    }

    open spec fn from_spec(v: UserNotInChannel) -> Reply {
        Reply::UserNotInChannel(v)
    }
}

impl From<UserNotInChannel> for Message {
    fn from(value: UserNotInChannel) -> (r: Message)
        ensures
            r == (Message { source: None, payload: Payload::Reply(Reply::UserNotInChannel(value)) }),
    {
        Message::from(Reply::UserNotInChannel(value))
    }
}

impl FromSpecImpl<UserNotInChannel> for Message {
    open spec fn obeys_from_spec() -> bool {
        true
    }

    open spec fn from_spec(v: UserNotInChannel) -> Message {
        Message { source: None, payload: Payload::Reply(Reply::UserNotInChannel(v)) }
    }
}

impl From<UserNotInChannel> for RawMessage {
    fn from(value: UserNotInChannel) -> (r: RawMessage)
        ensures
            r@ == (RawView {
                source: None,
                command: CommandView::Reply(value.reply_code()),
                parameters: value.reply_params(),
            }),
    {
        RawMessage::from(Reply::UserNotInChannel(value))
    }
}

impl FromSpecImpl<UserNotInChannel> for RawMessage {
    open spec fn obeys_from_spec() -> bool {
        false
    }

    open spec fn from_spec(v: UserNotInChannel) -> RawMessage {
        arbitrary()
    }
}

impl From<NotOnChannel> for Reply {
    fn from(value: NotOnChannel) -> (r: Reply)
        ensures
            r == Reply::NotOnChannel(value),
    {
        Reply::NotOnChannel(value)
    }
}

impl FromSpecImpl<NotOnChannel> for Reply {
    open spec fn obeys_from_spec() -> bool {
        true
    }

    open spec fn from_spec(v: NotOnChannel) -> Reply {
        Reply::NotOnChannel(v)
    }
}

impl From<NotOnChannel> for Message {
    fn from(value: NotOnChannel) -> (r: Message)
        ensures
            r == (Message { source: None, payload: Payload::Reply(Reply::NotOnChannel(value)) }),
    {
        Message::from(Reply::NotOnChannel(value))
    }
}

impl FromSpecImpl<NotOnChannel> for Message {
    open spec fn obeys_from_spec() -> bool {
        true
    }

    open spec fn from_spec(v: NotOnChannel) -> Message {
        Message { source: None, payload: Payload::Reply(Reply::NotOnChannel(v)) }
    }
}

impl From<NotOnChannel> for RawMessage {
    fn from(value: NotOnChannel) -> (r: RawMessage)
        ensures
            r@ == (RawView {
                source: None,
                command: CommandView::Reply(value.reply_code()),
                parameters: value.reply_params(),
            }),
    {
        RawMessage::from(Reply::NotOnChannel(value))
    }
}

impl FromSpecImpl<NotOnChannel> for RawMessage {
    open spec fn obeys_from_spec() -> bool {
        false
    }

    open spec fn from_spec(v: NotOnChannel) -> RawMessage {
        arbitrary()
    }
}

impl From<UserOnChannel> for Reply {
    fn from(value: UserOnChannel) -> (r: Reply)
        ensures
            r == Reply::UserOnChannel(value),
    {
        Reply::UserOnChannel(value)
    }
}

impl FromSpecImpl<UserOnChannel> for Reply {
    open spec fn obeys_from_spec() -> bool {
        true
    }

    open spec fn from_spec(v: UserOnChannel) -> Reply {
        Reply::UserOnChannel(v)
    }
}

impl From<UserOnChannel> for Message {
    fn from(value: UserOnChannel) -> (r: Message)
        ensures
            r == (Message { source: None, payload: Payload::Reply(Reply::UserOnChannel(value)) }),
    {
        Message::from(Reply::UserOnChannel(value))
    }
}

impl FromSpecImpl<UserOnChannel> for Message {
    open spec fn obeys_from_spec() -> bool {
        true
    }

    open spec fn from_spec(v: UserOnChannel) -> Message {
        Message { source: None, payload: Payload::Reply(Reply::UserOnChannel(v)) }
    }
}

impl From<UserOnChannel> for RawMessage {
    fn from(value: UserOnChannel) -> (r: RawMessage)
        ensures
            r@ == (RawView {
                source: None,
                command: CommandView::Reply(value.reply_code()),
                parameters: value.reply_params(),
            }),
    {
        RawMessage::from(Reply::UserOnChannel(value))
    }
}

impl FromSpecImpl<UserOnChannel> for RawMessage {
    open spec fn obeys_from_spec() -> bool {
        false
    }

    open spec fn from_spec(v: UserOnChannel) -> RawMessage {
        arbitrary()
    }
}

impl From<NotRegistered> for Reply {
    fn from(value: NotRegistered) -> (r: Reply)
        ensures
            r == Reply::NotRegistered(value),
    {
        Reply::NotRegistered(value)
    }
}

impl FromSpecImpl<NotRegistered> for Reply {
    open spec fn obeys_from_spec() -> bool {
        true
    }

    open spec fn from_spec(v: NotRegistered) -> Reply {
        Reply::NotRegistered(v)
    }
}

impl From<NotRegistered> for Message {
    fn from(value: NotRegistered) -> (r: Message)
        ensures
            r == (Message { source: None, payload: Payload::Reply(Reply::NotRegistered(value)) }),
    {
        Message::from(Reply::NotRegistered(value))
    }
}

impl FromSpecImpl<NotRegistered> for Message {
    open spec fn obeys_from_spec() -> bool {
        true
    }

    open spec fn from_spec(v: NotRegistered) -> Message {
        Message { source: None, payload: Payload::Reply(Reply::NotRegistered(v)) }
    }
}

impl From<NotRegistered> for RawMessage {
    fn from(value: NotRegistered) -> (r: RawMessage)
        ensures
            r@ == (RawView {
                source: None,
                command: CommandView::Reply(value.reply_code()),
                parameters: value.reply_params(),
            }),
    {
        RawMessage::from(Reply::NotRegistered(value))
    }
}

impl FromSpecImpl<NotRegistered> for RawMessage {
    open spec fn obeys_from_spec() -> bool {
        false
    }

    open spec fn from_spec(v: NotRegistered) -> RawMessage {
        arbitrary()
    }
}

impl From<NeedMoreParams> for Reply {
    fn from(value: NeedMoreParams) -> (r: Reply)
        ensures
            r == Reply::NeedMoreParams(value),
    {
        Reply::NeedMoreParams(value)
    }
}

impl FromSpecImpl<NeedMoreParams> for Reply {
    open spec fn obeys_from_spec() -> bool {
        true
    }

    open spec fn from_spec(v: NeedMoreParams) -> Reply {
        Reply::NeedMoreParams(v)
    }
}

impl From<NeedMoreParams> for Message {
    fn from(value: NeedMoreParams) -> (r: Message)
        ensures
            r == (Message { source: None, payload: Payload::Reply(Reply::NeedMoreParams(value)) }),
    {
        Message::from(Reply::NeedMoreParams(value))
    }
}

impl FromSpecImpl<NeedMoreParams> for Message {
    open spec fn obeys_from_spec() -> bool {
        true
    }

    open spec fn from_spec(v: NeedMoreParams) -> Message {
        Message { source: None, payload: Payload::Reply(Reply::NeedMoreParams(v)) }
    }
}

impl From<NeedMoreParams> for RawMessage {
    fn from(value: NeedMoreParams) -> (r: RawMessage)
        ensures
            r@ == (RawView {
                source: None,
                command: CommandView::Reply(value.reply_code()),
                parameters: value.reply_params(),
            }),
    {
        RawMessage::from(Reply::NeedMoreParams(value))
    }
}

impl FromSpecImpl<NeedMoreParams> for RawMessage {
    open spec fn obeys_from_spec() -> bool {
        false
    }

    open spec fn from_spec(v: NeedMoreParams) -> RawMessage {
        arbitrary()
    }
}

impl From<AlreadyRegistered> for Reply {
    fn from(value: AlreadyRegistered) -> (r: Reply)
        ensures
            r == Reply::AlreadyRegistered(value),
    {
        Reply::AlreadyRegistered(value)
    }
}

impl FromSpecImpl<AlreadyRegistered> for Reply {
    open spec fn obeys_from_spec() -> bool {
        true
    }

    open spec fn from_spec(v: AlreadyRegistered) -> Reply {
        Reply::AlreadyRegistered(v)
    }
}

impl From<AlreadyRegistered> for Message {
    fn from(value: AlreadyRegistered) -> (r: Message)
        ensures
            r == (Message { source: None, payload: Payload::Reply(Reply::AlreadyRegistered(value)) }),
    {
        Message::from(Reply::AlreadyRegistered(value))
    }
}

impl FromSpecImpl<AlreadyRegistered> for Message {
    open spec fn obeys_from_spec() -> bool {
        true
    }

    open spec fn from_spec(v: AlreadyRegistered) -> Message {
        Message { source: None, payload: Payload::Reply(Reply::AlreadyRegistered(v)) }
    }
}

impl From<AlreadyRegistered> for RawMessage {
    fn from(value: AlreadyRegistered) -> (r: RawMessage)
        ensures
            r@ == (RawView {
                source: None,
                command: CommandView::Reply(value.reply_code()),
                parameters: value.reply_params(),
            }),
    {
        RawMessage::from(Reply::AlreadyRegistered(value))
    }
}

impl FromSpecImpl<AlreadyRegistered> for RawMessage {
    open spec fn obeys_from_spec() -> bool {
        false
    }

    open spec fn from_spec(v: AlreadyRegistered) -> RawMessage {
        arbitrary()
    }
}

impl From<PasswdMismatch> for Reply {
    fn from(value: PasswdMismatch) -> (r: Reply)
        ensures
            r == Reply::PasswdMismatch(value),
    {
        Reply::PasswdMismatch(value)
    }
}

impl FromSpecImpl<PasswdMismatch> for Reply {
    open spec fn obeys_from_spec() -> bool {
        true
    }

    open spec fn from_spec(v: PasswdMismatch) -> Reply {
        Reply::PasswdMismatch(v)
    }
}

impl From<PasswdMismatch> for Message {
    fn from(value: PasswdMismatch) -> (r: Message)
        ensures
            r == (Message { source: None, payload: Payload::Reply(Reply::PasswdMismatch(value)) }),
    {
        Message::from(Reply::PasswdMismatch(value))
    }
}

impl FromSpecImpl<PasswdMismatch> for Message {
    open spec fn obeys_from_spec() -> bool {
        true
    }

    open spec fn from_spec(v: PasswdMismatch) -> Message {
        Message { source: None, payload: Payload::Reply(Reply::PasswdMismatch(v)) }
    }
}

impl From<PasswdMismatch> for RawMessage {
    fn from(value: PasswdMismatch) -> (r: RawMessage)
        ensures
            r@ == (RawView {
                source: None,
                command: CommandView::Reply(value.reply_code()),
                parameters: value.reply_params(),
            }),
    {
        RawMessage::from(Reply::PasswdMismatch(value))
    }
}

impl FromSpecImpl<PasswdMismatch> for RawMessage {
    open spec fn obeys_from_spec() -> bool {
        false
    }

    open spec fn from_spec(v: PasswdMismatch) -> RawMessage {
        arbitrary()
    }
}

impl From<YoureBannedCreep> for Reply {
    fn from(value: YoureBannedCreep) -> (r: Reply)
        ensures
            r == Reply::YoureBannedCreep(value),
    {
        Reply::YoureBannedCreep(value)
    }
}

impl FromSpecImpl<YoureBannedCreep> for Reply {
    open spec fn obeys_from_spec() -> bool {
        true
    }

    open spec fn from_spec(v: YoureBannedCreep) -> Reply {
        Reply::YoureBannedCreep(v)
    }
}

impl From<YoureBannedCreep> for Message {
    fn from(value: YoureBannedCreep) -> (r: Message)
        ensures
            r == (Message { source: None, payload: Payload::Reply(Reply::YoureBannedCreep(value)) }),
    {
        Message::from(Reply::YoureBannedCreep(value))
    }
}

impl FromSpecImpl<YoureBannedCreep> for Message {
    open spec fn obeys_from_spec() -> bool {
        true
    }

    open spec fn from_spec(v: YoureBannedCreep) -> Message {
        Message { source: None, payload: Payload::Reply(Reply::YoureBannedCreep(v)) }
    }
}

impl From<YoureBannedCreep> for RawMessage {
    fn from(value: YoureBannedCreep) -> (r: RawMessage)
        ensures
            r@ == (RawView {
                source: None,
                command: CommandView::Reply(value.reply_code()),
                parameters: value.reply_params(),
            }),
    {
        RawMessage::from(Reply::YoureBannedCreep(value))
    }
}

impl FromSpecImpl<YoureBannedCreep> for RawMessage {
    open spec fn obeys_from_spec() -> bool {
        false
    }

    open spec fn from_spec(v: YoureBannedCreep) -> RawMessage {
        arbitrary()
    }
}

impl From<ChannelIsFull> for Reply {
    fn from(value: ChannelIsFull) -> (r: Reply)
        ensures
            r == Reply::ChannelIsFull(value),
    {
        Reply::ChannelIsFull(value)
    }
}

impl FromSpecImpl<ChannelIsFull> for Reply {
    open spec fn obeys_from_spec() -> bool {
        true
    }

    open spec fn from_spec(v: ChannelIsFull) -> Reply {
        Reply::ChannelIsFull(v)
    }
}

impl From<ChannelIsFull> for Message {
    fn from(value: ChannelIsFull) -> (r: Message)
        ensures
            r == (Message { source: None, payload: Payload::Reply(Reply::ChannelIsFull(value)) }),
    {
        Message::from(Reply::ChannelIsFull(value))
    }
}

impl FromSpecImpl<ChannelIsFull> for Message {
    open spec fn obeys_from_spec() -> bool {
        true
    }

    open spec fn from_spec(v: ChannelIsFull) -> Message {
        Message { source: None, payload: Payload::Reply(Reply::ChannelIsFull(v)) }
    }
}

impl From<ChannelIsFull> for RawMessage {
    fn from(value: ChannelIsFull) -> (r: RawMessage)
        ensures
            r@ == (RawView {
                source: None,
                command: CommandView::Reply(value.reply_code()),
                parameters: value.reply_params(),
            }),
    {
        RawMessage::from(Reply::ChannelIsFull(value))
    }
}

impl FromSpecImpl<ChannelIsFull> for RawMessage {
    open spec fn obeys_from_spec() -> bool {
        false
    }

    open spec fn from_spec(v: ChannelIsFull) -> RawMessage {
        arbitrary()
    }
}

impl From<UnknownMode> for Reply {
    fn from(value: UnknownMode) -> (r: Reply)
        ensures
            r == Reply::UnknownMode(value),
    {
        Reply::UnknownMode(value)
    }
}

impl FromSpecImpl<UnknownMode> for Reply {
    open spec fn obeys_from_spec() -> bool {
        true
    }

    open spec fn from_spec(v: UnknownMode) -> Reply {
        Reply::UnknownMode(v)
    }
}

impl From<UnknownMode> for Message {
    fn from(value: UnknownMode) -> (r: Message)
        ensures
            r == (Message { source: None, payload: Payload::Reply(Reply::UnknownMode(value)) }),
    {
        Message::from(Reply::UnknownMode(value))
    }
}

impl FromSpecImpl<UnknownMode> for Message {
    open spec fn obeys_from_spec() -> bool {
        true
    }

    open spec fn from_spec(v: UnknownMode) -> Message {
        Message { source: None, payload: Payload::Reply(Reply::UnknownMode(v)) }
    }
}

impl From<UnknownMode> for RawMessage {
    fn from(value: UnknownMode) -> (r: RawMessage)
        ensures
            r@ == (RawView {
                source: None,
                command: CommandView::Reply(value.reply_code()),
                parameters: value.reply_params(),
            }),
    {
        RawMessage::from(Reply::UnknownMode(value))
    }
}

impl FromSpecImpl<UnknownMode> for RawMessage {
    open spec fn obeys_from_spec() -> bool {
        false
    }

    open spec fn from_spec(v: UnknownMode) -> RawMessage {
        arbitrary()
    }
}

impl From<InviteOnlyChan> for Reply {
    fn from(value: InviteOnlyChan) -> (r: Reply)
        ensures
            r == Reply::InviteOnlyChan(value),
    {
        Reply::InviteOnlyChan(value)
    }
}

impl FromSpecImpl<InviteOnlyChan> for Reply {
    open spec fn obeys_from_spec() -> bool {
        true
    }

    open spec fn from_spec(v: InviteOnlyChan) -> Reply {
        Reply::InviteOnlyChan(v)
    }
}

impl From<InviteOnlyChan> for Message {
    fn from(value: InviteOnlyChan) -> (r: Message)
        ensures
            r == (Message { source: None, payload: Payload::Reply(Reply::InviteOnlyChan(value)) }),
    {
        Message::from(Reply::InviteOnlyChan(value))
    }
}

impl FromSpecImpl<InviteOnlyChan> for Message {
    open spec fn obeys_from_spec() -> bool {
        true
    }

    open spec fn from_spec(v: InviteOnlyChan) -> Message {
        Message { source: None, payload: Payload::Reply(Reply::InviteOnlyChan(v)) }
    }
}

impl From<InviteOnlyChan> for RawMessage {
    fn from(value: InviteOnlyChan) -> (r: RawMessage)
        ensures
            r@ == (RawView {
                source: None,
                command: CommandView::Reply(value.reply_code()),
                parameters: value.reply_params(),
            }),
    {
        RawMessage::from(Reply::InviteOnlyChan(value))
    }
}

impl FromSpecImpl<InviteOnlyChan> for RawMessage {
    open spec fn obeys_from_spec() -> bool {
        false
    }

    open spec fn from_spec(v: InviteOnlyChan) -> RawMessage {
        arbitrary()
    }
}

impl From<BannedFromChan> for Reply {
    fn from(value: BannedFromChan) -> (r: Reply)
        ensures
            r == Reply::BannedFromChan(value),
    {
        Reply::BannedFromChan(value)
    }
}

impl FromSpecImpl<BannedFromChan> for Reply {
    open spec fn obeys_from_spec() -> bool {
        true
    }

    open spec fn from_spec(v: BannedFromChan) -> Reply {
        Reply::BannedFromChan(v)
    }
}

impl From<BannedFromChan> for Message {
    fn from(value: BannedFromChan) -> (r: Message)
        ensures
            r == (Message { source: None, payload: Payload::Reply(Reply::BannedFromChan(value)) }),
    {
        Message::from(Reply::BannedFromChan(value))
    }
}

impl FromSpecImpl<BannedFromChan> for Message {
    open spec fn obeys_from_spec() -> bool {
        true
    }

    open spec fn from_spec(v: BannedFromChan) -> Message {
        Message { source: None, payload: Payload::Reply(Reply::BannedFromChan(v)) }
    }
}

impl From<BannedFromChan> for RawMessage {
    fn from(value: BannedFromChan) -> (r: RawMessage)
        ensures
            r@ == (RawView {
                source: None,
                command: CommandView::Reply(value.reply_code()),
                parameters: value.reply_params(),
            }),
    {
        RawMessage::from(Reply::BannedFromChan(value))
    }
}

impl FromSpecImpl<BannedFromChan> for RawMessage {
    open spec fn obeys_from_spec() -> bool {
        false
    }

    open spec fn from_spec(v: BannedFromChan) -> RawMessage {
        arbitrary()
    }
}

impl From<BadChannelKey> for Reply {
    fn from(value: BadChannelKey) -> (r: Reply)
        ensures
            r == Reply::BadChannelKey(value),
    {
        Reply::BadChannelKey(value)
    }
}

impl FromSpecImpl<BadChannelKey> for Reply {
    open spec fn obeys_from_spec() -> bool {
        true
    }

    open spec fn from_spec(v: BadChannelKey) -> Reply {
        Reply::BadChannelKey(v)
    }
}

impl From<BadChannelKey> for Message {
    fn from(value: BadChannelKey) -> (r: Message)
        ensures
            r == (Message { source: None, payload: Payload::Reply(Reply::BadChannelKey(value)) }),
    {
        Message::from(Reply::BadChannelKey(value))
    }
}

impl FromSpecImpl<BadChannelKey> for Message {
    open spec fn obeys_from_spec() -> bool {
        true
    }

    open spec fn from_spec(v: BadChannelKey) -> Message {
        Message { source: None, payload: Payload::Reply(Reply::BadChannelKey(v)) }
    }
}

impl From<BadChannelKey> for RawMessage {
    fn from(value: BadChannelKey) -> (r: RawMessage)
        ensures
            r@ == (RawView {
                source: None,
                command: CommandView::Reply(value.reply_code()),
                parameters: value.reply_params(),
            }),
    {
        RawMessage::from(Reply::BadChannelKey(value))
    }
}

impl FromSpecImpl<BadChannelKey> for RawMessage {
    open spec fn obeys_from_spec() -> bool {
        false
    }

    open spec fn from_spec(v: BadChannelKey) -> RawMessage {
        arbitrary()
    }
}

impl From<BadChanMask> for Reply {
    fn from(value: BadChanMask) -> (r: Reply)
        ensures
            r == Reply::BadChanMask(value),
    {
        Reply::BadChanMask(value)
    }
}

impl FromSpecImpl<BadChanMask> for Reply {
    open spec fn obeys_from_spec() -> bool {
        true
    }

    open spec fn from_spec(v: BadChanMask) -> Reply {
        Reply::BadChanMask(v)
    }
}

impl From<BadChanMask> for Message {
    fn from(value: BadChanMask) -> (r: Message)
        ensures
            r == (Message { source: None, payload: Payload::Reply(Reply::BadChanMask(value)) }),
    {
        Message::from(Reply::BadChanMask(value))
    }
}

impl FromSpecImpl<BadChanMask> for Message {
    open spec fn obeys_from_spec() -> bool {
        true
    }

    open spec fn from_spec(v: BadChanMask) -> Message {
        Message { source: None, payload: Payload::Reply(Reply::BadChanMask(v)) }
    }
}

impl From<BadChanMask> for RawMessage {
    fn from(value: BadChanMask) -> (r: RawMessage)
        ensures
            r@ == (RawView {
                source: None,
                command: CommandView::Reply(value.reply_code()),
                parameters: value.reply_params(),
            }),
    {
        RawMessage::from(Reply::BadChanMask(value))
    }
}

impl FromSpecImpl<BadChanMask> for RawMessage {
    open spec fn obeys_from_spec() -> bool {
        false
    }

    open spec fn from_spec(v: BadChanMask) -> RawMessage {
        arbitrary()
    }
}

impl From<NoPrivileges> for Reply {
    fn from(value: NoPrivileges) -> (r: Reply)
        ensures
            r == Reply::NoPrivileges(value),
    {
        Reply::NoPrivileges(value)
    }
}

impl FromSpecImpl<NoPrivileges> for Reply {
    open spec fn obeys_from_spec() -> bool {
        true
    }

    open spec fn from_spec(v: NoPrivileges) -> Reply {
        Reply::NoPrivileges(v)
    }
}

impl From<NoPrivileges> for Message {
    fn from(value: NoPrivileges) -> (r: Message)
        ensures
            r == (Message { source: None, payload: Payload::Reply(Reply::NoPrivileges(value)) }),
    {
        Message::from(Reply::NoPrivileges(value))
    }
}

impl FromSpecImpl<NoPrivileges> for Message {
    open spec fn obeys_from_spec() -> bool {
        true
    }

    open spec fn from_spec(v: NoPrivileges) -> Message {
        Message { source: None, payload: Payload::Reply(Reply::NoPrivileges(v)) }
    }
}

impl From<NoPrivileges> for RawMessage {
    fn from(value: NoPrivileges) -> (r: RawMessage)
        ensures
            r@ == (RawView {
                source: None,
                command: CommandView::Reply(value.reply_code()),
                parameters: value.reply_params(),
            }),
    {
        RawMessage::from(Reply::NoPrivileges(value))
    }
}

impl FromSpecImpl<NoPrivileges> for RawMessage {
    open spec fn obeys_from_spec() -> bool {
        false
    }

    open spec fn from_spec(v: NoPrivileges) -> RawMessage {
        arbitrary()
    }
}

impl From<ChanOPrivsNeeded> for Reply {
    fn from(value: ChanOPrivsNeeded) -> (r: Reply)
        ensures
            r == Reply::ChanOPrivsNeeded(value),
    {
        Reply::ChanOPrivsNeeded(value)
    }
}

impl FromSpecImpl<ChanOPrivsNeeded> for Reply {
    open spec fn obeys_from_spec() -> bool {
        true
    }

    open spec fn from_spec(v: ChanOPrivsNeeded) -> Reply {
        Reply::ChanOPrivsNeeded(v)
    }
}

impl From<ChanOPrivsNeeded> for Message {
    fn from(value: ChanOPrivsNeeded) -> (r: Message)
        ensures
            r == (Message { source: None, payload: Payload::Reply(Reply::ChanOPrivsNeeded(value)) }),
    {
        Message::from(Reply::ChanOPrivsNeeded(value))
    }
}

impl FromSpecImpl<ChanOPrivsNeeded> for Message {
    open spec fn obeys_from_spec() -> bool {
        true
    }

    open spec fn from_spec(v: ChanOPrivsNeeded) -> Message {
        Message { source: None, payload: Payload::Reply(Reply::ChanOPrivsNeeded(v)) }
    }
}

impl From<ChanOPrivsNeeded> for RawMessage {
    fn from(value: ChanOPrivsNeeded) -> (r: RawMessage)
        ensures
            r@ == (RawView {
                source: None,
                command: CommandView::Reply(value.reply_code()),
                parameters: value.reply_params(),
            }),
    {
        RawMessage::from(Reply::ChanOPrivsNeeded(value))
    }
}

impl FromSpecImpl<ChanOPrivsNeeded> for RawMessage {
    open spec fn obeys_from_spec() -> bool {
        false
    }

    open spec fn from_spec(v: ChanOPrivsNeeded) -> RawMessage {
        arbitrary()
    }
}

impl From<CantKillServer> for Reply {
    fn from(value: CantKillServer) -> (r: Reply)
        ensures
            r == Reply::CantKillServer(value),
    {
        Reply::CantKillServer(value)
    }
}

impl FromSpecImpl<CantKillServer> for Reply {
    open spec fn obeys_from_spec() -> bool {
        true
    }

    open spec fn from_spec(v: CantKillServer) -> Reply {
        Reply::CantKillServer(v)
    }
}

impl From<CantKillServer> for Message {
    fn from(value: CantKillServer) -> (r: Message)
        ensures
            r == (Message { source: None, payload: Payload::Reply(Reply::CantKillServer(value)) }),
    {
        Message::from(Reply::CantKillServer(value))
    }
}

impl FromSpecImpl<CantKillServer> for Message {
    open spec fn obeys_from_spec() -> bool {
        true
    }

    open spec fn from_spec(v: CantKillServer) -> Message {
        Message { source: None, payload: Payload::Reply(Reply::CantKillServer(v)) }
    }
}

impl From<CantKillServer> for RawMessage {
    fn from(value: CantKillServer) -> (r: RawMessage)
        ensures
            r@ == (RawView {
                source: None,
                command: CommandView::Reply(value.reply_code()),
                parameters: value.reply_params(),
            }),
    {
        RawMessage::from(Reply::CantKillServer(value))
    }
}

impl FromSpecImpl<CantKillServer> for RawMessage {
    open spec fn obeys_from_spec() -> bool {
        false
    }

    open spec fn from_spec(v: CantKillServer) -> RawMessage {
        arbitrary()
    }
}

impl From<NoOperHost> for Reply {
    fn from(value: NoOperHost) -> (r: Reply)
        ensures
            r == Reply::NoOperHost(value),
    {
        Reply::NoOperHost(value)
    }
}

impl FromSpecImpl<NoOperHost> for Reply {
    open spec fn obeys_from_spec() -> bool {
        true
    }

    open spec fn from_spec(v: NoOperHost) -> Reply {
        Reply::NoOperHost(v)
    }
}

impl From<NoOperHost> for Message {
    fn from(value: NoOperHost) -> (r: Message)
        ensures
            r == (Message { source: None, payload: Payload::Reply(Reply::NoOperHost(value)) }),
    {
        Message::from(Reply::NoOperHost(value))
    }
}

impl FromSpecImpl<NoOperHost> for Message {
    open spec fn obeys_from_spec() -> bool {
        true
    }

    open spec fn from_spec(v: NoOperHost) -> Message {
        Message { source: None, payload: Payload::Reply(Reply::NoOperHost(v)) }
    }
}

impl From<NoOperHost> for RawMessage {
    fn from(value: NoOperHost) -> (r: RawMessage)
        ensures
            r@ == (RawView {
                source: None,
                command: CommandView::Reply(value.reply_code()),
                parameters: value.reply_params(),
            }),
    {
        RawMessage::from(Reply::NoOperHost(value))
    }
}

impl FromSpecImpl<NoOperHost> for RawMessage {
    open spec fn obeys_from_spec() -> bool {
        false
    }

    open spec fn from_spec(v: NoOperHost) -> RawMessage {
        arbitrary()
    }
}

impl From<UmodeUnknownFlag> for Reply {
    fn from(value: UmodeUnknownFlag) -> (r: Reply)
        ensures
            r == Reply::UmodeUnknownFlag(value),
    {
        Reply::UmodeUnknownFlag(value)
    }
}

impl FromSpecImpl<UmodeUnknownFlag> for Reply {
    open spec fn obeys_from_spec() -> bool {
        true
    }

    open spec fn from_spec(v: UmodeUnknownFlag) -> Reply {
        Reply::UmodeUnknownFlag(v)
    }
}

impl From<UmodeUnknownFlag> for Message {
    fn from(value: UmodeUnknownFlag) -> (r: Message)
        ensures
            r == (Message { source: None, payload: Payload::Reply(Reply::UmodeUnknownFlag(value)) }),
    {
        Message::from(Reply::UmodeUnknownFlag(value))
    }
}

impl FromSpecImpl<UmodeUnknownFlag> for Message {
    open spec fn obeys_from_spec() -> bool {
        true
    }

    open spec fn from_spec(v: UmodeUnknownFlag) -> Message {
        Message { source: None, payload: Payload::Reply(Reply::UmodeUnknownFlag(v)) }
    }
}

impl From<UmodeUnknownFlag> for RawMessage {
    fn from(value: UmodeUnknownFlag) -> (r: RawMessage)
        ensures
            r@ == (RawView {
                source: None,
                command: CommandView::Reply(value.reply_code()),
                parameters: value.reply_params(),
            }),
    {
        RawMessage::from(Reply::UmodeUnknownFlag(value))
    }
}

impl FromSpecImpl<UmodeUnknownFlag> for RawMessage {
    open spec fn obeys_from_spec() -> bool {
        false
    }

    open spec fn from_spec(v: UmodeUnknownFlag) -> RawMessage {
        arbitrary()
    }
}

impl From<UsersDontMatch> for Reply {
    fn from(value: UsersDontMatch) -> (r: Reply)
        ensures
            r == Reply::UsersDontMatch(value),
    {
        Reply::UsersDontMatch(value)
    }
}

impl FromSpecImpl<UsersDontMatch> for Reply {
    open spec fn obeys_from_spec() -> bool {
        true
    }

    open spec fn from_spec(v: UsersDontMatch) -> Reply {
        Reply::UsersDontMatch(v)
    }
}

impl From<UsersDontMatch> for Message {
    fn from(value: UsersDontMatch) -> (r: Message)
        ensures
            r == (Message { source: None, payload: Payload::Reply(Reply::UsersDontMatch(value)) }),
    {
        Message::from(Reply::UsersDontMatch(value))
    }
}

impl FromSpecImpl<UsersDontMatch> for Message {
    open spec fn obeys_from_spec() -> bool {
        true
    }

    open spec fn from_spec(v: UsersDontMatch) -> Message {
        Message { source: None, payload: Payload::Reply(Reply::UsersDontMatch(v)) }
    }
}

impl From<UsersDontMatch> for RawMessage {
    fn from(value: UsersDontMatch) -> (r: RawMessage)
        ensures
            r@ == (RawView {
                source: None,
                command: CommandView::Reply(value.reply_code()),
                parameters: value.reply_params(),
            }),
    {
        RawMessage::from(Reply::UsersDontMatch(value))
    }
}

impl FromSpecImpl<UsersDontMatch> for RawMessage {
    open spec fn obeys_from_spec() -> bool {
        false
    }

    open spec fn from_spec(v: UsersDontMatch) -> RawMessage {
        arbitrary()
    }
}

impl From<HelpNotFound> for Reply {
    fn from(value: HelpNotFound) -> (r: Reply)
        ensures
            r == Reply::HelpNotFound(value),
    {
        Reply::HelpNotFound(value)
    }
}

impl FromSpecImpl<HelpNotFound> for Reply {
    open spec fn obeys_from_spec() -> bool {
        true
    }

    open spec fn from_spec(v: HelpNotFound) -> Reply {
        Reply::HelpNotFound(v)
    }
}

impl From<HelpNotFound> for Message {
    fn from(value: HelpNotFound) -> (r: Message)
        ensures
            r == (Message { source: None, payload: Payload::Reply(Reply::HelpNotFound(value)) }),
    {
        Message::from(Reply::HelpNotFound(value))
    }
}

impl FromSpecImpl<HelpNotFound> for Message {
    open spec fn obeys_from_spec() -> bool {
        true
    }

    open spec fn from_spec(v: HelpNotFound) -> Message {
        Message { source: None, payload: Payload::Reply(Reply::HelpNotFound(v)) }
    }
}

impl From<HelpNotFound> for RawMessage {
    fn from(value: HelpNotFound) -> (r: RawMessage)
        ensures
            r@ == (RawView {
                source: None,
                command: CommandView::Reply(value.reply_code()),
                parameters: value.reply_params(),
            }),
    {
        RawMessage::from(Reply::HelpNotFound(value))
    }
}

impl FromSpecImpl<HelpNotFound> for RawMessage {
    open spec fn obeys_from_spec() -> bool {
        false
    }

    open spec fn from_spec(v: HelpNotFound) -> RawMessage {
        arbitrary()
    }
}

impl From<InvalidKey> for Reply {
    fn from(value: InvalidKey) -> (r: Reply)
        ensures
            r == Reply::InvalidKey(value),
    {
        Reply::InvalidKey(value)
    }
}

impl FromSpecImpl<InvalidKey> for Reply {
    open spec fn obeys_from_spec() -> bool {
        true
    }

    open spec fn from_spec(v: InvalidKey) -> Reply {
        Reply::InvalidKey(v)
    }
}

impl From<InvalidKey> for Message {
    fn from(value: InvalidKey) -> (r: Message)
        ensures
            r == (Message { source: None, payload: Payload::Reply(Reply::InvalidKey(value)) }),
    {
        Message::from(Reply::InvalidKey(value))
    }
}

impl FromSpecImpl<InvalidKey> for Message {
    open spec fn obeys_from_spec() -> bool {
        true
    }

    open spec fn from_spec(v: InvalidKey) -> Message {
        Message { source: None, payload: Payload::Reply(Reply::InvalidKey(v)) }
    }
}

impl From<InvalidKey> for RawMessage {
    fn from(value: InvalidKey) -> (r: RawMessage)
        ensures
            r@ == (RawView {
                source: None,
                command: CommandView::Reply(value.reply_code()),
                parameters: value.reply_params(),
            }),
    {
        RawMessage::from(Reply::InvalidKey(value))
    }
}

impl FromSpecImpl<InvalidKey> for RawMessage {
    open spec fn obeys_from_spec() -> bool {
        false
    }

    open spec fn from_spec(v: InvalidKey) -> RawMessage {
        arbitrary()
    }
}

impl From<StartTLS> for Reply {
    fn from(value: StartTLS) -> (r: Reply)
        ensures
            r == Reply::StartTLS(value),
    {
        Reply::StartTLS(value)
    }
}

impl FromSpecImpl<StartTLS> for Reply {
    open spec fn obeys_from_spec() -> bool {
        true
    }

    open spec fn from_spec(v: StartTLS) -> Reply {
        Reply::StartTLS(v)
    }
}

impl From<StartTLS> for Message {
    fn from(value: StartTLS) -> (r: Message)
        ensures
            r == (Message { source: None, payload: Payload::Reply(Reply::StartTLS(value)) }),
    {
        Message::from(Reply::StartTLS(value))
    }
}

impl FromSpecImpl<StartTLS> for Message {
    open spec fn obeys_from_spec() -> bool {
        true
    }

    open spec fn from_spec(v: StartTLS) -> Message {
        Message { source: None, payload: Payload::Reply(Reply::StartTLS(v)) }
    }
}

impl From<StartTLS> for RawMessage {
    fn from(value: StartTLS) -> (r: RawMessage)
        ensures
            r@ == (RawView {
                source: None,
                command: CommandView::Reply(value.reply_code()),
                parameters: value.reply_params(),
            }),
    {
        RawMessage::from(Reply::StartTLS(value))
    }
}

impl FromSpecImpl<StartTLS> for RawMessage {
    open spec fn obeys_from_spec() -> bool {
        false
    }

    open spec fn from_spec(v: StartTLS) -> RawMessage {
        arbitrary()
    }
}

impl From<WhoIsSecure> for Reply {
    fn from(value: WhoIsSecure) -> (r: Reply)
        ensures
            r == Reply::WhoIsSecure(value),
    {
        Reply::WhoIsSecure(value)
    }
}

impl FromSpecImpl<WhoIsSecure> for Reply {
    open spec fn obeys_from_spec() -> bool {
        true
    }

    open spec fn from_spec(v: WhoIsSecure) -> Reply {
        Reply::WhoIsSecure(v)
    }
}

impl From<WhoIsSecure> for Message {
    fn from(value: WhoIsSecure) -> (r: Message)
        ensures
            r == (Message { source: None, payload: Payload::Reply(Reply::WhoIsSecure(value)) }),
    {
        Message::from(Reply::WhoIsSecure(value))
    }
}

impl FromSpecImpl<WhoIsSecure> for Message {
    open spec fn obeys_from_spec() -> bool {
        true
    }

    open spec fn from_spec(v: WhoIsSecure) -> Message {
        Message { source: None, payload: Payload::Reply(Reply::WhoIsSecure(v)) }
    }
}

impl From<WhoIsSecure> for RawMessage {
    fn from(value: WhoIsSecure) -> (r: RawMessage)
        ensures
            r@ == (RawView {
                source: None,
                command: CommandView::Reply(value.reply_code()),
                parameters: value.reply_params(),
            }),
    {
        RawMessage::from(Reply::WhoIsSecure(value))
    }
}

impl FromSpecImpl<WhoIsSecure> for RawMessage {
    open spec fn obeys_from_spec() -> bool {
        false
    }

    open spec fn from_spec(v: WhoIsSecure) -> RawMessage {
        arbitrary()
    }
}

impl From<StartTLSError> for Reply {
    fn from(value: StartTLSError) -> (r: Reply)
        ensures
            r == Reply::StartTLSError(value),
    {
        Reply::StartTLSError(value)
    }
}

impl FromSpecImpl<StartTLSError> for Reply {
    open spec fn obeys_from_spec() -> bool {
        true
    }

    open spec fn from_spec(v: StartTLSError) -> Reply {
        Reply::StartTLSError(v)
    }
}

impl From<StartTLSError> for Message {
    fn from(value: StartTLSError) -> (r: Message)
        ensures
            r == (Message { source: None, payload: Payload::Reply(Reply::StartTLSError(value)) }),
    {
        Message::from(Reply::StartTLSError(value))
    }
}

impl FromSpecImpl<StartTLSError> for Message {
    open spec fn obeys_from_spec() -> bool {
        true
    }

    open spec fn from_spec(v: StartTLSError) -> Message {
        Message { source: None, payload: Payload::Reply(Reply::StartTLSError(v)) }
    }
}

impl From<StartTLSError> for RawMessage {
    fn from(value: StartTLSError) -> (r: RawMessage)
        ensures
            r@ == (RawView {
                source: None,
                command: CommandView::Reply(value.reply_code()),
                parameters: value.reply_params(),
            }),
    {
        RawMessage::from(Reply::StartTLSError(value))
    }
}

impl FromSpecImpl<StartTLSError> for RawMessage {
    open spec fn obeys_from_spec() -> bool {
        false
    }

    open spec fn from_spec(v: StartTLSError) -> RawMessage {
        arbitrary()
    }
}

impl From<InvalidModeParam> for Reply {
    fn from(value: InvalidModeParam) -> (r: Reply)
        ensures
            r == Reply::InvalidModeParam(value),
    {
        Reply::InvalidModeParam(value)
    }
}

impl FromSpecImpl<InvalidModeParam> for Reply {
    open spec fn obeys_from_spec() -> bool {
        true
    }

    open spec fn from_spec(v: InvalidModeParam) -> Reply {
        Reply::InvalidModeParam(v)
    }
}

impl From<InvalidModeParam> for Message {
    fn from(value: InvalidModeParam) -> (r: Message)
        ensures
            r == (Message { source: None, payload: Payload::Reply(Reply::InvalidModeParam(value)) }),
    {
        Message::from(Reply::InvalidModeParam(value))
    }
}

impl FromSpecImpl<InvalidModeParam> for Message {
    open spec fn obeys_from_spec() -> bool {
        true
    }

    open spec fn from_spec(v: InvalidModeParam) -> Message {
        Message { source: None, payload: Payload::Reply(Reply::InvalidModeParam(v)) }
    }
}

impl From<InvalidModeParam> for RawMessage {
    fn from(value: InvalidModeParam) -> (r: RawMessage)
        ensures
            r@ == (RawView {
                source: None,
                command: CommandView::Reply(value.reply_code()),
                parameters: value.reply_params(),
            }),
    {
        RawMessage::from(Reply::InvalidModeParam(value))
    }
}

impl FromSpecImpl<InvalidModeParam> for RawMessage {
    open spec fn obeys_from_spec() -> bool {
        false
    }

    open spec fn from_spec(v: InvalidModeParam) -> RawMessage {
        arbitrary()
    }
}

impl From<HelpStart> for Reply {
    fn from(value: HelpStart) -> (r: Reply)
        ensures
            r == Reply::HelpStart(value),
    {
        Reply::HelpStart(value)
    }
}

impl FromSpecImpl<HelpStart> for Reply {
    open spec fn obeys_from_spec() -> bool {
        true
    }

    open spec fn from_spec(v: HelpStart) -> Reply {
        Reply::HelpStart(v)
    }
}

impl From<HelpStart> for Message {
    fn from(value: HelpStart) -> (r: Message)
        ensures
            r == (Message { source: None, payload: Payload::Reply(Reply::HelpStart(value)) }),
    {
        Message::from(Reply::HelpStart(value))
    }
}

impl FromSpecImpl<HelpStart> for Message {
    open spec fn obeys_from_spec() -> bool {
        true
    }

    open spec fn from_spec(v: HelpStart) -> Message {
        Message { source: None, payload: Payload::Reply(Reply::HelpStart(v)) }
    }
}

impl From<HelpStart> for RawMessage {
    fn from(value: HelpStart) -> (r: RawMessage)
        ensures
            r@ == (RawView {
                source: None,
                command: CommandView::Reply(value.reply_code()),
                parameters: value.reply_params(),
            }),
    {
        RawMessage::from(Reply::HelpStart(value))
    }
}

impl FromSpecImpl<HelpStart> for RawMessage {
    open spec fn obeys_from_spec() -> bool {
        false
    }

    open spec fn from_spec(v: HelpStart) -> RawMessage {
        arbitrary()
    }
}

impl From<HelpTxt> for Reply {
    fn from(value: HelpTxt) -> (r: Reply)
        ensures
            r == Reply::HelpTxt(value),
    {
        Reply::HelpTxt(value)
    }
}

impl FromSpecImpl<HelpTxt> for Reply {
    open spec fn obeys_from_spec() -> bool {
        true
    }

    open spec fn from_spec(v: HelpTxt) -> Reply {
        Reply::HelpTxt(v)
    }
}

impl From<HelpTxt> for Message {
    fn from(value: HelpTxt) -> (r: Message)
        ensures
            r == (Message { source: None, payload: Payload::Reply(Reply::HelpTxt(value)) }),
    {
        Message::from(Reply::HelpTxt(value))
    }
}

impl FromSpecImpl<HelpTxt> for Message {
    open spec fn obeys_from_spec() -> bool {
        true
    }

    open spec fn from_spec(v: HelpTxt) -> Message {
        Message { source: None, payload: Payload::Reply(Reply::HelpTxt(v)) }
    }
}

impl From<HelpTxt> for RawMessage {
    fn from(value: HelpTxt) -> (r: RawMessage)
        ensures
            r@ == (RawView {
                source: None,
                command: CommandView::Reply(value.reply_code()),
                parameters: value.reply_params(),
            }),
    {
        RawMessage::from(Reply::HelpTxt(value))
    }
}

impl FromSpecImpl<HelpTxt> for RawMessage {
    open spec fn obeys_from_spec() -> bool {
        false
    }

    open spec fn from_spec(v: HelpTxt) -> RawMessage {
        arbitrary()
    }
}

impl From<EndOfHelp> for Reply {
    fn from(value: EndOfHelp) -> (r: Reply)
        ensures
            r == Reply::EndOfHelp(value),
    {
        Reply::EndOfHelp(value)
    }
}

impl FromSpecImpl<EndOfHelp> for Reply {
    open spec fn obeys_from_spec() -> bool {
        true
    }

    open spec fn from_spec(v: EndOfHelp) -> Reply {
        Reply::EndOfHelp(v)
    }
}

impl From<EndOfHelp> for Message {
    fn from(value: EndOfHelp) -> (r: Message)
        ensures
            r == (Message { source: None, payload: Payload::Reply(Reply::EndOfHelp(value)) }),
    {
        Message::from(Reply::EndOfHelp(value))
    }
}

impl FromSpecImpl<EndOfHelp> for Message {
    open spec fn obeys_from_spec() -> bool {
        true
    }

    open spec fn from_spec(v: EndOfHelp) -> Message {
        Message { source: None, payload: Payload::Reply(Reply::EndOfHelp(v)) }
    }
}

impl From<EndOfHelp> for RawMessage {
    fn from(value: EndOfHelp) -> (r: RawMessage)
        ensures
            r@ == (RawView {
                source: None,
                command: CommandView::Reply(value.reply_code()),
                parameters: value.reply_params(),
            }),
    {
        RawMessage::from(Reply::EndOfHelp(value))
    }
}

impl FromSpecImpl<EndOfHelp> for RawMessage {
    open spec fn obeys_from_spec() -> bool {
        false
    }

    open spec fn from_spec(v: EndOfHelp) -> RawMessage {
        arbitrary()
    }
}

impl From<NoPrivs> for Reply {
    fn from(value: NoPrivs) -> (r: Reply)
        ensures
            r == Reply::NoPrivs(value),
    {
        Reply::NoPrivs(value)
    }
}

impl FromSpecImpl<NoPrivs> for Reply {
    open spec fn obeys_from_spec() -> bool {
        true
    }

    open spec fn from_spec(v: NoPrivs) -> Reply {
        Reply::NoPrivs(v)
    }
}

impl From<NoPrivs> for Message {
    fn from(value: NoPrivs) -> (r: Message)
        ensures
            r == (Message { source: None, payload: Payload::Reply(Reply::NoPrivs(value)) }),
    {
        Message::from(Reply::NoPrivs(value))
    }
}

impl FromSpecImpl<NoPrivs> for Message {
    open spec fn obeys_from_spec() -> bool {
        true
    }

    open spec fn from_spec(v: NoPrivs) -> Message {
        Message { source: None, payload: Payload::Reply(Reply::NoPrivs(v)) }
    }
}

impl From<NoPrivs> for RawMessage {
    fn from(value: NoPrivs) -> (r: RawMessage)
        ensures
            r@ == (RawView {
                source: None,
                command: CommandView::Reply(value.reply_code()),
                parameters: value.reply_params(),
            }),
    {
        RawMessage::from(Reply::NoPrivs(value))
    }
}

impl FromSpecImpl<NoPrivs> for RawMessage {
    open spec fn obeys_from_spec() -> bool {
        false
    }

    open spec fn from_spec(v: NoPrivs) -> RawMessage {
        arbitrary()
    }
}

impl From<LoggedIn> for Reply {
    fn from(value: LoggedIn) -> (r: Reply)
        ensures
            r == Reply::LoggedIn(value),
    {
        Reply::LoggedIn(value)
    }
}

impl FromSpecImpl<LoggedIn> for Reply {
    open spec fn obeys_from_spec() -> bool {
        true
    }

    open spec fn from_spec(v: LoggedIn) -> Reply {
        Reply::LoggedIn(v)
    }
}

impl From<LoggedIn> for Message {
    fn from(value: LoggedIn) -> (r: Message)
        ensures
            r == (Message { source: None, payload: Payload::Reply(Reply::LoggedIn(value)) }),
    {
        Message::from(Reply::LoggedIn(value))
    }
}

impl FromSpecImpl<LoggedIn> for Message {
    open spec fn obeys_from_spec() -> bool {
        true
    }

    open spec fn from_spec(v: LoggedIn) -> Message {
        Message { source: None, payload: Payload::Reply(Reply::LoggedIn(v)) }
    }
}

impl From<LoggedIn> for RawMessage {
    fn from(value: LoggedIn) -> (r: RawMessage)
        ensures
            r@ == (RawView {
                source: None,
                command: CommandView::Reply(value.reply_code()),
                parameters: value.reply_params(),
            }),
    {
        RawMessage::from(Reply::LoggedIn(value))
    }
}

impl FromSpecImpl<LoggedIn> for RawMessage {
    open spec fn obeys_from_spec() -> bool {
        false
    }

    open spec fn from_spec(v: LoggedIn) -> RawMessage {
        arbitrary()
    }
}

impl From<LoggedOut> for Reply {
    fn from(value: LoggedOut) -> (r: Reply)
        ensures
            r == Reply::LoggedOut(value),
    {
        Reply::LoggedOut(value)
    }
}

impl FromSpecImpl<LoggedOut> for Reply {
    open spec fn obeys_from_spec() -> bool {
        true
    }

    open spec fn from_spec(v: LoggedOut) -> Reply {
        Reply::LoggedOut(v)
    }
}

impl From<LoggedOut> for Message {
    fn from(value: LoggedOut) -> (r: Message)
        ensures
            r == (Message { source: None, payload: Payload::Reply(Reply::LoggedOut(value)) }),
    {
        Message::from(Reply::LoggedOut(value))
    }
}

impl FromSpecImpl<LoggedOut> for Message {
    open spec fn obeys_from_spec() -> bool {
        true
    }

    open spec fn from_spec(v: LoggedOut) -> Message {
        Message { source: None, payload: Payload::Reply(Reply::LoggedOut(v)) }
    }
}

impl From<LoggedOut> for RawMessage {
    fn from(value: LoggedOut) -> (r: RawMessage)
        ensures
            r@ == (RawView {
                source: None,
                command: CommandView::Reply(value.reply_code()),
                parameters: value.reply_params(),
            }),
    {
        RawMessage::from(Reply::LoggedOut(value))
    }
}

impl FromSpecImpl<LoggedOut> for RawMessage {
    open spec fn obeys_from_spec() -> bool {
        false
    }

    open spec fn from_spec(v: LoggedOut) -> RawMessage {
        arbitrary()
    }
}

impl From<NickLocked> for Reply {
    fn from(value: NickLocked) -> (r: Reply)
        ensures
            r == Reply::NickLocked(value),
    {
        Reply::NickLocked(value)
    }
}

impl FromSpecImpl<NickLocked> for Reply {
    open spec fn obeys_from_spec() -> bool {
        true
    }

    open spec fn from_spec(v: NickLocked) -> Reply {
        Reply::NickLocked(v)
    }
}

impl From<NickLocked> for Message {
    fn from(value: NickLocked) -> (r: Message)
        ensures
            r == (Message { source: None, payload: Payload::Reply(Reply::NickLocked(value)) }),
    {
        Message::from(Reply::NickLocked(value))
    }
}

impl FromSpecImpl<NickLocked> for Message {
    open spec fn obeys_from_spec() -> bool {
        true
    }

    open spec fn from_spec(v: NickLocked) -> Message {
        Message { source: None, payload: Payload::Reply(Reply::NickLocked(v)) }
    }
}

impl From<NickLocked> for RawMessage {
    fn from(value: NickLocked) -> (r: RawMessage)
        ensures
            r@ == (RawView {
                source: None,
                command: CommandView::Reply(value.reply_code()),
                parameters: value.reply_params(),
            }),
    {
        RawMessage::from(Reply::NickLocked(value))
    }
}

impl FromSpecImpl<NickLocked> for RawMessage {
    open spec fn obeys_from_spec() -> bool {
        false
    }

    open spec fn from_spec(v: NickLocked) -> RawMessage {
        arbitrary()
    }
}

impl From<SaslSuccess> for Reply {
    fn from(value: SaslSuccess) -> (r: Reply)
        ensures
            r == Reply::SaslSuccess(value),
    {
        Reply::SaslSuccess(value)
    }
}

impl FromSpecImpl<SaslSuccess> for Reply {
    open spec fn obeys_from_spec() -> bool {
        true
    }

    open spec fn from_spec(v: SaslSuccess) -> Reply {
        Reply::SaslSuccess(v)
    }
}

impl From<SaslSuccess> for Message {
    fn from(value: SaslSuccess) -> (r: Message)
        ensures
            r == (Message { source: None, payload: Payload::Reply(Reply::SaslSuccess(value)) }),
    {
        Message::from(Reply::SaslSuccess(value))
    }
}

impl FromSpecImpl<SaslSuccess> for Message {
    open spec fn obeys_from_spec() -> bool {
        true
    }

    open spec fn from_spec(v: SaslSuccess) -> Message {
        Message { source: None, payload: Payload::Reply(Reply::SaslSuccess(v)) }
    }
}

impl From<SaslSuccess> for RawMessage {
    fn from(value: SaslSuccess) -> (r: RawMessage)
        ensures
            r@ == (RawView {
                source: None,
                command: CommandView::Reply(value.reply_code()),
                parameters: value.reply_params(),
            }),
    {
        RawMessage::from(Reply::SaslSuccess(value))
    }
}

impl FromSpecImpl<SaslSuccess> for RawMessage {
    open spec fn obeys_from_spec() -> bool {
        false
    }

    open spec fn from_spec(v: SaslSuccess) -> RawMessage {
        arbitrary()
    }
}

impl From<SaslFail> for Reply {
    fn from(value: SaslFail) -> (r: Reply)
        ensures
            r == Reply::SaslFail(value),
    {
        Reply::SaslFail(value)
    }
}

impl FromSpecImpl<SaslFail> for Reply {
    open spec fn obeys_from_spec() -> bool {
        true
    }

    open spec fn from_spec(v: SaslFail) -> Reply {
        Reply::SaslFail(v)
    }
}

impl From<SaslFail> for Message {
    fn from(value: SaslFail) -> (r: Message)
        ensures
            r == (Message { source: None, payload: Payload::Reply(Reply::SaslFail(value)) }),
    {
        Message::from(Reply::SaslFail(value))
    }
}

impl FromSpecImpl<SaslFail> for Message {
    open spec fn obeys_from_spec() -> bool {
        true
    }

    open spec fn from_spec(v: SaslFail) -> Message {
        Message { source: None, payload: Payload::Reply(Reply::SaslFail(v)) }
    }
}

impl From<SaslFail> for RawMessage {
    fn from(value: SaslFail) -> (r: RawMessage)
        ensures
            r@ == (RawView {
                source: None,
                command: CommandView::Reply(value.reply_code()),
                parameters: value.reply_params(),
            }),
    {
        RawMessage::from(Reply::SaslFail(value))
    }
}

impl FromSpecImpl<SaslFail> for RawMessage {
    open spec fn obeys_from_spec() -> bool {
        false
    }

    open spec fn from_spec(v: SaslFail) -> RawMessage {
        arbitrary()
    }
}

impl From<SaslTooLong> for Reply {
    fn from(value: SaslTooLong) -> (r: Reply)
        ensures
            r == Reply::SaslTooLong(value),
    {
        Reply::SaslTooLong(value)
    }
}

impl FromSpecImpl<SaslTooLong> for Reply {
    open spec fn obeys_from_spec() -> bool {
        true
    }

    open spec fn from_spec(v: SaslTooLong) -> Reply {
        Reply::SaslTooLong(v)
    }
}

impl From<SaslTooLong> for Message {
    fn from(value: SaslTooLong) -> (r: Message)
        ensures
            r == (Message { source: None, payload: Payload::Reply(Reply::SaslTooLong(value)) }),
    {
        Message::from(Reply::SaslTooLong(value))
    }
}

impl FromSpecImpl<SaslTooLong> for Message {
    open spec fn obeys_from_spec() -> bool {
        true
    }

    open spec fn from_spec(v: SaslTooLong) -> Message {
        Message { source: None, payload: Payload::Reply(Reply::SaslTooLong(v)) }
    }
}

impl From<SaslTooLong> for RawMessage {
    fn from(value: SaslTooLong) -> (r: RawMessage)
        ensures
            r@ == (RawView {
                source: None,
                command: CommandView::Reply(value.reply_code()),
                parameters: value.reply_params(),
            }),
    {
        RawMessage::from(Reply::SaslTooLong(value))
    }
}

impl FromSpecImpl<SaslTooLong> for RawMessage {
    open spec fn obeys_from_spec() -> bool {
        false
    }

    open spec fn from_spec(v: SaslTooLong) -> RawMessage {
        arbitrary()
    }
}

impl From<SaslAborted> for Reply {
    fn from(value: SaslAborted) -> (r: Reply)
        ensures
            r == Reply::SaslAborted(value),
    {
        Reply::SaslAborted(value)
    }
}

impl FromSpecImpl<SaslAborted> for Reply {
    open spec fn obeys_from_spec() -> bool {
        true
    }

    open spec fn from_spec(v: SaslAborted) -> Reply {
        Reply::SaslAborted(v)
    }
}

impl From<SaslAborted> for Message {
    fn from(value: SaslAborted) -> (r: Message)
        ensures
            r == (Message { source: None, payload: Payload::Reply(Reply::SaslAborted(value)) }),
    {
        Message::from(Reply::SaslAborted(value))
    }
}

impl FromSpecImpl<SaslAborted> for Message {
    open spec fn obeys_from_spec() -> bool {
        true
    }

    open spec fn from_spec(v: SaslAborted) -> Message {
        Message { source: None, payload: Payload::Reply(Reply::SaslAborted(v)) }
    }
}

impl From<SaslAborted> for RawMessage {
    fn from(value: SaslAborted) -> (r: RawMessage)
        ensures
            r@ == (RawView {
                source: None,
                command: CommandView::Reply(value.reply_code()),
                parameters: value.reply_params(),
            }),
    {
        RawMessage::from(Reply::SaslAborted(value))
    }
}

impl FromSpecImpl<SaslAborted> for RawMessage {
    open spec fn obeys_from_spec() -> bool {
        false
    }

    open spec fn from_spec(v: SaslAborted) -> RawMessage {
        arbitrary()
    }
}

impl From<SaslAlready> for Reply {
    fn from(value: SaslAlready) -> (r: Reply)
        ensures
            r == Reply::SaslAlready(value),
    {
        Reply::SaslAlready(value)
    }
}

impl FromSpecImpl<SaslAlready> for Reply {
    open spec fn obeys_from_spec() -> bool {
        true
    }

    open spec fn from_spec(v: SaslAlready) -> Reply {
        Reply::SaslAlready(v)
    }
}

impl From<SaslAlready> for Message {
    fn from(value: SaslAlready) -> (r: Message)
        ensures
            r == (Message { source: None, payload: Payload::Reply(Reply::SaslAlready(value)) }),
    {
        Message::from(Reply::SaslAlready(value))
    }
}

impl FromSpecImpl<SaslAlready> for Message {
    open spec fn obeys_from_spec() -> bool {
        true
    }

    open spec fn from_spec(v: SaslAlready) -> Message {
        Message { source: None, payload: Payload::Reply(Reply::SaslAlready(v)) }
    }
}

impl From<SaslAlready> for RawMessage {
    fn from(value: SaslAlready) -> (r: RawMessage)
        ensures
            r@ == (RawView {
                source: None,
                command: CommandView::Reply(value.reply_code()),
                parameters: value.reply_params(),
            }),
    {
        RawMessage::from(Reply::SaslAlready(value))
    }
}

impl FromSpecImpl<SaslAlready> for RawMessage {
    open spec fn obeys_from_spec() -> bool {
        false
    }

    open spec fn from_spec(v: SaslAlready) -> RawMessage {
        arbitrary()
    }
}

impl From<SaslMechs> for Reply {
    fn from(value: SaslMechs) -> (r: Reply)
        ensures
            r == Reply::SaslMechs(value),
    {
        Reply::SaslMechs(value)
    }
}

impl FromSpecImpl<SaslMechs> for Reply {
    open spec fn obeys_from_spec() -> bool {
        true
    }

    open spec fn from_spec(v: SaslMechs) -> Reply {
        Reply::SaslMechs(v)
    }
}

impl From<SaslMechs> for Message {
    fn from(value: SaslMechs) -> (r: Message)
        ensures
            r == (Message { source: None, payload: Payload::Reply(Reply::SaslMechs(value)) }),
    {
        Message::from(Reply::SaslMechs(value))
    }
}

impl FromSpecImpl<SaslMechs> for Message {
    open spec fn obeys_from_spec() -> bool {
        true
    }

    open spec fn from_spec(v: SaslMechs) -> Message {
        Message { source: None, payload: Payload::Reply(Reply::SaslMechs(v)) }
    }
}

impl From<SaslMechs> for RawMessage {
    fn from(value: SaslMechs) -> (r: RawMessage)
        ensures
            r@ == (RawView {
                source: None,
                command: CommandView::Reply(value.reply_code()),
                parameters: value.reply_params(),
            }),
    {
        RawMessage::from(Reply::SaslMechs(value))
    }
}

impl FromSpecImpl<SaslMechs> for RawMessage {
    open spec fn obeys_from_spec() -> bool {
        false
    }

    open spec fn from_spec(v: SaslMechs) -> RawMessage {
        arbitrary()
    }
}

impl From<UnknownReply> for Reply {
    fn from(value: UnknownReply) -> (r: Reply)
        ensures
            r == Reply::Unknown(value),
    {
        Reply::Unknown(value)
    }
}

impl FromSpecImpl<UnknownReply> for Reply {
    open spec fn obeys_from_spec() -> bool {
        true
    }

    open spec fn from_spec(v: UnknownReply) -> Reply {
        Reply::Unknown(v)
    }
}

} // verus!
