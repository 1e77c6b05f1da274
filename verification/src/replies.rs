//! Numeric replies: one type per reply code, each read from a parameter
//! list and validated on the way in.
pub mod codes;
mod connection;
mod conversions;
mod errors;
mod extended;
mod fields;
mod nonstandard;
mod queries;
mod special;

pub use self::connection::{
    Welcome, YourHost, Created, MyInfo, Bounce, StatsCommands, EndOfStats, UModeIs, StatsUptime, LuserClient, LuserOp, LuserUnknown, LuserChannels, LuserMe, AdminMe, AdminLoc1, AdminLoc2, AdminEmail, TryAgain, LocalUsers, GlobalUsers, WhoIsCertFP, check_welcome, check_your_host, check_created, check_my_info, check_bounce, check_stats_commands, check_end_of_stats, check_u_mode_is, check_stats_uptime, check_luser_client, check_luser_op, check_luser_unknown, check_luser_channels, check_luser_me, check_admin_me, check_admin_loc1, check_admin_loc2, check_admin_email, check_try_again, check_local_users, check_global_users, check_who_is_cert_fp,
};
pub use self::queries::{
    NoneReply, Away, UnAway, NowAway, WhoIsRegNick, WhoIsUser, WhoIsServer, WhoIsOperator, WhoWasUser, EndOfWho, WhoIsIdle, EndOfWhoIs, WhoIsSpecial, ListStart, List, ListEnd, CreationTime, WhoIsAccount, NoTopic, Topic, TopicWhoTime, InviteList, EndOfInviteList, Inviting, InvExList, EndOfInvExList, ExceptList, EndOfExceptList, Version, WhoReply, Links, EndOfLinks, EndOfNames, BanList, EndOfBanList, EndOfWhoWas, Info, Motd, EndOfInfo, MotdStart, EndOfMotd, WhoIsHost, WhoIsModes, YoureOper, Rehashing, Time, check_none_reply, check_away, check_un_away, check_now_away, check_who_is_reg_nick, check_who_is_user, check_who_is_server, check_who_is_operator, check_who_was_user, check_end_of_who, check_who_is_idle, check_end_of_who_is, check_who_is_special, check_list_start, check_list, check_list_end, check_creation_time, check_who_is_account, check_no_topic, check_topic, check_topic_who_time, check_invite_list, check_end_of_invite_list, check_inviting, check_inv_ex_list, check_end_of_inv_ex_list, check_except_list, check_end_of_except_list, check_version, check_who_reply, check_links, check_end_of_links, check_end_of_names, check_ban_list, check_end_of_ban_list, check_end_of_who_was, check_info, check_motd, check_end_of_info, check_motd_start, check_end_of_motd, check_who_is_host, check_who_is_modes, check_youre_oper, check_rehashing, check_time,
};
pub use self::errors::{
    NoSuchNick, NoSuchServer, NoSuchChannel, CannotSendToChan, TooManyChannels, WasNoSuchNick, NoOrigin, NoRecipient, NoTextToSend, InputTooLong, UnknownCommand, NoMotd, NoNicknameGiven, ErroneousNickname, NicknameInUse, NickCollision, UserNotInChannel, NotOnChannel, UserOnChannel, NotRegistered, NeedMoreParams, AlreadyRegistered, PasswdMismatch, YoureBannedCreep, ChannelIsFull, UnknownMode, InviteOnlyChan, BannedFromChan, BadChannelKey, BadChanMask, NoPrivileges, ChanOPrivsNeeded, CantKillServer, NoOperHost, UmodeUnknownFlag, UsersDontMatch, HelpNotFound, InvalidKey, check_no_such_nick, check_no_such_server, check_no_such_channel, check_cannot_send_to_chan, check_too_many_channels, check_was_no_such_nick, check_no_origin, check_no_recipient, check_no_text_to_send, check_input_too_long, check_unknown_command, check_no_motd, check_no_nickname_given, check_erroneous_nickname, check_nickname_in_use, check_nick_collision, check_user_not_in_channel, check_not_on_channel, check_user_on_channel, check_not_registered, check_need_more_params, check_already_registered, check_passwd_mismatch, check_youre_banned_creep, check_channel_is_full, check_unknown_mode, check_invite_only_chan, check_banned_from_chan, check_bad_channel_key, check_bad_chan_mask, check_no_privileges, check_chan_o_privs_needed, check_cant_kill_server, check_no_oper_host, check_umode_unknown_flag, check_users_dont_match, check_help_not_found, check_invalid_key,
};
pub use self::extended::{
    StartTLS, WhoIsSecure, StartTLSError, InvalidModeParam, HelpStart, HelpTxt, EndOfHelp, NoPrivs, LoggedIn, LoggedOut, NickLocked, SaslSuccess, SaslFail, SaslTooLong, SaslAborted, SaslAlready, SaslMechs, check_start_tls, check_who_is_secure, check_start_tls_error, check_invalid_mode_param, check_help_start, check_help_txt, check_end_of_help, check_no_privs, check_logged_in, check_logged_out, check_nick_locked, check_sasl_success, check_sasl_fail, check_sasl_too_long, check_sasl_aborted, check_sasl_already, check_sasl_mechs,
};
pub use self::special::{
    ISupport, RemoteISupport, UserHostRpl, WhoIsChannels, NamReply, UnknownError, ChannelModeIs, WhoIsActually, check_isupport, check_remote_isupport, check_user_host_rpl, check_who_is_channels, check_nam_reply, check_unknown_error, check_channel_mode_is, check_who_is_actually, inner_params, isupport_tokens, isupport_views, userhost_entries, userhost_views, member_channels, channel_member_views, member_nicks, nick_member_views, string_views, params_after, actually_fields, host_or_ip, opt_username_view, opt_host_view,
};
pub use self::nonstandard::{
    ChannelUrl, InvalidCapCmd, StatsConn, UnknownReply, check_channel_url, check_invalid_cap_cmd,
    check_stats_conn,
};
pub use self::fields::{
    field_channel, field_channel_status, field_client_source, field_hopcount, field_mode_target,
    field_modestring, field_msg_target, field_nickname, field_opt_client_source, field_opt_u64,
    field_reply_target, field_u16, field_u64, field_u64_if_more, field_uint, field_username,
    field_who_flags, first_err, opt_client_source_view, param_at, param_qty,
};

use self::codes::{
    RPL_WELCOME, RPL_YOURHOST, RPL_CREATED, RPL_MYINFO, RPL_ISUPPORT, RPL_REMOTEISUPPORT, RPL_BOUNCE, RPL_STATSCOMMANDS, RPL_ENDOFSTATS, RPL_UMODEIS, RPL_STATSUPTIME, RPL_STATSCONN, RPL_LUSERCLIENT, RPL_LUSEROP, RPL_LUSERUNKNOWN, RPL_LUSERCHANNELS, RPL_LUSERME, RPL_ADMINME, RPL_ADMINLOC1, RPL_ADMINLOC2, RPL_ADMINEMAIL, RPL_TRYAGAIN, RPL_LOCALUSERS, RPL_GLOBALUSERS, RPL_WHOISCERTFP, RPL_NONE, RPL_AWAY, RPL_USERHOST, RPL_UNAWAY, RPL_NOWAWAY, RPL_WHOISREGNICK, RPL_WHOISUSER, RPL_WHOISSERVER, RPL_WHOISOPERATOR, RPL_WHOWASUSER, RPL_ENDOFWHO, RPL_WHOISIDLE, RPL_ENDOFWHOIS, RPL_WHOISCHANNELS, RPL_WHOISSPECIAL, RPL_LISTSTART, RPL_LIST, RPL_LISTEND, RPL_CHANNELMODEIS, RPL_CHANNEL_URL, RPL_CREATIONTIME, RPL_WHOISACCOUNT, RPL_NOTOPIC, RPL_TOPIC, RPL_TOPICWHOTIME, RPL_INVITELIST, RPL_ENDOFINVITELIST, RPL_WHOISACTUALLY, RPL_INVITING, RPL_INVEXLIST, RPL_ENDOFINVEXLIST, RPL_EXCEPTLIST, RPL_ENDOFEXCEPTLIST, RPL_VERSION, RPL_WHOREPLY, RPL_NAMREPLY, RPL_LINKS, RPL_ENDOFLINKS, RPL_ENDOFNAMES, RPL_BANLIST, RPL_ENDOFBANLIST, RPL_ENDOFWHOWAS, RPL_INFO, RPL_MOTD, RPL_ENDOFINFO, RPL_MOTDSTART, RPL_ENDOFMOTD, RPL_WHOISHOST, RPL_WHOISMODES, RPL_YOUREOPER, RPL_REHASHING, RPL_TIME, ERR_UNKNOWNERROR, ERR_NOSUCHNICK, ERR_NOSUCHSERVER, ERR_NOSUCHCHANNEL, ERR_CANNOTSENDTOCHAN, ERR_TOOMANYCHANNELS, ERR_WASNOSUCHNICK, ERR_NOORIGIN, ERR_INVALIDCAPCMD, ERR_NORECIPIENT, ERR_NOTEXTTOSEND, ERR_INPUTTOOLONG, ERR_UNKNOWNCOMMAND, ERR_NOMOTD, ERR_NONICKNAMEGIVEN, ERR_ERRONEUSNICKNAME, ERR_NICKNAMEINUSE, ERR_NICKCOLLISION, ERR_USERNOTINCHANNEL, ERR_NOTONCHANNEL, ERR_USERONCHANNEL, ERR_NOTREGISTERED, ERR_NEEDMOREPARAMS, ERR_ALREADYREGISTERED, ERR_PASSWDMISMATCH, ERR_YOUREBANNEDCREEP, ERR_CHANNELISFULL, ERR_UNKNOWNMODE, ERR_INVITEONLYCHAN, ERR_BANNEDFROMCHAN, ERR_BADCHANNELKEY, ERR_BADCHANMASK, ERR_NOPRIVILEGES, ERR_CHANOPRIVSNEEDED, ERR_CANTKILLSERVER, ERR_NOOPERHOST, ERR_UMODEUNKNOWNFLAG, ERR_USERSDONTMATCH, ERR_HELPNOTFOUND, ERR_INVALIDKEY, RPL_STARTTLS, RPL_WHOISSECURE, ERR_STARTTLSERROR, ERR_INVALIDMODEPARAM, RPL_HELPSTART, RPL_HELPTXT, RPL_ENDOFHELP, ERR_NOPRIVS, RPL_LOGGEDIN, RPL_LOGGEDOUT, ERR_NICKLOCKED, RPL_SASLSUCCESS, ERR_SASLFAIL, ERR_SASLTOOLONG, ERR_SASLABORTED, ERR_SASLALREADY, RPL_SASLMECHS,
};

use crate::host::HostError;
use crate::names::{NicknameError, ParseChannelError, ParseModestringError, ParseUsernameError};
use crate::paramlist::{ParameterList, ParamsView};
use crate::source::ParseClientSourceError;
use crate::targets::{ParseModeTargetError, ParseReplyTargetError, ParseTargetError};
use crate::text::IntErrorKind;
use crate::types::{
    ParseChannelStatusError, ParseISupportParamError, ParseUserHostReplyError, ParseWhoFlagsError,
};
use crate::validstr::TryFromStringError;
use vstd::prelude::*;

verus! {

/// The abstract content of a [`ReplyError`]: strings by their characters,
/// and [`TryFromStringError`]s by their views
pub enum ReplyErrorView {
    ParamQty { min_required: usize, received: usize },
    Host(Seq<char>, HostError),
    Int(Seq<char>, IntErrorKind),
    IpAddr(Seq<char>),
    Channel((ParseChannelError, Seq<char>)),
    ChannelStatus(Seq<char>),
    ClientSource((ParseClientSourceError, Seq<char>)),
    ISupportParam(Seq<char>),
    ModeString((ParseModestringError, Seq<char>)),
    ModeTarget((ParseModeTargetError, Seq<char>)),
    MsgTarget((ParseTargetError, Seq<char>)),
    Nickname((NicknameError, Seq<char>)),
    ReplyTarget((ParseReplyTargetError, Seq<char>)),
    UserHostReply((ParseUserHostReplyError, Seq<char>)),
    Username((ParseUsernameError, Seq<char>)),
    WhoFlags((ParseWhoFlagsError, Seq<char>)),
    NoAt(Seq<char>),
}

/// Why a code and a parameter list do not form a reply
#[derive(Clone, Debug, PartialEq, Eq)]
pub enum ReplyError {
    /// There are fewer parameters than the reply needs
    ParamQty { min_required: usize, received: usize },
    /// A parameter is not a valid host
    Host { string: String, inner: HostError },
    /// A parameter is not a valid unsigned integer of the needed size
    Int { string: String, inner: IntErrorKind },
    /// A parameter is not a valid IP address
    IpAddr { string: String },
    Channel(TryFromStringError<ParseChannelError>),
    ChannelStatus(TryFromStringError<ParseChannelStatusError>),
    ClientSource(TryFromStringError<ParseClientSourceError>),
    ISupportParam(TryFromStringError<ParseISupportParamError>),
    ModeString(TryFromStringError<ParseModestringError>),
    ModeTarget(TryFromStringError<ParseModeTargetError>),
    MsgTarget(TryFromStringError<ParseTargetError>),
    Nickname(TryFromStringError<NicknameError>),
    ReplyTarget(TryFromStringError<ParseReplyTargetError>),
    UserHostReply(TryFromStringError<ParseUserHostReplyError>),
    Username(TryFromStringError<ParseUsernameError>),
    WhoFlags(TryFromStringError<ParseWhoFlagsError>),
    /// A `user@host` parameter without an `@`
    NoAt(String),
}

impl View for ReplyError {
    type V = ReplyErrorView;

    open spec fn view(&self) -> ReplyErrorView {
        match self {
            ReplyError::ParamQty { min_required, received } => ReplyErrorView::ParamQty {
                min_required: *min_required,
                received: *received,
            },
            ReplyError::Host { string, inner } => ReplyErrorView::Host(string@, *inner),
            ReplyError::Int { string, inner } => ReplyErrorView::Int(string@, *inner),
            ReplyError::IpAddr { string } => ReplyErrorView::IpAddr(string@),
            ReplyError::Channel(e) => ReplyErrorView::Channel(e@),
            ReplyError::ChannelStatus(e) => ReplyErrorView::ChannelStatus(e.string@),
            ReplyError::ClientSource(e) => ReplyErrorView::ClientSource(e@),
            ReplyError::ISupportParam(e) => ReplyErrorView::ISupportParam(e.string@),
            ReplyError::ModeString(e) => ReplyErrorView::ModeString(e@),
            ReplyError::ModeTarget(e) => ReplyErrorView::ModeTarget(e@),
            ReplyError::MsgTarget(e) => ReplyErrorView::MsgTarget(e@),
            ReplyError::Nickname(e) => ReplyErrorView::Nickname(e@),
            ReplyError::ReplyTarget(e) => ReplyErrorView::ReplyTarget(e@),
            ReplyError::UserHostReply(e) => ReplyErrorView::UserHostReply(e@),
            ReplyError::Username(e) => ReplyErrorView::Username(e@),
            ReplyError::WhoFlags(e) => ReplyErrorView::WhoFlags(e@),
            ReplyError::NoAt(s) => ReplyErrorView::NoAt(s@),
        }
    }
}

/// Whether `code` is the code of an error reply (`ERR_*`)
pub open spec fn is_error_code(code: u16) -> bool {
    code == ERR_UNKNOWNERROR
    || code == ERR_NOSUCHNICK
    || code == ERR_NOSUCHSERVER
    || code == ERR_NOSUCHCHANNEL
    || code == ERR_CANNOTSENDTOCHAN
    || code == ERR_TOOMANYCHANNELS
    || code == ERR_WASNOSUCHNICK
    || code == ERR_NOORIGIN
    || code == ERR_INVALIDCAPCMD
    || code == ERR_NORECIPIENT
    || code == ERR_NOTEXTTOSEND
    || code == ERR_INPUTTOOLONG
    || code == ERR_UNKNOWNCOMMAND
    || code == ERR_NOMOTD
    || code == ERR_NONICKNAMEGIVEN
    || code == ERR_ERRONEUSNICKNAME
    || code == ERR_NICKNAMEINUSE
    || code == ERR_NICKCOLLISION
    || code == ERR_USERNOTINCHANNEL
    || code == ERR_NOTONCHANNEL
    || code == ERR_USERONCHANNEL
    || code == ERR_NOTREGISTERED
    || code == ERR_NEEDMOREPARAMS
    || code == ERR_ALREADYREGISTERED
    || code == ERR_PASSWDMISMATCH
    || code == ERR_YOUREBANNEDCREEP
    || code == ERR_CHANNELISFULL
    || code == ERR_UNKNOWNMODE
    || code == ERR_INVITEONLYCHAN
    || code == ERR_BANNEDFROMCHAN
    || code == ERR_BADCHANNELKEY
    || code == ERR_BADCHANMASK
    || code == ERR_NOPRIVILEGES
    || code == ERR_CHANOPRIVSNEEDED
    || code == ERR_CANTKILLSERVER
    || code == ERR_NOOPERHOST
    || code == ERR_UMODEUNKNOWNFLAG
    || code == ERR_USERSDONTMATCH
    || code == ERR_HELPNOTFOUND
    || code == ERR_INVALIDKEY
    || code == ERR_STARTTLSERROR
    || code == ERR_INVALIDMODEPARAM
    || code == ERR_NOPRIVS
    || code == ERR_NICKLOCKED
    || code == ERR_SASLFAIL
    || code == ERR_SASLTOOLONG
    || code == ERR_SASLABORTED
    || code == ERR_SASLALREADY
}

/// Whether `code` is the code of a reply kind known here
pub open spec fn is_known_code(code: u16) -> bool {
    code == RPL_WELCOME
    || code == RPL_YOURHOST
    || code == RPL_CREATED
    || code == RPL_MYINFO
    || code == RPL_ISUPPORT
    || code == RPL_REMOTEISUPPORT
    || code == RPL_BOUNCE
    || code == RPL_STATSCOMMANDS
    || code == RPL_ENDOFSTATS
    || code == RPL_UMODEIS
    || code == RPL_STATSUPTIME
    || code == RPL_STATSCONN
    || code == RPL_LUSERCLIENT
    || code == RPL_LUSEROP
    || code == RPL_LUSERUNKNOWN
    || code == RPL_LUSERCHANNELS
    || code == RPL_LUSERME
    || code == RPL_ADMINME
    || code == RPL_ADMINLOC1
    || code == RPL_ADMINLOC2
    || code == RPL_ADMINEMAIL
    || code == RPL_TRYAGAIN
    || code == RPL_LOCALUSERS
    || code == RPL_GLOBALUSERS
    || code == RPL_WHOISCERTFP
    || code == RPL_NONE
    || code == RPL_AWAY
    || code == RPL_USERHOST
    || code == RPL_UNAWAY
    || code == RPL_NOWAWAY
    || code == RPL_WHOISREGNICK
    || code == RPL_WHOISUSER
    || code == RPL_WHOISSERVER
    || code == RPL_WHOISOPERATOR
    || code == RPL_WHOWASUSER
    || code == RPL_ENDOFWHO
    || code == RPL_WHOISIDLE
    || code == RPL_ENDOFWHOIS
    || code == RPL_WHOISCHANNELS
    || code == RPL_WHOISSPECIAL
    || code == RPL_LISTSTART
    || code == RPL_LIST
    || code == RPL_LISTEND
    || code == RPL_CHANNELMODEIS
    || code == RPL_CHANNEL_URL
    || code == RPL_CREATIONTIME
    || code == RPL_WHOISACCOUNT
    || code == RPL_NOTOPIC
    || code == RPL_TOPIC
    || code == RPL_TOPICWHOTIME
    || code == RPL_INVITELIST
    || code == RPL_ENDOFINVITELIST
    || code == RPL_WHOISACTUALLY
    || code == RPL_INVITING
    || code == RPL_INVEXLIST
    || code == RPL_ENDOFINVEXLIST
    || code == RPL_EXCEPTLIST
    || code == RPL_ENDOFEXCEPTLIST
    || code == RPL_VERSION
    || code == RPL_WHOREPLY
    || code == RPL_NAMREPLY
    || code == RPL_LINKS
    || code == RPL_ENDOFLINKS
    || code == RPL_ENDOFNAMES
    || code == RPL_BANLIST
    || code == RPL_ENDOFBANLIST
    || code == RPL_ENDOFWHOWAS
    || code == RPL_INFO
    || code == RPL_MOTD
    || code == RPL_ENDOFINFO
    || code == RPL_MOTDSTART
    || code == RPL_ENDOFMOTD
    || code == RPL_WHOISHOST
    || code == RPL_WHOISMODES
    || code == RPL_YOUREOPER
    || code == RPL_REHASHING
    || code == RPL_TIME
    || code == ERR_UNKNOWNERROR
    || code == ERR_NOSUCHNICK
    || code == ERR_NOSUCHSERVER
    || code == ERR_NOSUCHCHANNEL
    || code == ERR_CANNOTSENDTOCHAN
    || code == ERR_TOOMANYCHANNELS
    || code == ERR_WASNOSUCHNICK
    || code == ERR_NOORIGIN
    || code == ERR_INVALIDCAPCMD
    || code == ERR_NORECIPIENT
    || code == ERR_NOTEXTTOSEND
    || code == ERR_INPUTTOOLONG
    || code == ERR_UNKNOWNCOMMAND
    || code == ERR_NOMOTD
    || code == ERR_NONICKNAMEGIVEN
    || code == ERR_ERRONEUSNICKNAME
    || code == ERR_NICKNAMEINUSE
    || code == ERR_NICKCOLLISION
    || code == ERR_USERNOTINCHANNEL
    || code == ERR_NOTONCHANNEL
    || code == ERR_USERONCHANNEL
    || code == ERR_NOTREGISTERED
    || code == ERR_NEEDMOREPARAMS
    || code == ERR_ALREADYREGISTERED
    || code == ERR_PASSWDMISMATCH
    || code == ERR_YOUREBANNEDCREEP
    || code == ERR_CHANNELISFULL
    || code == ERR_UNKNOWNMODE
    || code == ERR_INVITEONLYCHAN
    || code == ERR_BANNEDFROMCHAN
    || code == ERR_BADCHANNELKEY
    || code == ERR_BADCHANMASK
    || code == ERR_NOPRIVILEGES
    || code == ERR_CHANOPRIVSNEEDED
    || code == ERR_CANTKILLSERVER
    || code == ERR_NOOPERHOST
    || code == ERR_UMODEUNKNOWNFLAG
    || code == ERR_USERSDONTMATCH
    || code == ERR_HELPNOTFOUND
    || code == ERR_INVALIDKEY
    || code == RPL_STARTTLS
    || code == RPL_WHOISSECURE
    || code == ERR_STARTTLSERROR
    || code == ERR_INVALIDMODEPARAM
    || code == RPL_HELPSTART
    || code == RPL_HELPTXT
    || code == RPL_ENDOFHELP
    || code == ERR_NOPRIVS
    || code == RPL_LOGGEDIN
    || code == RPL_LOGGEDOUT
    || code == ERR_NICKLOCKED
    || code == RPL_SASLSUCCESS
    || code == ERR_SASLFAIL
    || code == ERR_SASLTOOLONG
    || code == ERR_SASLABORTED
    || code == ERR_SASLALREADY
    || code == RPL_SASLMECHS
}

/// Whether `code` and `p` form a reply, and if not, why not: as the reply
/// type that the code names reads them; any parameters form a reply of a
/// code that names none
pub open spec fn check_reply(code: u16, p: ParamsView) -> Result<(), ReplyErrorView> {
    if code < 300 {
        check_connection_reply(code, p)
    } else if code < 400 {
        check_query_reply(code, p)
    } else if code < 600 {
        check_error_reply(code, p)
    } else {
        check_extended_reply(code, p)
    }
}

/// [`check_reply`] for the codes below 300
pub open spec fn check_connection_reply(code: u16, p: ParamsView) -> Result<(), ReplyErrorView> {
    if code == RPL_WELCOME {
        check_welcome(p)
    } else if code == RPL_YOURHOST {
        check_your_host(p)
    } else if code == RPL_CREATED {
        check_created(p)
    } else if code == RPL_MYINFO {
        check_my_info(p)
    } else if code == RPL_ISUPPORT {
        check_isupport(p)
    } else if code == RPL_REMOTEISUPPORT {
        check_remote_isupport(p)
    } else if code == RPL_BOUNCE {
        check_bounce(p)
    } else if code == RPL_STATSCOMMANDS {
        check_stats_commands(p)
    } else if code == RPL_ENDOFSTATS {
        check_end_of_stats(p)
    } else if code == RPL_UMODEIS {
        check_u_mode_is(p)
    } else if code == RPL_STATSUPTIME {
        check_stats_uptime(p)
    } else if code == RPL_STATSCONN {
        check_stats_conn(p)
    } else if code == RPL_LUSERCLIENT {
        check_luser_client(p)
    } else if code == RPL_LUSEROP {
        check_luser_op(p)
    } else if code == RPL_LUSERUNKNOWN {
        check_luser_unknown(p)
    } else if code == RPL_LUSERCHANNELS {
        check_luser_channels(p)
    } else if code == RPL_LUSERME {
        check_luser_me(p)
    } else if code == RPL_ADMINME {
        check_admin_me(p)
    } else if code == RPL_ADMINLOC1 {
        check_admin_loc1(p)
    } else if code == RPL_ADMINLOC2 {
        check_admin_loc2(p)
    } else if code == RPL_ADMINEMAIL {
        check_admin_email(p)
    } else if code == RPL_TRYAGAIN {
        check_try_again(p)
    } else if code == RPL_LOCALUSERS {
        check_local_users(p)
    } else if code == RPL_GLOBALUSERS {
        check_global_users(p)
    } else if code == RPL_WHOISCERTFP {
        check_who_is_cert_fp(p)
    } else {
        Ok(())
    }
}

/// [`check_reply`] for the codes from 300 to 399
pub open spec fn check_query_reply(code: u16, p: ParamsView) -> Result<(), ReplyErrorView> {
    if code == RPL_NONE {
        check_none_reply(p)
    } else if code == RPL_AWAY {
        check_away(p)
    } else if code == RPL_USERHOST {
        check_user_host_rpl(p)
    } else if code == RPL_UNAWAY {
        check_un_away(p)
    } else if code == RPL_NOWAWAY {
        check_now_away(p)
    } else if code == RPL_WHOISREGNICK {
        check_who_is_reg_nick(p)
    } else if code == RPL_WHOISUSER {
        check_who_is_user(p)
    } else if code == RPL_WHOISSERVER {
        check_who_is_server(p)
    } else if code == RPL_WHOISOPERATOR {
        check_who_is_operator(p)
    } else if code == RPL_WHOWASUSER {
        check_who_was_user(p)
    } else if code == RPL_ENDOFWHO {
        check_end_of_who(p)
    } else if code == RPL_WHOISIDLE {
        check_who_is_idle(p)
    } else if code == RPL_ENDOFWHOIS {
        check_end_of_who_is(p)
    } else if code == RPL_WHOISCHANNELS {
        check_who_is_channels(p)
    } else if code == RPL_WHOISSPECIAL {
        check_who_is_special(p)
    } else if code == RPL_LISTSTART {
        check_list_start(p)
    } else if code == RPL_LIST {
        check_list(p)
    } else if code == RPL_LISTEND {
        check_list_end(p)
    } else if code == RPL_CHANNELMODEIS {
        check_channel_mode_is(p)
    } else if code == RPL_CHANNEL_URL {
        check_channel_url(p)
    } else if code == RPL_CREATIONTIME {
        check_creation_time(p)
    } else if code == RPL_WHOISACCOUNT {
        check_who_is_account(p)
    } else if code == RPL_NOTOPIC {
        check_no_topic(p)
    } else if code == RPL_TOPIC {
        check_topic(p)
    } else if code == RPL_TOPICWHOTIME {
        check_topic_who_time(p)
    } else if code == RPL_INVITELIST {
        check_invite_list(p)
    } else if code == RPL_ENDOFINVITELIST {
        check_end_of_invite_list(p)
    } else if code == RPL_WHOISACTUALLY {
        check_who_is_actually(p)
    } else if code == RPL_INVITING {
        check_inviting(p)
    } else if code == RPL_INVEXLIST {
        check_inv_ex_list(p)
    } else if code == RPL_ENDOFINVEXLIST {
        check_end_of_inv_ex_list(p)
    } else if code == RPL_EXCEPTLIST {
        check_except_list(p)
    } else if code == RPL_ENDOFEXCEPTLIST {
        check_end_of_except_list(p)
    } else if code == RPL_VERSION {
        check_version(p)
    } else if code == RPL_WHOREPLY {
        check_who_reply(p)
    } else if code == RPL_NAMREPLY {
        check_nam_reply(p)
    } else if code == RPL_LINKS {
        check_links(p)
    } else if code == RPL_ENDOFLINKS {
        check_end_of_links(p)
    } else if code == RPL_ENDOFNAMES {
        check_end_of_names(p)
    } else if code == RPL_BANLIST {
        check_ban_list(p)
    } else if code == RPL_ENDOFBANLIST {
        check_end_of_ban_list(p)
    } else if code == RPL_ENDOFWHOWAS {
        check_end_of_who_was(p)
    } else if code == RPL_INFO {
        check_info(p)
    } else if code == RPL_MOTD {
        check_motd(p)
    } else if code == RPL_ENDOFINFO {
        check_end_of_info(p)
    } else if code == RPL_MOTDSTART {
        check_motd_start(p)
    } else if code == RPL_ENDOFMOTD {
        check_end_of_motd(p)
    } else if code == RPL_WHOISHOST {
        check_who_is_host(p)
    } else if code == RPL_WHOISMODES {
        check_who_is_modes(p)
    } else if code == RPL_YOUREOPER {
        check_youre_oper(p)
    } else if code == RPL_REHASHING {
        check_rehashing(p)
    } else if code == RPL_TIME {
        check_time(p)
    } else {
        Ok(())
    }
}

/// [`check_reply`] for the codes from 400 to 599
pub open spec fn check_error_reply(code: u16, p: ParamsView) -> Result<(), ReplyErrorView> {
    if code == ERR_UNKNOWNERROR {
        check_unknown_error(p)
    } else if code == ERR_NOSUCHNICK {
        check_no_such_nick(p)
    } else if code == ERR_NOSUCHSERVER {
        check_no_such_server(p)
    } else if code == ERR_NOSUCHCHANNEL {
        check_no_such_channel(p)
    } else if code == ERR_CANNOTSENDTOCHAN {
        check_cannot_send_to_chan(p)
    } else if code == ERR_TOOMANYCHANNELS {
        check_too_many_channels(p)
    } else if code == ERR_WASNOSUCHNICK {
        check_was_no_such_nick(p)
    } else if code == ERR_NOORIGIN {
        check_no_origin(p)
    } else if code == ERR_INVALIDCAPCMD {
        check_invalid_cap_cmd(p)
    } else if code == ERR_NORECIPIENT {
        check_no_recipient(p)
    } else if code == ERR_NOTEXTTOSEND {
        check_no_text_to_send(p)
    } else if code == ERR_INPUTTOOLONG {
        check_input_too_long(p)
    } else if code == ERR_UNKNOWNCOMMAND {
        check_unknown_command(p)
    } else if code == ERR_NOMOTD {
        check_no_motd(p)
    } else if code == ERR_NONICKNAMEGIVEN {
        check_no_nickname_given(p)
    } else if code == ERR_ERRONEUSNICKNAME {
        check_erroneous_nickname(p)
    } else if code == ERR_NICKNAMEINUSE {
        check_nickname_in_use(p)
    } else if code == ERR_NICKCOLLISION {
        check_nick_collision(p)
    } else if code == ERR_USERNOTINCHANNEL {
        check_user_not_in_channel(p)
    } else if code == ERR_NOTONCHANNEL {
        check_not_on_channel(p)
    } else if code == ERR_USERONCHANNEL {
        check_user_on_channel(p)
    } else if code == ERR_NOTREGISTERED {
        check_not_registered(p)
    } else if code == ERR_NEEDMOREPARAMS {
        check_need_more_params(p)
    } else if code == ERR_ALREADYREGISTERED {
        check_already_registered(p)
    } else if code == ERR_PASSWDMISMATCH {
        check_passwd_mismatch(p)
    } else if code == ERR_YOUREBANNEDCREEP {
        check_youre_banned_creep(p)
    } else if code == ERR_CHANNELISFULL {
        check_channel_is_full(p)
    } else if code == ERR_UNKNOWNMODE {
        check_unknown_mode(p)
    } else if code == ERR_INVITEONLYCHAN {
        check_invite_only_chan(p)
    } else if code == ERR_BANNEDFROMCHAN {
        check_banned_from_chan(p)
    } else if code == ERR_BADCHANNELKEY {
        check_bad_channel_key(p)
    } else if code == ERR_BADCHANMASK {
        check_bad_chan_mask(p)
    } else if code == ERR_NOPRIVILEGES {
        check_no_privileges(p)
    } else if code == ERR_CHANOPRIVSNEEDED {
        check_chan_o_privs_needed(p)
    } else if code == ERR_CANTKILLSERVER {
        check_cant_kill_server(p)
    } else if code == ERR_NOOPERHOST {
        check_no_oper_host(p)
    } else if code == ERR_UMODEUNKNOWNFLAG {
        check_umode_unknown_flag(p)
    } else if code == ERR_USERSDONTMATCH {
        check_users_dont_match(p)
    } else if code == ERR_HELPNOTFOUND {
        check_help_not_found(p)
    } else if code == ERR_INVALIDKEY {
        check_invalid_key(p)
    } else {
        Ok(())
    }
}

/// [`check_reply`] for the codes 600 and above
pub open spec fn check_extended_reply(code: u16, p: ParamsView) -> Result<(), ReplyErrorView> {
    if code == RPL_STARTTLS {
        check_start_tls(p)
    } else if code == RPL_WHOISSECURE {
        check_who_is_secure(p)
    } else if code == ERR_STARTTLSERROR {
        check_start_tls_error(p)
    } else if code == ERR_INVALIDMODEPARAM {
        check_invalid_mode_param(p)
    } else if code == RPL_HELPSTART {
        check_help_start(p)
    } else if code == RPL_HELPTXT {
        check_help_txt(p)
    } else if code == RPL_ENDOFHELP {
        check_end_of_help(p)
    } else if code == ERR_NOPRIVS {
        check_no_privs(p)
    } else if code == RPL_LOGGEDIN {
        check_logged_in(p)
    } else if code == RPL_LOGGEDOUT {
        check_logged_out(p)
    } else if code == ERR_NICKLOCKED {
        check_nick_locked(p)
    } else if code == RPL_SASLSUCCESS {
        check_sasl_success(p)
    } else if code == ERR_SASLFAIL {
        check_sasl_fail(p)
    } else if code == ERR_SASLTOOLONG {
        check_sasl_too_long(p)
    } else if code == ERR_SASLABORTED {
        check_sasl_aborted(p)
    } else if code == ERR_SASLALREADY {
        check_sasl_already(p)
    } else if code == RPL_SASLMECHS {
        check_sasl_mechs(p)
    } else {
        Ok(())
    }
}

/// The parts that every reply has: its code and its parameters
pub trait ReplyParts: Sized {
    /// The reply's code
    spec fn reply_code(&self) -> u16;

    /// The reply's parameters
    spec fn reply_params(&self) -> ParamsView;

    fn code(&self) -> (r: u16)
        ensures
            r == self.reply_code(),
    ;

    /// The parameters, which the reply's code always accepts
    fn parameters(&self) -> (r: &ParameterList)
        ensures
            r@ == self.reply_params(),
            check_reply(self.reply_code(), r@) is Ok,
    ;

    fn is_error(&self) -> (r: bool)
        ensures
            r == is_error_code(self.reply_code()),
    ;

    /// The code and the parameters, which the code always accepts
    fn into_parts(self) -> (r: (u16, ParameterList))
        ensures
            r.0 == self.reply_code(),
            r.1@ == self.reply_params(),
            check_reply(r.0, r.1@) is Ok,
    ;
}

/// A numeric reply: one of the known kinds, or a reply of an unknown code
#[derive(Debug, PartialEq, Eq)]
pub enum Reply {
    Welcome(Welcome),
    YourHost(YourHost),
    Created(Created),
    MyInfo(MyInfo),
    ISupport(ISupport),
    RemoteISupport(RemoteISupport),
    Bounce(Bounce),
    StatsCommands(StatsCommands),
    EndOfStats(EndOfStats),
    UModeIs(UModeIs),
    StatsUptime(StatsUptime),
    StatsConn(StatsConn),
    LuserClient(LuserClient),
    LuserOp(LuserOp),
    LuserUnknown(LuserUnknown),
    LuserChannels(LuserChannels),
    LuserMe(LuserMe),
    AdminMe(AdminMe),
    AdminLoc1(AdminLoc1),
    AdminLoc2(AdminLoc2),
    AdminEmail(AdminEmail),
    TryAgain(TryAgain),
    LocalUsers(LocalUsers),
    GlobalUsers(GlobalUsers),
    WhoIsCertFP(WhoIsCertFP),
    NoneReply(NoneReply),
    Away(Away),
    UserHostRpl(UserHostRpl),
    UnAway(UnAway),
    NowAway(NowAway),
    WhoIsRegNick(WhoIsRegNick),
    WhoIsUser(WhoIsUser),
    WhoIsServer(WhoIsServer),
    WhoIsOperator(WhoIsOperator),
    WhoWasUser(WhoWasUser),
    EndOfWho(EndOfWho),
    WhoIsIdle(WhoIsIdle),
    EndOfWhoIs(EndOfWhoIs),
    WhoIsChannels(WhoIsChannels),
    WhoIsSpecial(WhoIsSpecial),
    ListStart(ListStart),
    List(List),
    ListEnd(ListEnd),
    ChannelModeIs(ChannelModeIs),
    ChannelUrl(ChannelUrl),
    CreationTime(CreationTime),
    WhoIsAccount(WhoIsAccount),
    NoTopic(NoTopic),
    Topic(Topic),
    TopicWhoTime(TopicWhoTime),
    InviteList(InviteList),
    EndOfInviteList(EndOfInviteList),
    WhoIsActually(WhoIsActually),
    Inviting(Inviting),
    InvExList(InvExList),
    EndOfInvExList(EndOfInvExList),
    ExceptList(ExceptList),
    EndOfExceptList(EndOfExceptList),
    Version(Version),
    WhoReply(WhoReply),
    NamReply(NamReply),
    Links(Links),
    EndOfLinks(EndOfLinks),
    EndOfNames(EndOfNames),
    BanList(BanList),
    EndOfBanList(EndOfBanList),
    EndOfWhoWas(EndOfWhoWas),
    Info(Info),
    Motd(Motd),
    EndOfInfo(EndOfInfo),
    MotdStart(MotdStart),
    EndOfMotd(EndOfMotd),
    WhoIsHost(WhoIsHost),
    WhoIsModes(WhoIsModes),
    YoureOper(YoureOper),
    Rehashing(Rehashing),
    Time(Time),
    UnknownError(UnknownError),
    NoSuchNick(NoSuchNick),
    NoSuchServer(NoSuchServer),
    NoSuchChannel(NoSuchChannel),
    CannotSendToChan(CannotSendToChan),
    TooManyChannels(TooManyChannels),
    WasNoSuchNick(WasNoSuchNick),
    NoOrigin(NoOrigin),
    InvalidCapCmd(InvalidCapCmd),
    NoRecipient(NoRecipient),
    NoTextToSend(NoTextToSend),
    InputTooLong(InputTooLong),
    UnknownCommand(UnknownCommand),
    NoMotd(NoMotd),
    NoNicknameGiven(NoNicknameGiven),
    ErroneousNickname(ErroneousNickname),
    NicknameInUse(NicknameInUse),
    NickCollision(NickCollision),
    UserNotInChannel(UserNotInChannel),
    NotOnChannel(NotOnChannel),
    UserOnChannel(UserOnChannel),
    NotRegistered(NotRegistered),
    NeedMoreParams(NeedMoreParams),
    AlreadyRegistered(AlreadyRegistered),
    PasswdMismatch(PasswdMismatch),
    YoureBannedCreep(YoureBannedCreep),
    ChannelIsFull(ChannelIsFull),
    UnknownMode(UnknownMode),
    InviteOnlyChan(InviteOnlyChan),
    BannedFromChan(BannedFromChan),
    BadChannelKey(BadChannelKey),
    BadChanMask(BadChanMask),
    NoPrivileges(NoPrivileges),
    ChanOPrivsNeeded(ChanOPrivsNeeded),
    CantKillServer(CantKillServer),
    NoOperHost(NoOperHost),
    UmodeUnknownFlag(UmodeUnknownFlag),
    UsersDontMatch(UsersDontMatch),
    HelpNotFound(HelpNotFound),
    InvalidKey(InvalidKey),
    StartTLS(StartTLS),
    WhoIsSecure(WhoIsSecure),
    StartTLSError(StartTLSError),
    InvalidModeParam(InvalidModeParam),
    HelpStart(HelpStart),
    HelpTxt(HelpTxt),
    EndOfHelp(EndOfHelp),
    NoPrivs(NoPrivs),
    LoggedIn(LoggedIn),
    LoggedOut(LoggedOut),
    NickLocked(NickLocked),
    SaslSuccess(SaslSuccess),
    SaslFail(SaslFail),
    SaslTooLong(SaslTooLong),
    SaslAborted(SaslAborted),
    SaslAlready(SaslAlready),
    SaslMechs(SaslMechs),
    Unknown(UnknownReply),
}

impl View for Reply {
    type V = (u16, ParamsView);

    open spec fn view(&self) -> (u16, ParamsView) {
        (self.reply_code(), self.reply_params())
    }
}

impl ReplyParts for Reply {
    open spec fn reply_code(&self) -> u16 {
        match self {
            Reply::Welcome(x) => x.reply_code(),
            Reply::YourHost(x) => x.reply_code(),
            Reply::Created(x) => x.reply_code(),
            Reply::MyInfo(x) => x.reply_code(),
            Reply::ISupport(x) => x.reply_code(),
            Reply::RemoteISupport(x) => x.reply_code(),
            Reply::Bounce(x) => x.reply_code(),
            Reply::StatsCommands(x) => x.reply_code(),
            Reply::EndOfStats(x) => x.reply_code(),
            Reply::UModeIs(x) => x.reply_code(),
            Reply::StatsUptime(x) => x.reply_code(),
            Reply::StatsConn(x) => x.reply_code(),
            Reply::LuserClient(x) => x.reply_code(),
            Reply::LuserOp(x) => x.reply_code(),
            Reply::LuserUnknown(x) => x.reply_code(),
            Reply::LuserChannels(x) => x.reply_code(),
            Reply::LuserMe(x) => x.reply_code(),
            Reply::AdminMe(x) => x.reply_code(),
            Reply::AdminLoc1(x) => x.reply_code(),
            Reply::AdminLoc2(x) => x.reply_code(),
            Reply::AdminEmail(x) => x.reply_code(),
            Reply::TryAgain(x) => x.reply_code(),
            Reply::LocalUsers(x) => x.reply_code(),
            Reply::GlobalUsers(x) => x.reply_code(),
            Reply::WhoIsCertFP(x) => x.reply_code(),
            Reply::NoneReply(x) => x.reply_code(),
            Reply::Away(x) => x.reply_code(),
            Reply::UserHostRpl(x) => x.reply_code(),
            Reply::UnAway(x) => x.reply_code(),
            Reply::NowAway(x) => x.reply_code(),
            Reply::WhoIsRegNick(x) => x.reply_code(),
            Reply::WhoIsUser(x) => x.reply_code(),
            Reply::WhoIsServer(x) => x.reply_code(),
            Reply::WhoIsOperator(x) => x.reply_code(),
            Reply::WhoWasUser(x) => x.reply_code(),
            Reply::EndOfWho(x) => x.reply_code(),
            Reply::WhoIsIdle(x) => x.reply_code(),
            Reply::EndOfWhoIs(x) => x.reply_code(),
            Reply::WhoIsChannels(x) => x.reply_code(),
            Reply::WhoIsSpecial(x) => x.reply_code(),
            Reply::ListStart(x) => x.reply_code(),
            Reply::List(x) => x.reply_code(),
            Reply::ListEnd(x) => x.reply_code(),
            Reply::ChannelModeIs(x) => x.reply_code(),
            Reply::ChannelUrl(x) => x.reply_code(),
            Reply::CreationTime(x) => x.reply_code(),
            Reply::WhoIsAccount(x) => x.reply_code(),
            Reply::NoTopic(x) => x.reply_code(),
            Reply::Topic(x) => x.reply_code(),
            Reply::TopicWhoTime(x) => x.reply_code(),
            Reply::InviteList(x) => x.reply_code(),
            Reply::EndOfInviteList(x) => x.reply_code(),
            Reply::WhoIsActually(x) => x.reply_code(),
            Reply::Inviting(x) => x.reply_code(),
            Reply::InvExList(x) => x.reply_code(),
            Reply::EndOfInvExList(x) => x.reply_code(),
            Reply::ExceptList(x) => x.reply_code(),
            Reply::EndOfExceptList(x) => x.reply_code(),
            Reply::Version(x) => x.reply_code(),
            Reply::WhoReply(x) => x.reply_code(),
            Reply::NamReply(x) => x.reply_code(),
            Reply::Links(x) => x.reply_code(),
            Reply::EndOfLinks(x) => x.reply_code(),
            Reply::EndOfNames(x) => x.reply_code(),
            Reply::BanList(x) => x.reply_code(),
            Reply::EndOfBanList(x) => x.reply_code(),
            Reply::EndOfWhoWas(x) => x.reply_code(),
            Reply::Info(x) => x.reply_code(),
            Reply::Motd(x) => x.reply_code(),
            Reply::EndOfInfo(x) => x.reply_code(),
            Reply::MotdStart(x) => x.reply_code(),
            Reply::EndOfMotd(x) => x.reply_code(),
            Reply::WhoIsHost(x) => x.reply_code(),
            Reply::WhoIsModes(x) => x.reply_code(),
            Reply::YoureOper(x) => x.reply_code(),
            Reply::Rehashing(x) => x.reply_code(),
            Reply::Time(x) => x.reply_code(),
            Reply::UnknownError(x) => x.reply_code(),
            Reply::NoSuchNick(x) => x.reply_code(),
            Reply::NoSuchServer(x) => x.reply_code(),
            Reply::NoSuchChannel(x) => x.reply_code(),
            Reply::CannotSendToChan(x) => x.reply_code(),
            Reply::TooManyChannels(x) => x.reply_code(),
            Reply::WasNoSuchNick(x) => x.reply_code(),
            Reply::NoOrigin(x) => x.reply_code(),
            Reply::InvalidCapCmd(x) => x.reply_code(),
            Reply::NoRecipient(x) => x.reply_code(),
            Reply::NoTextToSend(x) => x.reply_code(),
            Reply::InputTooLong(x) => x.reply_code(),
            Reply::UnknownCommand(x) => x.reply_code(),
            Reply::NoMotd(x) => x.reply_code(),
            Reply::NoNicknameGiven(x) => x.reply_code(),
            Reply::ErroneousNickname(x) => x.reply_code(),
            Reply::NicknameInUse(x) => x.reply_code(),
            Reply::NickCollision(x) => x.reply_code(),
            Reply::UserNotInChannel(x) => x.reply_code(),
            Reply::NotOnChannel(x) => x.reply_code(),
            Reply::UserOnChannel(x) => x.reply_code(),
            Reply::NotRegistered(x) => x.reply_code(),
            Reply::NeedMoreParams(x) => x.reply_code(),
            Reply::AlreadyRegistered(x) => x.reply_code(),
            Reply::PasswdMismatch(x) => x.reply_code(),
            Reply::YoureBannedCreep(x) => x.reply_code(),
            Reply::ChannelIsFull(x) => x.reply_code(),
            Reply::UnknownMode(x) => x.reply_code(),
            Reply::InviteOnlyChan(x) => x.reply_code(),
            Reply::BannedFromChan(x) => x.reply_code(),
            Reply::BadChannelKey(x) => x.reply_code(),
            Reply::BadChanMask(x) => x.reply_code(),
            Reply::NoPrivileges(x) => x.reply_code(),
            Reply::ChanOPrivsNeeded(x) => x.reply_code(),
            Reply::CantKillServer(x) => x.reply_code(),
            Reply::NoOperHost(x) => x.reply_code(),
            Reply::UmodeUnknownFlag(x) => x.reply_code(),
            Reply::UsersDontMatch(x) => x.reply_code(),
            Reply::HelpNotFound(x) => x.reply_code(),
            Reply::InvalidKey(x) => x.reply_code(),
            Reply::StartTLS(x) => x.reply_code(),
            Reply::WhoIsSecure(x) => x.reply_code(),
            Reply::StartTLSError(x) => x.reply_code(),
            Reply::InvalidModeParam(x) => x.reply_code(),
            Reply::HelpStart(x) => x.reply_code(),
            Reply::HelpTxt(x) => x.reply_code(),
            Reply::EndOfHelp(x) => x.reply_code(),
            Reply::NoPrivs(x) => x.reply_code(),
            Reply::LoggedIn(x) => x.reply_code(),
            Reply::LoggedOut(x) => x.reply_code(),
            Reply::NickLocked(x) => x.reply_code(),
            Reply::SaslSuccess(x) => x.reply_code(),
            Reply::SaslFail(x) => x.reply_code(),
            Reply::SaslTooLong(x) => x.reply_code(),
            Reply::SaslAborted(x) => x.reply_code(),
            Reply::SaslAlready(x) => x.reply_code(),
            Reply::SaslMechs(x) => x.reply_code(),
            Reply::Unknown(x) => x.reply_code(),
        }
    }

    open spec fn reply_params(&self) -> ParamsView {
        match self {
            Reply::Welcome(x) => x.reply_params(),
            Reply::YourHost(x) => x.reply_params(),
            Reply::Created(x) => x.reply_params(),
            Reply::MyInfo(x) => x.reply_params(),
            Reply::ISupport(x) => x.reply_params(),
            Reply::RemoteISupport(x) => x.reply_params(),
            Reply::Bounce(x) => x.reply_params(),
            Reply::StatsCommands(x) => x.reply_params(),
            Reply::EndOfStats(x) => x.reply_params(),
            Reply::UModeIs(x) => x.reply_params(),
            Reply::StatsUptime(x) => x.reply_params(),
            Reply::StatsConn(x) => x.reply_params(),
            Reply::LuserClient(x) => x.reply_params(),
            Reply::LuserOp(x) => x.reply_params(),
            Reply::LuserUnknown(x) => x.reply_params(),
            Reply::LuserChannels(x) => x.reply_params(),
            Reply::LuserMe(x) => x.reply_params(),
            Reply::AdminMe(x) => x.reply_params(),
            Reply::AdminLoc1(x) => x.reply_params(),
            Reply::AdminLoc2(x) => x.reply_params(),
            Reply::AdminEmail(x) => x.reply_params(),
            Reply::TryAgain(x) => x.reply_params(),
            Reply::LocalUsers(x) => x.reply_params(),
            Reply::GlobalUsers(x) => x.reply_params(),
            Reply::WhoIsCertFP(x) => x.reply_params(),
            Reply::NoneReply(x) => x.reply_params(),
            Reply::Away(x) => x.reply_params(),
            Reply::UserHostRpl(x) => x.reply_params(),
            Reply::UnAway(x) => x.reply_params(),
            Reply::NowAway(x) => x.reply_params(),
            Reply::WhoIsRegNick(x) => x.reply_params(),
            Reply::WhoIsUser(x) => x.reply_params(),
            Reply::WhoIsServer(x) => x.reply_params(),
            Reply::WhoIsOperator(x) => x.reply_params(),
            Reply::WhoWasUser(x) => x.reply_params(),
            Reply::EndOfWho(x) => x.reply_params(),
            Reply::WhoIsIdle(x) => x.reply_params(),
            Reply::EndOfWhoIs(x) => x.reply_params(),
            Reply::WhoIsChannels(x) => x.reply_params(),
            Reply::WhoIsSpecial(x) => x.reply_params(),
            Reply::ListStart(x) => x.reply_params(),
            Reply::List(x) => x.reply_params(),
            Reply::ListEnd(x) => x.reply_params(),
            Reply::ChannelModeIs(x) => x.reply_params(),
            Reply::ChannelUrl(x) => x.reply_params(),
            Reply::CreationTime(x) => x.reply_params(),
            Reply::WhoIsAccount(x) => x.reply_params(),
            Reply::NoTopic(x) => x.reply_params(),
            Reply::Topic(x) => x.reply_params(),
            Reply::TopicWhoTime(x) => x.reply_params(),
            Reply::InviteList(x) => x.reply_params(),
            Reply::EndOfInviteList(x) => x.reply_params(),
            Reply::WhoIsActually(x) => x.reply_params(),
            Reply::Inviting(x) => x.reply_params(),
            Reply::InvExList(x) => x.reply_params(),
            Reply::EndOfInvExList(x) => x.reply_params(),
            Reply::ExceptList(x) => x.reply_params(),
            Reply::EndOfExceptList(x) => x.reply_params(),
            Reply::Version(x) => x.reply_params(),
            Reply::WhoReply(x) => x.reply_params(),
            Reply::NamReply(x) => x.reply_params(),
            Reply::Links(x) => x.reply_params(),
            Reply::EndOfLinks(x) => x.reply_params(),
            Reply::EndOfNames(x) => x.reply_params(),
            Reply::BanList(x) => x.reply_params(),
            Reply::EndOfBanList(x) => x.reply_params(),
            Reply::EndOfWhoWas(x) => x.reply_params(),
            Reply::Info(x) => x.reply_params(),
            Reply::Motd(x) => x.reply_params(),
            Reply::EndOfInfo(x) => x.reply_params(),
            Reply::MotdStart(x) => x.reply_params(),
            Reply::EndOfMotd(x) => x.reply_params(),
            Reply::WhoIsHost(x) => x.reply_params(),
            Reply::WhoIsModes(x) => x.reply_params(),
            Reply::YoureOper(x) => x.reply_params(),
            Reply::Rehashing(x) => x.reply_params(),
            Reply::Time(x) => x.reply_params(),
            Reply::UnknownError(x) => x.reply_params(),
            Reply::NoSuchNick(x) => x.reply_params(),
            Reply::NoSuchServer(x) => x.reply_params(),
            Reply::NoSuchChannel(x) => x.reply_params(),
            Reply::CannotSendToChan(x) => x.reply_params(),
            Reply::TooManyChannels(x) => x.reply_params(),
            Reply::WasNoSuchNick(x) => x.reply_params(),
            Reply::NoOrigin(x) => x.reply_params(),
            Reply::InvalidCapCmd(x) => x.reply_params(),
            Reply::NoRecipient(x) => x.reply_params(),
            Reply::NoTextToSend(x) => x.reply_params(),
            Reply::InputTooLong(x) => x.reply_params(),
            Reply::UnknownCommand(x) => x.reply_params(),
            Reply::NoMotd(x) => x.reply_params(),
            Reply::NoNicknameGiven(x) => x.reply_params(),
            Reply::ErroneousNickname(x) => x.reply_params(),
            Reply::NicknameInUse(x) => x.reply_params(),
            Reply::NickCollision(x) => x.reply_params(),
            Reply::UserNotInChannel(x) => x.reply_params(),
            Reply::NotOnChannel(x) => x.reply_params(),
            Reply::UserOnChannel(x) => x.reply_params(),
            Reply::NotRegistered(x) => x.reply_params(),
            Reply::NeedMoreParams(x) => x.reply_params(),
            Reply::AlreadyRegistered(x) => x.reply_params(),
            Reply::PasswdMismatch(x) => x.reply_params(),
            Reply::YoureBannedCreep(x) => x.reply_params(),
            Reply::ChannelIsFull(x) => x.reply_params(),
            Reply::UnknownMode(x) => x.reply_params(),
            Reply::InviteOnlyChan(x) => x.reply_params(),
            Reply::BannedFromChan(x) => x.reply_params(),
            Reply::BadChannelKey(x) => x.reply_params(),
            Reply::BadChanMask(x) => x.reply_params(),
            Reply::NoPrivileges(x) => x.reply_params(),
            Reply::ChanOPrivsNeeded(x) => x.reply_params(),
            Reply::CantKillServer(x) => x.reply_params(),
            Reply::NoOperHost(x) => x.reply_params(),
            Reply::UmodeUnknownFlag(x) => x.reply_params(),
            Reply::UsersDontMatch(x) => x.reply_params(),
            Reply::HelpNotFound(x) => x.reply_params(),
            Reply::InvalidKey(x) => x.reply_params(),
            Reply::StartTLS(x) => x.reply_params(),
            Reply::WhoIsSecure(x) => x.reply_params(),
            Reply::StartTLSError(x) => x.reply_params(),
            Reply::InvalidModeParam(x) => x.reply_params(),
            Reply::HelpStart(x) => x.reply_params(),
            Reply::HelpTxt(x) => x.reply_params(),
            Reply::EndOfHelp(x) => x.reply_params(),
            Reply::NoPrivs(x) => x.reply_params(),
            Reply::LoggedIn(x) => x.reply_params(),
            Reply::LoggedOut(x) => x.reply_params(),
            Reply::NickLocked(x) => x.reply_params(),
            Reply::SaslSuccess(x) => x.reply_params(),
            Reply::SaslFail(x) => x.reply_params(),
            Reply::SaslTooLong(x) => x.reply_params(),
            Reply::SaslAborted(x) => x.reply_params(),
            Reply::SaslAlready(x) => x.reply_params(),
            Reply::SaslMechs(x) => x.reply_params(),
            Reply::Unknown(x) => x.reply_params(),
        }
    }

    fn code(&self) -> (r: u16) {
        match self {
            Reply::Welcome(x) => x.code(),
            Reply::YourHost(x) => x.code(),
            Reply::Created(x) => x.code(),
            Reply::MyInfo(x) => x.code(),
            Reply::ISupport(x) => x.code(),
            Reply::RemoteISupport(x) => x.code(),
            Reply::Bounce(x) => x.code(),
            Reply::StatsCommands(x) => x.code(),
            Reply::EndOfStats(x) => x.code(),
            Reply::UModeIs(x) => x.code(),
            Reply::StatsUptime(x) => x.code(),
            Reply::StatsConn(x) => x.code(),
            Reply::LuserClient(x) => x.code(),
            Reply::LuserOp(x) => x.code(),
            Reply::LuserUnknown(x) => x.code(),
            Reply::LuserChannels(x) => x.code(),
            Reply::LuserMe(x) => x.code(),
            Reply::AdminMe(x) => x.code(),
            Reply::AdminLoc1(x) => x.code(),
            Reply::AdminLoc2(x) => x.code(),
            Reply::AdminEmail(x) => x.code(),
            Reply::TryAgain(x) => x.code(),
            Reply::LocalUsers(x) => x.code(),
            Reply::GlobalUsers(x) => x.code(),
            Reply::WhoIsCertFP(x) => x.code(),
            Reply::NoneReply(x) => x.code(),
            Reply::Away(x) => x.code(),
            Reply::UserHostRpl(x) => x.code(),
            Reply::UnAway(x) => x.code(),
            Reply::NowAway(x) => x.code(),
            Reply::WhoIsRegNick(x) => x.code(),
            Reply::WhoIsUser(x) => x.code(),
            Reply::WhoIsServer(x) => x.code(),
            Reply::WhoIsOperator(x) => x.code(),
            Reply::WhoWasUser(x) => x.code(),
            Reply::EndOfWho(x) => x.code(),
            Reply::WhoIsIdle(x) => x.code(),
            Reply::EndOfWhoIs(x) => x.code(),
            Reply::WhoIsChannels(x) => x.code(),
            Reply::WhoIsSpecial(x) => x.code(),
            Reply::ListStart(x) => x.code(),
            Reply::List(x) => x.code(),
            Reply::ListEnd(x) => x.code(),
            Reply::ChannelModeIs(x) => x.code(),
            Reply::ChannelUrl(x) => x.code(),
            Reply::CreationTime(x) => x.code(),
            Reply::WhoIsAccount(x) => x.code(),
            Reply::NoTopic(x) => x.code(),
            Reply::Topic(x) => x.code(),
            Reply::TopicWhoTime(x) => x.code(),
            Reply::InviteList(x) => x.code(),
            Reply::EndOfInviteList(x) => x.code(),
            Reply::WhoIsActually(x) => x.code(),
            Reply::Inviting(x) => x.code(),
            Reply::InvExList(x) => x.code(),
            Reply::EndOfInvExList(x) => x.code(),
            Reply::ExceptList(x) => x.code(),
            Reply::EndOfExceptList(x) => x.code(),
            Reply::Version(x) => x.code(),
            Reply::WhoReply(x) => x.code(),
            Reply::NamReply(x) => x.code(),
            Reply::Links(x) => x.code(),
            Reply::EndOfLinks(x) => x.code(),
            Reply::EndOfNames(x) => x.code(),
            Reply::BanList(x) => x.code(),
            Reply::EndOfBanList(x) => x.code(),
            Reply::EndOfWhoWas(x) => x.code(),
            Reply::Info(x) => x.code(),
            Reply::Motd(x) => x.code(),
            Reply::EndOfInfo(x) => x.code(),
            Reply::MotdStart(x) => x.code(),
            Reply::EndOfMotd(x) => x.code(),
            Reply::WhoIsHost(x) => x.code(),
            Reply::WhoIsModes(x) => x.code(),
            Reply::YoureOper(x) => x.code(),
            Reply::Rehashing(x) => x.code(),
            Reply::Time(x) => x.code(),
            Reply::UnknownError(x) => x.code(),
            Reply::NoSuchNick(x) => x.code(),
            Reply::NoSuchServer(x) => x.code(),
            Reply::NoSuchChannel(x) => x.code(),
            Reply::CannotSendToChan(x) => x.code(),
            Reply::TooManyChannels(x) => x.code(),
            Reply::WasNoSuchNick(x) => x.code(),
            Reply::NoOrigin(x) => x.code(),
            Reply::InvalidCapCmd(x) => x.code(),
            Reply::NoRecipient(x) => x.code(),
            Reply::NoTextToSend(x) => x.code(),
            Reply::InputTooLong(x) => x.code(),
            Reply::UnknownCommand(x) => x.code(),
            Reply::NoMotd(x) => x.code(),
            Reply::NoNicknameGiven(x) => x.code(),
            Reply::ErroneousNickname(x) => x.code(),
            Reply::NicknameInUse(x) => x.code(),
            Reply::NickCollision(x) => x.code(),
            Reply::UserNotInChannel(x) => x.code(),
            Reply::NotOnChannel(x) => x.code(),
            Reply::UserOnChannel(x) => x.code(),
            Reply::NotRegistered(x) => x.code(),
            Reply::NeedMoreParams(x) => x.code(),
            Reply::AlreadyRegistered(x) => x.code(),
            Reply::PasswdMismatch(x) => x.code(),
            Reply::YoureBannedCreep(x) => x.code(),
            Reply::ChannelIsFull(x) => x.code(),
            Reply::UnknownMode(x) => x.code(),
            Reply::InviteOnlyChan(x) => x.code(),
            Reply::BannedFromChan(x) => x.code(),
            Reply::BadChannelKey(x) => x.code(),
            Reply::BadChanMask(x) => x.code(),
            Reply::NoPrivileges(x) => x.code(),
            Reply::ChanOPrivsNeeded(x) => x.code(),
            Reply::CantKillServer(x) => x.code(),
            Reply::NoOperHost(x) => x.code(),
            Reply::UmodeUnknownFlag(x) => x.code(),
            Reply::UsersDontMatch(x) => x.code(),
            Reply::HelpNotFound(x) => x.code(),
            Reply::InvalidKey(x) => x.code(),
            Reply::StartTLS(x) => x.code(),
            Reply::WhoIsSecure(x) => x.code(),
            Reply::StartTLSError(x) => x.code(),
            Reply::InvalidModeParam(x) => x.code(),
            Reply::HelpStart(x) => x.code(),
            Reply::HelpTxt(x) => x.code(),
            Reply::EndOfHelp(x) => x.code(),
            Reply::NoPrivs(x) => x.code(),
            Reply::LoggedIn(x) => x.code(),
            Reply::LoggedOut(x) => x.code(),
            Reply::NickLocked(x) => x.code(),
            Reply::SaslSuccess(x) => x.code(),
            Reply::SaslFail(x) => x.code(),
            Reply::SaslTooLong(x) => x.code(),
            Reply::SaslAborted(x) => x.code(),
            Reply::SaslAlready(x) => x.code(),
            Reply::SaslMechs(x) => x.code(),
            Reply::Unknown(x) => x.code(),
        }
    }

    fn parameters(&self) -> (r: &ParameterList) {
        match self {
            Reply::Welcome(x) => x.parameters(),
            Reply::YourHost(x) => x.parameters(),
            Reply::Created(x) => x.parameters(),
            Reply::MyInfo(x) => x.parameters(),
            Reply::ISupport(x) => x.parameters(),
            Reply::RemoteISupport(x) => x.parameters(),
            Reply::Bounce(x) => x.parameters(),
            Reply::StatsCommands(x) => x.parameters(),
            Reply::EndOfStats(x) => x.parameters(),
            Reply::UModeIs(x) => x.parameters(),
            Reply::StatsUptime(x) => x.parameters(),
            Reply::StatsConn(x) => x.parameters(),
            Reply::LuserClient(x) => x.parameters(),
            Reply::LuserOp(x) => x.parameters(),
            Reply::LuserUnknown(x) => x.parameters(),
            Reply::LuserChannels(x) => x.parameters(),
            Reply::LuserMe(x) => x.parameters(),
            Reply::AdminMe(x) => x.parameters(),
            Reply::AdminLoc1(x) => x.parameters(),
            Reply::AdminLoc2(x) => x.parameters(),
            Reply::AdminEmail(x) => x.parameters(),
            Reply::TryAgain(x) => x.parameters(),
            Reply::LocalUsers(x) => x.parameters(),
            Reply::GlobalUsers(x) => x.parameters(),
            Reply::WhoIsCertFP(x) => x.parameters(),
            Reply::NoneReply(x) => x.parameters(),
            Reply::Away(x) => x.parameters(),
            Reply::UserHostRpl(x) => x.parameters(),
            Reply::UnAway(x) => x.parameters(),
            Reply::NowAway(x) => x.parameters(),
            Reply::WhoIsRegNick(x) => x.parameters(),
            Reply::WhoIsUser(x) => x.parameters(),
            Reply::WhoIsServer(x) => x.parameters(),
            Reply::WhoIsOperator(x) => x.parameters(),
            Reply::WhoWasUser(x) => x.parameters(),
            Reply::EndOfWho(x) => x.parameters(),
            Reply::WhoIsIdle(x) => x.parameters(),
            Reply::EndOfWhoIs(x) => x.parameters(),
            Reply::WhoIsChannels(x) => x.parameters(),
            Reply::WhoIsSpecial(x) => x.parameters(),
            Reply::ListStart(x) => x.parameters(),
            Reply::List(x) => x.parameters(),
            Reply::ListEnd(x) => x.parameters(),
            Reply::ChannelModeIs(x) => x.parameters(),
            Reply::ChannelUrl(x) => x.parameters(),
            Reply::CreationTime(x) => x.parameters(),
            Reply::WhoIsAccount(x) => x.parameters(),
            Reply::NoTopic(x) => x.parameters(),
            Reply::Topic(x) => x.parameters(),
            Reply::TopicWhoTime(x) => x.parameters(),
            Reply::InviteList(x) => x.parameters(),
            Reply::EndOfInviteList(x) => x.parameters(),
            Reply::WhoIsActually(x) => x.parameters(),
            Reply::Inviting(x) => x.parameters(),
            Reply::InvExList(x) => x.parameters(),
            Reply::EndOfInvExList(x) => x.parameters(),
            Reply::ExceptList(x) => x.parameters(),
            Reply::EndOfExceptList(x) => x.parameters(),
            Reply::Version(x) => x.parameters(),
            Reply::WhoReply(x) => x.parameters(),
            Reply::NamReply(x) => x.parameters(),
            Reply::Links(x) => x.parameters(),
            Reply::EndOfLinks(x) => x.parameters(),
            Reply::EndOfNames(x) => x.parameters(),
            Reply::BanList(x) => x.parameters(),
            Reply::EndOfBanList(x) => x.parameters(),
            Reply::EndOfWhoWas(x) => x.parameters(),
            Reply::Info(x) => x.parameters(),
            Reply::Motd(x) => x.parameters(),
            Reply::EndOfInfo(x) => x.parameters(),
            Reply::MotdStart(x) => x.parameters(),
            Reply::EndOfMotd(x) => x.parameters(),
            Reply::WhoIsHost(x) => x.parameters(),
            Reply::WhoIsModes(x) => x.parameters(),
            Reply::YoureOper(x) => x.parameters(),
            Reply::Rehashing(x) => x.parameters(),
            Reply::Time(x) => x.parameters(),
            Reply::UnknownError(x) => x.parameters(),
            Reply::NoSuchNick(x) => x.parameters(),
            Reply::NoSuchServer(x) => x.parameters(),
            Reply::NoSuchChannel(x) => x.parameters(),
            Reply::CannotSendToChan(x) => x.parameters(),
            Reply::TooManyChannels(x) => x.parameters(),
            Reply::WasNoSuchNick(x) => x.parameters(),
            Reply::NoOrigin(x) => x.parameters(),
            Reply::InvalidCapCmd(x) => x.parameters(),
            Reply::NoRecipient(x) => x.parameters(),
            Reply::NoTextToSend(x) => x.parameters(),
            Reply::InputTooLong(x) => x.parameters(),
            Reply::UnknownCommand(x) => x.parameters(),
            Reply::NoMotd(x) => x.parameters(),
            Reply::NoNicknameGiven(x) => x.parameters(),
            Reply::ErroneousNickname(x) => x.parameters(),
            Reply::NicknameInUse(x) => x.parameters(),
            Reply::NickCollision(x) => x.parameters(),
            Reply::UserNotInChannel(x) => x.parameters(),
            Reply::NotOnChannel(x) => x.parameters(),
            Reply::UserOnChannel(x) => x.parameters(),
            Reply::NotRegistered(x) => x.parameters(),
            Reply::NeedMoreParams(x) => x.parameters(),
            Reply::AlreadyRegistered(x) => x.parameters(),
            Reply::PasswdMismatch(x) => x.parameters(),
            Reply::YoureBannedCreep(x) => x.parameters(),
            Reply::ChannelIsFull(x) => x.parameters(),
            Reply::UnknownMode(x) => x.parameters(),
            Reply::InviteOnlyChan(x) => x.parameters(),
            Reply::BannedFromChan(x) => x.parameters(),
            Reply::BadChannelKey(x) => x.parameters(),
            Reply::BadChanMask(x) => x.parameters(),
            Reply::NoPrivileges(x) => x.parameters(),
            Reply::ChanOPrivsNeeded(x) => x.parameters(),
            Reply::CantKillServer(x) => x.parameters(),
            Reply::NoOperHost(x) => x.parameters(),
            Reply::UmodeUnknownFlag(x) => x.parameters(),
            Reply::UsersDontMatch(x) => x.parameters(),
            Reply::HelpNotFound(x) => x.parameters(),
            Reply::InvalidKey(x) => x.parameters(),
            Reply::StartTLS(x) => x.parameters(),
            Reply::WhoIsSecure(x) => x.parameters(),
            Reply::StartTLSError(x) => x.parameters(),
            Reply::InvalidModeParam(x) => x.parameters(),
            Reply::HelpStart(x) => x.parameters(),
            Reply::HelpTxt(x) => x.parameters(),
            Reply::EndOfHelp(x) => x.parameters(),
            Reply::NoPrivs(x) => x.parameters(),
            Reply::LoggedIn(x) => x.parameters(),
            Reply::LoggedOut(x) => x.parameters(),
            Reply::NickLocked(x) => x.parameters(),
            Reply::SaslSuccess(x) => x.parameters(),
            Reply::SaslFail(x) => x.parameters(),
            Reply::SaslTooLong(x) => x.parameters(),
            Reply::SaslAborted(x) => x.parameters(),
            Reply::SaslAlready(x) => x.parameters(),
            Reply::SaslMechs(x) => x.parameters(),
            Reply::Unknown(x) => x.parameters(),
        }
    }

    fn is_error(&self) -> (r: bool) {
        match self {
            Reply::Welcome(x) => x.is_error(),
            Reply::YourHost(x) => x.is_error(),
            Reply::Created(x) => x.is_error(),
            Reply::MyInfo(x) => x.is_error(),
            Reply::ISupport(x) => x.is_error(),
            Reply::RemoteISupport(x) => x.is_error(),
            Reply::Bounce(x) => x.is_error(),
            Reply::StatsCommands(x) => x.is_error(),
            Reply::EndOfStats(x) => x.is_error(),
            Reply::UModeIs(x) => x.is_error(),
            Reply::StatsUptime(x) => x.is_error(),
            Reply::StatsConn(x) => x.is_error(),
            Reply::LuserClient(x) => x.is_error(),
            Reply::LuserOp(x) => x.is_error(),
            Reply::LuserUnknown(x) => x.is_error(),
            Reply::LuserChannels(x) => x.is_error(),
            Reply::LuserMe(x) => x.is_error(),
            Reply::AdminMe(x) => x.is_error(),
            Reply::AdminLoc1(x) => x.is_error(),
            Reply::AdminLoc2(x) => x.is_error(),
            Reply::AdminEmail(x) => x.is_error(),
            Reply::TryAgain(x) => x.is_error(),
            Reply::LocalUsers(x) => x.is_error(),
            Reply::GlobalUsers(x) => x.is_error(),
            Reply::WhoIsCertFP(x) => x.is_error(),
            Reply::NoneReply(x) => x.is_error(),
            Reply::Away(x) => x.is_error(),
            Reply::UserHostRpl(x) => x.is_error(),
            Reply::UnAway(x) => x.is_error(),
            Reply::NowAway(x) => x.is_error(),
            Reply::WhoIsRegNick(x) => x.is_error(),
            Reply::WhoIsUser(x) => x.is_error(),
            Reply::WhoIsServer(x) => x.is_error(),
            Reply::WhoIsOperator(x) => x.is_error(),
            Reply::WhoWasUser(x) => x.is_error(),
            Reply::EndOfWho(x) => x.is_error(),
            Reply::WhoIsIdle(x) => x.is_error(),
            Reply::EndOfWhoIs(x) => x.is_error(),
            Reply::WhoIsChannels(x) => x.is_error(),
            Reply::WhoIsSpecial(x) => x.is_error(),
            Reply::ListStart(x) => x.is_error(),
            Reply::List(x) => x.is_error(),
            Reply::ListEnd(x) => x.is_error(),
            Reply::ChannelModeIs(x) => x.is_error(),
            Reply::ChannelUrl(x) => x.is_error(),
            Reply::CreationTime(x) => x.is_error(),
            Reply::WhoIsAccount(x) => x.is_error(),
            Reply::NoTopic(x) => x.is_error(),
            Reply::Topic(x) => x.is_error(),
            Reply::TopicWhoTime(x) => x.is_error(),
            Reply::InviteList(x) => x.is_error(),
            Reply::EndOfInviteList(x) => x.is_error(),
            Reply::WhoIsActually(x) => x.is_error(),
            Reply::Inviting(x) => x.is_error(),
            Reply::InvExList(x) => x.is_error(),
            Reply::EndOfInvExList(x) => x.is_error(),
            Reply::ExceptList(x) => x.is_error(),
            Reply::EndOfExceptList(x) => x.is_error(),
            Reply::Version(x) => x.is_error(),
            Reply::WhoReply(x) => x.is_error(),
            Reply::NamReply(x) => x.is_error(),
            Reply::Links(x) => x.is_error(),
            Reply::EndOfLinks(x) => x.is_error(),
            Reply::EndOfNames(x) => x.is_error(),
            Reply::BanList(x) => x.is_error(),
            Reply::EndOfBanList(x) => x.is_error(),
            Reply::EndOfWhoWas(x) => x.is_error(),
            Reply::Info(x) => x.is_error(),
            Reply::Motd(x) => x.is_error(),
            Reply::EndOfInfo(x) => x.is_error(),
            Reply::MotdStart(x) => x.is_error(),
            Reply::EndOfMotd(x) => x.is_error(),
            Reply::WhoIsHost(x) => x.is_error(),
            Reply::WhoIsModes(x) => x.is_error(),
            Reply::YoureOper(x) => x.is_error(),
            Reply::Rehashing(x) => x.is_error(),
            Reply::Time(x) => x.is_error(),
            Reply::UnknownError(x) => x.is_error(),
            Reply::NoSuchNick(x) => x.is_error(),
            Reply::NoSuchServer(x) => x.is_error(),
            Reply::NoSuchChannel(x) => x.is_error(),
            Reply::CannotSendToChan(x) => x.is_error(),
            Reply::TooManyChannels(x) => x.is_error(),
            Reply::WasNoSuchNick(x) => x.is_error(),
            Reply::NoOrigin(x) => x.is_error(),
            Reply::InvalidCapCmd(x) => x.is_error(),
            Reply::NoRecipient(x) => x.is_error(),
            Reply::NoTextToSend(x) => x.is_error(),
            Reply::InputTooLong(x) => x.is_error(),
            Reply::UnknownCommand(x) => x.is_error(),
            Reply::NoMotd(x) => x.is_error(),
            Reply::NoNicknameGiven(x) => x.is_error(),
            Reply::ErroneousNickname(x) => x.is_error(),
            Reply::NicknameInUse(x) => x.is_error(),
            Reply::NickCollision(x) => x.is_error(),
            Reply::UserNotInChannel(x) => x.is_error(),
            Reply::NotOnChannel(x) => x.is_error(),
            Reply::UserOnChannel(x) => x.is_error(),
            Reply::NotRegistered(x) => x.is_error(),
            Reply::NeedMoreParams(x) => x.is_error(),
            Reply::AlreadyRegistered(x) => x.is_error(),
            Reply::PasswdMismatch(x) => x.is_error(),
            Reply::YoureBannedCreep(x) => x.is_error(),
            Reply::ChannelIsFull(x) => x.is_error(),
            Reply::UnknownMode(x) => x.is_error(),
            Reply::InviteOnlyChan(x) => x.is_error(),
            Reply::BannedFromChan(x) => x.is_error(),
            Reply::BadChannelKey(x) => x.is_error(),
            Reply::BadChanMask(x) => x.is_error(),
            Reply::NoPrivileges(x) => x.is_error(),
            Reply::ChanOPrivsNeeded(x) => x.is_error(),
            Reply::CantKillServer(x) => x.is_error(),
            Reply::NoOperHost(x) => x.is_error(),
            Reply::UmodeUnknownFlag(x) => x.is_error(),
            Reply::UsersDontMatch(x) => x.is_error(),
            Reply::HelpNotFound(x) => x.is_error(),
            Reply::InvalidKey(x) => x.is_error(),
            Reply::StartTLS(x) => x.is_error(),
            Reply::WhoIsSecure(x) => x.is_error(),
            Reply::StartTLSError(x) => x.is_error(),
            Reply::InvalidModeParam(x) => x.is_error(),
            Reply::HelpStart(x) => x.is_error(),
            Reply::HelpTxt(x) => x.is_error(),
            Reply::EndOfHelp(x) => x.is_error(),
            Reply::NoPrivs(x) => x.is_error(),
            Reply::LoggedIn(x) => x.is_error(),
            Reply::LoggedOut(x) => x.is_error(),
            Reply::NickLocked(x) => x.is_error(),
            Reply::SaslSuccess(x) => x.is_error(),
            Reply::SaslFail(x) => x.is_error(),
            Reply::SaslTooLong(x) => x.is_error(),
            Reply::SaslAborted(x) => x.is_error(),
            Reply::SaslAlready(x) => x.is_error(),
            Reply::SaslMechs(x) => x.is_error(),
            Reply::Unknown(x) => x.is_error(),
        }
    }

    fn into_parts(self) -> (r: (u16, ParameterList)) {
        match self {
            Reply::Welcome(x) => x.into_parts(),
            Reply::YourHost(x) => x.into_parts(),
            Reply::Created(x) => x.into_parts(),
            Reply::MyInfo(x) => x.into_parts(),
            Reply::ISupport(x) => x.into_parts(),
            Reply::RemoteISupport(x) => x.into_parts(),
            Reply::Bounce(x) => x.into_parts(),
            Reply::StatsCommands(x) => x.into_parts(),
            Reply::EndOfStats(x) => x.into_parts(),
            Reply::UModeIs(x) => x.into_parts(),
            Reply::StatsUptime(x) => x.into_parts(),
            Reply::StatsConn(x) => x.into_parts(),
            Reply::LuserClient(x) => x.into_parts(),
            Reply::LuserOp(x) => x.into_parts(),
            Reply::LuserUnknown(x) => x.into_parts(),
            Reply::LuserChannels(x) => x.into_parts(),
            Reply::LuserMe(x) => x.into_parts(),
            Reply::AdminMe(x) => x.into_parts(),
            Reply::AdminLoc1(x) => x.into_parts(),
            Reply::AdminLoc2(x) => x.into_parts(),
            Reply::AdminEmail(x) => x.into_parts(),
            Reply::TryAgain(x) => x.into_parts(),
            Reply::LocalUsers(x) => x.into_parts(),
            Reply::GlobalUsers(x) => x.into_parts(),
            Reply::WhoIsCertFP(x) => x.into_parts(),
            Reply::NoneReply(x) => x.into_parts(),
            Reply::Away(x) => x.into_parts(),
            Reply::UserHostRpl(x) => x.into_parts(),
            Reply::UnAway(x) => x.into_parts(),
            Reply::NowAway(x) => x.into_parts(),
            Reply::WhoIsRegNick(x) => x.into_parts(),
            Reply::WhoIsUser(x) => x.into_parts(),
            Reply::WhoIsServer(x) => x.into_parts(),
            Reply::WhoIsOperator(x) => x.into_parts(),
            Reply::WhoWasUser(x) => x.into_parts(),
            Reply::EndOfWho(x) => x.into_parts(),
            Reply::WhoIsIdle(x) => x.into_parts(),
            Reply::EndOfWhoIs(x) => x.into_parts(),
            Reply::WhoIsChannels(x) => x.into_parts(),
            Reply::WhoIsSpecial(x) => x.into_parts(),
            Reply::ListStart(x) => x.into_parts(),
            Reply::List(x) => x.into_parts(),
            Reply::ListEnd(x) => x.into_parts(),
            Reply::ChannelModeIs(x) => x.into_parts(),
            Reply::ChannelUrl(x) => x.into_parts(),
            Reply::CreationTime(x) => x.into_parts(),
            Reply::WhoIsAccount(x) => x.into_parts(),
            Reply::NoTopic(x) => x.into_parts(),
            Reply::Topic(x) => x.into_parts(),
            Reply::TopicWhoTime(x) => x.into_parts(),
            Reply::InviteList(x) => x.into_parts(),
            Reply::EndOfInviteList(x) => x.into_parts(),
            Reply::WhoIsActually(x) => x.into_parts(),
            Reply::Inviting(x) => x.into_parts(),
            Reply::InvExList(x) => x.into_parts(),
            Reply::EndOfInvExList(x) => x.into_parts(),
            Reply::ExceptList(x) => x.into_parts(),
            Reply::EndOfExceptList(x) => x.into_parts(),
            Reply::Version(x) => x.into_parts(),
            Reply::WhoReply(x) => x.into_parts(),
            Reply::NamReply(x) => x.into_parts(),
            Reply::Links(x) => x.into_parts(),
            Reply::EndOfLinks(x) => x.into_parts(),
            Reply::EndOfNames(x) => x.into_parts(),
            Reply::BanList(x) => x.into_parts(),
            Reply::EndOfBanList(x) => x.into_parts(),
            Reply::EndOfWhoWas(x) => x.into_parts(),
            Reply::Info(x) => x.into_parts(),
            Reply::Motd(x) => x.into_parts(),
            Reply::EndOfInfo(x) => x.into_parts(),
            Reply::MotdStart(x) => x.into_parts(),
            Reply::EndOfMotd(x) => x.into_parts(),
            Reply::WhoIsHost(x) => x.into_parts(),
            Reply::WhoIsModes(x) => x.into_parts(),
            Reply::YoureOper(x) => x.into_parts(),
            Reply::Rehashing(x) => x.into_parts(),
            Reply::Time(x) => x.into_parts(),
            Reply::UnknownError(x) => x.into_parts(),
            Reply::NoSuchNick(x) => x.into_parts(),
            Reply::NoSuchServer(x) => x.into_parts(),
            Reply::NoSuchChannel(x) => x.into_parts(),
            Reply::CannotSendToChan(x) => x.into_parts(),
            Reply::TooManyChannels(x) => x.into_parts(),
            Reply::WasNoSuchNick(x) => x.into_parts(),
            Reply::NoOrigin(x) => x.into_parts(),
            Reply::InvalidCapCmd(x) => x.into_parts(),
            Reply::NoRecipient(x) => x.into_parts(),
            Reply::NoTextToSend(x) => x.into_parts(),
            Reply::InputTooLong(x) => x.into_parts(),
            Reply::UnknownCommand(x) => x.into_parts(),
            Reply::NoMotd(x) => x.into_parts(),
            Reply::NoNicknameGiven(x) => x.into_parts(),
            Reply::ErroneousNickname(x) => x.into_parts(),
            Reply::NicknameInUse(x) => x.into_parts(),
            Reply::NickCollision(x) => x.into_parts(),
            Reply::UserNotInChannel(x) => x.into_parts(),
            Reply::NotOnChannel(x) => x.into_parts(),
            Reply::UserOnChannel(x) => x.into_parts(),
            Reply::NotRegistered(x) => x.into_parts(),
            Reply::NeedMoreParams(x) => x.into_parts(),
            Reply::AlreadyRegistered(x) => x.into_parts(),
            Reply::PasswdMismatch(x) => x.into_parts(),
            Reply::YoureBannedCreep(x) => x.into_parts(),
            Reply::ChannelIsFull(x) => x.into_parts(),
            Reply::UnknownMode(x) => x.into_parts(),
            Reply::InviteOnlyChan(x) => x.into_parts(),
            Reply::BannedFromChan(x) => x.into_parts(),
            Reply::BadChannelKey(x) => x.into_parts(),
            Reply::BadChanMask(x) => x.into_parts(),
            Reply::NoPrivileges(x) => x.into_parts(),
            Reply::ChanOPrivsNeeded(x) => x.into_parts(),
            Reply::CantKillServer(x) => x.into_parts(),
            Reply::NoOperHost(x) => x.into_parts(),
            Reply::UmodeUnknownFlag(x) => x.into_parts(),
            Reply::UsersDontMatch(x) => x.into_parts(),
            Reply::HelpNotFound(x) => x.into_parts(),
            Reply::InvalidKey(x) => x.into_parts(),
            Reply::StartTLS(x) => x.into_parts(),
            Reply::WhoIsSecure(x) => x.into_parts(),
            Reply::StartTLSError(x) => x.into_parts(),
            Reply::InvalidModeParam(x) => x.into_parts(),
            Reply::HelpStart(x) => x.into_parts(),
            Reply::HelpTxt(x) => x.into_parts(),
            Reply::EndOfHelp(x) => x.into_parts(),
            Reply::NoPrivs(x) => x.into_parts(),
            Reply::LoggedIn(x) => x.into_parts(),
            Reply::LoggedOut(x) => x.into_parts(),
            Reply::NickLocked(x) => x.into_parts(),
            Reply::SaslSuccess(x) => x.into_parts(),
            Reply::SaslFail(x) => x.into_parts(),
            Reply::SaslTooLong(x) => x.into_parts(),
            Reply::SaslAborted(x) => x.into_parts(),
            Reply::SaslAlready(x) => x.into_parts(),
            Reply::SaslMechs(x) => x.into_parts(),
            Reply::Unknown(x) => x.into_parts(),
        }
    }
}

impl Clone for Reply {
    fn clone(&self) -> (r: Self)
        ensures
            r@ == self@,
    {
        match self {
            Reply::Welcome(x) => Reply::Welcome(x.clone()),
            Reply::YourHost(x) => Reply::YourHost(x.clone()),
            Reply::Created(x) => Reply::Created(x.clone()),
            Reply::MyInfo(x) => Reply::MyInfo(x.clone()),
            Reply::ISupport(x) => Reply::ISupport(x.clone()),
            Reply::RemoteISupport(x) => Reply::RemoteISupport(x.clone()),
            Reply::Bounce(x) => Reply::Bounce(x.clone()),
            Reply::StatsCommands(x) => Reply::StatsCommands(x.clone()),
            Reply::EndOfStats(x) => Reply::EndOfStats(x.clone()),
            Reply::UModeIs(x) => Reply::UModeIs(x.clone()),
            Reply::StatsUptime(x) => Reply::StatsUptime(x.clone()),
            Reply::StatsConn(x) => Reply::StatsConn(x.clone()),
            Reply::LuserClient(x) => Reply::LuserClient(x.clone()),
            Reply::LuserOp(x) => Reply::LuserOp(x.clone()),
            Reply::LuserUnknown(x) => Reply::LuserUnknown(x.clone()),
            Reply::LuserChannels(x) => Reply::LuserChannels(x.clone()),
            Reply::LuserMe(x) => Reply::LuserMe(x.clone()),
            Reply::AdminMe(x) => Reply::AdminMe(x.clone()),
            Reply::AdminLoc1(x) => Reply::AdminLoc1(x.clone()),
            Reply::AdminLoc2(x) => Reply::AdminLoc2(x.clone()),
            Reply::AdminEmail(x) => Reply::AdminEmail(x.clone()),
            Reply::TryAgain(x) => Reply::TryAgain(x.clone()),
            Reply::LocalUsers(x) => Reply::LocalUsers(x.clone()),
            Reply::GlobalUsers(x) => Reply::GlobalUsers(x.clone()),
            Reply::WhoIsCertFP(x) => Reply::WhoIsCertFP(x.clone()),
            Reply::NoneReply(x) => Reply::NoneReply(x.clone()),
            Reply::Away(x) => Reply::Away(x.clone()),
            Reply::UserHostRpl(x) => Reply::UserHostRpl(x.clone()),
            Reply::UnAway(x) => Reply::UnAway(x.clone()),
            Reply::NowAway(x) => Reply::NowAway(x.clone()),
            Reply::WhoIsRegNick(x) => Reply::WhoIsRegNick(x.clone()),
            Reply::WhoIsUser(x) => Reply::WhoIsUser(x.clone()),
            Reply::WhoIsServer(x) => Reply::WhoIsServer(x.clone()),
            Reply::WhoIsOperator(x) => Reply::WhoIsOperator(x.clone()),
            Reply::WhoWasUser(x) => Reply::WhoWasUser(x.clone()),
            Reply::EndOfWho(x) => Reply::EndOfWho(x.clone()),
            Reply::WhoIsIdle(x) => Reply::WhoIsIdle(x.clone()),
            Reply::EndOfWhoIs(x) => Reply::EndOfWhoIs(x.clone()),
            Reply::WhoIsChannels(x) => Reply::WhoIsChannels(x.clone()),
            Reply::WhoIsSpecial(x) => Reply::WhoIsSpecial(x.clone()),
            Reply::ListStart(x) => Reply::ListStart(x.clone()),
            Reply::List(x) => Reply::List(x.clone()),
            Reply::ListEnd(x) => Reply::ListEnd(x.clone()),
            Reply::ChannelModeIs(x) => Reply::ChannelModeIs(x.clone()),
            Reply::ChannelUrl(x) => Reply::ChannelUrl(x.clone()),
            Reply::CreationTime(x) => Reply::CreationTime(x.clone()),
            Reply::WhoIsAccount(x) => Reply::WhoIsAccount(x.clone()),
            Reply::NoTopic(x) => Reply::NoTopic(x.clone()),
            Reply::Topic(x) => Reply::Topic(x.clone()),
            Reply::TopicWhoTime(x) => Reply::TopicWhoTime(x.clone()),
            Reply::InviteList(x) => Reply::InviteList(x.clone()),
            Reply::EndOfInviteList(x) => Reply::EndOfInviteList(x.clone()),
            Reply::WhoIsActually(x) => Reply::WhoIsActually(x.clone()),
            Reply::Inviting(x) => Reply::Inviting(x.clone()),
            Reply::InvExList(x) => Reply::InvExList(x.clone()),
            Reply::EndOfInvExList(x) => Reply::EndOfInvExList(x.clone()),
            Reply::ExceptList(x) => Reply::ExceptList(x.clone()),
            Reply::EndOfExceptList(x) => Reply::EndOfExceptList(x.clone()),
            Reply::Version(x) => Reply::Version(x.clone()),
            Reply::WhoReply(x) => Reply::WhoReply(x.clone()),
            Reply::NamReply(x) => Reply::NamReply(x.clone()),
            Reply::Links(x) => Reply::Links(x.clone()),
            Reply::EndOfLinks(x) => Reply::EndOfLinks(x.clone()),
            Reply::EndOfNames(x) => Reply::EndOfNames(x.clone()),
            Reply::BanList(x) => Reply::BanList(x.clone()),
            Reply::EndOfBanList(x) => Reply::EndOfBanList(x.clone()),
            Reply::EndOfWhoWas(x) => Reply::EndOfWhoWas(x.clone()),
            Reply::Info(x) => Reply::Info(x.clone()),
            Reply::Motd(x) => Reply::Motd(x.clone()),
            Reply::EndOfInfo(x) => Reply::EndOfInfo(x.clone()),
            Reply::MotdStart(x) => Reply::MotdStart(x.clone()),
            Reply::EndOfMotd(x) => Reply::EndOfMotd(x.clone()),
            Reply::WhoIsHost(x) => Reply::WhoIsHost(x.clone()),
            Reply::WhoIsModes(x) => Reply::WhoIsModes(x.clone()),
            Reply::YoureOper(x) => Reply::YoureOper(x.clone()),
            Reply::Rehashing(x) => Reply::Rehashing(x.clone()),
            Reply::Time(x) => Reply::Time(x.clone()),
            Reply::UnknownError(x) => Reply::UnknownError(x.clone()),
            Reply::NoSuchNick(x) => Reply::NoSuchNick(x.clone()),
            Reply::NoSuchServer(x) => Reply::NoSuchServer(x.clone()),
            Reply::NoSuchChannel(x) => Reply::NoSuchChannel(x.clone()),
            Reply::CannotSendToChan(x) => Reply::CannotSendToChan(x.clone()),
            Reply::TooManyChannels(x) => Reply::TooManyChannels(x.clone()),
            Reply::WasNoSuchNick(x) => Reply::WasNoSuchNick(x.clone()),
            Reply::NoOrigin(x) => Reply::NoOrigin(x.clone()),
            Reply::InvalidCapCmd(x) => Reply::InvalidCapCmd(x.clone()),
            Reply::NoRecipient(x) => Reply::NoRecipient(x.clone()),
            Reply::NoTextToSend(x) => Reply::NoTextToSend(x.clone()),
            Reply::InputTooLong(x) => Reply::InputTooLong(x.clone()),
            Reply::UnknownCommand(x) => Reply::UnknownCommand(x.clone()),
            Reply::NoMotd(x) => Reply::NoMotd(x.clone()),
            Reply::NoNicknameGiven(x) => Reply::NoNicknameGiven(x.clone()),
            Reply::ErroneousNickname(x) => Reply::ErroneousNickname(x.clone()),
            Reply::NicknameInUse(x) => Reply::NicknameInUse(x.clone()),
            Reply::NickCollision(x) => Reply::NickCollision(x.clone()),
            Reply::UserNotInChannel(x) => Reply::UserNotInChannel(x.clone()),
            Reply::NotOnChannel(x) => Reply::NotOnChannel(x.clone()),
            Reply::UserOnChannel(x) => Reply::UserOnChannel(x.clone()),
            Reply::NotRegistered(x) => Reply::NotRegistered(x.clone()),
            Reply::NeedMoreParams(x) => Reply::NeedMoreParams(x.clone()),
            Reply::AlreadyRegistered(x) => Reply::AlreadyRegistered(x.clone()),
            Reply::PasswdMismatch(x) => Reply::PasswdMismatch(x.clone()),
            Reply::YoureBannedCreep(x) => Reply::YoureBannedCreep(x.clone()),
            Reply::ChannelIsFull(x) => Reply::ChannelIsFull(x.clone()),
            Reply::UnknownMode(x) => Reply::UnknownMode(x.clone()),
            Reply::InviteOnlyChan(x) => Reply::InviteOnlyChan(x.clone()),
            Reply::BannedFromChan(x) => Reply::BannedFromChan(x.clone()),
            Reply::BadChannelKey(x) => Reply::BadChannelKey(x.clone()),
            Reply::BadChanMask(x) => Reply::BadChanMask(x.clone()),
            Reply::NoPrivileges(x) => Reply::NoPrivileges(x.clone()),
            Reply::ChanOPrivsNeeded(x) => Reply::ChanOPrivsNeeded(x.clone()),
            Reply::CantKillServer(x) => Reply::CantKillServer(x.clone()),
            Reply::NoOperHost(x) => Reply::NoOperHost(x.clone()),
            Reply::UmodeUnknownFlag(x) => Reply::UmodeUnknownFlag(x.clone()),
            Reply::UsersDontMatch(x) => Reply::UsersDontMatch(x.clone()),
            Reply::HelpNotFound(x) => Reply::HelpNotFound(x.clone()),
            Reply::InvalidKey(x) => Reply::InvalidKey(x.clone()),
            Reply::StartTLS(x) => Reply::StartTLS(x.clone()),
            Reply::WhoIsSecure(x) => Reply::WhoIsSecure(x.clone()),
            Reply::StartTLSError(x) => Reply::StartTLSError(x.clone()),
            Reply::InvalidModeParam(x) => Reply::InvalidModeParam(x.clone()),
            Reply::HelpStart(x) => Reply::HelpStart(x.clone()),
            Reply::HelpTxt(x) => Reply::HelpTxt(x.clone()),
            Reply::EndOfHelp(x) => Reply::EndOfHelp(x.clone()),
            Reply::NoPrivs(x) => Reply::NoPrivs(x.clone()),
            Reply::LoggedIn(x) => Reply::LoggedIn(x.clone()),
            Reply::LoggedOut(x) => Reply::LoggedOut(x.clone()),
            Reply::NickLocked(x) => Reply::NickLocked(x.clone()),
            Reply::SaslSuccess(x) => Reply::SaslSuccess(x.clone()),
            Reply::SaslFail(x) => Reply::SaslFail(x.clone()),
            Reply::SaslTooLong(x) => Reply::SaslTooLong(x.clone()),
            Reply::SaslAborted(x) => Reply::SaslAborted(x.clone()),
            Reply::SaslAlready(x) => Reply::SaslAlready(x.clone()),
            Reply::SaslMechs(x) => Reply::SaslMechs(x.clone()),
            Reply::Unknown(x) => Reply::Unknown(x.clone()),
        }
    }
}
impl Reply {
    /// Reads `params` as the reply that `code` names, or as a reply of an
    /// unknown code
    pub fn from_parts(code: u16, params: ParameterList) -> (r: Result<Reply, ReplyError>)
        ensures
            match r {
                Ok(x) => check_reply(code, params@) is Ok && x@ == (code, params@) && (x is Unknown
                    <==> !is_known_code(code)),
                Err(e) => check_reply(code, params@) == Err::<(), ReplyErrorView>(e@),
            },
    {
        if code < 300 {
            Reply::from_connection_parts(code, params)
        } else if code < 400 {
            Reply::from_query_parts(code, params)
        } else if code < 600 {
            Reply::from_error_parts(code, params)
        } else {
            Reply::from_extended_parts(code, params)
        }
    }

    fn from_connection_parts(code: u16, params: ParameterList) -> (r: Result<Reply, ReplyError>)
        requires
            code < 300,
        ensures
            match r {
                Ok(x) => check_connection_reply(code, params@) is Ok && x@ == (code, params@) && (x is Unknown
                    <==> !is_known_code(code)),
                Err(e) => check_connection_reply(code, params@) == Err::<(), ReplyErrorView>(e@),
            },
    {
        if code == RPL_WELCOME {
            return match Welcome::try_from_params(params) {
                Ok(x) => Ok(Reply::Welcome(x)),
                Err(e) => Err(e),
            };
        }
        if code == RPL_YOURHOST {
            return match YourHost::try_from_params(params) {
                Ok(x) => Ok(Reply::YourHost(x)),
                Err(e) => Err(e),
            };
        }
        if code == RPL_CREATED {
            return match Created::try_from_params(params) {
                Ok(x) => Ok(Reply::Created(x)),
                Err(e) => Err(e),
            };
        }
        if code == RPL_MYINFO {
            return match MyInfo::try_from_params(params) {
                Ok(x) => Ok(Reply::MyInfo(x)),
                Err(e) => Err(e),
            };
        }
        if code == RPL_ISUPPORT {
            return match ISupport::try_from_params(params) {
                Ok(x) => Ok(Reply::ISupport(x)),
                Err(e) => Err(e),
            };
        }
        if code == RPL_REMOTEISUPPORT {
            return match RemoteISupport::try_from_params(params) {
                Ok(x) => Ok(Reply::RemoteISupport(x)),
                Err(e) => Err(e),
            };
        }
        if code == RPL_BOUNCE {
            return match Bounce::try_from_params(params) {
                Ok(x) => Ok(Reply::Bounce(x)),
                Err(e) => Err(e),
            };
        }
        if code == RPL_STATSCOMMANDS {
            return match StatsCommands::try_from_params(params) {
                Ok(x) => Ok(Reply::StatsCommands(x)),
                Err(e) => Err(e),
            };
        }
        if code == RPL_ENDOFSTATS {
            return match EndOfStats::try_from_params(params) {
                Ok(x) => Ok(Reply::EndOfStats(x)),
                Err(e) => Err(e),
            };
        }
        if code == RPL_UMODEIS {
            return match UModeIs::try_from_params(params) {
                Ok(x) => Ok(Reply::UModeIs(x)),
                Err(e) => Err(e),
            };
        }
        if code == RPL_STATSUPTIME {
            return match StatsUptime::try_from_params(params) {
                Ok(x) => Ok(Reply::StatsUptime(x)),
                Err(e) => Err(e),
            };
        }
        if code == RPL_STATSCONN {
            return match StatsConn::try_from_params(params) {
                Ok(x) => Ok(Reply::StatsConn(x)),
                Err(e) => Err(e),
            };
        }
        if code == RPL_LUSERCLIENT {
            return match LuserClient::try_from_params(params) {
                Ok(x) => Ok(Reply::LuserClient(x)),
                Err(e) => Err(e),
            };
        }
        if code == RPL_LUSEROP {
            return match LuserOp::try_from_params(params) {
                Ok(x) => Ok(Reply::LuserOp(x)),
                Err(e) => Err(e),
            };
        }
        if code == RPL_LUSERUNKNOWN {
            return match LuserUnknown::try_from_params(params) {
                Ok(x) => Ok(Reply::LuserUnknown(x)),
                Err(e) => Err(e),
            };
        }
        if code == RPL_LUSERCHANNELS {
            return match LuserChannels::try_from_params(params) {
                Ok(x) => Ok(Reply::LuserChannels(x)),
                Err(e) => Err(e),
            };
        }
        if code == RPL_LUSERME {
            return match LuserMe::try_from_params(params) {
                Ok(x) => Ok(Reply::LuserMe(x)),
                Err(e) => Err(e),
            };
        }
        if code == RPL_ADMINME {
            return match AdminMe::try_from_params(params) {
                Ok(x) => Ok(Reply::AdminMe(x)),
                Err(e) => Err(e),
            };
        }
        if code == RPL_ADMINLOC1 {
            return match AdminLoc1::try_from_params(params) {
                Ok(x) => Ok(Reply::AdminLoc1(x)),
                Err(e) => Err(e),
            };
        }
        if code == RPL_ADMINLOC2 {
            return match AdminLoc2::try_from_params(params) {
                Ok(x) => Ok(Reply::AdminLoc2(x)),
                Err(e) => Err(e),
            };
        }
        if code == RPL_ADMINEMAIL {
            return match AdminEmail::try_from_params(params) {
                Ok(x) => Ok(Reply::AdminEmail(x)),
                Err(e) => Err(e),
            };
        }
        if code == RPL_TRYAGAIN {
            return match TryAgain::try_from_params(params) {
                Ok(x) => Ok(Reply::TryAgain(x)),
                Err(e) => Err(e),
            };
        }
        if code == RPL_LOCALUSERS {
            return match LocalUsers::try_from_params(params) {
                Ok(x) => Ok(Reply::LocalUsers(x)),
                Err(e) => Err(e),
            };
        }
        if code == RPL_GLOBALUSERS {
            return match GlobalUsers::try_from_params(params) {
                Ok(x) => Ok(Reply::GlobalUsers(x)),
                Err(e) => Err(e),
            };
        }
        if code == RPL_WHOISCERTFP {
            return match WhoIsCertFP::try_from_params(params) {
                Ok(x) => Ok(Reply::WhoIsCertFP(x)),
                Err(e) => Err(e),
            };
        }
        Ok(Reply::Unknown(UnknownReply::new(code, params)))
    }

    fn from_query_parts(code: u16, params: ParameterList) -> (r: Result<Reply, ReplyError>)
        requires
            300 <= code < 400,
        ensures
            match r {
                Ok(x) => check_query_reply(code, params@) is Ok && x@ == (code, params@) && (x is Unknown
                    <==> !is_known_code(code)),
                Err(e) => check_query_reply(code, params@) == Err::<(), ReplyErrorView>(e@),
            },
    {
        if code == RPL_NONE {
            return match NoneReply::try_from_params(params) {
                Ok(x) => Ok(Reply::NoneReply(x)),
                Err(e) => Err(e),
            };
        }
        if code == RPL_AWAY {
            return match Away::try_from_params(params) {
                Ok(x) => Ok(Reply::Away(x)),
                Err(e) => Err(e),
            };
        }
        if code == RPL_USERHOST {
            return match UserHostRpl::try_from_params(params) {
                Ok(x) => Ok(Reply::UserHostRpl(x)),
                Err(e) => Err(e),
            };
        }
        if code == RPL_UNAWAY {
            return match UnAway::try_from_params(params) {
                Ok(x) => Ok(Reply::UnAway(x)),
                Err(e) => Err(e),
            };
        }
        if code == RPL_NOWAWAY {
            return match NowAway::try_from_params(params) {
                Ok(x) => Ok(Reply::NowAway(x)),
                Err(e) => Err(e),
            };
        }
        if code == RPL_WHOISREGNICK {
            return match WhoIsRegNick::try_from_params(params) {
                Ok(x) => Ok(Reply::WhoIsRegNick(x)),
                Err(e) => Err(e),
            };
        }
        if code == RPL_WHOISUSER {
            return match WhoIsUser::try_from_params(params) {
                Ok(x) => Ok(Reply::WhoIsUser(x)),
                Err(e) => Err(e),
            };
        }
        if code == RPL_WHOISSERVER {
            return match WhoIsServer::try_from_params(params) {
                Ok(x) => Ok(Reply::WhoIsServer(x)),
                Err(e) => Err(e),
            };
        }
        if code == RPL_WHOISOPERATOR {
            return match WhoIsOperator::try_from_params(params) {
                Ok(x) => Ok(Reply::WhoIsOperator(x)),
                Err(e) => Err(e),
            };
        }
        if code == RPL_WHOWASUSER {
            return match WhoWasUser::try_from_params(params) {
                Ok(x) => Ok(Reply::WhoWasUser(x)),
                Err(e) => Err(e),
            };
        }
        if code == RPL_ENDOFWHO {
            return match EndOfWho::try_from_params(params) {
                Ok(x) => Ok(Reply::EndOfWho(x)),
                Err(e) => Err(e),
            };
        }
        if code == RPL_WHOISIDLE {
            return match WhoIsIdle::try_from_params(params) {
                Ok(x) => Ok(Reply::WhoIsIdle(x)),
                Err(e) => Err(e),
            };
        }
        if code == RPL_ENDOFWHOIS {
            return match EndOfWhoIs::try_from_params(params) {
                Ok(x) => Ok(Reply::EndOfWhoIs(x)),
                Err(e) => Err(e),
            };
        }
        if code == RPL_WHOISCHANNELS {
            return match WhoIsChannels::try_from_params(params) {
                Ok(x) => Ok(Reply::WhoIsChannels(x)),
                Err(e) => Err(e),
            };
        }
        if code == RPL_WHOISSPECIAL {
            return match WhoIsSpecial::try_from_params(params) {
                Ok(x) => Ok(Reply::WhoIsSpecial(x)),
                Err(e) => Err(e),
            };
        }
        if code == RPL_LISTSTART {
            return match ListStart::try_from_params(params) {
                Ok(x) => Ok(Reply::ListStart(x)),
                Err(e) => Err(e),
            };
        }
        if code == RPL_LIST {
            return match List::try_from_params(params) {
                Ok(x) => Ok(Reply::List(x)),
                Err(e) => Err(e),
            };
        }
        if code == RPL_LISTEND {
            return match ListEnd::try_from_params(params) {
                Ok(x) => Ok(Reply::ListEnd(x)),
                Err(e) => Err(e),
            };
        }
        if code == RPL_CHANNELMODEIS {
            return match ChannelModeIs::try_from_params(params) {
                Ok(x) => Ok(Reply::ChannelModeIs(x)),
                Err(e) => Err(e),
            };
        }
        if code == RPL_CHANNEL_URL {
            return match ChannelUrl::try_from_params(params) {
                Ok(x) => Ok(Reply::ChannelUrl(x)),
                Err(e) => Err(e),
            };
        }
        if code == RPL_CREATIONTIME {
            return match CreationTime::try_from_params(params) {
                Ok(x) => Ok(Reply::CreationTime(x)),
                Err(e) => Err(e),
            };
        }
        if code == RPL_WHOISACCOUNT {
            return match WhoIsAccount::try_from_params(params) {
                Ok(x) => Ok(Reply::WhoIsAccount(x)),
                Err(e) => Err(e),
            };
        }
        if code == RPL_NOTOPIC {
            return match NoTopic::try_from_params(params) {
                Ok(x) => Ok(Reply::NoTopic(x)),
                Err(e) => Err(e),
            };
        }
        if code == RPL_TOPIC {
            return match Topic::try_from_params(params) {
                Ok(x) => Ok(Reply::Topic(x)),
                Err(e) => Err(e),
            };
        }
        if code == RPL_TOPICWHOTIME {
            return match TopicWhoTime::try_from_params(params) {
                Ok(x) => Ok(Reply::TopicWhoTime(x)),
                Err(e) => Err(e),
            };
        }
        if code == RPL_INVITELIST {
            return match InviteList::try_from_params(params) {
                Ok(x) => Ok(Reply::InviteList(x)),
                Err(e) => Err(e),
            };
        }
        if code == RPL_ENDOFINVITELIST {
            return match EndOfInviteList::try_from_params(params) {
                Ok(x) => Ok(Reply::EndOfInviteList(x)),
                Err(e) => Err(e),
            };
        }
        if code == RPL_WHOISACTUALLY {
            return match WhoIsActually::try_from_params(params) {
                Ok(x) => Ok(Reply::WhoIsActually(x)),
                Err(e) => Err(e),
            };
        }
        if code == RPL_INVITING {
            return match Inviting::try_from_params(params) {
                Ok(x) => Ok(Reply::Inviting(x)),
                Err(e) => Err(e),
            };
        }
        if code == RPL_INVEXLIST {
            return match InvExList::try_from_params(params) {
                Ok(x) => Ok(Reply::InvExList(x)),
                Err(e) => Err(e),
            };
        }
        if code == RPL_ENDOFINVEXLIST {
            return match EndOfInvExList::try_from_params(params) {
                Ok(x) => Ok(Reply::EndOfInvExList(x)),
                Err(e) => Err(e),
            };
        }
        if code == RPL_EXCEPTLIST {
            return match ExceptList::try_from_params(params) {
                Ok(x) => Ok(Reply::ExceptList(x)),
                Err(e) => Err(e),
            };
        }
        if code == RPL_ENDOFEXCEPTLIST {
            return match EndOfExceptList::try_from_params(params) {
                Ok(x) => Ok(Reply::EndOfExceptList(x)),
                Err(e) => Err(e),
            };
        }
        if code == RPL_VERSION {
            return match Version::try_from_params(params) {
                Ok(x) => Ok(Reply::Version(x)),
                Err(e) => Err(e),
            };
        }
        if code == RPL_WHOREPLY {
            return match WhoReply::try_from_params(params) {
                Ok(x) => Ok(Reply::WhoReply(x)),
                Err(e) => Err(e),
            };
        }
        if code == RPL_NAMREPLY {
            return match NamReply::try_from_params(params) {
                Ok(x) => Ok(Reply::NamReply(x)),
                Err(e) => Err(e),
            };
        }
        if code == RPL_LINKS {
            return match Links::try_from_params(params) {
                Ok(x) => Ok(Reply::Links(x)),
                Err(e) => Err(e),
            };
        }
        if code == RPL_ENDOFLINKS {
            return match EndOfLinks::try_from_params(params) {
                Ok(x) => Ok(Reply::EndOfLinks(x)),
                Err(e) => Err(e),
            };
        }
        if code == RPL_ENDOFNAMES {
            return match EndOfNames::try_from_params(params) {
                Ok(x) => Ok(Reply::EndOfNames(x)),
                Err(e) => Err(e),
            };
        }
        if code == RPL_BANLIST {
            return match BanList::try_from_params(params) {
                Ok(x) => Ok(Reply::BanList(x)),
                Err(e) => Err(e),
            };
        }
        if code == RPL_ENDOFBANLIST {
            return match EndOfBanList::try_from_params(params) {
                Ok(x) => Ok(Reply::EndOfBanList(x)),
                Err(e) => Err(e),
            };
        }
        if code == RPL_ENDOFWHOWAS {
            return match EndOfWhoWas::try_from_params(params) {
                Ok(x) => Ok(Reply::EndOfWhoWas(x)),
                Err(e) => Err(e),
            };
        }
        if code == RPL_INFO {
            return match Info::try_from_params(params) {
                Ok(x) => Ok(Reply::Info(x)),
                Err(e) => Err(e),
            };
        }
        if code == RPL_MOTD {
            return match Motd::try_from_params(params) {
                Ok(x) => Ok(Reply::Motd(x)),
                Err(e) => Err(e),
            };
        }
        if code == RPL_ENDOFINFO {
            return match EndOfInfo::try_from_params(params) {
                Ok(x) => Ok(Reply::EndOfInfo(x)),
                Err(e) => Err(e),
            };
        }
        if code == RPL_MOTDSTART {
            return match MotdStart::try_from_params(params) {
                Ok(x) => Ok(Reply::MotdStart(x)),
                Err(e) => Err(e),
            };
        }
        if code == RPL_ENDOFMOTD {
            return match EndOfMotd::try_from_params(params) {
                Ok(x) => Ok(Reply::EndOfMotd(x)),
                Err(e) => Err(e),
            };
        }
        if code == RPL_WHOISHOST {
            return match WhoIsHost::try_from_params(params) {
                Ok(x) => Ok(Reply::WhoIsHost(x)),
                Err(e) => Err(e),
            };
        }
        if code == RPL_WHOISMODES {
            return match WhoIsModes::try_from_params(params) {
                Ok(x) => Ok(Reply::WhoIsModes(x)),
                Err(e) => Err(e),
            };
        }
        if code == RPL_YOUREOPER {
            return match YoureOper::try_from_params(params) {
                Ok(x) => Ok(Reply::YoureOper(x)),
                Err(e) => Err(e),
            };
        }
        if code == RPL_REHASHING {
            return match Rehashing::try_from_params(params) {
                Ok(x) => Ok(Reply::Rehashing(x)),
                Err(e) => Err(e),
            };
        }
        if code == RPL_TIME {
            return match Time::try_from_params(params) {
                Ok(x) => Ok(Reply::Time(x)),
                Err(e) => Err(e),
            };
        }
        Ok(Reply::Unknown(UnknownReply::new(code, params)))
    }

    fn from_error_parts(code: u16, params: ParameterList) -> (r: Result<Reply, ReplyError>)
        requires
            400 <= code < 600,
        ensures
            match r {
                Ok(x) => check_error_reply(code, params@) is Ok && x@ == (code, params@) && (x is Unknown
                    <==> !is_known_code(code)),
                Err(e) => check_error_reply(code, params@) == Err::<(), ReplyErrorView>(e@),
            },
    {
        if code == ERR_UNKNOWNERROR {
            return match UnknownError::try_from_params(params) {
                Ok(x) => Ok(Reply::UnknownError(x)),
                Err(e) => Err(e),
            };
        }
        if code == ERR_NOSUCHNICK {
            return match NoSuchNick::try_from_params(params) {
                Ok(x) => Ok(Reply::NoSuchNick(x)),
                Err(e) => Err(e),
            };
        }
        if code == ERR_NOSUCHSERVER {
            return match NoSuchServer::try_from_params(params) {
                Ok(x) => Ok(Reply::NoSuchServer(x)),
                Err(e) => Err(e),
            };
        }
        if code == ERR_NOSUCHCHANNEL {
            return match NoSuchChannel::try_from_params(params) {
                Ok(x) => Ok(Reply::NoSuchChannel(x)),
                Err(e) => Err(e),
            };
        }
        if code == ERR_CANNOTSENDTOCHAN {
            return match CannotSendToChan::try_from_params(params) {
                Ok(x) => Ok(Reply::CannotSendToChan(x)),
                Err(e) => Err(e),
            };
        }
        if code == ERR_TOOMANYCHANNELS {
            return match TooManyChannels::try_from_params(params) {
                Ok(x) => Ok(Reply::TooManyChannels(x)),
                Err(e) => Err(e),
            };
        }
        if code == ERR_WASNOSUCHNICK {
            return match WasNoSuchNick::try_from_params(params) {
                Ok(x) => Ok(Reply::WasNoSuchNick(x)),
                Err(e) => Err(e),
            };
        }
        if code == ERR_NOORIGIN {
            return match NoOrigin::try_from_params(params) {
                Ok(x) => Ok(Reply::NoOrigin(x)),
                Err(e) => Err(e),
            };
        }
        if code == ERR_INVALIDCAPCMD {
            return match InvalidCapCmd::try_from_params(params) {
                Ok(x) => Ok(Reply::InvalidCapCmd(x)),
                Err(e) => Err(e),
            };
        }
        if code == ERR_NORECIPIENT {
            return match NoRecipient::try_from_params(params) {
                Ok(x) => Ok(Reply::NoRecipient(x)),
                Err(e) => Err(e),
            };
        }
        if code == ERR_NOTEXTTOSEND {
            return match NoTextToSend::try_from_params(params) {
                Ok(x) => Ok(Reply::NoTextToSend(x)),
                Err(e) => Err(e),
            };
        }
        if code == ERR_INPUTTOOLONG {
            return match InputTooLong::try_from_params(params) {
                Ok(x) => Ok(Reply::InputTooLong(x)),
                Err(e) => Err(e),
            };
        }
        if code == ERR_UNKNOWNCOMMAND {
            return match UnknownCommand::try_from_params(params) {
                Ok(x) => Ok(Reply::UnknownCommand(x)),
                Err(e) => Err(e),
            };
        }
        if code == ERR_NOMOTD {
            return match NoMotd::try_from_params(params) {
                Ok(x) => Ok(Reply::NoMotd(x)),
                Err(e) => Err(e),
            };
        }
        if code == ERR_NONICKNAMEGIVEN {
            return match NoNicknameGiven::try_from_params(params) {
                Ok(x) => Ok(Reply::NoNicknameGiven(x)),
                Err(e) => Err(e),
            };
        }
        if code == ERR_ERRONEUSNICKNAME {
            return match ErroneousNickname::try_from_params(params) {
                Ok(x) => Ok(Reply::ErroneousNickname(x)),
                Err(e) => Err(e),
            };
        }
        if code == ERR_NICKNAMEINUSE {
            return match NicknameInUse::try_from_params(params) {
                Ok(x) => Ok(Reply::NicknameInUse(x)),
                Err(e) => Err(e),
            };
        }
        if code == ERR_NICKCOLLISION {
            return match NickCollision::try_from_params(params) {
                Ok(x) => Ok(Reply::NickCollision(x)),
                Err(e) => Err(e),
            };
        }
        if code == ERR_USERNOTINCHANNEL {
            return match UserNotInChannel::try_from_params(params) {
                Ok(x) => Ok(Reply::UserNotInChannel(x)),
                Err(e) => Err(e),
            };
        }
        if code == ERR_NOTONCHANNEL {
            return match NotOnChannel::try_from_params(params) {
                Ok(x) => Ok(Reply::NotOnChannel(x)),
                Err(e) => Err(e),
            };
        }
        if code == ERR_USERONCHANNEL {
            return match UserOnChannel::try_from_params(params) {
                Ok(x) => Ok(Reply::UserOnChannel(x)),
                Err(e) => Err(e),
            };
        }
        if code == ERR_NOTREGISTERED {
            return match NotRegistered::try_from_params(params) {
                Ok(x) => Ok(Reply::NotRegistered(x)),
                Err(e) => Err(e),
            };
        }
        if code == ERR_NEEDMOREPARAMS {
            return match NeedMoreParams::try_from_params(params) {
                Ok(x) => Ok(Reply::NeedMoreParams(x)),
                Err(e) => Err(e),
            };
        }
        if code == ERR_ALREADYREGISTERED {
            return match AlreadyRegistered::try_from_params(params) {
                Ok(x) => Ok(Reply::AlreadyRegistered(x)),
                Err(e) => Err(e),
            };
        }
        if code == ERR_PASSWDMISMATCH {
            return match PasswdMismatch::try_from_params(params) {
                Ok(x) => Ok(Reply::PasswdMismatch(x)),
                Err(e) => Err(e),
            };
        }
        if code == ERR_YOUREBANNEDCREEP {
            return match YoureBannedCreep::try_from_params(params) {
                Ok(x) => Ok(Reply::YoureBannedCreep(x)),
                Err(e) => Err(e),
            };
        }
        if code == ERR_CHANNELISFULL {
            return match ChannelIsFull::try_from_params(params) {
                Ok(x) => Ok(Reply::ChannelIsFull(x)),
                Err(e) => Err(e),
            };
        }
        if code == ERR_UNKNOWNMODE {
            return match UnknownMode::try_from_params(params) {
                Ok(x) => Ok(Reply::UnknownMode(x)),
                Err(e) => Err(e),
            };
        }
        if code == ERR_INVITEONLYCHAN {
            return match InviteOnlyChan::try_from_params(params) {
                Ok(x) => Ok(Reply::InviteOnlyChan(x)),
                Err(e) => Err(e),
            };
        }
        if code == ERR_BANNEDFROMCHAN {
            return match BannedFromChan::try_from_params(params) {
                Ok(x) => Ok(Reply::BannedFromChan(x)),
                Err(e) => Err(e),
            };
        }
        if code == ERR_BADCHANNELKEY {
            return match BadChannelKey::try_from_params(params) {
                Ok(x) => Ok(Reply::BadChannelKey(x)),
                Err(e) => Err(e),
            };
        }
        if code == ERR_BADCHANMASK {
            return match BadChanMask::try_from_params(params) {
                Ok(x) => Ok(Reply::BadChanMask(x)),
                Err(e) => Err(e),
            };
        }
        if code == ERR_NOPRIVILEGES {
            return match NoPrivileges::try_from_params(params) {
                Ok(x) => Ok(Reply::NoPrivileges(x)),
                Err(e) => Err(e),
            };
        }
        if code == ERR_CHANOPRIVSNEEDED {
            return match ChanOPrivsNeeded::try_from_params(params) {
                Ok(x) => Ok(Reply::ChanOPrivsNeeded(x)),
                Err(e) => Err(e),
            };
        }
        if code == ERR_CANTKILLSERVER {
            return match CantKillServer::try_from_params(params) {
                Ok(x) => Ok(Reply::CantKillServer(x)),
                Err(e) => Err(e),
            };
        }
        if code == ERR_NOOPERHOST {
            return match NoOperHost::try_from_params(params) {
                Ok(x) => Ok(Reply::NoOperHost(x)),
                Err(e) => Err(e),
            };
        }
        if code == ERR_UMODEUNKNOWNFLAG {
            return match UmodeUnknownFlag::try_from_params(params) {
                Ok(x) => Ok(Reply::UmodeUnknownFlag(x)),
                Err(e) => Err(e),
            };
        }
        if code == ERR_USERSDONTMATCH {
            return match UsersDontMatch::try_from_params(params) {
                Ok(x) => Ok(Reply::UsersDontMatch(x)),
                Err(e) => Err(e),
            };
        }
        if code == ERR_HELPNOTFOUND {
            return match HelpNotFound::try_from_params(params) {
                Ok(x) => Ok(Reply::HelpNotFound(x)),
                Err(e) => Err(e),
            };
        }
        if code == ERR_INVALIDKEY {
            return match InvalidKey::try_from_params(params) {
                Ok(x) => Ok(Reply::InvalidKey(x)),
                Err(e) => Err(e),
            };
        }
        Ok(Reply::Unknown(UnknownReply::new(code, params)))
    }

    fn from_extended_parts(code: u16, params: ParameterList) -> (r: Result<Reply, ReplyError>)
        requires
            600 <= code,
        ensures
            match r {
                Ok(x) => check_extended_reply(code, params@) is Ok && x@ == (code, params@) && (x is Unknown
                    <==> !is_known_code(code)),
                Err(e) => check_extended_reply(code, params@) == Err::<(), ReplyErrorView>(e@),
            },
    {
        if code == RPL_STARTTLS {
            return match StartTLS::try_from_params(params) {
                Ok(x) => Ok(Reply::StartTLS(x)),
                Err(e) => Err(e),
            };
        }
        if code == RPL_WHOISSECURE {
            return match WhoIsSecure::try_from_params(params) {
                Ok(x) => Ok(Reply::WhoIsSecure(x)),
                Err(e) => Err(e),
            };
        }
        if code == ERR_STARTTLSERROR {
            return match StartTLSError::try_from_params(params) {
                Ok(x) => Ok(Reply::StartTLSError(x)),
                Err(e) => Err(e),
            };
        }
        if code == ERR_INVALIDMODEPARAM {
            return match InvalidModeParam::try_from_params(params) {
                Ok(x) => Ok(Reply::InvalidModeParam(x)),
                Err(e) => Err(e),
            };
        }
        if code == RPL_HELPSTART {
            return match HelpStart::try_from_params(params) {
                Ok(x) => Ok(Reply::HelpStart(x)),
                Err(e) => Err(e),
            };
        }
        if code == RPL_HELPTXT {
            return match HelpTxt::try_from_params(params) {
                Ok(x) => Ok(Reply::HelpTxt(x)),
                Err(e) => Err(e),
            };
        }
        if code == RPL_ENDOFHELP {
            return match EndOfHelp::try_from_params(params) {
                Ok(x) => Ok(Reply::EndOfHelp(x)),
                Err(e) => Err(e),
            };
        }
        if code == ERR_NOPRIVS {
            return match NoPrivs::try_from_params(params) {
                Ok(x) => Ok(Reply::NoPrivs(x)),
                Err(e) => Err(e),
            };
        }
        if code == RPL_LOGGEDIN {
            return match LoggedIn::try_from_params(params) {
                Ok(x) => Ok(Reply::LoggedIn(x)),
                Err(e) => Err(e),
            };
        }
        if code == RPL_LOGGEDOUT {
            return match LoggedOut::try_from_params(params) {
                Ok(x) => Ok(Reply::LoggedOut(x)),
                Err(e) => Err(e),
            };
        }
        if code == ERR_NICKLOCKED {
            return match NickLocked::try_from_params(params) {
                Ok(x) => Ok(Reply::NickLocked(x)),
                Err(e) => Err(e),
            };
        }
        if code == RPL_SASLSUCCESS {
            return match SaslSuccess::try_from_params(params) {
                Ok(x) => Ok(Reply::SaslSuccess(x)),
                Err(e) => Err(e),
            };
        }
        if code == ERR_SASLFAIL {
            return match SaslFail::try_from_params(params) {
                Ok(x) => Ok(Reply::SaslFail(x)),
                Err(e) => Err(e),
            };
        }
        if code == ERR_SASLTOOLONG {
            return match SaslTooLong::try_from_params(params) {
                Ok(x) => Ok(Reply::SaslTooLong(x)),
                Err(e) => Err(e),
            };
        }
        if code == ERR_SASLABORTED {
            return match SaslAborted::try_from_params(params) {
                Ok(x) => Ok(Reply::SaslAborted(x)),
                Err(e) => Err(e),
            };
        }
        if code == ERR_SASLALREADY {
            return match SaslAlready::try_from_params(params) {
                Ok(x) => Ok(Reply::SaslAlready(x)),
                Err(e) => Err(e),
            };
        }
        if code == RPL_SASLMECHS {
            return match SaslMechs::try_from_params(params) {
                Ok(x) => Ok(Reply::SaslMechs(x)),
                Err(e) => Err(e),
            };
        }
        Ok(Reply::Unknown(UnknownReply::new(code, params)))
    }

}

} // verus!
