//! Error replies (codes 400 to 599).
use super::codes::{
    ERR_NOSUCHNICK, ERR_NOSUCHSERVER, ERR_NOSUCHCHANNEL, ERR_CANNOTSENDTOCHAN, ERR_TOOMANYCHANNELS, ERR_WASNOSUCHNICK, ERR_NOORIGIN, ERR_NORECIPIENT, ERR_NOTEXTTOSEND, ERR_INPUTTOOLONG, ERR_UNKNOWNCOMMAND, ERR_NOMOTD, ERR_NONICKNAMEGIVEN, ERR_ERRONEUSNICKNAME, ERR_NICKNAMEINUSE, ERR_NICKCOLLISION, ERR_USERNOTINCHANNEL, ERR_NOTONCHANNEL, ERR_USERONCHANNEL, ERR_NOTREGISTERED, ERR_NEEDMOREPARAMS, ERR_ALREADYREGISTERED, ERR_PASSWDMISMATCH, ERR_YOUREBANNEDCREEP, ERR_CHANNELISFULL, ERR_UNKNOWNMODE, ERR_INVITEONLYCHAN, ERR_BANNEDFROMCHAN, ERR_BADCHANNELKEY, ERR_BADCHANMASK, ERR_NOPRIVILEGES, ERR_CHANOPRIVSNEEDED, ERR_CANTKILLSERVER, ERR_NOOPERHOST, ERR_UMODEUNKNOWNFLAG, ERR_USERSDONTMATCH, ERR_HELPNOTFOUND, ERR_INVALIDKEY,
};
use super::fields::{
    channel_at, field_channel, field_msg_target, field_nickname, field_reply_target, first_err, last_str, msg_target_at, nickname_at, param_at, param_qty, param_str, reply_target_at, verb_at,
};
use super::{check_reply, is_error_code, ReplyError, ReplyErrorView, ReplyParts};
use crate::names::{Channel, Modestring, Nickname, Username, Verb};
use crate::paramlist::{ParameterList, ParamsView};
use crate::source::{ClientSource, ClientSourceView};
use crate::targets::{ModeTarget, ReplyTarget, Target, TargetView};
use crate::text::split_word;
use crate::types::{ChannelStatus, WhoFlags, WhoFlagsView};
use vstd::prelude::*;

verus! {

/// The `ERR_NOSUCHNICK` reply (401)
#[derive(Debug, PartialEq, Eq)]
pub struct NoSuchNick {
    parameters: ParameterList,
    client: ReplyTarget,
    target: Target,
}

impl View for NoSuchNick {
    type V = ParamsView;

    closed spec fn view(&self) -> ParamsView {
        self.parameters@
    }
}

/// Whether `p` reads as a `ERR_NOSUCHNICK` reply, and if not, the first error
pub open spec fn check_no_such_nick(p: ParamsView) -> Result<(), ReplyErrorView> {
    if p.all().len() < 3 {
        Err(param_qty(3, p))
    } else {
        first_err(field_reply_target(p, 0), first_err(field_msg_target(p, 1), Ok(())))
    }
}

impl NoSuchNick {
    #[verifier::type_invariant]
    spec fn inv(self) -> bool {
        &&& check_no_such_nick(self.parameters@) is Ok
        &&& field_reply_target(self.parameters@, 0) == Ok::<TargetView, ReplyErrorView>(self.client@)
        &&& field_msg_target(self.parameters@, 1) == Ok::<TargetView, ReplyErrorView>(self.target@)
    }

    /// Reads `parameters` as a `ERR_NOSUCHNICK` reply
    pub fn try_from_params(parameters: ParameterList) -> (r: Result<NoSuchNick, ReplyError>)
        ensures
            match r {
                Ok(x) => check_no_such_nick(parameters@) is Ok && x@ == parameters@,
                Err(e) => check_no_such_nick(parameters@) == Err::<(), ReplyErrorView>(e@),
            },
    {
        if parameters.len() < 3 {
            return Err(ReplyError::ParamQty { min_required: 3, received: parameters.len() });
        }
        let client = match reply_target_at(&parameters, 0) {
            Ok(v) => v,
            Err(e) => {
                return Err(e);
            },
        };
        let target = match msg_target_at(&parameters, 1) {
            Ok(v) => v,
            Err(e) => {
                return Err(e);
            },
        };
        Ok(NoSuchNick { parameters, client, target })
    }

    pub fn client(&self) -> (r: &ReplyTarget)
        ensures
            field_reply_target(self@, 0) == Ok::<TargetView, ReplyErrorView>(r@),
    {
        proof {
            use_type_invariant(self);
        }
        &self.client
    }

    pub fn target(&self) -> (r: &Target)
        ensures
            field_msg_target(self@, 1) == Ok::<TargetView, ReplyErrorView>(r@),
    {
        proof {
            use_type_invariant(self);
        }
        &self.target
    }

    pub fn message(&self) -> (r: &str)
        ensures
            r@ == self@.all().last(),
    {
        proof {
            use_type_invariant(self);
        }
        last_str(&self.parameters)
    }

}

impl ReplyParts for NoSuchNick {
    open spec fn reply_code(&self) -> u16 {
        ERR_NOSUCHNICK
    }

    open spec fn reply_params(&self) -> ParamsView {
        self@
    }

    fn code(&self) -> (r: u16) {
        ERR_NOSUCHNICK
    }

    fn parameters(&self) -> (r: &ParameterList) {
        proof {
            use_type_invariant(self);
        }
        &self.parameters
    }

    fn is_error(&self) -> (r: bool) {
        true
    }

    fn into_parts(self) -> (r: (u16, ParameterList)) {
        proof {
            use_type_invariant(&self);
        }
        (ERR_NOSUCHNICK, self.parameters)
    }
}

impl Clone for NoSuchNick {
    fn clone(&self) -> (r: Self)
        ensures
            r@ == self@,
    {
        proof {
            use_type_invariant(self);
        }
        match NoSuchNick::try_from_params(self.parameters.clone()) {
            Ok(x) => x,
            Err(_) => {
                assert(false);
                unreached()
            },
        }
    }
}

/// The `ERR_NOSUCHSERVER` reply (402)
#[derive(Debug, PartialEq, Eq)]
pub struct NoSuchServer {
    parameters: ParameterList,
    client: ReplyTarget,
}

impl View for NoSuchServer {
    type V = ParamsView;

    closed spec fn view(&self) -> ParamsView {
        self.parameters@
    }
}

/// Whether `p` reads as a `ERR_NOSUCHSERVER` reply, and if not, the first error
pub open spec fn check_no_such_server(p: ParamsView) -> Result<(), ReplyErrorView> {
    if p.all().len() < 3 {
        Err(param_qty(3, p))
    } else {
        first_err(field_reply_target(p, 0), Ok(()))
    }
}

impl NoSuchServer {
    #[verifier::type_invariant]
    spec fn inv(self) -> bool {
        &&& check_no_such_server(self.parameters@) is Ok
        &&& field_reply_target(self.parameters@, 0) == Ok::<TargetView, ReplyErrorView>(self.client@)
    }

    /// Reads `parameters` as a `ERR_NOSUCHSERVER` reply
    pub fn try_from_params(parameters: ParameterList) -> (r: Result<NoSuchServer, ReplyError>)
        ensures
            match r {
                Ok(x) => check_no_such_server(parameters@) is Ok && x@ == parameters@,
                Err(e) => check_no_such_server(parameters@) == Err::<(), ReplyErrorView>(e@),
            },
    {
        if parameters.len() < 3 {
            return Err(ReplyError::ParamQty { min_required: 3, received: parameters.len() });
        }
        let client = match reply_target_at(&parameters, 0) {
            Ok(v) => v,
            Err(e) => {
                return Err(e);
            },
        };
        Ok(NoSuchServer { parameters, client })
    }

    pub fn client(&self) -> (r: &ReplyTarget)
        ensures
            field_reply_target(self@, 0) == Ok::<TargetView, ReplyErrorView>(r@),
    {
        proof {
            use_type_invariant(self);
        }
        &self.client
    }

    pub fn server(&self) -> (r: &str)
        ensures
            r@ == param_at(self@, 1),
    {
        proof {
            use_type_invariant(self);
        }
        param_str(&self.parameters, 1)
    }

    pub fn message(&self) -> (r: &str)
        ensures
            r@ == self@.all().last(),
    {
        proof {
            use_type_invariant(self);
        }
        last_str(&self.parameters)
    }

}

impl ReplyParts for NoSuchServer {
    open spec fn reply_code(&self) -> u16 {
        ERR_NOSUCHSERVER
    }

    open spec fn reply_params(&self) -> ParamsView {
        self@
    }

    fn code(&self) -> (r: u16) {
        ERR_NOSUCHSERVER
    }

    fn parameters(&self) -> (r: &ParameterList) {
        proof {
            use_type_invariant(self);
        }
        &self.parameters
    }

    fn is_error(&self) -> (r: bool) {
        true
    }

    fn into_parts(self) -> (r: (u16, ParameterList)) {
        proof {
            use_type_invariant(&self);
        }
        (ERR_NOSUCHSERVER, self.parameters)
    }
}

impl Clone for NoSuchServer {
    fn clone(&self) -> (r: Self)
        ensures
            r@ == self@,
    {
        proof {
            use_type_invariant(self);
        }
        match NoSuchServer::try_from_params(self.parameters.clone()) {
            Ok(x) => x,
            Err(_) => {
                assert(false);
                unreached()
            },
        }
    }
}

/// The `ERR_NOSUCHCHANNEL` reply (403)
#[derive(Debug, PartialEq, Eq)]
pub struct NoSuchChannel {
    parameters: ParameterList,
    client: ReplyTarget,
    channel: Channel,
}

impl View for NoSuchChannel {
    type V = ParamsView;

    closed spec fn view(&self) -> ParamsView {
        self.parameters@
    }
}

/// Whether `p` reads as a `ERR_NOSUCHCHANNEL` reply, and if not, the first error
pub open spec fn check_no_such_channel(p: ParamsView) -> Result<(), ReplyErrorView> {
    if p.all().len() < 3 {
        Err(param_qty(3, p))
    } else {
        first_err(field_reply_target(p, 0), first_err(field_channel(p, 1), Ok(())))
    }
}

impl NoSuchChannel {
    #[verifier::type_invariant]
    spec fn inv(self) -> bool {
        &&& check_no_such_channel(self.parameters@) is Ok
        &&& field_reply_target(self.parameters@, 0) == Ok::<TargetView, ReplyErrorView>(self.client@)
        &&& field_channel(self.parameters@, 1) == Ok::<Seq<char>, ReplyErrorView>(self.channel@)
    }

    /// Reads `parameters` as a `ERR_NOSUCHCHANNEL` reply
    pub fn try_from_params(parameters: ParameterList) -> (r: Result<NoSuchChannel, ReplyError>)
        ensures
            match r {
                Ok(x) => check_no_such_channel(parameters@) is Ok && x@ == parameters@,
                Err(e) => check_no_such_channel(parameters@) == Err::<(), ReplyErrorView>(e@),
            },
    {
        if parameters.len() < 3 {
            return Err(ReplyError::ParamQty { min_required: 3, received: parameters.len() });
        }
        let client = match reply_target_at(&parameters, 0) {
            Ok(v) => v,
            Err(e) => {
                return Err(e);
            },
        };
        let channel = match channel_at(&parameters, 1) {
            Ok(v) => v,
            Err(e) => {
                return Err(e);
            },
        };
        Ok(NoSuchChannel { parameters, client, channel })
    }

    pub fn client(&self) -> (r: &ReplyTarget)
        ensures
            field_reply_target(self@, 0) == Ok::<TargetView, ReplyErrorView>(r@),
    {
        proof {
            use_type_invariant(self);
        }
        &self.client
    }

    pub fn channel(&self) -> (r: &Channel)
        ensures
            field_channel(self@, 1) == Ok::<Seq<char>, ReplyErrorView>(r@),
    {
        proof {
            use_type_invariant(self);
        }
        &self.channel
    }

    pub fn message(&self) -> (r: &str)
        ensures
            r@ == self@.all().last(),
    {
        proof {
            use_type_invariant(self);
        }
        last_str(&self.parameters)
    }

}

impl ReplyParts for NoSuchChannel {
    open spec fn reply_code(&self) -> u16 {
        ERR_NOSUCHCHANNEL
    }

    open spec fn reply_params(&self) -> ParamsView {
        self@
    }

    fn code(&self) -> (r: u16) {
        ERR_NOSUCHCHANNEL
    }

    fn parameters(&self) -> (r: &ParameterList) {
        proof {
            use_type_invariant(self);
        }
        &self.parameters
    }

    fn is_error(&self) -> (r: bool) {
        true
    }

    fn into_parts(self) -> (r: (u16, ParameterList)) {
        proof {
            use_type_invariant(&self);
        }
        (ERR_NOSUCHCHANNEL, self.parameters)
    }
}

impl Clone for NoSuchChannel {
    fn clone(&self) -> (r: Self)
        ensures
            r@ == self@,
    {
        proof {
            use_type_invariant(self);
        }
        match NoSuchChannel::try_from_params(self.parameters.clone()) {
            Ok(x) => x,
            Err(_) => {
                assert(false);
                unreached()
            },
        }
    }
}

/// The `ERR_CANNOTSENDTOCHAN` reply (404)
#[derive(Debug, PartialEq, Eq)]
pub struct CannotSendToChan {
    parameters: ParameterList,
    client: ReplyTarget,
    channel: Channel,
}

impl View for CannotSendToChan {
    type V = ParamsView;

    closed spec fn view(&self) -> ParamsView {
        self.parameters@
    }
}

/// Whether `p` reads as a `ERR_CANNOTSENDTOCHAN` reply, and if not, the first error
pub open spec fn check_cannot_send_to_chan(p: ParamsView) -> Result<(), ReplyErrorView> {
    if p.all().len() < 3 {
        Err(param_qty(3, p))
    } else {
        first_err(field_reply_target(p, 0), first_err(field_channel(p, 1), Ok(())))
    }
}

impl CannotSendToChan {
    #[verifier::type_invariant]
    spec fn inv(self) -> bool {
        &&& check_cannot_send_to_chan(self.parameters@) is Ok
        &&& field_reply_target(self.parameters@, 0) == Ok::<TargetView, ReplyErrorView>(self.client@)
        &&& field_channel(self.parameters@, 1) == Ok::<Seq<char>, ReplyErrorView>(self.channel@)
    }

    /// Reads `parameters` as a `ERR_CANNOTSENDTOCHAN` reply
    pub fn try_from_params(parameters: ParameterList) -> (r: Result<CannotSendToChan, ReplyError>)
        ensures
            match r {
                Ok(x) => check_cannot_send_to_chan(parameters@) is Ok && x@ == parameters@,
                Err(e) => check_cannot_send_to_chan(parameters@) == Err::<(), ReplyErrorView>(e@),
            },
    {
        if parameters.len() < 3 {
            return Err(ReplyError::ParamQty { min_required: 3, received: parameters.len() });
        }
        let client = match reply_target_at(&parameters, 0) {
            Ok(v) => v,
            Err(e) => {
                return Err(e);
            },
        };
        let channel = match channel_at(&parameters, 1) {
            Ok(v) => v,
            Err(e) => {
                return Err(e);
            },
        };
        Ok(CannotSendToChan { parameters, client, channel })
    }

    pub fn client(&self) -> (r: &ReplyTarget)
        ensures
            field_reply_target(self@, 0) == Ok::<TargetView, ReplyErrorView>(r@),
    {
        proof {
            use_type_invariant(self);
        }
        &self.client
    }

    pub fn channel(&self) -> (r: &Channel)
        ensures
            field_channel(self@, 1) == Ok::<Seq<char>, ReplyErrorView>(r@),
    {
        proof {
            use_type_invariant(self);
        }
        &self.channel
    }

    pub fn message(&self) -> (r: &str)
        ensures
            r@ == self@.all().last(),
    {
        proof {
            use_type_invariant(self);
        }
        last_str(&self.parameters)
    }

}

impl ReplyParts for CannotSendToChan {
    open spec fn reply_code(&self) -> u16 {
        ERR_CANNOTSENDTOCHAN
    }

    open spec fn reply_params(&self) -> ParamsView {
        self@
    }

    fn code(&self) -> (r: u16) {
        ERR_CANNOTSENDTOCHAN
    }

    fn parameters(&self) -> (r: &ParameterList) {
        proof {
            use_type_invariant(self);
        }
        &self.parameters
    }

    fn is_error(&self) -> (r: bool) {
        true
    }

    fn into_parts(self) -> (r: (u16, ParameterList)) {
        proof {
            use_type_invariant(&self);
        }
        (ERR_CANNOTSENDTOCHAN, self.parameters)
    }
}

impl Clone for CannotSendToChan {
    fn clone(&self) -> (r: Self)
        ensures
            r@ == self@,
    {
        proof {
            use_type_invariant(self);
        }
        match CannotSendToChan::try_from_params(self.parameters.clone()) {
            Ok(x) => x,
            Err(_) => {
                assert(false);
                unreached()
            },
        }
    }
}

/// The `ERR_TOOMANYCHANNELS` reply (405)
#[derive(Debug, PartialEq, Eq)]
pub struct TooManyChannels {
    parameters: ParameterList,
    client: ReplyTarget,
    channel: Channel,
}

impl View for TooManyChannels {
    type V = ParamsView;

    closed spec fn view(&self) -> ParamsView {
        self.parameters@
    }
}

/// Whether `p` reads as a `ERR_TOOMANYCHANNELS` reply, and if not, the first error
pub open spec fn check_too_many_channels(p: ParamsView) -> Result<(), ReplyErrorView> {
    if p.all().len() < 3 {
        Err(param_qty(3, p))
    } else {
        first_err(field_reply_target(p, 0), first_err(field_channel(p, 1), Ok(())))
    }
}

impl TooManyChannels {
    #[verifier::type_invariant]
    spec fn inv(self) -> bool {
        &&& check_too_many_channels(self.parameters@) is Ok
        &&& field_reply_target(self.parameters@, 0) == Ok::<TargetView, ReplyErrorView>(self.client@)
        &&& field_channel(self.parameters@, 1) == Ok::<Seq<char>, ReplyErrorView>(self.channel@)
    }

    /// Reads `parameters` as a `ERR_TOOMANYCHANNELS` reply
    pub fn try_from_params(parameters: ParameterList) -> (r: Result<TooManyChannels, ReplyError>)
        ensures
            match r {
                Ok(x) => check_too_many_channels(parameters@) is Ok && x@ == parameters@,
                Err(e) => check_too_many_channels(parameters@) == Err::<(), ReplyErrorView>(e@),
            },
    {
        if parameters.len() < 3 {
            return Err(ReplyError::ParamQty { min_required: 3, received: parameters.len() });
        }
        let client = match reply_target_at(&parameters, 0) {
            Ok(v) => v,
            Err(e) => {
                return Err(e);
            },
        };
        let channel = match channel_at(&parameters, 1) {
            Ok(v) => v,
            Err(e) => {
                return Err(e);
            },
        };
        Ok(TooManyChannels { parameters, client, channel })
    }

    pub fn client(&self) -> (r: &ReplyTarget)
        ensures
            field_reply_target(self@, 0) == Ok::<TargetView, ReplyErrorView>(r@),
    {
        proof {
            use_type_invariant(self);
        }
        &self.client
    }

    pub fn channel(&self) -> (r: &Channel)
        ensures
            field_channel(self@, 1) == Ok::<Seq<char>, ReplyErrorView>(r@),
    {
        proof {
            use_type_invariant(self);
        }
        &self.channel
    }

    pub fn message(&self) -> (r: &str)
        ensures
            r@ == self@.all().last(),
    {
        proof {
            use_type_invariant(self);
        }
        last_str(&self.parameters)
    }

}

impl ReplyParts for TooManyChannels {
    open spec fn reply_code(&self) -> u16 {
        ERR_TOOMANYCHANNELS
    }

    open spec fn reply_params(&self) -> ParamsView {
        self@
    }

    fn code(&self) -> (r: u16) {
        ERR_TOOMANYCHANNELS
    }

    fn parameters(&self) -> (r: &ParameterList) {
        proof {
            use_type_invariant(self);
        }
        &self.parameters
    }

    fn is_error(&self) -> (r: bool) {
        true
    }

    fn into_parts(self) -> (r: (u16, ParameterList)) {
        proof {
            use_type_invariant(&self);
        }
        (ERR_TOOMANYCHANNELS, self.parameters)
    }
}

impl Clone for TooManyChannels {
    fn clone(&self) -> (r: Self)
        ensures
            r@ == self@,
    {
        proof {
            use_type_invariant(self);
        }
        match TooManyChannels::try_from_params(self.parameters.clone()) {
            Ok(x) => x,
            Err(_) => {
                assert(false);
                unreached()
            },
        }
    }
}

/// The `ERR_WASNOSUCHNICK` reply (406)
#[derive(Debug, PartialEq, Eq)]
pub struct WasNoSuchNick {
    parameters: ParameterList,
    client: ReplyTarget,
    nickname: Nickname,
}

impl View for WasNoSuchNick {
    type V = ParamsView;

    closed spec fn view(&self) -> ParamsView {
        self.parameters@
    }
}

/// Whether `p` reads as a `ERR_WASNOSUCHNICK` reply, and if not, the first error
pub open spec fn check_was_no_such_nick(p: ParamsView) -> Result<(), ReplyErrorView> {
    if p.all().len() < 3 {
        Err(param_qty(3, p))
    } else {
        first_err(field_reply_target(p, 0), first_err(field_nickname(p, 1), Ok(())))
    }
}

impl WasNoSuchNick {
    #[verifier::type_invariant]
    spec fn inv(self) -> bool {
        &&& check_was_no_such_nick(self.parameters@) is Ok
        &&& field_reply_target(self.parameters@, 0) == Ok::<TargetView, ReplyErrorView>(self.client@)
        &&& field_nickname(self.parameters@, 1) == Ok::<Seq<char>, ReplyErrorView>(self.nickname@)
    }

    /// Reads `parameters` as a `ERR_WASNOSUCHNICK` reply
    pub fn try_from_params(parameters: ParameterList) -> (r: Result<WasNoSuchNick, ReplyError>)
        ensures
            match r {
                Ok(x) => check_was_no_such_nick(parameters@) is Ok && x@ == parameters@,
                Err(e) => check_was_no_such_nick(parameters@) == Err::<(), ReplyErrorView>(e@),
            },
    {
        if parameters.len() < 3 {
            return Err(ReplyError::ParamQty { min_required: 3, received: parameters.len() });
        }
        let client = match reply_target_at(&parameters, 0) {
            Ok(v) => v,
            Err(e) => {
                return Err(e);
            },
        };
        let nickname = match nickname_at(&parameters, 1) {
            Ok(v) => v,
            Err(e) => {
                return Err(e);
            },
        };
        Ok(WasNoSuchNick { parameters, client, nickname })
    }

    pub fn client(&self) -> (r: &ReplyTarget)
        ensures
            field_reply_target(self@, 0) == Ok::<TargetView, ReplyErrorView>(r@),
    {
        proof {
            use_type_invariant(self);
        }
        &self.client
    }

    pub fn nickname(&self) -> (r: &Nickname)
        ensures
            field_nickname(self@, 1) == Ok::<Seq<char>, ReplyErrorView>(r@),
    {
        proof {
            use_type_invariant(self);
        }
        &self.nickname
    }

    pub fn message(&self) -> (r: &str)
        ensures
            r@ == self@.all().last(),
    {
        proof {
            use_type_invariant(self);
        }
        last_str(&self.parameters)
    }

}

impl ReplyParts for WasNoSuchNick {
    open spec fn reply_code(&self) -> u16 {
        ERR_WASNOSUCHNICK
    }

    open spec fn reply_params(&self) -> ParamsView {
        self@
    }

    fn code(&self) -> (r: u16) {
        ERR_WASNOSUCHNICK
    }

    fn parameters(&self) -> (r: &ParameterList) {
        proof {
            use_type_invariant(self);
        }
        &self.parameters
    }

    fn is_error(&self) -> (r: bool) {
        true
    }

    fn into_parts(self) -> (r: (u16, ParameterList)) {
        proof {
            use_type_invariant(&self);
        }
        (ERR_WASNOSUCHNICK, self.parameters)
    }
}

impl Clone for WasNoSuchNick {
    fn clone(&self) -> (r: Self)
        ensures
            r@ == self@,
    {
        proof {
            use_type_invariant(self);
        }
        match WasNoSuchNick::try_from_params(self.parameters.clone()) {
            Ok(x) => x,
            Err(_) => {
                assert(false);
                unreached()
            },
        }
    }
}

/// The `ERR_NOORIGIN` reply (409)
#[derive(Debug, PartialEq, Eq)]
pub struct NoOrigin {
    parameters: ParameterList,
    client: ReplyTarget,
}

impl View for NoOrigin {
    type V = ParamsView;

    closed spec fn view(&self) -> ParamsView {
        self.parameters@
    }
}

/// Whether `p` reads as a `ERR_NOORIGIN` reply, and if not, the first error
pub open spec fn check_no_origin(p: ParamsView) -> Result<(), ReplyErrorView> {
    if p.all().len() < 2 {
        Err(param_qty(2, p))
    } else {
        first_err(field_reply_target(p, 0), Ok(()))
    }
}

impl NoOrigin {
    #[verifier::type_invariant]
    spec fn inv(self) -> bool {
        &&& check_no_origin(self.parameters@) is Ok
        &&& field_reply_target(self.parameters@, 0) == Ok::<TargetView, ReplyErrorView>(self.client@)
    }

    /// Reads `parameters` as a `ERR_NOORIGIN` reply
    pub fn try_from_params(parameters: ParameterList) -> (r: Result<NoOrigin, ReplyError>)
        ensures
            match r {
                Ok(x) => check_no_origin(parameters@) is Ok && x@ == parameters@,
                Err(e) => check_no_origin(parameters@) == Err::<(), ReplyErrorView>(e@),
            },
    {
        if parameters.len() < 2 {
            return Err(ReplyError::ParamQty { min_required: 2, received: parameters.len() });
        }
        let client = match reply_target_at(&parameters, 0) {
            Ok(v) => v,
            Err(e) => {
                return Err(e);
            },
        };
        Ok(NoOrigin { parameters, client })
    }

    pub fn client(&self) -> (r: &ReplyTarget)
        ensures
            field_reply_target(self@, 0) == Ok::<TargetView, ReplyErrorView>(r@),
    {
        proof {
            use_type_invariant(self);
        }
        &self.client
    }

    pub fn message(&self) -> (r: &str)
        ensures
            r@ == self@.all().last(),
    {
        proof {
            use_type_invariant(self);
        }
        last_str(&self.parameters)
    }

}

impl ReplyParts for NoOrigin {
    open spec fn reply_code(&self) -> u16 {
        ERR_NOORIGIN
    }

    open spec fn reply_params(&self) -> ParamsView {
        self@
    }

    fn code(&self) -> (r: u16) {
        ERR_NOORIGIN
    }

    fn parameters(&self) -> (r: &ParameterList) {
        proof {
            use_type_invariant(self);
        }
        &self.parameters
    }

    fn is_error(&self) -> (r: bool) {
        true
    }

    fn into_parts(self) -> (r: (u16, ParameterList)) {
        proof {
            use_type_invariant(&self);
        }
        (ERR_NOORIGIN, self.parameters)
    }
}

impl Clone for NoOrigin {
    fn clone(&self) -> (r: Self)
        ensures
            r@ == self@,
    {
        proof {
            use_type_invariant(self);
        }
        match NoOrigin::try_from_params(self.parameters.clone()) {
            Ok(x) => x,
            Err(_) => {
                assert(false);
                unreached()
            },
        }
    }
}

/// The `ERR_NORECIPIENT` reply (411)
#[derive(Debug, PartialEq, Eq)]
pub struct NoRecipient {
    parameters: ParameterList,
    client: ReplyTarget,
}

impl View for NoRecipient {
    type V = ParamsView;

    closed spec fn view(&self) -> ParamsView {
        self.parameters@
    }
}

/// Whether `p` reads as a `ERR_NORECIPIENT` reply, and if not, the first error
pub open spec fn check_no_recipient(p: ParamsView) -> Result<(), ReplyErrorView> {
    if p.all().len() < 2 {
        Err(param_qty(2, p))
    } else {
        first_err(field_reply_target(p, 0), Ok(()))
    }
}

impl NoRecipient {
    #[verifier::type_invariant]
    spec fn inv(self) -> bool {
        &&& check_no_recipient(self.parameters@) is Ok
        &&& field_reply_target(self.parameters@, 0) == Ok::<TargetView, ReplyErrorView>(self.client@)
    }

    /// Reads `parameters` as a `ERR_NORECIPIENT` reply
    pub fn try_from_params(parameters: ParameterList) -> (r: Result<NoRecipient, ReplyError>)
        ensures
            match r {
                Ok(x) => check_no_recipient(parameters@) is Ok && x@ == parameters@,
                Err(e) => check_no_recipient(parameters@) == Err::<(), ReplyErrorView>(e@),
            },
    {
        if parameters.len() < 2 {
            return Err(ReplyError::ParamQty { min_required: 2, received: parameters.len() });
        }
        let client = match reply_target_at(&parameters, 0) {
            Ok(v) => v,
            Err(e) => {
                return Err(e);
            },
        };
        Ok(NoRecipient { parameters, client })
    }

    pub fn client(&self) -> (r: &ReplyTarget)
        ensures
            field_reply_target(self@, 0) == Ok::<TargetView, ReplyErrorView>(r@),
    {
        proof {
            use_type_invariant(self);
        }
        &self.client
    }

    pub fn message(&self) -> (r: &str)
        ensures
            r@ == self@.all().last(),
    {
        proof {
            use_type_invariant(self);
        }
        last_str(&self.parameters)
    }

}

impl ReplyParts for NoRecipient {
    open spec fn reply_code(&self) -> u16 {
        ERR_NORECIPIENT
    }

    open spec fn reply_params(&self) -> ParamsView {
        self@
    }

    fn code(&self) -> (r: u16) {
        ERR_NORECIPIENT
    }

    fn parameters(&self) -> (r: &ParameterList) {
        proof {
            use_type_invariant(self);
        }
        &self.parameters
    }

    fn is_error(&self) -> (r: bool) {
        true
    }

    fn into_parts(self) -> (r: (u16, ParameterList)) {
        proof {
            use_type_invariant(&self);
        }
        (ERR_NORECIPIENT, self.parameters)
    }
}

impl Clone for NoRecipient {
    fn clone(&self) -> (r: Self)
        ensures
            r@ == self@,
    {
        proof {
            use_type_invariant(self);
        }
        match NoRecipient::try_from_params(self.parameters.clone()) {
            Ok(x) => x,
            Err(_) => {
                assert(false);
                unreached()
            },
        }
    }
}

/// The `ERR_NOTEXTTOSEND` reply (412)
#[derive(Debug, PartialEq, Eq)]
pub struct NoTextToSend {
    parameters: ParameterList,
    client: ReplyTarget,
}

impl View for NoTextToSend {
    type V = ParamsView;

    closed spec fn view(&self) -> ParamsView {
        self.parameters@
    }
}

/// Whether `p` reads as a `ERR_NOTEXTTOSEND` reply, and if not, the first error
pub open spec fn check_no_text_to_send(p: ParamsView) -> Result<(), ReplyErrorView> {
    if p.all().len() < 2 {
        Err(param_qty(2, p))
    } else {
        first_err(field_reply_target(p, 0), Ok(()))
    }
}

impl NoTextToSend {
    #[verifier::type_invariant]
    spec fn inv(self) -> bool {
        &&& check_no_text_to_send(self.parameters@) is Ok
        &&& field_reply_target(self.parameters@, 0) == Ok::<TargetView, ReplyErrorView>(self.client@)
    }

    /// Reads `parameters` as a `ERR_NOTEXTTOSEND` reply
    pub fn try_from_params(parameters: ParameterList) -> (r: Result<NoTextToSend, ReplyError>)
        ensures
            match r {
                Ok(x) => check_no_text_to_send(parameters@) is Ok && x@ == parameters@,
                Err(e) => check_no_text_to_send(parameters@) == Err::<(), ReplyErrorView>(e@),
            },
    {
        if parameters.len() < 2 {
            return Err(ReplyError::ParamQty { min_required: 2, received: parameters.len() });
        }
        let client = match reply_target_at(&parameters, 0) {
            Ok(v) => v,
            Err(e) => {
                return Err(e);
            },
        };
        Ok(NoTextToSend { parameters, client })
    }

    pub fn client(&self) -> (r: &ReplyTarget)
        ensures
            field_reply_target(self@, 0) == Ok::<TargetView, ReplyErrorView>(r@),
    {
        proof {
            use_type_invariant(self);
        }
        &self.client
    }

    pub fn message(&self) -> (r: &str)
        ensures
            r@ == self@.all().last(),
    {
        proof {
            use_type_invariant(self);
        }
        last_str(&self.parameters)
    }

}

impl ReplyParts for NoTextToSend {
    open spec fn reply_code(&self) -> u16 {
        ERR_NOTEXTTOSEND
    }

    open spec fn reply_params(&self) -> ParamsView {
        self@
    }

    fn code(&self) -> (r: u16) {
        ERR_NOTEXTTOSEND
    }

    fn parameters(&self) -> (r: &ParameterList) {
        proof {
            use_type_invariant(self);
        }
        &self.parameters
    }

    fn is_error(&self) -> (r: bool) {
        true
    }

    fn into_parts(self) -> (r: (u16, ParameterList)) {
        proof {
            use_type_invariant(&self);
        }
        (ERR_NOTEXTTOSEND, self.parameters)
    }
}

impl Clone for NoTextToSend {
    fn clone(&self) -> (r: Self)
        ensures
            r@ == self@,
    {
        proof {
            use_type_invariant(self);
        }
        match NoTextToSend::try_from_params(self.parameters.clone()) {
            Ok(x) => x,
            Err(_) => {
                assert(false);
                unreached()
            },
        }
    }
}

/// The `ERR_INPUTTOOLONG` reply (417)
#[derive(Debug, PartialEq, Eq)]
pub struct InputTooLong {
    parameters: ParameterList,
    client: ReplyTarget,
}

impl View for InputTooLong {
    type V = ParamsView;

    closed spec fn view(&self) -> ParamsView {
        self.parameters@
    }
}

/// Whether `p` reads as a `ERR_INPUTTOOLONG` reply, and if not, the first error
pub open spec fn check_input_too_long(p: ParamsView) -> Result<(), ReplyErrorView> {
    if p.all().len() < 2 {
        Err(param_qty(2, p))
    } else {
        first_err(field_reply_target(p, 0), Ok(()))
    }
}

impl InputTooLong {
    #[verifier::type_invariant]
    spec fn inv(self) -> bool {
        &&& check_input_too_long(self.parameters@) is Ok
        &&& field_reply_target(self.parameters@, 0) == Ok::<TargetView, ReplyErrorView>(self.client@)
    }

    /// Reads `parameters` as a `ERR_INPUTTOOLONG` reply
    pub fn try_from_params(parameters: ParameterList) -> (r: Result<InputTooLong, ReplyError>)
        ensures
            match r {
                Ok(x) => check_input_too_long(parameters@) is Ok && x@ == parameters@,
                Err(e) => check_input_too_long(parameters@) == Err::<(), ReplyErrorView>(e@),
            },
    {
        if parameters.len() < 2 {
            return Err(ReplyError::ParamQty { min_required: 2, received: parameters.len() });
        }
        let client = match reply_target_at(&parameters, 0) {
            Ok(v) => v,
            Err(e) => {
                return Err(e);
            },
        };
        Ok(InputTooLong { parameters, client })
    }

    pub fn client(&self) -> (r: &ReplyTarget)
        ensures
            field_reply_target(self@, 0) == Ok::<TargetView, ReplyErrorView>(r@),
    {
        proof {
            use_type_invariant(self);
        }
        &self.client
    }

    pub fn message(&self) -> (r: &str)
        ensures
            r@ == self@.all().last(),
    {
        proof {
            use_type_invariant(self);
        }
        last_str(&self.parameters)
    }

}

impl ReplyParts for InputTooLong {
    open spec fn reply_code(&self) -> u16 {
        ERR_INPUTTOOLONG
    }

    open spec fn reply_params(&self) -> ParamsView {
        self@
    }

    fn code(&self) -> (r: u16) {
        ERR_INPUTTOOLONG
    }

    fn parameters(&self) -> (r: &ParameterList) {
        proof {
            use_type_invariant(self);
        }
        &self.parameters
    }

    fn is_error(&self) -> (r: bool) {
        true
    }

    fn into_parts(self) -> (r: (u16, ParameterList)) {
        proof {
            use_type_invariant(&self);
        }
        (ERR_INPUTTOOLONG, self.parameters)
    }
}

impl Clone for InputTooLong {
    fn clone(&self) -> (r: Self)
        ensures
            r@ == self@,
    {
        proof {
            use_type_invariant(self);
        }
        match InputTooLong::try_from_params(self.parameters.clone()) {
            Ok(x) => x,
            Err(_) => {
                assert(false);
                unreached()
            },
        }
    }
}

/// The `ERR_UNKNOWNCOMMAND` reply (421)
#[derive(Debug, PartialEq, Eq)]
pub struct UnknownCommand {
    parameters: ParameterList,
    client: ReplyTarget,
    command: Verb,
}

impl View for UnknownCommand {
    type V = ParamsView;

    closed spec fn view(&self) -> ParamsView {
        self.parameters@
    }
}

/// Whether `p` reads as a `ERR_UNKNOWNCOMMAND` reply, and if not, the first error
pub open spec fn check_unknown_command(p: ParamsView) -> Result<(), ReplyErrorView> {
    if p.all().len() < 3 {
        Err(param_qty(3, p))
    } else {
        first_err(field_reply_target(p, 0), Ok(()))
    }
}

impl UnknownCommand {
    #[verifier::type_invariant]
    spec fn inv(self) -> bool {
        &&& check_unknown_command(self.parameters@) is Ok
        &&& field_reply_target(self.parameters@, 0) == Ok::<TargetView, ReplyErrorView>(self.client@)
        &&& self.command@ == param_at(self.parameters@, 1)
    }

    /// Reads `parameters` as a `ERR_UNKNOWNCOMMAND` reply
    pub fn try_from_params(parameters: ParameterList) -> (r: Result<UnknownCommand, ReplyError>)
        ensures
            match r {
                Ok(x) => check_unknown_command(parameters@) is Ok && x@ == parameters@,
                Err(e) => check_unknown_command(parameters@) == Err::<(), ReplyErrorView>(e@),
            },
    {
        if parameters.len() < 3 {
            return Err(ReplyError::ParamQty { min_required: 3, received: parameters.len() });
        }
        let client = match reply_target_at(&parameters, 0) {
            Ok(v) => v,
            Err(e) => {
                return Err(e);
            },
        };
        let command = verb_at(&parameters, 1);
        Ok(UnknownCommand { parameters, client, command })
    }

    pub fn client(&self) -> (r: &ReplyTarget)
        ensures
            field_reply_target(self@, 0) == Ok::<TargetView, ReplyErrorView>(r@),
    {
        proof {
            use_type_invariant(self);
        }
        &self.client
    }

    pub fn command(&self) -> (r: &Verb)
        ensures
            r@ == param_at(self@, 1),
    {
        proof {
            use_type_invariant(self);
        }
        &self.command
    }

    pub fn message(&self) -> (r: &str)
        ensures
            r@ == self@.all().last(),
    {
        proof {
            use_type_invariant(self);
        }
        last_str(&self.parameters)
    }

}

impl ReplyParts for UnknownCommand {
    open spec fn reply_code(&self) -> u16 {
        ERR_UNKNOWNCOMMAND
    }

    open spec fn reply_params(&self) -> ParamsView {
        self@
    }

    fn code(&self) -> (r: u16) {
        ERR_UNKNOWNCOMMAND
    }

    fn parameters(&self) -> (r: &ParameterList) {
        proof {
            use_type_invariant(self);
        }
        &self.parameters
    }

    fn is_error(&self) -> (r: bool) {
        true
    }

    fn into_parts(self) -> (r: (u16, ParameterList)) {
        proof {
            use_type_invariant(&self);
        }
        (ERR_UNKNOWNCOMMAND, self.parameters)
    }
}

impl Clone for UnknownCommand {
    fn clone(&self) -> (r: Self)
        ensures
            r@ == self@,
    {
        proof {
            use_type_invariant(self);
        }
        match UnknownCommand::try_from_params(self.parameters.clone()) {
            Ok(x) => x,
            Err(_) => {
                assert(false);
                unreached()
            },
        }
    }
}

/// The `ERR_NOMOTD` reply (422)
#[derive(Debug, PartialEq, Eq)]
pub struct NoMotd {
    parameters: ParameterList,
    client: ReplyTarget,
}

impl View for NoMotd {
    type V = ParamsView;

    closed spec fn view(&self) -> ParamsView {
        self.parameters@
    }
}

/// Whether `p` reads as a `ERR_NOMOTD` reply, and if not, the first error
pub open spec fn check_no_motd(p: ParamsView) -> Result<(), ReplyErrorView> {
    if p.all().len() < 2 {
        Err(param_qty(2, p))
    } else {
        first_err(field_reply_target(p, 0), Ok(()))
    }
}

impl NoMotd {
    #[verifier::type_invariant]
    spec fn inv(self) -> bool {
        &&& check_no_motd(self.parameters@) is Ok
        &&& field_reply_target(self.parameters@, 0) == Ok::<TargetView, ReplyErrorView>(self.client@)
    }

    /// Reads `parameters` as a `ERR_NOMOTD` reply
    pub fn try_from_params(parameters: ParameterList) -> (r: Result<NoMotd, ReplyError>)
        ensures
            match r {
                Ok(x) => check_no_motd(parameters@) is Ok && x@ == parameters@,
                Err(e) => check_no_motd(parameters@) == Err::<(), ReplyErrorView>(e@),
            },
    {
        if parameters.len() < 2 {
            return Err(ReplyError::ParamQty { min_required: 2, received: parameters.len() });
        }
        let client = match reply_target_at(&parameters, 0) {
            Ok(v) => v,
            Err(e) => {
                return Err(e);
            },
        };
        Ok(NoMotd { parameters, client })
    }

    pub fn client(&self) -> (r: &ReplyTarget)
        ensures
            field_reply_target(self@, 0) == Ok::<TargetView, ReplyErrorView>(r@),
    {
        proof {
            use_type_invariant(self);
        }
        &self.client
    }

    pub fn message(&self) -> (r: &str)
        ensures
            r@ == self@.all().last(),
    {
        proof {
            use_type_invariant(self);
        }
        last_str(&self.parameters)
    }

}

impl ReplyParts for NoMotd {
    open spec fn reply_code(&self) -> u16 {
        ERR_NOMOTD
    }

    open spec fn reply_params(&self) -> ParamsView {
        self@
    }

    fn code(&self) -> (r: u16) {
        ERR_NOMOTD
    }

    fn parameters(&self) -> (r: &ParameterList) {
        proof {
            use_type_invariant(self);
        }
        &self.parameters
    }

    fn is_error(&self) -> (r: bool) {
        true
    }

    fn into_parts(self) -> (r: (u16, ParameterList)) {
        proof {
            use_type_invariant(&self);
        }
        (ERR_NOMOTD, self.parameters)
    }
}

impl Clone for NoMotd {
    fn clone(&self) -> (r: Self)
        ensures
            r@ == self@,
    {
        proof {
            use_type_invariant(self);
        }
        match NoMotd::try_from_params(self.parameters.clone()) {
            Ok(x) => x,
            Err(_) => {
                assert(false);
                unreached()
            },
        }
    }
}

/// The `ERR_NONICKNAMEGIVEN` reply (431)
#[derive(Debug, PartialEq, Eq)]
pub struct NoNicknameGiven {
    parameters: ParameterList,
    client: ReplyTarget,
}

impl View for NoNicknameGiven {
    type V = ParamsView;

    closed spec fn view(&self) -> ParamsView {
        self.parameters@
    }
}

/// Whether `p` reads as a `ERR_NONICKNAMEGIVEN` reply, and if not, the first error
pub open spec fn check_no_nickname_given(p: ParamsView) -> Result<(), ReplyErrorView> {
    if p.all().len() < 2 {
        Err(param_qty(2, p))
    } else {
        first_err(field_reply_target(p, 0), Ok(()))
    }
}

impl NoNicknameGiven {
    #[verifier::type_invariant]
    spec fn inv(self) -> bool {
        &&& check_no_nickname_given(self.parameters@) is Ok
        &&& field_reply_target(self.parameters@, 0) == Ok::<TargetView, ReplyErrorView>(self.client@)
    }

    /// Reads `parameters` as a `ERR_NONICKNAMEGIVEN` reply
    pub fn try_from_params(parameters: ParameterList) -> (r: Result<NoNicknameGiven, ReplyError>)
        ensures
            match r {
                Ok(x) => check_no_nickname_given(parameters@) is Ok && x@ == parameters@,
                Err(e) => check_no_nickname_given(parameters@) == Err::<(), ReplyErrorView>(e@),
            },
    {
        if parameters.len() < 2 {
            return Err(ReplyError::ParamQty { min_required: 2, received: parameters.len() });
        }
        let client = match reply_target_at(&parameters, 0) {
            Ok(v) => v,
            Err(e) => {
                return Err(e);
            },
        };
        Ok(NoNicknameGiven { parameters, client })
    }

    pub fn client(&self) -> (r: &ReplyTarget)
        ensures
            field_reply_target(self@, 0) == Ok::<TargetView, ReplyErrorView>(r@),
    {
        proof {
            use_type_invariant(self);
        }
        &self.client
    }

    pub fn message(&self) -> (r: &str)
        ensures
            r@ == self@.all().last(),
    {
        proof {
            use_type_invariant(self);
        }
        last_str(&self.parameters)
    }

}

impl ReplyParts for NoNicknameGiven {
    open spec fn reply_code(&self) -> u16 {
        ERR_NONICKNAMEGIVEN
    }

    open spec fn reply_params(&self) -> ParamsView {
        self@
    }

    fn code(&self) -> (r: u16) {
        ERR_NONICKNAMEGIVEN
    }

    fn parameters(&self) -> (r: &ParameterList) {
        proof {
            use_type_invariant(self);
        }
        &self.parameters
    }

    fn is_error(&self) -> (r: bool) {
        true
    }

    fn into_parts(self) -> (r: (u16, ParameterList)) {
        proof {
            use_type_invariant(&self);
        }
        (ERR_NONICKNAMEGIVEN, self.parameters)
    }
}

impl Clone for NoNicknameGiven {
    fn clone(&self) -> (r: Self)
        ensures
            r@ == self@,
    {
        proof {
            use_type_invariant(self);
        }
        match NoNicknameGiven::try_from_params(self.parameters.clone()) {
            Ok(x) => x,
            Err(_) => {
                assert(false);
                unreached()
            },
        }
    }
}

/// The `ERR_ERRONEUSNICKNAME` reply (432)
#[derive(Debug, PartialEq, Eq)]
pub struct ErroneousNickname {
    parameters: ParameterList,
    client: ReplyTarget,
}

impl View for ErroneousNickname {
    type V = ParamsView;

    closed spec fn view(&self) -> ParamsView {
        self.parameters@
    }
}

/// Whether `p` reads as a `ERR_ERRONEUSNICKNAME` reply, and if not, the first error
pub open spec fn check_erroneous_nickname(p: ParamsView) -> Result<(), ReplyErrorView> {
    if p.all().len() < 3 {
        Err(param_qty(3, p))
    } else {
        first_err(field_reply_target(p, 0), Ok(()))
    }
}

impl ErroneousNickname {
    #[verifier::type_invariant]
    spec fn inv(self) -> bool {
        &&& check_erroneous_nickname(self.parameters@) is Ok
        &&& field_reply_target(self.parameters@, 0) == Ok::<TargetView, ReplyErrorView>(self.client@)
    }

    /// Reads `parameters` as a `ERR_ERRONEUSNICKNAME` reply
    pub fn try_from_params(parameters: ParameterList) -> (r: Result<ErroneousNickname, ReplyError>)
        ensures
            match r {
                Ok(x) => check_erroneous_nickname(parameters@) is Ok && x@ == parameters@,
                Err(e) => check_erroneous_nickname(parameters@) == Err::<(), ReplyErrorView>(e@),
            },
    {
        if parameters.len() < 3 {
            return Err(ReplyError::ParamQty { min_required: 3, received: parameters.len() });
        }
        let client = match reply_target_at(&parameters, 0) {
            Ok(v) => v,
            Err(e) => {
                return Err(e);
            },
        };
        Ok(ErroneousNickname { parameters, client })
    }

    pub fn client(&self) -> (r: &ReplyTarget)
        ensures
            field_reply_target(self@, 0) == Ok::<TargetView, ReplyErrorView>(r@),
    {
        proof {
            use_type_invariant(self);
        }
        &self.client
    }

    pub fn nickname(&self) -> (r: &str)
        ensures
            r@ == param_at(self@, 1),
    {
        proof {
            use_type_invariant(self);
        }
        param_str(&self.parameters, 1)
    }

    pub fn message(&self) -> (r: &str)
        ensures
            r@ == self@.all().last(),
    {
        proof {
            use_type_invariant(self);
        }
        last_str(&self.parameters)
    }

}

impl ReplyParts for ErroneousNickname {
    open spec fn reply_code(&self) -> u16 {
        ERR_ERRONEUSNICKNAME
    }

    open spec fn reply_params(&self) -> ParamsView {
        self@
    }

    fn code(&self) -> (r: u16) {
        ERR_ERRONEUSNICKNAME
    }

    fn parameters(&self) -> (r: &ParameterList) {
        proof {
            use_type_invariant(self);
        }
        &self.parameters
    }

    fn is_error(&self) -> (r: bool) {
        true
    }

    fn into_parts(self) -> (r: (u16, ParameterList)) {
        proof {
            use_type_invariant(&self);
        }
        (ERR_ERRONEUSNICKNAME, self.parameters)
    }
}

impl Clone for ErroneousNickname {
    fn clone(&self) -> (r: Self)
        ensures
            r@ == self@,
    {
        proof {
            use_type_invariant(self);
        }
        match ErroneousNickname::try_from_params(self.parameters.clone()) {
            Ok(x) => x,
            Err(_) => {
                assert(false);
                unreached()
            },
        }
    }
}

/// The `ERR_NICKNAMEINUSE` reply (433)
#[derive(Debug, PartialEq, Eq)]
pub struct NicknameInUse {
    parameters: ParameterList,
    client: ReplyTarget,
    nickname: Nickname,
}

impl View for NicknameInUse {
    type V = ParamsView;

    closed spec fn view(&self) -> ParamsView {
        self.parameters@
    }
}

/// Whether `p` reads as a `ERR_NICKNAMEINUSE` reply, and if not, the first error
pub open spec fn check_nickname_in_use(p: ParamsView) -> Result<(), ReplyErrorView> {
    if p.all().len() < 3 {
        Err(param_qty(3, p))
    } else {
        first_err(field_reply_target(p, 0), first_err(field_nickname(p, 1), Ok(())))
    }
}

impl NicknameInUse {
    #[verifier::type_invariant]
    spec fn inv(self) -> bool {
        &&& check_nickname_in_use(self.parameters@) is Ok
        &&& field_reply_target(self.parameters@, 0) == Ok::<TargetView, ReplyErrorView>(self.client@)
        &&& field_nickname(self.parameters@, 1) == Ok::<Seq<char>, ReplyErrorView>(self.nickname@)
    }

    /// Reads `parameters` as a `ERR_NICKNAMEINUSE` reply
    pub fn try_from_params(parameters: ParameterList) -> (r: Result<NicknameInUse, ReplyError>)
        ensures
            match r {
                Ok(x) => check_nickname_in_use(parameters@) is Ok && x@ == parameters@,
                Err(e) => check_nickname_in_use(parameters@) == Err::<(), ReplyErrorView>(e@),
            },
    {
        if parameters.len() < 3 {
            return Err(ReplyError::ParamQty { min_required: 3, received: parameters.len() });
        }
        let client = match reply_target_at(&parameters, 0) {
            Ok(v) => v,
            Err(e) => {
                return Err(e);
            },
        };
        let nickname = match nickname_at(&parameters, 1) {
            Ok(v) => v,
            Err(e) => {
                return Err(e);
            },
        };
        Ok(NicknameInUse { parameters, client, nickname })
    }

    pub fn client(&self) -> (r: &ReplyTarget)
        ensures
            field_reply_target(self@, 0) == Ok::<TargetView, ReplyErrorView>(r@),
    {
        proof {
            use_type_invariant(self);
        }
        &self.client
    }

    pub fn nickname(&self) -> (r: &Nickname)
        ensures
            field_nickname(self@, 1) == Ok::<Seq<char>, ReplyErrorView>(r@),
    {
        proof {
            use_type_invariant(self);
        }
        &self.nickname
    }

    pub fn message(&self) -> (r: &str)
        ensures
            r@ == self@.all().last(),
    {
        proof {
            use_type_invariant(self);
        }
        last_str(&self.parameters)
    }

}

impl ReplyParts for NicknameInUse {
    open spec fn reply_code(&self) -> u16 {
        ERR_NICKNAMEINUSE
    }

    open spec fn reply_params(&self) -> ParamsView {
        self@
    }

    fn code(&self) -> (r: u16) {
        ERR_NICKNAMEINUSE
    }

    fn parameters(&self) -> (r: &ParameterList) {
        proof {
            use_type_invariant(self);
        }
        &self.parameters
    }

    fn is_error(&self) -> (r: bool) {
        true
    }

    fn into_parts(self) -> (r: (u16, ParameterList)) {
        proof {
            use_type_invariant(&self);
        }
        (ERR_NICKNAMEINUSE, self.parameters)
    }
}

impl Clone for NicknameInUse {
    fn clone(&self) -> (r: Self)
        ensures
            r@ == self@,
    {
        proof {
            use_type_invariant(self);
        }
        match NicknameInUse::try_from_params(self.parameters.clone()) {
            Ok(x) => x,
            Err(_) => {
                assert(false);
                unreached()
            },
        }
    }
}

/// The `ERR_NICKCOLLISION` reply (436)
#[derive(Debug, PartialEq, Eq)]
pub struct NickCollision {
    parameters: ParameterList,
    client: ReplyTarget,
    nickname: Nickname,
}

impl View for NickCollision {
    type V = ParamsView;

    closed spec fn view(&self) -> ParamsView {
        self.parameters@
    }
}

/// Whether `p` reads as a `ERR_NICKCOLLISION` reply, and if not, the first error
pub open spec fn check_nick_collision(p: ParamsView) -> Result<(), ReplyErrorView> {
    if p.all().len() < 3 {
        Err(param_qty(3, p))
    } else {
        first_err(field_reply_target(p, 0), first_err(field_nickname(p, 1), Ok(())))
    }
}

impl NickCollision {
    #[verifier::type_invariant]
    spec fn inv(self) -> bool {
        &&& check_nick_collision(self.parameters@) is Ok
        &&& field_reply_target(self.parameters@, 0) == Ok::<TargetView, ReplyErrorView>(self.client@)
        &&& field_nickname(self.parameters@, 1) == Ok::<Seq<char>, ReplyErrorView>(self.nickname@)
    }

    /// Reads `parameters` as a `ERR_NICKCOLLISION` reply
    pub fn try_from_params(parameters: ParameterList) -> (r: Result<NickCollision, ReplyError>)
        ensures
            match r {
                Ok(x) => check_nick_collision(parameters@) is Ok && x@ == parameters@,
                Err(e) => check_nick_collision(parameters@) == Err::<(), ReplyErrorView>(e@),
            },
    {
        if parameters.len() < 3 {
            return Err(ReplyError::ParamQty { min_required: 3, received: parameters.len() });
        }
        let client = match reply_target_at(&parameters, 0) {
            Ok(v) => v,
            Err(e) => {
                return Err(e);
            },
        };
        let nickname = match nickname_at(&parameters, 1) {
            Ok(v) => v,
            Err(e) => {
                return Err(e);
            },
        };
        Ok(NickCollision { parameters, client, nickname })
    }

    pub fn client(&self) -> (r: &ReplyTarget)
        ensures
            field_reply_target(self@, 0) == Ok::<TargetView, ReplyErrorView>(r@),
    {
        proof {
            use_type_invariant(self);
        }
        &self.client
    }

    pub fn nickname(&self) -> (r: &Nickname)
        ensures
            field_nickname(self@, 1) == Ok::<Seq<char>, ReplyErrorView>(r@),
    {
        proof {
            use_type_invariant(self);
        }
        &self.nickname
    }

    pub fn message(&self) -> (r: &str)
        ensures
            r@ == self@.all().last(),
    {
        proof {
            use_type_invariant(self);
        }
        last_str(&self.parameters)
    }

}

impl ReplyParts for NickCollision {
    open spec fn reply_code(&self) -> u16 {
        ERR_NICKCOLLISION
    }

    open spec fn reply_params(&self) -> ParamsView {
        self@
    }

    fn code(&self) -> (r: u16) {
        ERR_NICKCOLLISION
    }

    fn parameters(&self) -> (r: &ParameterList) {
        proof {
            use_type_invariant(self);
        }
        &self.parameters
    }

    fn is_error(&self) -> (r: bool) {
        true
    }

    fn into_parts(self) -> (r: (u16, ParameterList)) {
        proof {
            use_type_invariant(&self);
        }
        (ERR_NICKCOLLISION, self.parameters)
    }
}

impl Clone for NickCollision {
    fn clone(&self) -> (r: Self)
        ensures
            r@ == self@,
    {
        proof {
            use_type_invariant(self);
        }
        match NickCollision::try_from_params(self.parameters.clone()) {
            Ok(x) => x,
            Err(_) => {
                assert(false);
                unreached()
            },
        }
    }
}

/// The `ERR_USERNOTINCHANNEL` reply (441)
#[derive(Debug, PartialEq, Eq)]
pub struct UserNotInChannel {
    parameters: ParameterList,
    client: ReplyTarget,
    nickname: Nickname,
    channel: Channel,
}

impl View for UserNotInChannel {
    type V = ParamsView;

    closed spec fn view(&self) -> ParamsView {
        self.parameters@
    }
}

/// Whether `p` reads as a `ERR_USERNOTINCHANNEL` reply, and if not, the first error
pub open spec fn check_user_not_in_channel(p: ParamsView) -> Result<(), ReplyErrorView> {
    if p.all().len() < 4 {
        Err(param_qty(4, p))
    } else {
        first_err(field_reply_target(p, 0), first_err(field_nickname(p, 1), first_err(field_channel(p, 2), Ok(()))))
    }
}

impl UserNotInChannel {
    #[verifier::type_invariant]
    spec fn inv(self) -> bool {
        &&& check_user_not_in_channel(self.parameters@) is Ok
        &&& field_reply_target(self.parameters@, 0) == Ok::<TargetView, ReplyErrorView>(self.client@)
        &&& field_nickname(self.parameters@, 1) == Ok::<Seq<char>, ReplyErrorView>(self.nickname@)
        &&& field_channel(self.parameters@, 2) == Ok::<Seq<char>, ReplyErrorView>(self.channel@)
    }

    /// Reads `parameters` as a `ERR_USERNOTINCHANNEL` reply
    pub fn try_from_params(parameters: ParameterList) -> (r: Result<UserNotInChannel, ReplyError>)
        ensures
            match r {
                Ok(x) => check_user_not_in_channel(parameters@) is Ok && x@ == parameters@,
                Err(e) => check_user_not_in_channel(parameters@) == Err::<(), ReplyErrorView>(e@),
            },
    {
        if parameters.len() < 4 {
            return Err(ReplyError::ParamQty { min_required: 4, received: parameters.len() });
        }
        let client = match reply_target_at(&parameters, 0) {
            Ok(v) => v,
            Err(e) => {
                return Err(e);
            },
        };
        let nickname = match nickname_at(&parameters, 1) {
            Ok(v) => v,
            Err(e) => {
                return Err(e);
            },
        };
        let channel = match channel_at(&parameters, 2) {
            Ok(v) => v,
            Err(e) => {
                return Err(e);
            },
        };
        Ok(UserNotInChannel { parameters, client, nickname, channel })
    }

    pub fn client(&self) -> (r: &ReplyTarget)
        ensures
            field_reply_target(self@, 0) == Ok::<TargetView, ReplyErrorView>(r@),
    {
        proof {
            use_type_invariant(self);
        }
        &self.client
    }

    pub fn nickname(&self) -> (r: &Nickname)
        ensures
            field_nickname(self@, 1) == Ok::<Seq<char>, ReplyErrorView>(r@),
    {
        proof {
            use_type_invariant(self);
        }
        &self.nickname
    }

    pub fn channel(&self) -> (r: &Channel)
        ensures
            field_channel(self@, 2) == Ok::<Seq<char>, ReplyErrorView>(r@),
    {
        proof {
            use_type_invariant(self);
        }
        &self.channel
    }

    pub fn message(&self) -> (r: &str)
        ensures
            r@ == self@.all().last(),
    {
        proof {
            use_type_invariant(self);
        }
        last_str(&self.parameters)
    }

}

impl ReplyParts for UserNotInChannel {
    open spec fn reply_code(&self) -> u16 {
        ERR_USERNOTINCHANNEL
    }

    open spec fn reply_params(&self) -> ParamsView {
        self@
    }

    fn code(&self) -> (r: u16) {
        ERR_USERNOTINCHANNEL
    }

    fn parameters(&self) -> (r: &ParameterList) {
        proof {
            use_type_invariant(self);
        }
        &self.parameters
    }

    fn is_error(&self) -> (r: bool) {
        true
    }

    fn into_parts(self) -> (r: (u16, ParameterList)) {
        proof {
            use_type_invariant(&self);
        }
        (ERR_USERNOTINCHANNEL, self.parameters)
    }
}

impl Clone for UserNotInChannel {
    fn clone(&self) -> (r: Self)
        ensures
            r@ == self@,
    {
        proof {
            use_type_invariant(self);
        }
        match UserNotInChannel::try_from_params(self.parameters.clone()) {
            Ok(x) => x,
            Err(_) => {
                assert(false);
                unreached()
            },
        }
    }
}

/// The `ERR_NOTONCHANNEL` reply (442)
#[derive(Debug, PartialEq, Eq)]
pub struct NotOnChannel {
    parameters: ParameterList,
    client: ReplyTarget,
    channel: Channel,
}

impl View for NotOnChannel {
    type V = ParamsView;

    closed spec fn view(&self) -> ParamsView {
        self.parameters@
    }
}

/// Whether `p` reads as a `ERR_NOTONCHANNEL` reply, and if not, the first error
pub open spec fn check_not_on_channel(p: ParamsView) -> Result<(), ReplyErrorView> {
    if p.all().len() < 3 {
        Err(param_qty(3, p))
    } else {
        first_err(field_reply_target(p, 0), first_err(field_channel(p, 1), Ok(())))
    }
}

impl NotOnChannel {
    #[verifier::type_invariant]
    spec fn inv(self) -> bool {
        &&& check_not_on_channel(self.parameters@) is Ok
        &&& field_reply_target(self.parameters@, 0) == Ok::<TargetView, ReplyErrorView>(self.client@)
        &&& field_channel(self.parameters@, 1) == Ok::<Seq<char>, ReplyErrorView>(self.channel@)
    }

    /// Reads `parameters` as a `ERR_NOTONCHANNEL` reply
    pub fn try_from_params(parameters: ParameterList) -> (r: Result<NotOnChannel, ReplyError>)
        ensures
            match r {
                Ok(x) => check_not_on_channel(parameters@) is Ok && x@ == parameters@,
                Err(e) => check_not_on_channel(parameters@) == Err::<(), ReplyErrorView>(e@),
            },
    {
        if parameters.len() < 3 {
            return Err(ReplyError::ParamQty { min_required: 3, received: parameters.len() });
        }
        let client = match reply_target_at(&parameters, 0) {
            Ok(v) => v,
            Err(e) => {
                return Err(e);
            },
        };
        let channel = match channel_at(&parameters, 1) {
            Ok(v) => v,
            Err(e) => {
                return Err(e);
            },
        };
        Ok(NotOnChannel { parameters, client, channel })
    }

    pub fn client(&self) -> (r: &ReplyTarget)
        ensures
            field_reply_target(self@, 0) == Ok::<TargetView, ReplyErrorView>(r@),
    {
        proof {
            use_type_invariant(self);
        }
        &self.client
    }

    pub fn channel(&self) -> (r: &Channel)
        ensures
            field_channel(self@, 1) == Ok::<Seq<char>, ReplyErrorView>(r@),
    {
        proof {
            use_type_invariant(self);
        }
        &self.channel
    }

    pub fn message(&self) -> (r: &str)
        ensures
            r@ == self@.all().last(),
    {
        proof {
            use_type_invariant(self);
        }
        last_str(&self.parameters)
    }

}

impl ReplyParts for NotOnChannel {
    open spec fn reply_code(&self) -> u16 {
        ERR_NOTONCHANNEL
    }

    open spec fn reply_params(&self) -> ParamsView {
        self@
    }

    fn code(&self) -> (r: u16) {
        ERR_NOTONCHANNEL
    }

    fn parameters(&self) -> (r: &ParameterList) {
        proof {
            use_type_invariant(self);
        }
        &self.parameters
    }

    fn is_error(&self) -> (r: bool) {
        true
    }

    fn into_parts(self) -> (r: (u16, ParameterList)) {
        proof {
            use_type_invariant(&self);
        }
        (ERR_NOTONCHANNEL, self.parameters)
    }
}

impl Clone for NotOnChannel {
    fn clone(&self) -> (r: Self)
        ensures
            r@ == self@,
    {
        proof {
            use_type_invariant(self);
        }
        match NotOnChannel::try_from_params(self.parameters.clone()) {
            Ok(x) => x,
            Err(_) => {
                assert(false);
                unreached()
            },
        }
    }
}

/// The `ERR_USERONCHANNEL` reply (443)
#[derive(Debug, PartialEq, Eq)]
pub struct UserOnChannel {
    parameters: ParameterList,
    client: ReplyTarget,
    nickname: Nickname,
    channel: Channel,
}

impl View for UserOnChannel {
    type V = ParamsView;

    closed spec fn view(&self) -> ParamsView {
        self.parameters@
    }
}

/// Whether `p` reads as a `ERR_USERONCHANNEL` reply, and if not, the first error
pub open spec fn check_user_on_channel(p: ParamsView) -> Result<(), ReplyErrorView> {
    if p.all().len() < 4 {
        Err(param_qty(4, p))
    } else {
        first_err(field_reply_target(p, 0), first_err(field_nickname(p, 1), first_err(field_channel(p, 2), Ok(()))))
    }
}

impl UserOnChannel {
    #[verifier::type_invariant]
    spec fn inv(self) -> bool {
        &&& check_user_on_channel(self.parameters@) is Ok
        &&& field_reply_target(self.parameters@, 0) == Ok::<TargetView, ReplyErrorView>(self.client@)
        &&& field_nickname(self.parameters@, 1) == Ok::<Seq<char>, ReplyErrorView>(self.nickname@)
        &&& field_channel(self.parameters@, 2) == Ok::<Seq<char>, ReplyErrorView>(self.channel@)
    }

    /// Reads `parameters` as a `ERR_USERONCHANNEL` reply
    pub fn try_from_params(parameters: ParameterList) -> (r: Result<UserOnChannel, ReplyError>)
        ensures
            match r {
                Ok(x) => check_user_on_channel(parameters@) is Ok && x@ == parameters@,
                Err(e) => check_user_on_channel(parameters@) == Err::<(), ReplyErrorView>(e@),
            },
    {
        if parameters.len() < 4 {
            return Err(ReplyError::ParamQty { min_required: 4, received: parameters.len() });
        }
        let client = match reply_target_at(&parameters, 0) {
            Ok(v) => v,
            Err(e) => {
                return Err(e);
            },
        };
        let nickname = match nickname_at(&parameters, 1) {
            Ok(v) => v,
            Err(e) => {
                return Err(e);
            },
        };
        let channel = match channel_at(&parameters, 2) {
            Ok(v) => v,
            Err(e) => {
                return Err(e);
            },
        };
        Ok(UserOnChannel { parameters, client, nickname, channel })
    }

    pub fn client(&self) -> (r: &ReplyTarget)
        ensures
            field_reply_target(self@, 0) == Ok::<TargetView, ReplyErrorView>(r@),
    {
        proof {
            use_type_invariant(self);
        }
        &self.client
    }

    pub fn nickname(&self) -> (r: &Nickname)
        ensures
            field_nickname(self@, 1) == Ok::<Seq<char>, ReplyErrorView>(r@),
    {
        proof {
            use_type_invariant(self);
        }
        &self.nickname
    }

    pub fn channel(&self) -> (r: &Channel)
        ensures
            field_channel(self@, 2) == Ok::<Seq<char>, ReplyErrorView>(r@),
    {
        proof {
            use_type_invariant(self);
        }
        &self.channel
    }

    pub fn message(&self) -> (r: &str)
        ensures
            r@ == self@.all().last(),
    {
        proof {
            use_type_invariant(self);
        }
        last_str(&self.parameters)
    }

}

impl ReplyParts for UserOnChannel {
    open spec fn reply_code(&self) -> u16 {
        ERR_USERONCHANNEL
    }

    open spec fn reply_params(&self) -> ParamsView {
        self@
    }

    fn code(&self) -> (r: u16) {
        ERR_USERONCHANNEL
    }

    fn parameters(&self) -> (r: &ParameterList) {
        proof {
            use_type_invariant(self);
        }
        &self.parameters
    }

    fn is_error(&self) -> (r: bool) {
        true
    }

    fn into_parts(self) -> (r: (u16, ParameterList)) {
        proof {
            use_type_invariant(&self);
        }
        (ERR_USERONCHANNEL, self.parameters)
    }
}

impl Clone for UserOnChannel {
    fn clone(&self) -> (r: Self)
        ensures
            r@ == self@,
    {
        proof {
            use_type_invariant(self);
        }
        match UserOnChannel::try_from_params(self.parameters.clone()) {
            Ok(x) => x,
            Err(_) => {
                assert(false);
                unreached()
            },
        }
    }
}

/// The `ERR_NOTREGISTERED` reply (451)
#[derive(Debug, PartialEq, Eq)]
pub struct NotRegistered {
    parameters: ParameterList,
    client: ReplyTarget,
}

impl View for NotRegistered {
    type V = ParamsView;

    closed spec fn view(&self) -> ParamsView {
        self.parameters@
    }
}

/// Whether `p` reads as a `ERR_NOTREGISTERED` reply, and if not, the first error
pub open spec fn check_not_registered(p: ParamsView) -> Result<(), ReplyErrorView> {
    if p.all().len() < 2 {
        Err(param_qty(2, p))
    } else {
        first_err(field_reply_target(p, 0), Ok(()))
    }
}

impl NotRegistered {
    #[verifier::type_invariant]
    spec fn inv(self) -> bool {
        &&& check_not_registered(self.parameters@) is Ok
        &&& field_reply_target(self.parameters@, 0) == Ok::<TargetView, ReplyErrorView>(self.client@)
    }

    /// Reads `parameters` as a `ERR_NOTREGISTERED` reply
    pub fn try_from_params(parameters: ParameterList) -> (r: Result<NotRegistered, ReplyError>)
        ensures
            match r {
                Ok(x) => check_not_registered(parameters@) is Ok && x@ == parameters@,
                Err(e) => check_not_registered(parameters@) == Err::<(), ReplyErrorView>(e@),
            },
    {
        if parameters.len() < 2 {
            return Err(ReplyError::ParamQty { min_required: 2, received: parameters.len() });
        }
        let client = match reply_target_at(&parameters, 0) {
            Ok(v) => v,
            Err(e) => {
                return Err(e);
            },
        };
        Ok(NotRegistered { parameters, client })
    }

    pub fn client(&self) -> (r: &ReplyTarget)
        ensures
            field_reply_target(self@, 0) == Ok::<TargetView, ReplyErrorView>(r@),
    {
        proof {
            use_type_invariant(self);
        }
        &self.client
    }

    pub fn message(&self) -> (r: &str)
        ensures
            r@ == self@.all().last(),
    {
        proof {
            use_type_invariant(self);
        }
        last_str(&self.parameters)
    }

}

impl ReplyParts for NotRegistered {
    open spec fn reply_code(&self) -> u16 {
        ERR_NOTREGISTERED
    }

    open spec fn reply_params(&self) -> ParamsView {
        self@
    }

    fn code(&self) -> (r: u16) {
        ERR_NOTREGISTERED
    }

    fn parameters(&self) -> (r: &ParameterList) {
        proof {
            use_type_invariant(self);
        }
        &self.parameters
    }

    fn is_error(&self) -> (r: bool) {
        true
    }

    fn into_parts(self) -> (r: (u16, ParameterList)) {
        proof {
            use_type_invariant(&self);
        }
        (ERR_NOTREGISTERED, self.parameters)
    }
}

impl Clone for NotRegistered {
    fn clone(&self) -> (r: Self)
        ensures
            r@ == self@,
    {
        proof {
            use_type_invariant(self);
        }
        match NotRegistered::try_from_params(self.parameters.clone()) {
            Ok(x) => x,
            Err(_) => {
                assert(false);
                unreached()
            },
        }
    }
}

/// The `ERR_NEEDMOREPARAMS` reply (461)
#[derive(Debug, PartialEq, Eq)]
pub struct NeedMoreParams {
    parameters: ParameterList,
    client: ReplyTarget,
    command: Verb,
}

impl View for NeedMoreParams {
    type V = ParamsView;

    closed spec fn view(&self) -> ParamsView {
        self.parameters@
    }
}

/// Whether `p` reads as a `ERR_NEEDMOREPARAMS` reply, and if not, the first error
pub open spec fn check_need_more_params(p: ParamsView) -> Result<(), ReplyErrorView> {
    if p.all().len() < 3 {
        Err(param_qty(3, p))
    } else {
        first_err(field_reply_target(p, 0), Ok(()))
    }
}

impl NeedMoreParams {
    #[verifier::type_invariant]
    spec fn inv(self) -> bool {
        &&& check_need_more_params(self.parameters@) is Ok
        &&& field_reply_target(self.parameters@, 0) == Ok::<TargetView, ReplyErrorView>(self.client@)
        &&& self.command@ == param_at(self.parameters@, 1)
    }

    /// Reads `parameters` as a `ERR_NEEDMOREPARAMS` reply
    pub fn try_from_params(parameters: ParameterList) -> (r: Result<NeedMoreParams, ReplyError>)
        ensures
            match r {
                Ok(x) => check_need_more_params(parameters@) is Ok && x@ == parameters@,
                Err(e) => check_need_more_params(parameters@) == Err::<(), ReplyErrorView>(e@),
            },
    {
        if parameters.len() < 3 {
            return Err(ReplyError::ParamQty { min_required: 3, received: parameters.len() });
        }
        let client = match reply_target_at(&parameters, 0) {
            Ok(v) => v,
            Err(e) => {
                return Err(e);
            },
        };
        let command = verb_at(&parameters, 1);
        Ok(NeedMoreParams { parameters, client, command })
    }

    pub fn client(&self) -> (r: &ReplyTarget)
        ensures
            field_reply_target(self@, 0) == Ok::<TargetView, ReplyErrorView>(r@),
    {
        proof {
            use_type_invariant(self);
        }
        &self.client
    }

    pub fn command(&self) -> (r: &Verb)
        ensures
            r@ == param_at(self@, 1),
    {
        proof {
            use_type_invariant(self);
        }
        &self.command
    }

    pub fn message(&self) -> (r: &str)
        ensures
            r@ == self@.all().last(),
    {
        proof {
            use_type_invariant(self);
        }
        last_str(&self.parameters)
    }

}

impl ReplyParts for NeedMoreParams {
    open spec fn reply_code(&self) -> u16 {
        ERR_NEEDMOREPARAMS
    }

    open spec fn reply_params(&self) -> ParamsView {
        self@
    }

    fn code(&self) -> (r: u16) {
        ERR_NEEDMOREPARAMS
    }

    fn parameters(&self) -> (r: &ParameterList) {
        proof {
            use_type_invariant(self);
        }
        &self.parameters
    }

    fn is_error(&self) -> (r: bool) {
        true
    }

    fn into_parts(self) -> (r: (u16, ParameterList)) {
        proof {
            use_type_invariant(&self);
        }
        (ERR_NEEDMOREPARAMS, self.parameters)
    }
}

impl Clone for NeedMoreParams {
    fn clone(&self) -> (r: Self)
        ensures
            r@ == self@,
    {
        proof {
            use_type_invariant(self);
        }
        match NeedMoreParams::try_from_params(self.parameters.clone()) {
            Ok(x) => x,
            Err(_) => {
                assert(false);
                unreached()
            },
        }
    }
}

/// The `ERR_ALREADYREGISTERED` reply (462)
#[derive(Debug, PartialEq, Eq)]
pub struct AlreadyRegistered {
    parameters: ParameterList,
    client: ReplyTarget,
}

impl View for AlreadyRegistered {
    type V = ParamsView;

    closed spec fn view(&self) -> ParamsView {
        self.parameters@
    }
}

/// Whether `p` reads as a `ERR_ALREADYREGISTERED` reply, and if not, the first error
pub open spec fn check_already_registered(p: ParamsView) -> Result<(), ReplyErrorView> {
    if p.all().len() < 2 {
        Err(param_qty(2, p))
    } else {
        first_err(field_reply_target(p, 0), Ok(()))
    }
}

impl AlreadyRegistered {
    #[verifier::type_invariant]
    spec fn inv(self) -> bool {
        &&& check_already_registered(self.parameters@) is Ok
        &&& field_reply_target(self.parameters@, 0) == Ok::<TargetView, ReplyErrorView>(self.client@)
    }

    /// Reads `parameters` as a `ERR_ALREADYREGISTERED` reply
    pub fn try_from_params(parameters: ParameterList) -> (r: Result<AlreadyRegistered, ReplyError>)
        ensures
            match r {
                Ok(x) => check_already_registered(parameters@) is Ok && x@ == parameters@,
                Err(e) => check_already_registered(parameters@) == Err::<(), ReplyErrorView>(e@),
            },
    {
        if parameters.len() < 2 {
            return Err(ReplyError::ParamQty { min_required: 2, received: parameters.len() });
        }
        let client = match reply_target_at(&parameters, 0) {
            Ok(v) => v,
            Err(e) => {
                return Err(e);
            },
        };
        Ok(AlreadyRegistered { parameters, client })
    }

    pub fn client(&self) -> (r: &ReplyTarget)
        ensures
            field_reply_target(self@, 0) == Ok::<TargetView, ReplyErrorView>(r@),
    {
        proof {
            use_type_invariant(self);
        }
        &self.client
    }

    pub fn message(&self) -> (r: &str)
        ensures
            r@ == self@.all().last(),
    {
        proof {
            use_type_invariant(self);
        }
        last_str(&self.parameters)
    }

}

impl ReplyParts for AlreadyRegistered {
    open spec fn reply_code(&self) -> u16 {
        ERR_ALREADYREGISTERED
    }

    open spec fn reply_params(&self) -> ParamsView {
        self@
    }

    fn code(&self) -> (r: u16) {
        ERR_ALREADYREGISTERED
    }

    fn parameters(&self) -> (r: &ParameterList) {
        proof {
            use_type_invariant(self);
        }
        &self.parameters
    }

    fn is_error(&self) -> (r: bool) {
        true
    }

    fn into_parts(self) -> (r: (u16, ParameterList)) {
        proof {
            use_type_invariant(&self);
        }
        (ERR_ALREADYREGISTERED, self.parameters)
    }
}

impl Clone for AlreadyRegistered {
    fn clone(&self) -> (r: Self)
        ensures
            r@ == self@,
    {
        proof {
            use_type_invariant(self);
        }
        match AlreadyRegistered::try_from_params(self.parameters.clone()) {
            Ok(x) => x,
            Err(_) => {
                assert(false);
                unreached()
            },
        }
    }
}

/// The `ERR_PASSWDMISMATCH` reply (464)
#[derive(Debug, PartialEq, Eq)]
pub struct PasswdMismatch {
    parameters: ParameterList,
    client: ReplyTarget,
}

impl View for PasswdMismatch {
    type V = ParamsView;

    closed spec fn view(&self) -> ParamsView {
        self.parameters@
    }
}

/// Whether `p` reads as a `ERR_PASSWDMISMATCH` reply, and if not, the first error
pub open spec fn check_passwd_mismatch(p: ParamsView) -> Result<(), ReplyErrorView> {
    if p.all().len() < 2 {
        Err(param_qty(2, p))
    } else {
        first_err(field_reply_target(p, 0), Ok(()))
    }
}

impl PasswdMismatch {
    #[verifier::type_invariant]
    spec fn inv(self) -> bool {
        &&& check_passwd_mismatch(self.parameters@) is Ok
        &&& field_reply_target(self.parameters@, 0) == Ok::<TargetView, ReplyErrorView>(self.client@)
    }

    /// Reads `parameters` as a `ERR_PASSWDMISMATCH` reply
    pub fn try_from_params(parameters: ParameterList) -> (r: Result<PasswdMismatch, ReplyError>)
        ensures
            match r {
                Ok(x) => check_passwd_mismatch(parameters@) is Ok && x@ == parameters@,
                Err(e) => check_passwd_mismatch(parameters@) == Err::<(), ReplyErrorView>(e@),
            },
    {
        if parameters.len() < 2 {
            return Err(ReplyError::ParamQty { min_required: 2, received: parameters.len() });
        }
        let client = match reply_target_at(&parameters, 0) {
            Ok(v) => v,
            Err(e) => {
                return Err(e);
            },
        };
        Ok(PasswdMismatch { parameters, client })
    }

    pub fn client(&self) -> (r: &ReplyTarget)
        ensures
            field_reply_target(self@, 0) == Ok::<TargetView, ReplyErrorView>(r@),
    {
        proof {
            use_type_invariant(self);
        }
        &self.client
    }

    pub fn message(&self) -> (r: &str)
        ensures
            r@ == self@.all().last(),
    {
        proof {
            use_type_invariant(self);
        }
        last_str(&self.parameters)
    }

}

impl ReplyParts for PasswdMismatch {
    open spec fn reply_code(&self) -> u16 {
        ERR_PASSWDMISMATCH
    }

    open spec fn reply_params(&self) -> ParamsView {
        self@
    }

    fn code(&self) -> (r: u16) {
        ERR_PASSWDMISMATCH
    }

    fn parameters(&self) -> (r: &ParameterList) {
        proof {
            use_type_invariant(self);
        }
        &self.parameters
    }

    fn is_error(&self) -> (r: bool) {
        true
    }

    fn into_parts(self) -> (r: (u16, ParameterList)) {
        proof {
            use_type_invariant(&self);
        }
        (ERR_PASSWDMISMATCH, self.parameters)
    }
}

impl Clone for PasswdMismatch {
    fn clone(&self) -> (r: Self)
        ensures
            r@ == self@,
    {
        proof {
            use_type_invariant(self);
        }
        match PasswdMismatch::try_from_params(self.parameters.clone()) {
            Ok(x) => x,
            Err(_) => {
                assert(false);
                unreached()
            },
        }
    }
}

/// The `ERR_YOUREBANNEDCREEP` reply (465)
#[derive(Debug, PartialEq, Eq)]
pub struct YoureBannedCreep {
    parameters: ParameterList,
    client: ReplyTarget,
}

impl View for YoureBannedCreep {
    type V = ParamsView;

    closed spec fn view(&self) -> ParamsView {
        self.parameters@
    }
}

/// Whether `p` reads as a `ERR_YOUREBANNEDCREEP` reply, and if not, the first error
pub open spec fn check_youre_banned_creep(p: ParamsView) -> Result<(), ReplyErrorView> {
    if p.all().len() < 2 {
        Err(param_qty(2, p))
    } else {
        first_err(field_reply_target(p, 0), Ok(()))
    }
}

impl YoureBannedCreep {
    #[verifier::type_invariant]
    spec fn inv(self) -> bool {
        &&& check_youre_banned_creep(self.parameters@) is Ok
        &&& field_reply_target(self.parameters@, 0) == Ok::<TargetView, ReplyErrorView>(self.client@)
    }

    /// Reads `parameters` as a `ERR_YOUREBANNEDCREEP` reply
    pub fn try_from_params(parameters: ParameterList) -> (r: Result<YoureBannedCreep, ReplyError>)
        ensures
            match r {
                Ok(x) => check_youre_banned_creep(parameters@) is Ok && x@ == parameters@,
                Err(e) => check_youre_banned_creep(parameters@) == Err::<(), ReplyErrorView>(e@),
            },
    {
        if parameters.len() < 2 {
            return Err(ReplyError::ParamQty { min_required: 2, received: parameters.len() });
        }
        let client = match reply_target_at(&parameters, 0) {
            Ok(v) => v,
            Err(e) => {
                return Err(e);
            },
        };
        Ok(YoureBannedCreep { parameters, client })
    }

    pub fn client(&self) -> (r: &ReplyTarget)
        ensures
            field_reply_target(self@, 0) == Ok::<TargetView, ReplyErrorView>(r@),
    {
        proof {
            use_type_invariant(self);
        }
        &self.client
    }

    pub fn message(&self) -> (r: &str)
        ensures
            r@ == self@.all().last(),
    {
        proof {
            use_type_invariant(self);
        }
        last_str(&self.parameters)
    }

}

impl ReplyParts for YoureBannedCreep {
    open spec fn reply_code(&self) -> u16 {
        ERR_YOUREBANNEDCREEP
    }

    open spec fn reply_params(&self) -> ParamsView {
        self@
    }

    fn code(&self) -> (r: u16) {
        ERR_YOUREBANNEDCREEP
    }

    fn parameters(&self) -> (r: &ParameterList) {
        proof {
            use_type_invariant(self);
        }
        &self.parameters
    }

    fn is_error(&self) -> (r: bool) {
        true
    }

    fn into_parts(self) -> (r: (u16, ParameterList)) {
        proof {
            use_type_invariant(&self);
        }
        (ERR_YOUREBANNEDCREEP, self.parameters)
    }
}

impl Clone for YoureBannedCreep {
    fn clone(&self) -> (r: Self)
        ensures
            r@ == self@,
    {
        proof {
            use_type_invariant(self);
        }
        match YoureBannedCreep::try_from_params(self.parameters.clone()) {
            Ok(x) => x,
            Err(_) => {
                assert(false);
                unreached()
            },
        }
    }
}

/// The `ERR_CHANNELISFULL` reply (471)
#[derive(Debug, PartialEq, Eq)]
pub struct ChannelIsFull {
    parameters: ParameterList,
    client: ReplyTarget,
    channel: Channel,
}

impl View for ChannelIsFull {
    type V = ParamsView;

    closed spec fn view(&self) -> ParamsView {
        self.parameters@
    }
}

/// Whether `p` reads as a `ERR_CHANNELISFULL` reply, and if not, the first error
pub open spec fn check_channel_is_full(p: ParamsView) -> Result<(), ReplyErrorView> {
    if p.all().len() < 3 {
        Err(param_qty(3, p))
    } else {
        first_err(field_reply_target(p, 0), first_err(field_channel(p, 1), Ok(())))
    }
}

impl ChannelIsFull {
    #[verifier::type_invariant]
    spec fn inv(self) -> bool {
        &&& check_channel_is_full(self.parameters@) is Ok
        &&& field_reply_target(self.parameters@, 0) == Ok::<TargetView, ReplyErrorView>(self.client@)
        &&& field_channel(self.parameters@, 1) == Ok::<Seq<char>, ReplyErrorView>(self.channel@)
    }

    /// Reads `parameters` as a `ERR_CHANNELISFULL` reply
    pub fn try_from_params(parameters: ParameterList) -> (r: Result<ChannelIsFull, ReplyError>)
        ensures
            match r {
                Ok(x) => check_channel_is_full(parameters@) is Ok && x@ == parameters@,
                Err(e) => check_channel_is_full(parameters@) == Err::<(), ReplyErrorView>(e@),
            },
    {
        if parameters.len() < 3 {
            return Err(ReplyError::ParamQty { min_required: 3, received: parameters.len() });
        }
        let client = match reply_target_at(&parameters, 0) {
            Ok(v) => v,
            Err(e) => {
                return Err(e);
            },
        };
        let channel = match channel_at(&parameters, 1) {
            Ok(v) => v,
            Err(e) => {
                return Err(e);
            },
        };
        Ok(ChannelIsFull { parameters, client, channel })
    }

    pub fn client(&self) -> (r: &ReplyTarget)
        ensures
            field_reply_target(self@, 0) == Ok::<TargetView, ReplyErrorView>(r@),
    {
        proof {
            use_type_invariant(self);
        }
        &self.client
    }

    pub fn channel(&self) -> (r: &Channel)
        ensures
            field_channel(self@, 1) == Ok::<Seq<char>, ReplyErrorView>(r@),
    {
        proof {
            use_type_invariant(self);
        }
        &self.channel
    }

    pub fn message(&self) -> (r: &str)
        ensures
            r@ == self@.all().last(),
    {
        proof {
            use_type_invariant(self);
        }
        last_str(&self.parameters)
    }

}

impl ReplyParts for ChannelIsFull {
    open spec fn reply_code(&self) -> u16 {
        ERR_CHANNELISFULL
    }

    open spec fn reply_params(&self) -> ParamsView {
        self@
    }

    fn code(&self) -> (r: u16) {
        ERR_CHANNELISFULL
    }

    fn parameters(&self) -> (r: &ParameterList) {
        proof {
            use_type_invariant(self);
        }
        &self.parameters
    }

    fn is_error(&self) -> (r: bool) {
        true
    }

    fn into_parts(self) -> (r: (u16, ParameterList)) {
        proof {
            use_type_invariant(&self);
        }
        (ERR_CHANNELISFULL, self.parameters)
    }
}

impl Clone for ChannelIsFull {
    fn clone(&self) -> (r: Self)
        ensures
            r@ == self@,
    {
        proof {
            use_type_invariant(self);
        }
        match ChannelIsFull::try_from_params(self.parameters.clone()) {
            Ok(x) => x,
            Err(_) => {
                assert(false);
                unreached()
            },
        }
    }
}

/// The `ERR_UNKNOWNMODE` reply (472)
#[derive(Debug, PartialEq, Eq)]
pub struct UnknownMode {
    parameters: ParameterList,
    client: ReplyTarget,
}

impl View for UnknownMode {
    type V = ParamsView;

    closed spec fn view(&self) -> ParamsView {
        self.parameters@
    }
}

/// Whether `p` reads as a `ERR_UNKNOWNMODE` reply, and if not, the first error
pub open spec fn check_unknown_mode(p: ParamsView) -> Result<(), ReplyErrorView> {
    if p.all().len() < 3 {
        Err(param_qty(3, p))
    } else {
        first_err(field_reply_target(p, 0), Ok(()))
    }
}

impl UnknownMode {
    #[verifier::type_invariant]
    spec fn inv(self) -> bool {
        &&& check_unknown_mode(self.parameters@) is Ok
        &&& field_reply_target(self.parameters@, 0) == Ok::<TargetView, ReplyErrorView>(self.client@)
    }

    /// Reads `parameters` as a `ERR_UNKNOWNMODE` reply
    pub fn try_from_params(parameters: ParameterList) -> (r: Result<UnknownMode, ReplyError>)
        ensures
            match r {
                Ok(x) => check_unknown_mode(parameters@) is Ok && x@ == parameters@,
                Err(e) => check_unknown_mode(parameters@) == Err::<(), ReplyErrorView>(e@),
            },
    {
        if parameters.len() < 3 {
            return Err(ReplyError::ParamQty { min_required: 3, received: parameters.len() });
        }
        let client = match reply_target_at(&parameters, 0) {
            Ok(v) => v,
            Err(e) => {
                return Err(e);
            },
        };
        Ok(UnknownMode { parameters, client })
    }

    pub fn client(&self) -> (r: &ReplyTarget)
        ensures
            field_reply_target(self@, 0) == Ok::<TargetView, ReplyErrorView>(r@),
    {
        proof {
            use_type_invariant(self);
        }
        &self.client
    }

    pub fn modechar(&self) -> (r: &str)
        ensures
            r@ == param_at(self@, 1),
    {
        proof {
            use_type_invariant(self);
        }
        param_str(&self.parameters, 1)
    }

    pub fn message(&self) -> (r: &str)
        ensures
            r@ == self@.all().last(),
    {
        proof {
            use_type_invariant(self);
        }
        last_str(&self.parameters)
    }

}

impl ReplyParts for UnknownMode {
    open spec fn reply_code(&self) -> u16 {
        ERR_UNKNOWNMODE
    }

    open spec fn reply_params(&self) -> ParamsView {
        self@
    }

    fn code(&self) -> (r: u16) {
        ERR_UNKNOWNMODE
    }

    fn parameters(&self) -> (r: &ParameterList) {
        proof {
            use_type_invariant(self);
        }
        &self.parameters
    }

    fn is_error(&self) -> (r: bool) {
        true
    }

    fn into_parts(self) -> (r: (u16, ParameterList)) {
        proof {
            use_type_invariant(&self);
        }
        (ERR_UNKNOWNMODE, self.parameters)
    }
}

impl Clone for UnknownMode {
    fn clone(&self) -> (r: Self)
        ensures
            r@ == self@,
    {
        proof {
            use_type_invariant(self);
        }
        match UnknownMode::try_from_params(self.parameters.clone()) {
            Ok(x) => x,
            Err(_) => {
                assert(false);
                unreached()
            },
        }
    }
}

/// The `ERR_INVITEONLYCHAN` reply (473)
#[derive(Debug, PartialEq, Eq)]
pub struct InviteOnlyChan {
    parameters: ParameterList,
    client: ReplyTarget,
    channel: Channel,
}

impl View for InviteOnlyChan {
    type V = ParamsView;

    closed spec fn view(&self) -> ParamsView {
        self.parameters@
    }
}

/// Whether `p` reads as a `ERR_INVITEONLYCHAN` reply, and if not, the first error
pub open spec fn check_invite_only_chan(p: ParamsView) -> Result<(), ReplyErrorView> {
    if p.all().len() < 3 {
        Err(param_qty(3, p))
    } else {
        first_err(field_reply_target(p, 0), first_err(field_channel(p, 1), Ok(())))
    }
}

impl InviteOnlyChan {
    #[verifier::type_invariant]
    spec fn inv(self) -> bool {
        &&& check_invite_only_chan(self.parameters@) is Ok
        &&& field_reply_target(self.parameters@, 0) == Ok::<TargetView, ReplyErrorView>(self.client@)
        &&& field_channel(self.parameters@, 1) == Ok::<Seq<char>, ReplyErrorView>(self.channel@)
    }

    /// Reads `parameters` as a `ERR_INVITEONLYCHAN` reply
    pub fn try_from_params(parameters: ParameterList) -> (r: Result<InviteOnlyChan, ReplyError>)
        ensures
            match r {
                Ok(x) => check_invite_only_chan(parameters@) is Ok && x@ == parameters@,
                Err(e) => check_invite_only_chan(parameters@) == Err::<(), ReplyErrorView>(e@),
            },
    {
        if parameters.len() < 3 {
            return Err(ReplyError::ParamQty { min_required: 3, received: parameters.len() });
        }
        let client = match reply_target_at(&parameters, 0) {
            Ok(v) => v,
            Err(e) => {
                return Err(e);
            },
        };
        let channel = match channel_at(&parameters, 1) {
            Ok(v) => v,
            Err(e) => {
                return Err(e);
            },
        };
        Ok(InviteOnlyChan { parameters, client, channel })
    }

    pub fn client(&self) -> (r: &ReplyTarget)
        ensures
            field_reply_target(self@, 0) == Ok::<TargetView, ReplyErrorView>(r@),
    {
        proof {
            use_type_invariant(self);
        }
        &self.client
    }

    pub fn channel(&self) -> (r: &Channel)
        ensures
            field_channel(self@, 1) == Ok::<Seq<char>, ReplyErrorView>(r@),
    {
        proof {
            use_type_invariant(self);
        }
        &self.channel
    }

    pub fn message(&self) -> (r: &str)
        ensures
            r@ == self@.all().last(),
    {
        proof {
            use_type_invariant(self);
        }
        last_str(&self.parameters)
    }

}

impl ReplyParts for InviteOnlyChan {
    open spec fn reply_code(&self) -> u16 {
        ERR_INVITEONLYCHAN
    }

    open spec fn reply_params(&self) -> ParamsView {
        self@
    }

    fn code(&self) -> (r: u16) {
        ERR_INVITEONLYCHAN
    }

    fn parameters(&self) -> (r: &ParameterList) {
        proof {
            use_type_invariant(self);
        }
        &self.parameters
    }

    fn is_error(&self) -> (r: bool) {
        true
    }

    fn into_parts(self) -> (r: (u16, ParameterList)) {
        proof {
            use_type_invariant(&self);
        }
        (ERR_INVITEONLYCHAN, self.parameters)
    }
}

impl Clone for InviteOnlyChan {
    fn clone(&self) -> (r: Self)
        ensures
            r@ == self@,
    {
        proof {
            use_type_invariant(self);
        }
        match InviteOnlyChan::try_from_params(self.parameters.clone()) {
            Ok(x) => x,
            Err(_) => {
                assert(false);
                unreached()
            },
        }
    }
}

/// The `ERR_BANNEDFROMCHAN` reply (474)
#[derive(Debug, PartialEq, Eq)]
pub struct BannedFromChan {
    parameters: ParameterList,
    client: ReplyTarget,
    channel: Channel,
}

impl View for BannedFromChan {
    type V = ParamsView;

    closed spec fn view(&self) -> ParamsView {
        self.parameters@
    }
}

/// Whether `p` reads as a `ERR_BANNEDFROMCHAN` reply, and if not, the first error
pub open spec fn check_banned_from_chan(p: ParamsView) -> Result<(), ReplyErrorView> {
    if p.all().len() < 3 {
        Err(param_qty(3, p))
    } else {
        first_err(field_reply_target(p, 0), first_err(field_channel(p, 1), Ok(())))
    }
}

impl BannedFromChan {
    #[verifier::type_invariant]
    spec fn inv(self) -> bool {
        &&& check_banned_from_chan(self.parameters@) is Ok
        &&& field_reply_target(self.parameters@, 0) == Ok::<TargetView, ReplyErrorView>(self.client@)
        &&& field_channel(self.parameters@, 1) == Ok::<Seq<char>, ReplyErrorView>(self.channel@)
    }

    /// Reads `parameters` as a `ERR_BANNEDFROMCHAN` reply
    pub fn try_from_params(parameters: ParameterList) -> (r: Result<BannedFromChan, ReplyError>)
        ensures
            match r {
                Ok(x) => check_banned_from_chan(parameters@) is Ok && x@ == parameters@,
                Err(e) => check_banned_from_chan(parameters@) == Err::<(), ReplyErrorView>(e@),
            },
    {
        if parameters.len() < 3 {
            return Err(ReplyError::ParamQty { min_required: 3, received: parameters.len() });
        }
        let client = match reply_target_at(&parameters, 0) {
            Ok(v) => v,
            Err(e) => {
                return Err(e);
            },
        };
        let channel = match channel_at(&parameters, 1) {
            Ok(v) => v,
            Err(e) => {
                return Err(e);
            },
        };
        Ok(BannedFromChan { parameters, client, channel })
    }

    pub fn client(&self) -> (r: &ReplyTarget)
        ensures
            field_reply_target(self@, 0) == Ok::<TargetView, ReplyErrorView>(r@),
    {
        proof {
            use_type_invariant(self);
        }
        &self.client
    }

    pub fn channel(&self) -> (r: &Channel)
        ensures
            field_channel(self@, 1) == Ok::<Seq<char>, ReplyErrorView>(r@),
    {
        proof {
            use_type_invariant(self);
        }
        &self.channel
    }

    pub fn message(&self) -> (r: &str)
        ensures
            r@ == self@.all().last(),
    {
        proof {
            use_type_invariant(self);
        }
        last_str(&self.parameters)
    }

}

impl ReplyParts for BannedFromChan {
    open spec fn reply_code(&self) -> u16 {
        ERR_BANNEDFROMCHAN
    }

    open spec fn reply_params(&self) -> ParamsView {
        self@
    }

    fn code(&self) -> (r: u16) {
        ERR_BANNEDFROMCHAN
    }

    fn parameters(&self) -> (r: &ParameterList) {
        proof {
            use_type_invariant(self);
        }
        &self.parameters
    }

    fn is_error(&self) -> (r: bool) {
        true
    }

    fn into_parts(self) -> (r: (u16, ParameterList)) {
        proof {
            use_type_invariant(&self);
        }
        (ERR_BANNEDFROMCHAN, self.parameters)
    }
}

impl Clone for BannedFromChan {
    fn clone(&self) -> (r: Self)
        ensures
            r@ == self@,
    {
        proof {
            use_type_invariant(self);
        }
        match BannedFromChan::try_from_params(self.parameters.clone()) {
            Ok(x) => x,
            Err(_) => {
                assert(false);
                unreached()
            },
        }
    }
}

/// The `ERR_BADCHANNELKEY` reply (475)
#[derive(Debug, PartialEq, Eq)]
pub struct BadChannelKey {
    parameters: ParameterList,
    client: ReplyTarget,
    channel: Channel,
}

impl View for BadChannelKey {
    type V = ParamsView;

    closed spec fn view(&self) -> ParamsView {
        self.parameters@
    }
}

/// Whether `p` reads as a `ERR_BADCHANNELKEY` reply, and if not, the first error
pub open spec fn check_bad_channel_key(p: ParamsView) -> Result<(), ReplyErrorView> {
    if p.all().len() < 3 {
        Err(param_qty(3, p))
    } else {
        first_err(field_reply_target(p, 0), first_err(field_channel(p, 1), Ok(())))
    }
}

impl BadChannelKey {
    #[verifier::type_invariant]
    spec fn inv(self) -> bool {
        &&& check_bad_channel_key(self.parameters@) is Ok
        &&& field_reply_target(self.parameters@, 0) == Ok::<TargetView, ReplyErrorView>(self.client@)
        &&& field_channel(self.parameters@, 1) == Ok::<Seq<char>, ReplyErrorView>(self.channel@)
    }

    /// Reads `parameters` as a `ERR_BADCHANNELKEY` reply
    pub fn try_from_params(parameters: ParameterList) -> (r: Result<BadChannelKey, ReplyError>)
        ensures
            match r {
                Ok(x) => check_bad_channel_key(parameters@) is Ok && x@ == parameters@,
                Err(e) => check_bad_channel_key(parameters@) == Err::<(), ReplyErrorView>(e@),
            },
    {
        if parameters.len() < 3 {
            return Err(ReplyError::ParamQty { min_required: 3, received: parameters.len() });
        }
        let client = match reply_target_at(&parameters, 0) {
            Ok(v) => v,
            Err(e) => {
                return Err(e);
            },
        };
        let channel = match channel_at(&parameters, 1) {
            Ok(v) => v,
            Err(e) => {
                return Err(e);
            },
        };
        Ok(BadChannelKey { parameters, client, channel })
    }

    pub fn client(&self) -> (r: &ReplyTarget)
        ensures
            field_reply_target(self@, 0) == Ok::<TargetView, ReplyErrorView>(r@),
    {
        proof {
            use_type_invariant(self);
        }
        &self.client
    }

    pub fn channel(&self) -> (r: &Channel)
        ensures
            field_channel(self@, 1) == Ok::<Seq<char>, ReplyErrorView>(r@),
    {
        proof {
            use_type_invariant(self);
        }
        &self.channel
    }

    pub fn message(&self) -> (r: &str)
        ensures
            r@ == self@.all().last(),
    {
        proof {
            use_type_invariant(self);
        }
        last_str(&self.parameters)
    }

}

impl ReplyParts for BadChannelKey {
    open spec fn reply_code(&self) -> u16 {
        ERR_BADCHANNELKEY
    }

    open spec fn reply_params(&self) -> ParamsView {
        self@
    }

    fn code(&self) -> (r: u16) {
        ERR_BADCHANNELKEY
    }

    fn parameters(&self) -> (r: &ParameterList) {
        proof {
            use_type_invariant(self);
        }
        &self.parameters
    }

    fn is_error(&self) -> (r: bool) {
        true
    }

    fn into_parts(self) -> (r: (u16, ParameterList)) {
        proof {
            use_type_invariant(&self);
        }
        (ERR_BADCHANNELKEY, self.parameters)
    }
}

impl Clone for BadChannelKey {
    fn clone(&self) -> (r: Self)
        ensures
            r@ == self@,
    {
        proof {
            use_type_invariant(self);
        }
        match BadChannelKey::try_from_params(self.parameters.clone()) {
            Ok(x) => x,
            Err(_) => {
                assert(false);
                unreached()
            },
        }
    }
}

/// The `ERR_BADCHANMASK` reply (476)
#[derive(Debug, PartialEq, Eq)]
pub struct BadChanMask {
    parameters: ParameterList,
    client: ReplyTarget,
}

impl View for BadChanMask {
    type V = ParamsView;

    closed spec fn view(&self) -> ParamsView {
        self.parameters@
    }
}

/// Whether `p` reads as a `ERR_BADCHANMASK` reply, and if not, the first error
pub open spec fn check_bad_chan_mask(p: ParamsView) -> Result<(), ReplyErrorView> {
    if p.all().len() < 2 {
        Err(param_qty(2, p))
    } else {
        first_err(field_reply_target(p, 0), Ok(()))
    }
}

impl BadChanMask {
    #[verifier::type_invariant]
    spec fn inv(self) -> bool {
        &&& check_bad_chan_mask(self.parameters@) is Ok
        &&& field_reply_target(self.parameters@, 0) == Ok::<TargetView, ReplyErrorView>(self.client@)
    }

    /// Reads `parameters` as a `ERR_BADCHANMASK` reply
    pub fn try_from_params(parameters: ParameterList) -> (r: Result<BadChanMask, ReplyError>)
        ensures
            match r {
                Ok(x) => check_bad_chan_mask(parameters@) is Ok && x@ == parameters@,
                Err(e) => check_bad_chan_mask(parameters@) == Err::<(), ReplyErrorView>(e@),
            },
    {
        if parameters.len() < 2 {
            return Err(ReplyError::ParamQty { min_required: 2, received: parameters.len() });
        }
        let client = match reply_target_at(&parameters, 0) {
            Ok(v) => v,
            Err(e) => {
                return Err(e);
            },
        };
        Ok(BadChanMask { parameters, client })
    }

    pub fn client(&self) -> (r: &ReplyTarget)
        ensures
            field_reply_target(self@, 0) == Ok::<TargetView, ReplyErrorView>(r@),
    {
        proof {
            use_type_invariant(self);
        }
        &self.client
    }

    pub fn channel(&self) -> (r: &str)
        ensures
            r@ == param_at(self@, 1),
    {
        proof {
            use_type_invariant(self);
        }
        param_str(&self.parameters, 1)
    }

    pub fn message(&self) -> (r: &str)
        ensures
            r@ == self@.all().last(),
    {
        proof {
            use_type_invariant(self);
        }
        last_str(&self.parameters)
    }

}

impl ReplyParts for BadChanMask {
    open spec fn reply_code(&self) -> u16 {
        ERR_BADCHANMASK
    }

    open spec fn reply_params(&self) -> ParamsView {
        self@
    }

    fn code(&self) -> (r: u16) {
        ERR_BADCHANMASK
    }

    fn parameters(&self) -> (r: &ParameterList) {
        proof {
            use_type_invariant(self);
        }
        &self.parameters
    }

    fn is_error(&self) -> (r: bool) {
        true
    }

    fn into_parts(self) -> (r: (u16, ParameterList)) {
        proof {
            use_type_invariant(&self);
        }
        (ERR_BADCHANMASK, self.parameters)
    }
}

impl Clone for BadChanMask {
    fn clone(&self) -> (r: Self)
        ensures
            r@ == self@,
    {
        proof {
            use_type_invariant(self);
        }
        match BadChanMask::try_from_params(self.parameters.clone()) {
            Ok(x) => x,
            Err(_) => {
                assert(false);
                unreached()
            },
        }
    }
}

/// The `ERR_NOPRIVILEGES` reply (481)
#[derive(Debug, PartialEq, Eq)]
pub struct NoPrivileges {
    parameters: ParameterList,
    client: ReplyTarget,
}

impl View for NoPrivileges {
    type V = ParamsView;

    closed spec fn view(&self) -> ParamsView {
        self.parameters@
    }
}

/// Whether `p` reads as a `ERR_NOPRIVILEGES` reply, and if not, the first error
pub open spec fn check_no_privileges(p: ParamsView) -> Result<(), ReplyErrorView> {
    if p.all().len() < 2 {
        Err(param_qty(2, p))
    } else {
        first_err(field_reply_target(p, 0), Ok(()))
    }
}

impl NoPrivileges {
    #[verifier::type_invariant]
    spec fn inv(self) -> bool {
        &&& check_no_privileges(self.parameters@) is Ok
        &&& field_reply_target(self.parameters@, 0) == Ok::<TargetView, ReplyErrorView>(self.client@)
    }

    /// Reads `parameters` as a `ERR_NOPRIVILEGES` reply
    pub fn try_from_params(parameters: ParameterList) -> (r: Result<NoPrivileges, ReplyError>)
        ensures
            match r {
                Ok(x) => check_no_privileges(parameters@) is Ok && x@ == parameters@,
                Err(e) => check_no_privileges(parameters@) == Err::<(), ReplyErrorView>(e@),
            },
    {
        if parameters.len() < 2 {
            return Err(ReplyError::ParamQty { min_required: 2, received: parameters.len() });
        }
        let client = match reply_target_at(&parameters, 0) {
            Ok(v) => v,
            Err(e) => {
                return Err(e);
            },
        };
        Ok(NoPrivileges { parameters, client })
    }

    pub fn client(&self) -> (r: &ReplyTarget)
        ensures
            field_reply_target(self@, 0) == Ok::<TargetView, ReplyErrorView>(r@),
    {
        proof {
            use_type_invariant(self);
        }
        &self.client
    }

    pub fn message(&self) -> (r: &str)
        ensures
            r@ == self@.all().last(),
    {
        proof {
            use_type_invariant(self);
        }
        last_str(&self.parameters)
    }

}

impl ReplyParts for NoPrivileges {
    open spec fn reply_code(&self) -> u16 {
        ERR_NOPRIVILEGES
    }

    open spec fn reply_params(&self) -> ParamsView {
        self@
    }

    fn code(&self) -> (r: u16) {
        ERR_NOPRIVILEGES
    }

    fn parameters(&self) -> (r: &ParameterList) {
        proof {
            use_type_invariant(self);
        }
        &self.parameters
    }

    fn is_error(&self) -> (r: bool) {
        true
    }

    fn into_parts(self) -> (r: (u16, ParameterList)) {
        proof {
            use_type_invariant(&self);
        }
        (ERR_NOPRIVILEGES, self.parameters)
    }
}

impl Clone for NoPrivileges {
    fn clone(&self) -> (r: Self)
        ensures
            r@ == self@,
    {
        proof {
            use_type_invariant(self);
        }
        match NoPrivileges::try_from_params(self.parameters.clone()) {
            Ok(x) => x,
            Err(_) => {
                assert(false);
                unreached()
            },
        }
    }
}

/// The `ERR_CHANOPRIVSNEEDED` reply (482)
#[derive(Debug, PartialEq, Eq)]
pub struct ChanOPrivsNeeded {
    parameters: ParameterList,
    client: ReplyTarget,
    channel: Channel,
}

impl View for ChanOPrivsNeeded {
    type V = ParamsView;

    closed spec fn view(&self) -> ParamsView {
        self.parameters@
    }
}

/// Whether `p` reads as a `ERR_CHANOPRIVSNEEDED` reply, and if not, the first error
pub open spec fn check_chan_o_privs_needed(p: ParamsView) -> Result<(), ReplyErrorView> {
    if p.all().len() < 3 {
        Err(param_qty(3, p))
    } else {
        first_err(field_reply_target(p, 0), first_err(field_channel(p, 1), Ok(())))
    }
}

impl ChanOPrivsNeeded {
    #[verifier::type_invariant]
    spec fn inv(self) -> bool {
        &&& check_chan_o_privs_needed(self.parameters@) is Ok
        &&& field_reply_target(self.parameters@, 0) == Ok::<TargetView, ReplyErrorView>(self.client@)
        &&& field_channel(self.parameters@, 1) == Ok::<Seq<char>, ReplyErrorView>(self.channel@)
    }

    /// Reads `parameters` as a `ERR_CHANOPRIVSNEEDED` reply
    pub fn try_from_params(parameters: ParameterList) -> (r: Result<ChanOPrivsNeeded, ReplyError>)
        ensures
            match r {
                Ok(x) => check_chan_o_privs_needed(parameters@) is Ok && x@ == parameters@,
                Err(e) => check_chan_o_privs_needed(parameters@) == Err::<(), ReplyErrorView>(e@),
            },
    {
        if parameters.len() < 3 {
            return Err(ReplyError::ParamQty { min_required: 3, received: parameters.len() });
        }
        let client = match reply_target_at(&parameters, 0) {
            Ok(v) => v,
            Err(e) => {
                return Err(e);
            },
        };
        let channel = match channel_at(&parameters, 1) {
            Ok(v) => v,
            Err(e) => {
                return Err(e);
            },
        };
        Ok(ChanOPrivsNeeded { parameters, client, channel })
    }

    pub fn client(&self) -> (r: &ReplyTarget)
        ensures
            field_reply_target(self@, 0) == Ok::<TargetView, ReplyErrorView>(r@),
    {
        proof {
            use_type_invariant(self);
        }
        &self.client
    }

    pub fn channel(&self) -> (r: &Channel)
        ensures
            field_channel(self@, 1) == Ok::<Seq<char>, ReplyErrorView>(r@),
    {
        proof {
            use_type_invariant(self);
        }
        &self.channel
    }

    pub fn message(&self) -> (r: &str)
        ensures
            r@ == self@.all().last(),
    {
        proof {
            use_type_invariant(self);
        }
        last_str(&self.parameters)
    }

}

impl ReplyParts for ChanOPrivsNeeded {
    open spec fn reply_code(&self) -> u16 {
        ERR_CHANOPRIVSNEEDED
    }

    open spec fn reply_params(&self) -> ParamsView {
        self@
    }

    fn code(&self) -> (r: u16) {
        ERR_CHANOPRIVSNEEDED
    }

    fn parameters(&self) -> (r: &ParameterList) {
        proof {
            use_type_invariant(self);
        }
        &self.parameters
    }

    fn is_error(&self) -> (r: bool) {
        true
    }

    fn into_parts(self) -> (r: (u16, ParameterList)) {
        proof {
            use_type_invariant(&self);
        }
        (ERR_CHANOPRIVSNEEDED, self.parameters)
    }
}

impl Clone for ChanOPrivsNeeded {
    fn clone(&self) -> (r: Self)
        ensures
            r@ == self@,
    {
        proof {
            use_type_invariant(self);
        }
        match ChanOPrivsNeeded::try_from_params(self.parameters.clone()) {
            Ok(x) => x,
            Err(_) => {
                assert(false);
                unreached()
            },
        }
    }
}

/// The `ERR_CANTKILLSERVER` reply (483)
#[derive(Debug, PartialEq, Eq)]
pub struct CantKillServer {
    parameters: ParameterList,
    client: ReplyTarget,
}

impl View for CantKillServer {
    type V = ParamsView;

    closed spec fn view(&self) -> ParamsView {
        self.parameters@
    }
}

/// Whether `p` reads as a `ERR_CANTKILLSERVER` reply, and if not, the first error
pub open spec fn check_cant_kill_server(p: ParamsView) -> Result<(), ReplyErrorView> {
    if p.all().len() < 2 {
        Err(param_qty(2, p))
    } else {
        first_err(field_reply_target(p, 0), Ok(()))
    }
}

impl CantKillServer {
    #[verifier::type_invariant]
    spec fn inv(self) -> bool {
        &&& check_cant_kill_server(self.parameters@) is Ok
        &&& field_reply_target(self.parameters@, 0) == Ok::<TargetView, ReplyErrorView>(self.client@)
    }

    /// Reads `parameters` as a `ERR_CANTKILLSERVER` reply
    pub fn try_from_params(parameters: ParameterList) -> (r: Result<CantKillServer, ReplyError>)
        ensures
            match r {
                Ok(x) => check_cant_kill_server(parameters@) is Ok && x@ == parameters@,
                Err(e) => check_cant_kill_server(parameters@) == Err::<(), ReplyErrorView>(e@),
            },
    {
        if parameters.len() < 2 {
            return Err(ReplyError::ParamQty { min_required: 2, received: parameters.len() });
        }
        let client = match reply_target_at(&parameters, 0) {
            Ok(v) => v,
            Err(e) => {
                return Err(e);
            },
        };
        Ok(CantKillServer { parameters, client })
    }

    pub fn client(&self) -> (r: &ReplyTarget)
        ensures
            field_reply_target(self@, 0) == Ok::<TargetView, ReplyErrorView>(r@),
    {
        proof {
            use_type_invariant(self);
        }
        &self.client
    }

    pub fn message(&self) -> (r: &str)
        ensures
            r@ == self@.all().last(),
    {
        proof {
            use_type_invariant(self);
        }
        last_str(&self.parameters)
    }

}

impl ReplyParts for CantKillServer {
    open spec fn reply_code(&self) -> u16 {
        ERR_CANTKILLSERVER
    }

    open spec fn reply_params(&self) -> ParamsView {
        self@
    }

    fn code(&self) -> (r: u16) {
        ERR_CANTKILLSERVER
    }

    fn parameters(&self) -> (r: &ParameterList) {
        proof {
            use_type_invariant(self);
        }
        &self.parameters
    }

    fn is_error(&self) -> (r: bool) {
        true
    }

    fn into_parts(self) -> (r: (u16, ParameterList)) {
        proof {
            use_type_invariant(&self);
        }
        (ERR_CANTKILLSERVER, self.parameters)
    }
}

impl Clone for CantKillServer {
    fn clone(&self) -> (r: Self)
        ensures
            r@ == self@,
    {
        proof {
            use_type_invariant(self);
        }
        match CantKillServer::try_from_params(self.parameters.clone()) {
            Ok(x) => x,
            Err(_) => {
                assert(false);
                unreached()
            },
        }
    }
}

/// The `ERR_NOOPERHOST` reply (491)
#[derive(Debug, PartialEq, Eq)]
pub struct NoOperHost {
    parameters: ParameterList,
    client: ReplyTarget,
}

impl View for NoOperHost {
    type V = ParamsView;

    closed spec fn view(&self) -> ParamsView {
        self.parameters@
    }
}

/// Whether `p` reads as a `ERR_NOOPERHOST` reply, and if not, the first error
pub open spec fn check_no_oper_host(p: ParamsView) -> Result<(), ReplyErrorView> {
    if p.all().len() < 2 {
        Err(param_qty(2, p))
    } else {
        first_err(field_reply_target(p, 0), Ok(()))
    }
}

impl NoOperHost {
    #[verifier::type_invariant]
    spec fn inv(self) -> bool {
        &&& check_no_oper_host(self.parameters@) is Ok
        &&& field_reply_target(self.parameters@, 0) == Ok::<TargetView, ReplyErrorView>(self.client@)
    }

    /// Reads `parameters` as a `ERR_NOOPERHOST` reply
    pub fn try_from_params(parameters: ParameterList) -> (r: Result<NoOperHost, ReplyError>)
        ensures
            match r {
                Ok(x) => check_no_oper_host(parameters@) is Ok && x@ == parameters@,
                Err(e) => check_no_oper_host(parameters@) == Err::<(), ReplyErrorView>(e@),
            },
    {
        if parameters.len() < 2 {
            return Err(ReplyError::ParamQty { min_required: 2, received: parameters.len() });
        }
        let client = match reply_target_at(&parameters, 0) {
            Ok(v) => v,
            Err(e) => {
                return Err(e);
            },
        };
        Ok(NoOperHost { parameters, client })
    }

    pub fn client(&self) -> (r: &ReplyTarget)
        ensures
            field_reply_target(self@, 0) == Ok::<TargetView, ReplyErrorView>(r@),
    {
        proof {
            use_type_invariant(self);
        }
        &self.client
    }

    pub fn message(&self) -> (r: &str)
        ensures
            r@ == self@.all().last(),
    {
        proof {
            use_type_invariant(self);
        }
        last_str(&self.parameters)
    }

}

impl ReplyParts for NoOperHost {
    open spec fn reply_code(&self) -> u16 {
        ERR_NOOPERHOST
    }

    open spec fn reply_params(&self) -> ParamsView {
        self@
    }

    fn code(&self) -> (r: u16) {
        ERR_NOOPERHOST
    }

    fn parameters(&self) -> (r: &ParameterList) {
        proof {
            use_type_invariant(self);
        }
        &self.parameters
    }

    fn is_error(&self) -> (r: bool) {
        true
    }

    fn into_parts(self) -> (r: (u16, ParameterList)) {
        proof {
            use_type_invariant(&self);
        }
        (ERR_NOOPERHOST, self.parameters)
    }
}

impl Clone for NoOperHost {
    fn clone(&self) -> (r: Self)
        ensures
            r@ == self@,
    {
        proof {
            use_type_invariant(self);
        }
        match NoOperHost::try_from_params(self.parameters.clone()) {
            Ok(x) => x,
            Err(_) => {
                assert(false);
                unreached()
            },
        }
    }
}

/// The `ERR_UMODEUNKNOWNFLAG` reply (501)
#[derive(Debug, PartialEq, Eq)]
pub struct UmodeUnknownFlag {
    parameters: ParameterList,
    client: ReplyTarget,
}

impl View for UmodeUnknownFlag {
    type V = ParamsView;

    closed spec fn view(&self) -> ParamsView {
        self.parameters@
    }
}

/// Whether `p` reads as a `ERR_UMODEUNKNOWNFLAG` reply, and if not, the first error
pub open spec fn check_umode_unknown_flag(p: ParamsView) -> Result<(), ReplyErrorView> {
    if p.all().len() < 2 {
        Err(param_qty(2, p))
    } else {
        first_err(field_reply_target(p, 0), Ok(()))
    }
}

impl UmodeUnknownFlag {
    #[verifier::type_invariant]
    spec fn inv(self) -> bool {
        &&& check_umode_unknown_flag(self.parameters@) is Ok
        &&& field_reply_target(self.parameters@, 0) == Ok::<TargetView, ReplyErrorView>(self.client@)
    }

    /// Reads `parameters` as a `ERR_UMODEUNKNOWNFLAG` reply
    pub fn try_from_params(parameters: ParameterList) -> (r: Result<UmodeUnknownFlag, ReplyError>)
        ensures
            match r {
                Ok(x) => check_umode_unknown_flag(parameters@) is Ok && x@ == parameters@,
                Err(e) => check_umode_unknown_flag(parameters@) == Err::<(), ReplyErrorView>(e@),
            },
    {
        if parameters.len() < 2 {
            return Err(ReplyError::ParamQty { min_required: 2, received: parameters.len() });
        }
        let client = match reply_target_at(&parameters, 0) {
            Ok(v) => v,
            Err(e) => {
                return Err(e);
            },
        };
        Ok(UmodeUnknownFlag { parameters, client })
    }

    pub fn client(&self) -> (r: &ReplyTarget)
        ensures
            field_reply_target(self@, 0) == Ok::<TargetView, ReplyErrorView>(r@),
    {
        proof {
            use_type_invariant(self);
        }
        &self.client
    }

    pub fn message(&self) -> (r: &str)
        ensures
            r@ == self@.all().last(),
    {
        proof {
            use_type_invariant(self);
        }
        last_str(&self.parameters)
    }

}

impl ReplyParts for UmodeUnknownFlag {
    open spec fn reply_code(&self) -> u16 {
        ERR_UMODEUNKNOWNFLAG
    }

    open spec fn reply_params(&self) -> ParamsView {
        self@
    }

    fn code(&self) -> (r: u16) {
        ERR_UMODEUNKNOWNFLAG
    }

    fn parameters(&self) -> (r: &ParameterList) {
        proof {
            use_type_invariant(self);
        }
        &self.parameters
    }

    fn is_error(&self) -> (r: bool) {
        true
    }

    fn into_parts(self) -> (r: (u16, ParameterList)) {
        proof {
            use_type_invariant(&self);
        }
        (ERR_UMODEUNKNOWNFLAG, self.parameters)
    }
}

impl Clone for UmodeUnknownFlag {
    fn clone(&self) -> (r: Self)
        ensures
            r@ == self@,
    {
        proof {
            use_type_invariant(self);
        }
        match UmodeUnknownFlag::try_from_params(self.parameters.clone()) {
            Ok(x) => x,
            Err(_) => {
                assert(false);
                unreached()
            },
        }
    }
}

/// The `ERR_USERSDONTMATCH` reply (502)
#[derive(Debug, PartialEq, Eq)]
pub struct UsersDontMatch {
    parameters: ParameterList,
    client: ReplyTarget,
}

impl View for UsersDontMatch {
    type V = ParamsView;

    closed spec fn view(&self) -> ParamsView {
        self.parameters@
    }
}

/// Whether `p` reads as a `ERR_USERSDONTMATCH` reply, and if not, the first error
pub open spec fn check_users_dont_match(p: ParamsView) -> Result<(), ReplyErrorView> {
    if p.all().len() < 2 {
        Err(param_qty(2, p))
    } else {
        first_err(field_reply_target(p, 0), Ok(()))
    }
}

impl UsersDontMatch {
    #[verifier::type_invariant]
    spec fn inv(self) -> bool {
        &&& check_users_dont_match(self.parameters@) is Ok
        &&& field_reply_target(self.parameters@, 0) == Ok::<TargetView, ReplyErrorView>(self.client@)
    }

    /// Reads `parameters` as a `ERR_USERSDONTMATCH` reply
    pub fn try_from_params(parameters: ParameterList) -> (r: Result<UsersDontMatch, ReplyError>)
        ensures
            match r {
                Ok(x) => check_users_dont_match(parameters@) is Ok && x@ == parameters@,
                Err(e) => check_users_dont_match(parameters@) == Err::<(), ReplyErrorView>(e@),
            },
    {
        if parameters.len() < 2 {
            return Err(ReplyError::ParamQty { min_required: 2, received: parameters.len() });
        }
        let client = match reply_target_at(&parameters, 0) {
            Ok(v) => v,
            Err(e) => {
                return Err(e);
            },
        };
        Ok(UsersDontMatch { parameters, client })
    }

    pub fn client(&self) -> (r: &ReplyTarget)
        ensures
            field_reply_target(self@, 0) == Ok::<TargetView, ReplyErrorView>(r@),
    {
        proof {
            use_type_invariant(self);
        }
        &self.client
    }

    pub fn message(&self) -> (r: &str)
        ensures
            r@ == self@.all().last(),
    {
        proof {
            use_type_invariant(self);
        }
        last_str(&self.parameters)
    }

}

impl ReplyParts for UsersDontMatch {
    open spec fn reply_code(&self) -> u16 {
        ERR_USERSDONTMATCH
    }

    open spec fn reply_params(&self) -> ParamsView {
        self@
    }

    fn code(&self) -> (r: u16) {
        ERR_USERSDONTMATCH
    }

    fn parameters(&self) -> (r: &ParameterList) {
        proof {
            use_type_invariant(self);
        }
        &self.parameters
    }

    fn is_error(&self) -> (r: bool) {
        true
    }

    fn into_parts(self) -> (r: (u16, ParameterList)) {
        proof {
            use_type_invariant(&self);
        }
        (ERR_USERSDONTMATCH, self.parameters)
    }
}

impl Clone for UsersDontMatch {
    fn clone(&self) -> (r: Self)
        ensures
            r@ == self@,
    {
        proof {
            use_type_invariant(self);
        }
        match UsersDontMatch::try_from_params(self.parameters.clone()) {
            Ok(x) => x,
            Err(_) => {
                assert(false);
                unreached()
            },
        }
    }
}

/// The `ERR_HELPNOTFOUND` reply (524)
#[derive(Debug, PartialEq, Eq)]
pub struct HelpNotFound {
    parameters: ParameterList,
    client: ReplyTarget,
}

impl View for HelpNotFound {
    type V = ParamsView;

    closed spec fn view(&self) -> ParamsView {
        self.parameters@
    }
}

/// Whether `p` reads as a `ERR_HELPNOTFOUND` reply, and if not, the first error
pub open spec fn check_help_not_found(p: ParamsView) -> Result<(), ReplyErrorView> {
    if p.all().len() < 3 {
        Err(param_qty(3, p))
    } else {
        first_err(field_reply_target(p, 0), Ok(()))
    }
}

impl HelpNotFound {
    #[verifier::type_invariant]
    spec fn inv(self) -> bool {
        &&& check_help_not_found(self.parameters@) is Ok
        &&& field_reply_target(self.parameters@, 0) == Ok::<TargetView, ReplyErrorView>(self.client@)
    }

    /// Reads `parameters` as a `ERR_HELPNOTFOUND` reply
    pub fn try_from_params(parameters: ParameterList) -> (r: Result<HelpNotFound, ReplyError>)
        ensures
            match r {
                Ok(x) => check_help_not_found(parameters@) is Ok && x@ == parameters@,
                Err(e) => check_help_not_found(parameters@) == Err::<(), ReplyErrorView>(e@),
            },
    {
        if parameters.len() < 3 {
            return Err(ReplyError::ParamQty { min_required: 3, received: parameters.len() });
        }
        let client = match reply_target_at(&parameters, 0) {
            Ok(v) => v,
            Err(e) => {
                return Err(e);
            },
        };
        Ok(HelpNotFound { parameters, client })
    }

    pub fn client(&self) -> (r: &ReplyTarget)
        ensures
            field_reply_target(self@, 0) == Ok::<TargetView, ReplyErrorView>(r@),
    {
        proof {
            use_type_invariant(self);
        }
        &self.client
    }

    pub fn subject(&self) -> (r: &str)
        ensures
            r@ == param_at(self@, 1),
    {
        proof {
            use_type_invariant(self);
        }
        param_str(&self.parameters, 1)
    }

    pub fn message(&self) -> (r: &str)
        ensures
            r@ == self@.all().last(),
    {
        proof {
            use_type_invariant(self);
        }
        last_str(&self.parameters)
    }

}

impl ReplyParts for HelpNotFound {
    open spec fn reply_code(&self) -> u16 {
        ERR_HELPNOTFOUND
    }

    open spec fn reply_params(&self) -> ParamsView {
        self@
    }

    fn code(&self) -> (r: u16) {
        ERR_HELPNOTFOUND
    }

    fn parameters(&self) -> (r: &ParameterList) {
        proof {
            use_type_invariant(self);
        }
        &self.parameters
    }

    fn is_error(&self) -> (r: bool) {
        true
    }

    fn into_parts(self) -> (r: (u16, ParameterList)) {
        proof {
            use_type_invariant(&self);
        }
        (ERR_HELPNOTFOUND, self.parameters)
    }
}

impl Clone for HelpNotFound {
    fn clone(&self) -> (r: Self)
        ensures
            r@ == self@,
    {
        proof {
            use_type_invariant(self);
        }
        match HelpNotFound::try_from_params(self.parameters.clone()) {
            Ok(x) => x,
            Err(_) => {
                assert(false);
                unreached()
            },
        }
    }
}

/// The `ERR_INVALIDKEY` reply (525)
#[derive(Debug, PartialEq, Eq)]
pub struct InvalidKey {
    parameters: ParameterList,
    client: ReplyTarget,
    channel: Channel,
}

impl View for InvalidKey {
    type V = ParamsView;

    closed spec fn view(&self) -> ParamsView {
        self.parameters@
    }
}

/// Whether `p` reads as a `ERR_INVALIDKEY` reply, and if not, the first error
pub open spec fn check_invalid_key(p: ParamsView) -> Result<(), ReplyErrorView> {
    if p.all().len() < 3 {
        Err(param_qty(3, p))
    } else {
        first_err(field_reply_target(p, 0), first_err(field_channel(p, 1), Ok(())))
    }
}

impl InvalidKey {
    #[verifier::type_invariant]
    spec fn inv(self) -> bool {
        &&& check_invalid_key(self.parameters@) is Ok
        &&& field_reply_target(self.parameters@, 0) == Ok::<TargetView, ReplyErrorView>(self.client@)
        &&& field_channel(self.parameters@, 1) == Ok::<Seq<char>, ReplyErrorView>(self.channel@)
    }

    /// Reads `parameters` as a `ERR_INVALIDKEY` reply
    pub fn try_from_params(parameters: ParameterList) -> (r: Result<InvalidKey, ReplyError>)
        ensures
            match r {
                Ok(x) => check_invalid_key(parameters@) is Ok && x@ == parameters@,
                Err(e) => check_invalid_key(parameters@) == Err::<(), ReplyErrorView>(e@),
            },
    {
        if parameters.len() < 3 {
            return Err(ReplyError::ParamQty { min_required: 3, received: parameters.len() });
        }
        let client = match reply_target_at(&parameters, 0) {
            Ok(v) => v,
            Err(e) => {
                return Err(e);
            },
        };
        let channel = match channel_at(&parameters, 1) {
            Ok(v) => v,
            Err(e) => {
                return Err(e);
            },
        };
        Ok(InvalidKey { parameters, client, channel })
    }

    pub fn client(&self) -> (r: &ReplyTarget)
        ensures
            field_reply_target(self@, 0) == Ok::<TargetView, ReplyErrorView>(r@),
    {
        proof {
            use_type_invariant(self);
        }
        &self.client
    }

    pub fn channel(&self) -> (r: &Channel)
        ensures
            field_channel(self@, 1) == Ok::<Seq<char>, ReplyErrorView>(r@),
    {
        proof {
            use_type_invariant(self);
        }
        &self.channel
    }

    pub fn message(&self) -> (r: &str)
        ensures
            r@ == self@.all().last(),
    {
        proof {
            use_type_invariant(self);
        }
        last_str(&self.parameters)
    }

}

impl ReplyParts for InvalidKey {
    open spec fn reply_code(&self) -> u16 {
        ERR_INVALIDKEY
    }

    open spec fn reply_params(&self) -> ParamsView {
        self@
    }

    fn code(&self) -> (r: u16) {
        ERR_INVALIDKEY
    }

    fn parameters(&self) -> (r: &ParameterList) {
        proof {
            use_type_invariant(self);
        }
        &self.parameters
    }

    fn is_error(&self) -> (r: bool) {
        true
    }

    fn into_parts(self) -> (r: (u16, ParameterList)) {
        proof {
            use_type_invariant(&self);
        }
        (ERR_INVALIDKEY, self.parameters)
    }
}

impl Clone for InvalidKey {
    fn clone(&self) -> (r: Self)
        ensures
            r@ == self@,
    {
        proof {
            use_type_invariant(self);
        }
        match InvalidKey::try_from_params(self.parameters.clone()) {
            Ok(x) => x,
            Err(_) => {
                assert(false);
                unreached()
            },
        }
    }
}

} // verus!
