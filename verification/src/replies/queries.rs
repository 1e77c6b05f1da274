//! Replies to queries about users, channels, and the server (codes 300 to 399).
use super::codes::{
    RPL_NONE, RPL_AWAY, RPL_UNAWAY, RPL_NOWAWAY, RPL_WHOISREGNICK, RPL_WHOISUSER, RPL_WHOISSERVER, RPL_WHOISOPERATOR, RPL_WHOWASUSER, RPL_ENDOFWHO, RPL_WHOISIDLE, RPL_ENDOFWHOIS, RPL_WHOISSPECIAL, RPL_LISTSTART, RPL_LIST, RPL_LISTEND, RPL_CREATIONTIME, RPL_WHOISACCOUNT, RPL_NOTOPIC, RPL_TOPIC, RPL_TOPICWHOTIME, RPL_INVITELIST, RPL_ENDOFINVITELIST, RPL_INVITING, RPL_INVEXLIST, RPL_ENDOFINVEXLIST, RPL_EXCEPTLIST, RPL_ENDOFEXCEPTLIST, RPL_VERSION, RPL_WHOREPLY, RPL_LINKS, RPL_ENDOFLINKS, RPL_ENDOFNAMES, RPL_BANLIST, RPL_ENDOFBANLIST, RPL_ENDOFWHOWAS, RPL_INFO, RPL_MOTD, RPL_ENDOFINFO, RPL_MOTDSTART, RPL_ENDOFMOTD, RPL_WHOISHOST, RPL_WHOISMODES, RPL_YOUREOPER, RPL_REHASHING, RPL_TIME,
};
use super::fields::{
    channel_at, client_source_at, field_channel, field_client_source, field_hopcount, field_nickname, field_opt_u64, field_reply_target, field_u64, field_u64_if_more, field_username, field_who_flags, first_err, hopcount_of, last_str, nickname_at, opt_param_str, opt_u64_at, param_at, param_qty, param_str, reply_target_at, rest_of_last, u64_at, u64_if_more_at, username_at, who_flags_at,
};
use super::{check_reply, is_error_code, ReplyError, ReplyErrorView, ReplyParts};
use crate::names::{Channel, Modestring, Nickname, Username, Verb};
use crate::paramlist::{ParameterList, ParamsView};
use crate::source::{ClientSource, ClientSourceView};
use crate::targets::{ModeTarget, ReplyTarget, Target, TargetView};
use crate::text::split_word;
use crate::types::{ChannelStatus, WhoFlags, WhoFlagsView};
use vstd::prelude::*;

verus! {

/// The `RPL_NONE` reply (300)
#[derive(Debug, PartialEq, Eq)]
pub struct NoneReply {
    parameters: ParameterList,
}

impl View for NoneReply {
    type V = ParamsView;

    closed spec fn view(&self) -> ParamsView {
        self.parameters@
    }
}

/// Whether `p` reads as a `RPL_NONE` reply, and if not, the first error
pub open spec fn check_none_reply(p: ParamsView) -> Result<(), ReplyErrorView> {
    Ok(())
}

impl NoneReply {
    #[verifier::type_invariant]
    spec fn inv(self) -> bool {
        &&& check_none_reply(self.parameters@) is Ok
    }

    /// Reads `parameters` as a `RPL_NONE` reply
    pub fn try_from_params(parameters: ParameterList) -> (r: Result<NoneReply, ReplyError>)
        ensures
            match r {
                Ok(x) => check_none_reply(parameters@) is Ok && x@ == parameters@,
                Err(e) => check_none_reply(parameters@) == Err::<(), ReplyErrorView>(e@),
            },
    {
        Ok(NoneReply { parameters })
    }

}

impl ReplyParts for NoneReply {
    open spec fn reply_code(&self) -> u16 {
        RPL_NONE
    }

    open spec fn reply_params(&self) -> ParamsView {
        self@
    }

    fn code(&self) -> (r: u16) {
        RPL_NONE
    }

    fn parameters(&self) -> (r: &ParameterList) {
        proof {
            use_type_invariant(self);
        }
        &self.parameters
    }

    fn is_error(&self) -> (r: bool) {
        false
    }

    fn into_parts(self) -> (r: (u16, ParameterList)) {
        proof {
            use_type_invariant(&self);
        }
        (RPL_NONE, self.parameters)
    }
}

impl Clone for NoneReply {
    fn clone(&self) -> (r: Self)
        ensures
            r@ == self@,
    {
        proof {
            use_type_invariant(self);
        }
        match NoneReply::try_from_params(self.parameters.clone()) {
            Ok(x) => x,
            Err(_) => {
                assert(false);
                unreached()
            },
        }
    }
}

/// The `RPL_AWAY` reply (301)
#[derive(Debug, PartialEq, Eq)]
pub struct Away {
    parameters: ParameterList,
    client: ReplyTarget,
    nickname: Nickname,
}

impl View for Away {
    type V = ParamsView;

    closed spec fn view(&self) -> ParamsView {
        self.parameters@
    }
}

/// Whether `p` reads as a `RPL_AWAY` reply, and if not, the first error
pub open spec fn check_away(p: ParamsView) -> Result<(), ReplyErrorView> {
    if p.all().len() < 3 {
        Err(param_qty(3, p))
    } else {
        first_err(field_reply_target(p, 0), first_err(field_nickname(p, 1), Ok(())))
    }
}

impl Away {
    #[verifier::type_invariant]
    spec fn inv(self) -> bool {
        &&& check_away(self.parameters@) is Ok
        &&& field_reply_target(self.parameters@, 0) == Ok::<TargetView, ReplyErrorView>(self.client@)
        &&& field_nickname(self.parameters@, 1) == Ok::<Seq<char>, ReplyErrorView>(self.nickname@)
    }

    /// Reads `parameters` as a `RPL_AWAY` reply
    pub fn try_from_params(parameters: ParameterList) -> (r: Result<Away, ReplyError>)
        ensures
            match r {
                Ok(x) => check_away(parameters@) is Ok && x@ == parameters@,
                Err(e) => check_away(parameters@) == Err::<(), ReplyErrorView>(e@),
            },
    {
        if parameters.len() < 3 {
            return Err(ReplyError::ParamQty { min_required: 3, received: parameters.len() });
        }
        let client = match reply_target_at(&parameters, 0) {
            Ok(v) => v,
            Err(e) => {
                return Err(e);
            },
        };
        let nickname = match nickname_at(&parameters, 1) {
            Ok(v) => v,
            Err(e) => {
                return Err(e);
            },
        };
        Ok(Away { parameters, client, nickname })
    }

    pub fn client(&self) -> (r: &ReplyTarget)
        ensures
            field_reply_target(self@, 0) == Ok::<TargetView, ReplyErrorView>(r@),
    {
        proof {
            use_type_invariant(self);
        }
        &self.client
    }

    pub fn nickname(&self) -> (r: &Nickname)
        ensures
            field_nickname(self@, 1) == Ok::<Seq<char>, ReplyErrorView>(r@),
    {
        proof {
            use_type_invariant(self);
        }
        &self.nickname
    }

    pub fn message(&self) -> (r: &str)
        ensures
            r@ == self@.all().last(),
    {
        proof {
            use_type_invariant(self);
        }
        last_str(&self.parameters)
    }

}

impl ReplyParts for Away {
    open spec fn reply_code(&self) -> u16 {
        RPL_AWAY
    }

    open spec fn reply_params(&self) -> ParamsView {
        self@
    }

    fn code(&self) -> (r: u16) {
        RPL_AWAY
    }

    fn parameters(&self) -> (r: &ParameterList) {
        proof {
            use_type_invariant(self);
        }
        &self.parameters
    }

    fn is_error(&self) -> (r: bool) {
        false
    }

    fn into_parts(self) -> (r: (u16, ParameterList)) {
        proof {
            use_type_invariant(&self);
        }
        (RPL_AWAY, self.parameters)
    }
}

impl Clone for Away {
    fn clone(&self) -> (r: Self)
        ensures
            r@ == self@,
    {
        proof {
            use_type_invariant(self);
        }
        match Away::try_from_params(self.parameters.clone()) {
            Ok(x) => x,
            Err(_) => {
                assert(false);
                unreached()
            },
        }
    }
}

/// The `RPL_UNAWAY` reply (305)
#[derive(Debug, PartialEq, Eq)]
pub struct UnAway {
    parameters: ParameterList,
    client: ReplyTarget,
}

impl View for UnAway {
    type V = ParamsView;

    closed spec fn view(&self) -> ParamsView {
        self.parameters@
    }
}

/// Whether `p` reads as a `RPL_UNAWAY` reply, and if not, the first error
pub open spec fn check_un_away(p: ParamsView) -> Result<(), ReplyErrorView> {
    if p.all().len() < 2 {
        Err(param_qty(2, p))
    } else {
        first_err(field_reply_target(p, 0), Ok(()))
    }
}

impl UnAway {
    #[verifier::type_invariant]
    spec fn inv(self) -> bool {
        &&& check_un_away(self.parameters@) is Ok
        &&& field_reply_target(self.parameters@, 0) == Ok::<TargetView, ReplyErrorView>(self.client@)
    }

    /// Reads `parameters` as a `RPL_UNAWAY` reply
    pub fn try_from_params(parameters: ParameterList) -> (r: Result<UnAway, ReplyError>)
        ensures
            match r {
                Ok(x) => check_un_away(parameters@) is Ok && x@ == parameters@,
                Err(e) => check_un_away(parameters@) == Err::<(), ReplyErrorView>(e@),
            },
    {
        if parameters.len() < 2 {
            return Err(ReplyError::ParamQty { min_required: 2, received: parameters.len() });
        }
        let client = match reply_target_at(&parameters, 0) {
            Ok(v) => v,
            Err(e) => {
                return Err(e);
            },
        };
        Ok(UnAway { parameters, client })
    }

    pub fn client(&self) -> (r: &ReplyTarget)
        ensures
            field_reply_target(self@, 0) == Ok::<TargetView, ReplyErrorView>(r@),
    {
        proof {
            use_type_invariant(self);
        }
        &self.client
    }

    pub fn message(&self) -> (r: &str)
        ensures
            r@ == self@.all().last(),
    {
        proof {
            use_type_invariant(self);
        }
        last_str(&self.parameters)
    }

}

impl ReplyParts for UnAway {
    open spec fn reply_code(&self) -> u16 {
        RPL_UNAWAY
    }

    open spec fn reply_params(&self) -> ParamsView {
        self@
    }

    fn code(&self) -> (r: u16) {
        RPL_UNAWAY
    }

    fn parameters(&self) -> (r: &ParameterList) {
        proof {
            use_type_invariant(self);
        }
        &self.parameters
    }

    fn is_error(&self) -> (r: bool) {
        false
    }

    fn into_parts(self) -> (r: (u16, ParameterList)) {
        proof {
            use_type_invariant(&self);
        }
        (RPL_UNAWAY, self.parameters)
    }
}

impl Clone for UnAway {
    fn clone(&self) -> (r: Self)
        ensures
            r@ == self@,
    {
        proof {
            use_type_invariant(self);
        }
        match UnAway::try_from_params(self.parameters.clone()) {
            Ok(x) => x,
            Err(_) => {
                assert(false);
                unreached()
            },
        }
    }
}

/// The `RPL_NOWAWAY` reply (306)
#[derive(Debug, PartialEq, Eq)]
pub struct NowAway {
    parameters: ParameterList,
    client: ReplyTarget,
}

impl View for NowAway {
    type V = ParamsView;

    closed spec fn view(&self) -> ParamsView {
        self.parameters@
    }
}

/// Whether `p` reads as a `RPL_NOWAWAY` reply, and if not, the first error
pub open spec fn check_now_away(p: ParamsView) -> Result<(), ReplyErrorView> {
    if p.all().len() < 2 {
        Err(param_qty(2, p))
    } else {
        first_err(field_reply_target(p, 0), Ok(()))
    }
}

impl NowAway {
    #[verifier::type_invariant]
    spec fn inv(self) -> bool {
        &&& check_now_away(self.parameters@) is Ok
        &&& field_reply_target(self.parameters@, 0) == Ok::<TargetView, ReplyErrorView>(self.client@)
    }

    /// Reads `parameters` as a `RPL_NOWAWAY` reply
    pub fn try_from_params(parameters: ParameterList) -> (r: Result<NowAway, ReplyError>)
        ensures
            match r {
                Ok(x) => check_now_away(parameters@) is Ok && x@ == parameters@,
                Err(e) => check_now_away(parameters@) == Err::<(), ReplyErrorView>(e@),
            },
    {
        if parameters.len() < 2 {
            return Err(ReplyError::ParamQty { min_required: 2, received: parameters.len() });
        }
        let client = match reply_target_at(&parameters, 0) {
            Ok(v) => v,
            Err(e) => {
                return Err(e);
            },
        };
        Ok(NowAway { parameters, client })
    }

    pub fn client(&self) -> (r: &ReplyTarget)
        ensures
            field_reply_target(self@, 0) == Ok::<TargetView, ReplyErrorView>(r@),
    {
        proof {
            use_type_invariant(self);
        }
        &self.client
    }

    pub fn message(&self) -> (r: &str)
        ensures
            r@ == self@.all().last(),
    {
        proof {
            use_type_invariant(self);
        }
        last_str(&self.parameters)
    }

}

impl ReplyParts for NowAway {
    open spec fn reply_code(&self) -> u16 {
        RPL_NOWAWAY
    }

    open spec fn reply_params(&self) -> ParamsView {
        self@
    }

    fn code(&self) -> (r: u16) {
        RPL_NOWAWAY
    }

    fn parameters(&self) -> (r: &ParameterList) {
        proof {
            use_type_invariant(self);
        }
        &self.parameters
    }

    fn is_error(&self) -> (r: bool) {
        false
    }

    fn into_parts(self) -> (r: (u16, ParameterList)) {
        proof {
            use_type_invariant(&self);
        }
        (RPL_NOWAWAY, self.parameters)
    }
}

impl Clone for NowAway {
    fn clone(&self) -> (r: Self)
        ensures
            r@ == self@,
    {
        proof {
            use_type_invariant(self);
        }
        match NowAway::try_from_params(self.parameters.clone()) {
            Ok(x) => x,
            Err(_) => {
                assert(false);
                unreached()
            },
        }
    }
}

/// The `RPL_WHOISREGNICK` reply (307)
#[derive(Debug, PartialEq, Eq)]
pub struct WhoIsRegNick {
    parameters: ParameterList,
    client: ReplyTarget,
    nickname: Nickname,
}

impl View for WhoIsRegNick {
    type V = ParamsView;

    closed spec fn view(&self) -> ParamsView {
        self.parameters@
    }
}

/// Whether `p` reads as a `RPL_WHOISREGNICK` reply, and if not, the first error
pub open spec fn check_who_is_reg_nick(p: ParamsView) -> Result<(), ReplyErrorView> {
    if p.all().len() < 3 {
        Err(param_qty(3, p))
    } else {
        first_err(field_reply_target(p, 0), first_err(field_nickname(p, 1), Ok(())))
    }
}

impl WhoIsRegNick {
    #[verifier::type_invariant]
    spec fn inv(self) -> bool {
        &&& check_who_is_reg_nick(self.parameters@) is Ok
        &&& field_reply_target(self.parameters@, 0) == Ok::<TargetView, ReplyErrorView>(self.client@)
        &&& field_nickname(self.parameters@, 1) == Ok::<Seq<char>, ReplyErrorView>(self.nickname@)
    }

    /// Reads `parameters` as a `RPL_WHOISREGNICK` reply
    pub fn try_from_params(parameters: ParameterList) -> (r: Result<WhoIsRegNick, ReplyError>)
        ensures
            match r {
                Ok(x) => check_who_is_reg_nick(parameters@) is Ok && x@ == parameters@,
                Err(e) => check_who_is_reg_nick(parameters@) == Err::<(), ReplyErrorView>(e@),
            },
    {
        if parameters.len() < 3 {
            return Err(ReplyError::ParamQty { min_required: 3, received: parameters.len() });
        }
        let client = match reply_target_at(&parameters, 0) {
            Ok(v) => v,
            Err(e) => {
                return Err(e);
            },
        };
        let nickname = match nickname_at(&parameters, 1) {
            Ok(v) => v,
            Err(e) => {
                return Err(e);
            },
        };
        Ok(WhoIsRegNick { parameters, client, nickname })
    }

    pub fn client(&self) -> (r: &ReplyTarget)
        ensures
            field_reply_target(self@, 0) == Ok::<TargetView, ReplyErrorView>(r@),
    {
        proof {
            use_type_invariant(self);
        }
        &self.client
    }

    pub fn nickname(&self) -> (r: &Nickname)
        ensures
            field_nickname(self@, 1) == Ok::<Seq<char>, ReplyErrorView>(r@),
    {
        proof {
            use_type_invariant(self);
        }
        &self.nickname
    }

    pub fn message(&self) -> (r: &str)
        ensures
            r@ == self@.all().last(),
    {
        proof {
            use_type_invariant(self);
        }
        last_str(&self.parameters)
    }

}

impl ReplyParts for WhoIsRegNick {
    open spec fn reply_code(&self) -> u16 {
        RPL_WHOISREGNICK
    }

    open spec fn reply_params(&self) -> ParamsView {
        self@
    }

    fn code(&self) -> (r: u16) {
        RPL_WHOISREGNICK
    }

    fn parameters(&self) -> (r: &ParameterList) {
        proof {
            use_type_invariant(self);
        }
        &self.parameters
    }

    fn is_error(&self) -> (r: bool) {
        false
    }

    fn into_parts(self) -> (r: (u16, ParameterList)) {
        proof {
            use_type_invariant(&self);
        }
        (RPL_WHOISREGNICK, self.parameters)
    }
}

impl Clone for WhoIsRegNick {
    fn clone(&self) -> (r: Self)
        ensures
            r@ == self@,
    {
        proof {
            use_type_invariant(self);
        }
        match WhoIsRegNick::try_from_params(self.parameters.clone()) {
            Ok(x) => x,
            Err(_) => {
                assert(false);
                unreached()
            },
        }
    }
}

/// The `RPL_WHOISUSER` reply (311)
#[derive(Debug, PartialEq, Eq)]
pub struct WhoIsUser {
    parameters: ParameterList,
    client: ReplyTarget,
    nickname: Nickname,
    username: Username,
}

impl View for WhoIsUser {
    type V = ParamsView;

    closed spec fn view(&self) -> ParamsView {
        self.parameters@
    }
}

/// Whether `p` reads as a `RPL_WHOISUSER` reply, and if not, the first error
pub open spec fn check_who_is_user(p: ParamsView) -> Result<(), ReplyErrorView> {
    if p.all().len() < 6 {
        Err(param_qty(6, p))
    } else {
        first_err(field_reply_target(p, 0), first_err(field_nickname(p, 1), first_err(field_username(p, 2), Ok(()))))
    }
}

impl WhoIsUser {
    #[verifier::type_invariant]
    spec fn inv(self) -> bool {
        &&& check_who_is_user(self.parameters@) is Ok
        &&& field_reply_target(self.parameters@, 0) == Ok::<TargetView, ReplyErrorView>(self.client@)
        &&& field_nickname(self.parameters@, 1) == Ok::<Seq<char>, ReplyErrorView>(self.nickname@)
        &&& field_username(self.parameters@, 2) == Ok::<Seq<char>, ReplyErrorView>(self.username@)
    }

    /// Reads `parameters` as a `RPL_WHOISUSER` reply
    pub fn try_from_params(parameters: ParameterList) -> (r: Result<WhoIsUser, ReplyError>)
        ensures
            match r {
                Ok(x) => check_who_is_user(parameters@) is Ok && x@ == parameters@,
                Err(e) => check_who_is_user(parameters@) == Err::<(), ReplyErrorView>(e@),
            },
    {
        if parameters.len() < 6 {
            return Err(ReplyError::ParamQty { min_required: 6, received: parameters.len() });
        }
        let client = match reply_target_at(&parameters, 0) {
            Ok(v) => v,
            Err(e) => {
                return Err(e);
            },
        };
        let nickname = match nickname_at(&parameters, 1) {
            Ok(v) => v,
            Err(e) => {
                return Err(e);
            },
        };
        let username = match username_at(&parameters, 2) {
            Ok(v) => v,
            Err(e) => {
                return Err(e);
            },
        };
        Ok(WhoIsUser { parameters, client, nickname, username })
    }

    pub fn client(&self) -> (r: &ReplyTarget)
        ensures
            field_reply_target(self@, 0) == Ok::<TargetView, ReplyErrorView>(r@),
    {
        proof {
            use_type_invariant(self);
        }
        &self.client
    }

    pub fn nickname(&self) -> (r: &Nickname)
        ensures
            field_nickname(self@, 1) == Ok::<Seq<char>, ReplyErrorView>(r@),
    {
        proof {
            use_type_invariant(self);
        }
        &self.nickname
    }

    pub fn username(&self) -> (r: &Username)
        ensures
            field_username(self@, 2) == Ok::<Seq<char>, ReplyErrorView>(r@),
    {
        proof {
            use_type_invariant(self);
        }
        &self.username
    }

    pub fn host(&self) -> (r: &str)
        ensures
            r@ == param_at(self@, 3),
    {
        proof {
            use_type_invariant(self);
        }
        param_str(&self.parameters, 3)
    }

    pub fn realname(&self) -> (r: &str)
        ensures
            r@ == param_at(self@, 5),
    {
        proof {
            use_type_invariant(self);
        }
        param_str(&self.parameters, 5)
    }

}

impl ReplyParts for WhoIsUser {
    open spec fn reply_code(&self) -> u16 {
        RPL_WHOISUSER
    }

    open spec fn reply_params(&self) -> ParamsView {
        self@
    }

    fn code(&self) -> (r: u16) {
        RPL_WHOISUSER
    }

    fn parameters(&self) -> (r: &ParameterList) {
        proof {
            use_type_invariant(self);
        }
        &self.parameters
    }

    fn is_error(&self) -> (r: bool) {
        false
    }

    fn into_parts(self) -> (r: (u16, ParameterList)) {
        proof {
            use_type_invariant(&self);
        }
        (RPL_WHOISUSER, self.parameters)
    }
}

impl Clone for WhoIsUser {
    fn clone(&self) -> (r: Self)
        ensures
            r@ == self@,
    {
        proof {
            use_type_invariant(self);
        }
        match WhoIsUser::try_from_params(self.parameters.clone()) {
            Ok(x) => x,
            Err(_) => {
                assert(false);
                unreached()
            },
        }
    }
}

/// The `RPL_WHOISSERVER` reply (312)
#[derive(Debug, PartialEq, Eq)]
pub struct WhoIsServer {
    parameters: ParameterList,
    client: ReplyTarget,
    nickname: Nickname,
}

impl View for WhoIsServer {
    type V = ParamsView;

    closed spec fn view(&self) -> ParamsView {
        self.parameters@
    }
}

/// Whether `p` reads as a `RPL_WHOISSERVER` reply, and if not, the first error
pub open spec fn check_who_is_server(p: ParamsView) -> Result<(), ReplyErrorView> {
    if p.all().len() < 4 {
        Err(param_qty(4, p))
    } else {
        first_err(field_reply_target(p, 0), first_err(field_nickname(p, 1), Ok(())))
    }
}

impl WhoIsServer {
    #[verifier::type_invariant]
    spec fn inv(self) -> bool {
        &&& check_who_is_server(self.parameters@) is Ok
        &&& field_reply_target(self.parameters@, 0) == Ok::<TargetView, ReplyErrorView>(self.client@)
        &&& field_nickname(self.parameters@, 1) == Ok::<Seq<char>, ReplyErrorView>(self.nickname@)
    }

    /// Reads `parameters` as a `RPL_WHOISSERVER` reply
    pub fn try_from_params(parameters: ParameterList) -> (r: Result<WhoIsServer, ReplyError>)
        ensures
            match r {
                Ok(x) => check_who_is_server(parameters@) is Ok && x@ == parameters@,
                Err(e) => check_who_is_server(parameters@) == Err::<(), ReplyErrorView>(e@),
            },
    {
        if parameters.len() < 4 {
            return Err(ReplyError::ParamQty { min_required: 4, received: parameters.len() });
        }
        let client = match reply_target_at(&parameters, 0) {
            Ok(v) => v,
            Err(e) => {
                return Err(e);
            },
        };
        let nickname = match nickname_at(&parameters, 1) {
            Ok(v) => v,
            Err(e) => {
                return Err(e);
            },
        };
        Ok(WhoIsServer { parameters, client, nickname })
    }

    pub fn client(&self) -> (r: &ReplyTarget)
        ensures
            field_reply_target(self@, 0) == Ok::<TargetView, ReplyErrorView>(r@),
    {
        proof {
            use_type_invariant(self);
        }
        &self.client
    }

    pub fn nickname(&self) -> (r: &Nickname)
        ensures
            field_nickname(self@, 1) == Ok::<Seq<char>, ReplyErrorView>(r@),
    {
        proof {
            use_type_invariant(self);
        }
        &self.nickname
    }

    pub fn server(&self) -> (r: &str)
        ensures
            r@ == param_at(self@, 2),
    {
        proof {
            use_type_invariant(self);
        }
        param_str(&self.parameters, 2)
    }

    pub fn server_info(&self) -> (r: &str)
        ensures
            r@ == self@.all().last(),
    {
        proof {
            use_type_invariant(self);
        }
        last_str(&self.parameters)
    }

}

impl ReplyParts for WhoIsServer {
    open spec fn reply_code(&self) -> u16 {
        RPL_WHOISSERVER
    }

    open spec fn reply_params(&self) -> ParamsView {
        self@
    }

    fn code(&self) -> (r: u16) {
        RPL_WHOISSERVER
    }

    fn parameters(&self) -> (r: &ParameterList) {
        proof {
            use_type_invariant(self);
        }
        &self.parameters
    }

    fn is_error(&self) -> (r: bool) {
        false
    }

    fn into_parts(self) -> (r: (u16, ParameterList)) {
        proof {
            use_type_invariant(&self);
        }
        (RPL_WHOISSERVER, self.parameters)
    }
}

impl Clone for WhoIsServer {
    fn clone(&self) -> (r: Self)
        ensures
            r@ == self@,
    {
        proof {
            use_type_invariant(self);
        }
        match WhoIsServer::try_from_params(self.parameters.clone()) {
            Ok(x) => x,
            Err(_) => {
                assert(false);
                unreached()
            },
        }
    }
}

/// The `RPL_WHOISOPERATOR` reply (313)
#[derive(Debug, PartialEq, Eq)]
pub struct WhoIsOperator {
    parameters: ParameterList,
    client: ReplyTarget,
    nickname: Nickname,
}

impl View for WhoIsOperator {
    type V = ParamsView;

    closed spec fn view(&self) -> ParamsView {
        self.parameters@
    }
}

/// Whether `p` reads as a `RPL_WHOISOPERATOR` reply, and if not, the first error
pub open spec fn check_who_is_operator(p: ParamsView) -> Result<(), ReplyErrorView> {
    if p.all().len() < 3 {
        Err(param_qty(3, p))
    } else {
        first_err(field_reply_target(p, 0), first_err(field_nickname(p, 1), Ok(())))
    }
}

impl WhoIsOperator {
    #[verifier::type_invariant]
    spec fn inv(self) -> bool {
        &&& check_who_is_operator(self.parameters@) is Ok
        &&& field_reply_target(self.parameters@, 0) == Ok::<TargetView, ReplyErrorView>(self.client@)
        &&& field_nickname(self.parameters@, 1) == Ok::<Seq<char>, ReplyErrorView>(self.nickname@)
    }

    /// Reads `parameters` as a `RPL_WHOISOPERATOR` reply
    pub fn try_from_params(parameters: ParameterList) -> (r: Result<WhoIsOperator, ReplyError>)
        ensures
            match r {
                Ok(x) => check_who_is_operator(parameters@) is Ok && x@ == parameters@,
                Err(e) => check_who_is_operator(parameters@) == Err::<(), ReplyErrorView>(e@),
            },
    {
        if parameters.len() < 3 {
            return Err(ReplyError::ParamQty { min_required: 3, received: parameters.len() });
        }
        let client = match reply_target_at(&parameters, 0) {
            Ok(v) => v,
            Err(e) => {
                return Err(e);
            },
        };
        let nickname = match nickname_at(&parameters, 1) {
            Ok(v) => v,
            Err(e) => {
                return Err(e);
            },
        };
        Ok(WhoIsOperator { parameters, client, nickname })
    }

    pub fn client(&self) -> (r: &ReplyTarget)
        ensures
            field_reply_target(self@, 0) == Ok::<TargetView, ReplyErrorView>(r@),
    {
        proof {
            use_type_invariant(self);
        }
        &self.client
    }

    pub fn nickname(&self) -> (r: &Nickname)
        ensures
            field_nickname(self@, 1) == Ok::<Seq<char>, ReplyErrorView>(r@),
    {
        proof {
            use_type_invariant(self);
        }
        &self.nickname
    }

    pub fn message(&self) -> (r: &str)
        ensures
            r@ == self@.all().last(),
    {
        proof {
            use_type_invariant(self);
        }
        last_str(&self.parameters)
    }

}

impl ReplyParts for WhoIsOperator {
    open spec fn reply_code(&self) -> u16 {
        RPL_WHOISOPERATOR
    }

    open spec fn reply_params(&self) -> ParamsView {
        self@
    }

    fn code(&self) -> (r: u16) {
        RPL_WHOISOPERATOR
    }

    fn parameters(&self) -> (r: &ParameterList) {
        proof {
            use_type_invariant(self);
        }
        &self.parameters
    }

    fn is_error(&self) -> (r: bool) {
        false
    }

    fn into_parts(self) -> (r: (u16, ParameterList)) {
        proof {
            use_type_invariant(&self);
        }
        (RPL_WHOISOPERATOR, self.parameters)
    }
}

impl Clone for WhoIsOperator {
    fn clone(&self) -> (r: Self)
        ensures
            r@ == self@,
    {
        proof {
            use_type_invariant(self);
        }
        match WhoIsOperator::try_from_params(self.parameters.clone()) {
            Ok(x) => x,
            Err(_) => {
                assert(false);
                unreached()
            },
        }
    }
}

/// The `RPL_WHOWASUSER` reply (314)
#[derive(Debug, PartialEq, Eq)]
pub struct WhoWasUser {
    parameters: ParameterList,
    client: ReplyTarget,
    nickname: Nickname,
    username: Username,
}

impl View for WhoWasUser {
    type V = ParamsView;

    closed spec fn view(&self) -> ParamsView {
        self.parameters@
    }
}

/// Whether `p` reads as a `RPL_WHOWASUSER` reply, and if not, the first error
pub open spec fn check_who_was_user(p: ParamsView) -> Result<(), ReplyErrorView> {
    if p.all().len() < 6 {
        Err(param_qty(6, p))
    } else {
        first_err(field_reply_target(p, 0), first_err(field_nickname(p, 1), first_err(field_username(p, 2), Ok(()))))
    }
}

impl WhoWasUser {
    #[verifier::type_invariant]
    spec fn inv(self) -> bool {
        &&& check_who_was_user(self.parameters@) is Ok
        &&& field_reply_target(self.parameters@, 0) == Ok::<TargetView, ReplyErrorView>(self.client@)
        &&& field_nickname(self.parameters@, 1) == Ok::<Seq<char>, ReplyErrorView>(self.nickname@)
        &&& field_username(self.parameters@, 2) == Ok::<Seq<char>, ReplyErrorView>(self.username@)
    }

    /// Reads `parameters` as a `RPL_WHOWASUSER` reply
    pub fn try_from_params(parameters: ParameterList) -> (r: Result<WhoWasUser, ReplyError>)
        ensures
            match r {
                Ok(x) => check_who_was_user(parameters@) is Ok && x@ == parameters@,
                Err(e) => check_who_was_user(parameters@) == Err::<(), ReplyErrorView>(e@),
            },
    {
        if parameters.len() < 6 {
            return Err(ReplyError::ParamQty { min_required: 6, received: parameters.len() });
        }
        let client = match reply_target_at(&parameters, 0) {
            Ok(v) => v,
            Err(e) => {
                return Err(e);
            },
        };
        let nickname = match nickname_at(&parameters, 1) {
            Ok(v) => v,
            Err(e) => {
                return Err(e);
            },
        };
        let username = match username_at(&parameters, 2) {
            Ok(v) => v,
            Err(e) => {
                return Err(e);
            },
        };
        Ok(WhoWasUser { parameters, client, nickname, username })
    }

    pub fn client(&self) -> (r: &ReplyTarget)
        ensures
            field_reply_target(self@, 0) == Ok::<TargetView, ReplyErrorView>(r@),
    {
        proof {
            use_type_invariant(self);
        }
        &self.client
    }

    pub fn nickname(&self) -> (r: &Nickname)
        ensures
            field_nickname(self@, 1) == Ok::<Seq<char>, ReplyErrorView>(r@),
    {
        proof {
            use_type_invariant(self);
        }
        &self.nickname
    }

    pub fn username(&self) -> (r: &Username)
        ensures
            field_username(self@, 2) == Ok::<Seq<char>, ReplyErrorView>(r@),
    {
        proof {
            use_type_invariant(self);
        }
        &self.username
    }

    pub fn host(&self) -> (r: &str)
        ensures
            r@ == param_at(self@, 3),
    {
        proof {
            use_type_invariant(self);
        }
        param_str(&self.parameters, 3)
    }

    pub fn realname(&self) -> (r: &str)
        ensures
            r@ == param_at(self@, 5),
    {
        proof {
            use_type_invariant(self);
        }
        param_str(&self.parameters, 5)
    }

}

impl ReplyParts for WhoWasUser {
    open spec fn reply_code(&self) -> u16 {
        RPL_WHOWASUSER
    }

    open spec fn reply_params(&self) -> ParamsView {
        self@
    }

    fn code(&self) -> (r: u16) {
        RPL_WHOWASUSER
    }

    fn parameters(&self) -> (r: &ParameterList) {
        proof {
            use_type_invariant(self);
        }
        &self.parameters
    }

    fn is_error(&self) -> (r: bool) {
        false
    }

    fn into_parts(self) -> (r: (u16, ParameterList)) {
        proof {
            use_type_invariant(&self);
        }
        (RPL_WHOWASUSER, self.parameters)
    }
}

impl Clone for WhoWasUser {
    fn clone(&self) -> (r: Self)
        ensures
            r@ == self@,
    {
        proof {
            use_type_invariant(self);
        }
        match WhoWasUser::try_from_params(self.parameters.clone()) {
            Ok(x) => x,
            Err(_) => {
                assert(false);
                unreached()
            },
        }
    }
}

/// The `RPL_ENDOFWHO` reply (315)
#[derive(Debug, PartialEq, Eq)]
pub struct EndOfWho {
    parameters: ParameterList,
    client: ReplyTarget,
}

impl View for EndOfWho {
    type V = ParamsView;

    closed spec fn view(&self) -> ParamsView {
        self.parameters@
    }
}

/// Whether `p` reads as a `RPL_ENDOFWHO` reply, and if not, the first error
pub open spec fn check_end_of_who(p: ParamsView) -> Result<(), ReplyErrorView> {
    if p.all().len() < 3 {
        Err(param_qty(3, p))
    } else {
        first_err(field_reply_target(p, 0), Ok(()))
    }
}

impl EndOfWho {
    #[verifier::type_invariant]
    spec fn inv(self) -> bool {
        &&& check_end_of_who(self.parameters@) is Ok
        &&& field_reply_target(self.parameters@, 0) == Ok::<TargetView, ReplyErrorView>(self.client@)
    }

    /// Reads `parameters` as a `RPL_ENDOFWHO` reply
    pub fn try_from_params(parameters: ParameterList) -> (r: Result<EndOfWho, ReplyError>)
        ensures
            match r {
                Ok(x) => check_end_of_who(parameters@) is Ok && x@ == parameters@,
                Err(e) => check_end_of_who(parameters@) == Err::<(), ReplyErrorView>(e@),
            },
    {
        if parameters.len() < 3 {
            return Err(ReplyError::ParamQty { min_required: 3, received: parameters.len() });
        }
        let client = match reply_target_at(&parameters, 0) {
            Ok(v) => v,
            Err(e) => {
                return Err(e);
            },
        };
        Ok(EndOfWho { parameters, client })
    }

    pub fn client(&self) -> (r: &ReplyTarget)
        ensures
            field_reply_target(self@, 0) == Ok::<TargetView, ReplyErrorView>(r@),
    {
        proof {
            use_type_invariant(self);
        }
        &self.client
    }

    pub fn mask(&self) -> (r: &str)
        ensures
            r@ == param_at(self@, 1),
    {
        proof {
            use_type_invariant(self);
        }
        param_str(&self.parameters, 1)
    }

    pub fn message(&self) -> (r: &str)
        ensures
            r@ == self@.all().last(),
    {
        proof {
            use_type_invariant(self);
        }
        last_str(&self.parameters)
    }

}

impl ReplyParts for EndOfWho {
    open spec fn reply_code(&self) -> u16 {
        RPL_ENDOFWHO
    }

    open spec fn reply_params(&self) -> ParamsView {
        self@
    }

    fn code(&self) -> (r: u16) {
        RPL_ENDOFWHO
    }

    fn parameters(&self) -> (r: &ParameterList) {
        proof {
            use_type_invariant(self);
        }
        &self.parameters
    }

    fn is_error(&self) -> (r: bool) {
        false
    }

    fn into_parts(self) -> (r: (u16, ParameterList)) {
        proof {
            use_type_invariant(&self);
        }
        (RPL_ENDOFWHO, self.parameters)
    }
}

impl Clone for EndOfWho {
    fn clone(&self) -> (r: Self)
        ensures
            r@ == self@,
    {
        proof {
            use_type_invariant(self);
        }
        match EndOfWho::try_from_params(self.parameters.clone()) {
            Ok(x) => x,
            Err(_) => {
                assert(false);
                unreached()
            },
        }
    }
}

/// The `RPL_WHOISIDLE` reply (317)
#[derive(Debug, PartialEq, Eq)]
pub struct WhoIsIdle {
    parameters: ParameterList,
    client: ReplyTarget,
    nickname: Nickname,
    secs: u64,
    signon: u64,
}

impl View for WhoIsIdle {
    type V = ParamsView;

    closed spec fn view(&self) -> ParamsView {
        self.parameters@
    }
}

/// Whether `p` reads as a `RPL_WHOISIDLE` reply, and if not, the first error
pub open spec fn check_who_is_idle(p: ParamsView) -> Result<(), ReplyErrorView> {
    if p.all().len() < 5 {
        Err(param_qty(5, p))
    } else {
        first_err(field_reply_target(p, 0), first_err(field_nickname(p, 1), first_err(field_u64(p, 2), first_err(field_u64(p, 3), Ok(())))))
    }
}

impl WhoIsIdle {
    #[verifier::type_invariant]
    spec fn inv(self) -> bool {
        &&& check_who_is_idle(self.parameters@) is Ok
        &&& field_reply_target(self.parameters@, 0) == Ok::<TargetView, ReplyErrorView>(self.client@)
        &&& field_nickname(self.parameters@, 1) == Ok::<Seq<char>, ReplyErrorView>(self.nickname@)
        &&& field_u64(self.parameters@, 2) == Ok::<u64, ReplyErrorView>(self.secs)
        &&& field_u64(self.parameters@, 3) == Ok::<u64, ReplyErrorView>(self.signon)
    }

    /// Reads `parameters` as a `RPL_WHOISIDLE` reply
    pub fn try_from_params(parameters: ParameterList) -> (r: Result<WhoIsIdle, ReplyError>)
        ensures
            match r {
                Ok(x) => check_who_is_idle(parameters@) is Ok && x@ == parameters@,
                Err(e) => check_who_is_idle(parameters@) == Err::<(), ReplyErrorView>(e@),
            },
    {
        if parameters.len() < 5 {
            return Err(ReplyError::ParamQty { min_required: 5, received: parameters.len() });
        }
        let client = match reply_target_at(&parameters, 0) {
            Ok(v) => v,
            Err(e) => {
                return Err(e);
            },
        };
        let nickname = match nickname_at(&parameters, 1) {
            Ok(v) => v,
            Err(e) => {
                return Err(e);
            },
        };
        let secs = match u64_at(&parameters, 2) {
            Ok(v) => v,
            Err(e) => {
                return Err(e);
            },
        };
        let signon = match u64_at(&parameters, 3) {
            Ok(v) => v,
            Err(e) => {
                return Err(e);
            },
        };
        Ok(WhoIsIdle { parameters, client, nickname, secs, signon })
    }

    pub fn client(&self) -> (r: &ReplyTarget)
        ensures
            field_reply_target(self@, 0) == Ok::<TargetView, ReplyErrorView>(r@),
    {
        proof {
            use_type_invariant(self);
        }
        &self.client
    }

    pub fn nickname(&self) -> (r: &Nickname)
        ensures
            field_nickname(self@, 1) == Ok::<Seq<char>, ReplyErrorView>(r@),
    {
        proof {
            use_type_invariant(self);
        }
        &self.nickname
    }

    pub fn secs(&self) -> (r: u64)
        ensures
            field_u64(self@, 2) == Ok::<u64, ReplyErrorView>(r),
    {
        proof {
            use_type_invariant(self);
        }
        self.secs
    }

    pub fn signon(&self) -> (r: u64)
        ensures
            field_u64(self@, 3) == Ok::<u64, ReplyErrorView>(r),
    {
        proof {
            use_type_invariant(self);
        }
        self.signon
    }

    pub fn message(&self) -> (r: &str)
        ensures
            r@ == self@.all().last(),
    {
        proof {
            use_type_invariant(self);
        }
        last_str(&self.parameters)
    }

}

impl ReplyParts for WhoIsIdle {
    open spec fn reply_code(&self) -> u16 {
        RPL_WHOISIDLE
    }

    open spec fn reply_params(&self) -> ParamsView {
        self@
    }

    fn code(&self) -> (r: u16) {
        RPL_WHOISIDLE
    }

    fn parameters(&self) -> (r: &ParameterList) {
        proof {
            use_type_invariant(self);
        }
        &self.parameters
    }

    fn is_error(&self) -> (r: bool) {
        false
    }

    fn into_parts(self) -> (r: (u16, ParameterList)) {
        proof {
            use_type_invariant(&self);
        }
        (RPL_WHOISIDLE, self.parameters)
    }
}

impl Clone for WhoIsIdle {
    fn clone(&self) -> (r: Self)
        ensures
            r@ == self@,
    {
        proof {
            use_type_invariant(self);
        }
        match WhoIsIdle::try_from_params(self.parameters.clone()) {
            Ok(x) => x,
            Err(_) => {
                assert(false);
                unreached()
            },
        }
    }
}

/// The `RPL_ENDOFWHOIS` reply (318)
#[derive(Debug, PartialEq, Eq)]
pub struct EndOfWhoIs {
    parameters: ParameterList,
    client: ReplyTarget,
    nickname: Nickname,
}

impl View for EndOfWhoIs {
    type V = ParamsView;

    closed spec fn view(&self) -> ParamsView {
        self.parameters@
    }
}

/// Whether `p` reads as a `RPL_ENDOFWHOIS` reply, and if not, the first error
pub open spec fn check_end_of_who_is(p: ParamsView) -> Result<(), ReplyErrorView> {
    if p.all().len() < 3 {
        Err(param_qty(3, p))
    } else {
        first_err(field_reply_target(p, 0), first_err(field_nickname(p, 1), Ok(())))
    }
}

impl EndOfWhoIs {
    #[verifier::type_invariant]
    spec fn inv(self) -> bool {
        &&& check_end_of_who_is(self.parameters@) is Ok
        &&& field_reply_target(self.parameters@, 0) == Ok::<TargetView, ReplyErrorView>(self.client@)
        &&& field_nickname(self.parameters@, 1) == Ok::<Seq<char>, ReplyErrorView>(self.nickname@)
    }

    /// Reads `parameters` as a `RPL_ENDOFWHOIS` reply
    pub fn try_from_params(parameters: ParameterList) -> (r: Result<EndOfWhoIs, ReplyError>)
        ensures
            match r {
                Ok(x) => check_end_of_who_is(parameters@) is Ok && x@ == parameters@,
                Err(e) => check_end_of_who_is(parameters@) == Err::<(), ReplyErrorView>(e@),
            },
    {
        if parameters.len() < 3 {
            return Err(ReplyError::ParamQty { min_required: 3, received: parameters.len() });
        }
        let client = match reply_target_at(&parameters, 0) {
            Ok(v) => v,
            Err(e) => {
                return Err(e);
            },
        };
        let nickname = match nickname_at(&parameters, 1) {
            Ok(v) => v,
            Err(e) => {
                return Err(e);
            },
        };
        Ok(EndOfWhoIs { parameters, client, nickname })
    }

    pub fn client(&self) -> (r: &ReplyTarget)
        ensures
            field_reply_target(self@, 0) == Ok::<TargetView, ReplyErrorView>(r@),
    {
        proof {
            use_type_invariant(self);
        }
        &self.client
    }

    pub fn nickname(&self) -> (r: &Nickname)
        ensures
            field_nickname(self@, 1) == Ok::<Seq<char>, ReplyErrorView>(r@),
    {
        proof {
            use_type_invariant(self);
        }
        &self.nickname
    }

    pub fn message(&self) -> (r: &str)
        ensures
            r@ == self@.all().last(),
    {
        proof {
            use_type_invariant(self);
        }
        last_str(&self.parameters)
    }

}

impl ReplyParts for EndOfWhoIs {
    open spec fn reply_code(&self) -> u16 {
        RPL_ENDOFWHOIS
    }

    open spec fn reply_params(&self) -> ParamsView {
        self@
    }

    fn code(&self) -> (r: u16) {
        RPL_ENDOFWHOIS
    }

    fn parameters(&self) -> (r: &ParameterList) {
        proof {
            use_type_invariant(self);
        }
        &self.parameters
    }

    fn is_error(&self) -> (r: bool) {
        false
    }

    fn into_parts(self) -> (r: (u16, ParameterList)) {
        proof {
            use_type_invariant(&self);
        }
        (RPL_ENDOFWHOIS, self.parameters)
    }
}

impl Clone for EndOfWhoIs {
    fn clone(&self) -> (r: Self)
        ensures
            r@ == self@,
    {
        proof {
            use_type_invariant(self);
        }
        match EndOfWhoIs::try_from_params(self.parameters.clone()) {
            Ok(x) => x,
            Err(_) => {
                assert(false);
                unreached()
            },
        }
    }
}

/// The `RPL_WHOISSPECIAL` reply (320)
#[derive(Debug, PartialEq, Eq)]
pub struct WhoIsSpecial {
    parameters: ParameterList,
    client: ReplyTarget,
    nickname: Nickname,
}

impl View for WhoIsSpecial {
    type V = ParamsView;

    closed spec fn view(&self) -> ParamsView {
        self.parameters@
    }
}

/// Whether `p` reads as a `RPL_WHOISSPECIAL` reply, and if not, the first error
pub open spec fn check_who_is_special(p: ParamsView) -> Result<(), ReplyErrorView> {
    if p.all().len() < 3 {
        Err(param_qty(3, p))
    } else {
        first_err(field_reply_target(p, 0), first_err(field_nickname(p, 1), Ok(())))
    }
}

impl WhoIsSpecial {
    #[verifier::type_invariant]
    spec fn inv(self) -> bool {
        &&& check_who_is_special(self.parameters@) is Ok
        &&& field_reply_target(self.parameters@, 0) == Ok::<TargetView, ReplyErrorView>(self.client@)
        &&& field_nickname(self.parameters@, 1) == Ok::<Seq<char>, ReplyErrorView>(self.nickname@)
    }

    /// Reads `parameters` as a `RPL_WHOISSPECIAL` reply
    pub fn try_from_params(parameters: ParameterList) -> (r: Result<WhoIsSpecial, ReplyError>)
        ensures
            match r {
                Ok(x) => check_who_is_special(parameters@) is Ok && x@ == parameters@,
                Err(e) => check_who_is_special(parameters@) == Err::<(), ReplyErrorView>(e@),
            },
    {
        if parameters.len() < 3 {
            return Err(ReplyError::ParamQty { min_required: 3, received: parameters.len() });
        }
        let client = match reply_target_at(&parameters, 0) {
            Ok(v) => v,
            Err(e) => {
                return Err(e);
            },
        };
        let nickname = match nickname_at(&parameters, 1) {
            Ok(v) => v,
            Err(e) => {
                return Err(e);
            },
        };
        Ok(WhoIsSpecial { parameters, client, nickname })
    }

    pub fn client(&self) -> (r: &ReplyTarget)
        ensures
            field_reply_target(self@, 0) == Ok::<TargetView, ReplyErrorView>(r@),
    {
        proof {
            use_type_invariant(self);
        }
        &self.client
    }

    pub fn nickname(&self) -> (r: &Nickname)
        ensures
            field_nickname(self@, 1) == Ok::<Seq<char>, ReplyErrorView>(r@),
    {
        proof {
            use_type_invariant(self);
        }
        &self.nickname
    }

    pub fn message(&self) -> (r: &str)
        ensures
            r@ == self@.all().last(),
    {
        proof {
            use_type_invariant(self);
        }
        last_str(&self.parameters)
    }

}

impl ReplyParts for WhoIsSpecial {
    open spec fn reply_code(&self) -> u16 {
        RPL_WHOISSPECIAL
    }

    open spec fn reply_params(&self) -> ParamsView {
        self@
    }

    fn code(&self) -> (r: u16) {
        RPL_WHOISSPECIAL
    }

    fn parameters(&self) -> (r: &ParameterList) {
        proof {
            use_type_invariant(self);
        }
        &self.parameters
    }

    fn is_error(&self) -> (r: bool) {
        false
    }

    fn into_parts(self) -> (r: (u16, ParameterList)) {
        proof {
            use_type_invariant(&self);
        }
        (RPL_WHOISSPECIAL, self.parameters)
    }
}

impl Clone for WhoIsSpecial {
    fn clone(&self) -> (r: Self)
        ensures
            r@ == self@,
    {
        proof {
            use_type_invariant(self);
        }
        match WhoIsSpecial::try_from_params(self.parameters.clone()) {
            Ok(x) => x,
            Err(_) => {
                assert(false);
                unreached()
            },
        }
    }
}

/// The `RPL_LISTSTART` reply (321)
#[derive(Debug, PartialEq, Eq)]
pub struct ListStart {
    parameters: ParameterList,
}

impl View for ListStart {
    type V = ParamsView;

    closed spec fn view(&self) -> ParamsView {
        self.parameters@
    }
}

/// Whether `p` reads as a `RPL_LISTSTART` reply, and if not, the first error
pub open spec fn check_list_start(p: ParamsView) -> Result<(), ReplyErrorView> {
    if p.all().len() < 3 {
        Err(param_qty(3, p))
    } else {
        Ok(())
    }
}

impl ListStart {
    #[verifier::type_invariant]
    spec fn inv(self) -> bool {
        &&& check_list_start(self.parameters@) is Ok
    }

    /// Reads `parameters` as a `RPL_LISTSTART` reply
    pub fn try_from_params(parameters: ParameterList) -> (r: Result<ListStart, ReplyError>)
        ensures
            match r {
                Ok(x) => check_list_start(parameters@) is Ok && x@ == parameters@,
                Err(e) => check_list_start(parameters@) == Err::<(), ReplyErrorView>(e@),
            },
    {
        if parameters.len() < 3 {
            return Err(ReplyError::ParamQty { min_required: 3, received: parameters.len() });
        }
        Ok(ListStart { parameters })
    }

    pub fn client(&self) -> (r: &str)
        ensures
            r@ == param_at(self@, 0),
    {
        proof {
            use_type_invariant(self);
        }
        param_str(&self.parameters, 0)
    }

}

impl ReplyParts for ListStart {
    open spec fn reply_code(&self) -> u16 {
        RPL_LISTSTART
    }

    open spec fn reply_params(&self) -> ParamsView {
        self@
    }

    fn code(&self) -> (r: u16) {
        RPL_LISTSTART
    }

    fn parameters(&self) -> (r: &ParameterList) {
        proof {
            use_type_invariant(self);
        }
        &self.parameters
    }

    fn is_error(&self) -> (r: bool) {
        false
    }

    fn into_parts(self) -> (r: (u16, ParameterList)) {
        proof {
            use_type_invariant(&self);
        }
        (RPL_LISTSTART, self.parameters)
    }
}

impl Clone for ListStart {
    fn clone(&self) -> (r: Self)
        ensures
            r@ == self@,
    {
        proof {
            use_type_invariant(self);
        }
        match ListStart::try_from_params(self.parameters.clone()) {
            Ok(x) => x,
            Err(_) => {
                assert(false);
                unreached()
            },
        }
    }
}

/// The `RPL_LIST` reply (322)
#[derive(Debug, PartialEq, Eq)]
pub struct List {
    parameters: ParameterList,
    client: ReplyTarget,
    channel: Channel,
    clients: u64,
}

impl View for List {
    type V = ParamsView;

    closed spec fn view(&self) -> ParamsView {
        self.parameters@
    }
}

/// Whether `p` reads as a `RPL_LIST` reply, and if not, the first error
pub open spec fn check_list(p: ParamsView) -> Result<(), ReplyErrorView> {
    if p.all().len() < 4 {
        Err(param_qty(4, p))
    } else {
        first_err(field_reply_target(p, 0), first_err(field_channel(p, 1), first_err(field_u64(p, 2), Ok(()))))
    }
}

impl List {
    #[verifier::type_invariant]
    spec fn inv(self) -> bool {
        &&& check_list(self.parameters@) is Ok
        &&& field_reply_target(self.parameters@, 0) == Ok::<TargetView, ReplyErrorView>(self.client@)
        &&& field_channel(self.parameters@, 1) == Ok::<Seq<char>, ReplyErrorView>(self.channel@)
        &&& field_u64(self.parameters@, 2) == Ok::<u64, ReplyErrorView>(self.clients)
    }

    /// Reads `parameters` as a `RPL_LIST` reply
    pub fn try_from_params(parameters: ParameterList) -> (r: Result<List, ReplyError>)
        ensures
            match r {
                Ok(x) => check_list(parameters@) is Ok && x@ == parameters@,
                Err(e) => check_list(parameters@) == Err::<(), ReplyErrorView>(e@),
            },
    {
        if parameters.len() < 4 {
            return Err(ReplyError::ParamQty { min_required: 4, received: parameters.len() });
        }
        let client = match reply_target_at(&parameters, 0) {
            Ok(v) => v,
            Err(e) => {
                return Err(e);
            },
        };
        let channel = match channel_at(&parameters, 1) {
            Ok(v) => v,
            Err(e) => {
                return Err(e);
            },
        };
        let clients = match u64_at(&parameters, 2) {
            Ok(v) => v,
            Err(e) => {
                return Err(e);
            },
        };
        Ok(List { parameters, client, channel, clients })
    }

    pub fn client(&self) -> (r: &ReplyTarget)
        ensures
            field_reply_target(self@, 0) == Ok::<TargetView, ReplyErrorView>(r@),
    {
        proof {
            use_type_invariant(self);
        }
        &self.client
    }

    pub fn channel(&self) -> (r: &Channel)
        ensures
            field_channel(self@, 1) == Ok::<Seq<char>, ReplyErrorView>(r@),
    {
        proof {
            use_type_invariant(self);
        }
        &self.channel
    }

    pub fn clients(&self) -> (r: u64)
        ensures
            field_u64(self@, 2) == Ok::<u64, ReplyErrorView>(r),
    {
        proof {
            use_type_invariant(self);
        }
        self.clients
    }

    pub fn topic(&self) -> (r: &str)
        ensures
            r@ == self@.all().last(),
    {
        proof {
            use_type_invariant(self);
        }
        last_str(&self.parameters)
    }

}

impl ReplyParts for List {
    open spec fn reply_code(&self) -> u16 {
        RPL_LIST
    }

    open spec fn reply_params(&self) -> ParamsView {
        self@
    }

    fn code(&self) -> (r: u16) {
        RPL_LIST
    }

    fn parameters(&self) -> (r: &ParameterList) {
        proof {
            use_type_invariant(self);
        }
        &self.parameters
    }

    fn is_error(&self) -> (r: bool) {
        false
    }

    fn into_parts(self) -> (r: (u16, ParameterList)) {
        proof {
            use_type_invariant(&self);
        }
        (RPL_LIST, self.parameters)
    }
}

impl Clone for List {
    fn clone(&self) -> (r: Self)
        ensures
            r@ == self@,
    {
        proof {
            use_type_invariant(self);
        }
        match List::try_from_params(self.parameters.clone()) {
            Ok(x) => x,
            Err(_) => {
                assert(false);
                unreached()
            },
        }
    }
}

/// The `RPL_LISTEND` reply (323)
#[derive(Debug, PartialEq, Eq)]
pub struct ListEnd {
    parameters: ParameterList,
}

impl View for ListEnd {
    type V = ParamsView;

    closed spec fn view(&self) -> ParamsView {
        self.parameters@
    }
}

/// Whether `p` reads as a `RPL_LISTEND` reply, and if not, the first error
pub open spec fn check_list_end(p: ParamsView) -> Result<(), ReplyErrorView> {
    if p.all().len() < 2 {
        Err(param_qty(2, p))
    } else {
        Ok(())
    }
}

impl ListEnd {
    #[verifier::type_invariant]
    spec fn inv(self) -> bool {
        &&& check_list_end(self.parameters@) is Ok
    }

    /// Reads `parameters` as a `RPL_LISTEND` reply
    pub fn try_from_params(parameters: ParameterList) -> (r: Result<ListEnd, ReplyError>)
        ensures
            match r {
                Ok(x) => check_list_end(parameters@) is Ok && x@ == parameters@,
                Err(e) => check_list_end(parameters@) == Err::<(), ReplyErrorView>(e@),
            },
    {
        if parameters.len() < 2 {
            return Err(ReplyError::ParamQty { min_required: 2, received: parameters.len() });
        }
        Ok(ListEnd { parameters })
    }

    pub fn client(&self) -> (r: &str)
        ensures
            r@ == param_at(self@, 0),
    {
        proof {
            use_type_invariant(self);
        }
        param_str(&self.parameters, 0)
    }

}

impl ReplyParts for ListEnd {
    open spec fn reply_code(&self) -> u16 {
        RPL_LISTEND
    }

    open spec fn reply_params(&self) -> ParamsView {
        self@
    }

    fn code(&self) -> (r: u16) {
        RPL_LISTEND
    }

    fn parameters(&self) -> (r: &ParameterList) {
        proof {
            use_type_invariant(self);
        }
        &self.parameters
    }

    fn is_error(&self) -> (r: bool) {
        false
    }

    fn into_parts(self) -> (r: (u16, ParameterList)) {
        proof {
            use_type_invariant(&self);
        }
        (RPL_LISTEND, self.parameters)
    }
}

impl Clone for ListEnd {
    fn clone(&self) -> (r: Self)
        ensures
            r@ == self@,
    {
        proof {
            use_type_invariant(self);
        }
        match ListEnd::try_from_params(self.parameters.clone()) {
            Ok(x) => x,
            Err(_) => {
                assert(false);
                unreached()
            },
        }
    }
}

/// The `RPL_CREATIONTIME` reply (329)
#[derive(Debug, PartialEq, Eq)]
pub struct CreationTime {
    parameters: ParameterList,
    client: ReplyTarget,
    channel: Channel,
    creationtime: u64,
}

impl View for CreationTime {
    type V = ParamsView;

    closed spec fn view(&self) -> ParamsView {
        self.parameters@
    }
}

/// Whether `p` reads as a `RPL_CREATIONTIME` reply, and if not, the first error
pub open spec fn check_creation_time(p: ParamsView) -> Result<(), ReplyErrorView> {
    if p.all().len() < 3 {
        Err(param_qty(3, p))
    } else {
        first_err(field_reply_target(p, 0), first_err(field_channel(p, 1), first_err(field_u64(p, 2), Ok(()))))
    }
}

impl CreationTime {
    #[verifier::type_invariant]
    spec fn inv(self) -> bool {
        &&& check_creation_time(self.parameters@) is Ok
        &&& field_reply_target(self.parameters@, 0) == Ok::<TargetView, ReplyErrorView>(self.client@)
        &&& field_channel(self.parameters@, 1) == Ok::<Seq<char>, ReplyErrorView>(self.channel@)
        &&& field_u64(self.parameters@, 2) == Ok::<u64, ReplyErrorView>(self.creationtime)
    }

    /// Reads `parameters` as a `RPL_CREATIONTIME` reply
    pub fn try_from_params(parameters: ParameterList) -> (r: Result<CreationTime, ReplyError>)
        ensures
            match r {
                Ok(x) => check_creation_time(parameters@) is Ok && x@ == parameters@,
                Err(e) => check_creation_time(parameters@) == Err::<(), ReplyErrorView>(e@),
            },
    {
        if parameters.len() < 3 {
            return Err(ReplyError::ParamQty { min_required: 3, received: parameters.len() });
        }
        let client = match reply_target_at(&parameters, 0) {
            Ok(v) => v,
            Err(e) => {
                return Err(e);
            },
        };
        let channel = match channel_at(&parameters, 1) {
            Ok(v) => v,
            Err(e) => {
                return Err(e);
            },
        };
        let creationtime = match u64_at(&parameters, 2) {
            Ok(v) => v,
            Err(e) => {
                return Err(e);
            },
        };
        Ok(CreationTime { parameters, client, channel, creationtime })
    }

    pub fn client(&self) -> (r: &ReplyTarget)
        ensures
            field_reply_target(self@, 0) == Ok::<TargetView, ReplyErrorView>(r@),
    {
        proof {
            use_type_invariant(self);
        }
        &self.client
    }

    pub fn channel(&self) -> (r: &Channel)
        ensures
            field_channel(self@, 1) == Ok::<Seq<char>, ReplyErrorView>(r@),
    {
        proof {
            use_type_invariant(self);
        }
        &self.channel
    }

    pub fn creationtime(&self) -> (r: u64)
        ensures
            field_u64(self@, 2) == Ok::<u64, ReplyErrorView>(r),
    {
        proof {
            use_type_invariant(self);
        }
        self.creationtime
    }

}

impl ReplyParts for CreationTime {
    open spec fn reply_code(&self) -> u16 {
        RPL_CREATIONTIME
    }

    open spec fn reply_params(&self) -> ParamsView {
        self@
    }

    fn code(&self) -> (r: u16) {
        RPL_CREATIONTIME
    }

    fn parameters(&self) -> (r: &ParameterList) {
        proof {
            use_type_invariant(self);
        }
        &self.parameters
    }

    fn is_error(&self) -> (r: bool) {
        false
    }

    fn into_parts(self) -> (r: (u16, ParameterList)) {
        proof {
            use_type_invariant(&self);
        }
        (RPL_CREATIONTIME, self.parameters)
    }
}

impl Clone for CreationTime {
    fn clone(&self) -> (r: Self)
        ensures
            r@ == self@,
    {
        proof {
            use_type_invariant(self);
        }
        match CreationTime::try_from_params(self.parameters.clone()) {
            Ok(x) => x,
            Err(_) => {
                assert(false);
                unreached()
            },
        }
    }
}

/// The `RPL_WHOISACCOUNT` reply (330)
#[derive(Debug, PartialEq, Eq)]
pub struct WhoIsAccount {
    parameters: ParameterList,
    client: ReplyTarget,
    nickname: Nickname,
}

impl View for WhoIsAccount {
    type V = ParamsView;

    closed spec fn view(&self) -> ParamsView {
        self.parameters@
    }
}

/// Whether `p` reads as a `RPL_WHOISACCOUNT` reply, and if not, the first error
pub open spec fn check_who_is_account(p: ParamsView) -> Result<(), ReplyErrorView> {
    if p.all().len() < 4 {
        Err(param_qty(4, p))
    } else {
        first_err(field_reply_target(p, 0), first_err(field_nickname(p, 1), Ok(())))
    }
}

impl WhoIsAccount {
    #[verifier::type_invariant]
    spec fn inv(self) -> bool {
        &&& check_who_is_account(self.parameters@) is Ok
        &&& field_reply_target(self.parameters@, 0) == Ok::<TargetView, ReplyErrorView>(self.client@)
        &&& field_nickname(self.parameters@, 1) == Ok::<Seq<char>, ReplyErrorView>(self.nickname@)
    }

    /// Reads `parameters` as a `RPL_WHOISACCOUNT` reply
    pub fn try_from_params(parameters: ParameterList) -> (r: Result<WhoIsAccount, ReplyError>)
        ensures
            match r {
                Ok(x) => check_who_is_account(parameters@) is Ok && x@ == parameters@,
                Err(e) => check_who_is_account(parameters@) == Err::<(), ReplyErrorView>(e@),
            },
    {
        if parameters.len() < 4 {
            return Err(ReplyError::ParamQty { min_required: 4, received: parameters.len() });
        }
        let client = match reply_target_at(&parameters, 0) {
            Ok(v) => v,
            Err(e) => {
                return Err(e);
            },
        };
        let nickname = match nickname_at(&parameters, 1) {
            Ok(v) => v,
            Err(e) => {
                return Err(e);
            },
        };
        Ok(WhoIsAccount { parameters, client, nickname })
    }

    pub fn client(&self) -> (r: &ReplyTarget)
        ensures
            field_reply_target(self@, 0) == Ok::<TargetView, ReplyErrorView>(r@),
    {
        proof {
            use_type_invariant(self);
        }
        &self.client
    }

    pub fn nickname(&self) -> (r: &Nickname)
        ensures
            field_nickname(self@, 1) == Ok::<Seq<char>, ReplyErrorView>(r@),
    {
        proof {
            use_type_invariant(self);
        }
        &self.nickname
    }

    pub fn account(&self) -> (r: &str)
        ensures
            r@ == param_at(self@, 2),
    {
        proof {
            use_type_invariant(self);
        }
        param_str(&self.parameters, 2)
    }

    pub fn message(&self) -> (r: &str)
        ensures
            r@ == self@.all().last(),
    {
        proof {
            use_type_invariant(self);
        }
        last_str(&self.parameters)
    }

}

impl ReplyParts for WhoIsAccount {
    open spec fn reply_code(&self) -> u16 {
        RPL_WHOISACCOUNT
    }

    open spec fn reply_params(&self) -> ParamsView {
        self@
    }

    fn code(&self) -> (r: u16) {
        RPL_WHOISACCOUNT
    }

    fn parameters(&self) -> (r: &ParameterList) {
        proof {
            use_type_invariant(self);
        }
        &self.parameters
    }

    fn is_error(&self) -> (r: bool) {
        false
    }

    fn into_parts(self) -> (r: (u16, ParameterList)) {
        proof {
            use_type_invariant(&self);
        }
        (RPL_WHOISACCOUNT, self.parameters)
    }
}

impl Clone for WhoIsAccount {
    fn clone(&self) -> (r: Self)
        ensures
            r@ == self@,
    {
        proof {
            use_type_invariant(self);
        }
        match WhoIsAccount::try_from_params(self.parameters.clone()) {
            Ok(x) => x,
            Err(_) => {
                assert(false);
                unreached()
            },
        }
    }
}

/// The `RPL_NOTOPIC` reply (331)
#[derive(Debug, PartialEq, Eq)]
pub struct NoTopic {
    parameters: ParameterList,
    client: ReplyTarget,
    channel: Channel,
}

impl View for NoTopic {
    type V = ParamsView;

    closed spec fn view(&self) -> ParamsView {
        self.parameters@
    }
}

/// Whether `p` reads as a `RPL_NOTOPIC` reply, and if not, the first error
pub open spec fn check_no_topic(p: ParamsView) -> Result<(), ReplyErrorView> {
    if p.all().len() < 3 {
        Err(param_qty(3, p))
    } else {
        first_err(field_reply_target(p, 0), first_err(field_channel(p, 1), Ok(())))
    }
}

impl NoTopic {
    #[verifier::type_invariant]
    spec fn inv(self) -> bool {
        &&& check_no_topic(self.parameters@) is Ok
        &&& field_reply_target(self.parameters@, 0) == Ok::<TargetView, ReplyErrorView>(self.client@)
        &&& field_channel(self.parameters@, 1) == Ok::<Seq<char>, ReplyErrorView>(self.channel@)
    }

    /// Reads `parameters` as a `RPL_NOTOPIC` reply
    pub fn try_from_params(parameters: ParameterList) -> (r: Result<NoTopic, ReplyError>)
        ensures
            match r {
                Ok(x) => check_no_topic(parameters@) is Ok && x@ == parameters@,
                Err(e) => check_no_topic(parameters@) == Err::<(), ReplyErrorView>(e@),
            },
    {
        if parameters.len() < 3 {
            return Err(ReplyError::ParamQty { min_required: 3, received: parameters.len() });
        }
        let client = match reply_target_at(&parameters, 0) {
            Ok(v) => v,
            Err(e) => {
                return Err(e);
            },
        };
        let channel = match channel_at(&parameters, 1) {
            Ok(v) => v,
            Err(e) => {
                return Err(e);
            },
        };
        Ok(NoTopic { parameters, client, channel })
    }

    pub fn client(&self) -> (r: &ReplyTarget)
        ensures
            field_reply_target(self@, 0) == Ok::<TargetView, ReplyErrorView>(r@),
    {
        proof {
            use_type_invariant(self);
        }
        &self.client
    }

    pub fn channel(&self) -> (r: &Channel)
        ensures
            field_channel(self@, 1) == Ok::<Seq<char>, ReplyErrorView>(r@),
    {
        proof {
            use_type_invariant(self);
        }
        &self.channel
    }

    pub fn message(&self) -> (r: &str)
        ensures
            r@ == self@.all().last(),
    {
        proof {
            use_type_invariant(self);
        }
        last_str(&self.parameters)
    }

}

impl ReplyParts for NoTopic {
    open spec fn reply_code(&self) -> u16 {
        RPL_NOTOPIC
    }

    open spec fn reply_params(&self) -> ParamsView {
        self@
    }

    fn code(&self) -> (r: u16) {
        RPL_NOTOPIC
    }

    fn parameters(&self) -> (r: &ParameterList) {
        proof {
            use_type_invariant(self);
        }
        &self.parameters
    }

    fn is_error(&self) -> (r: bool) {
        false
    }

    fn into_parts(self) -> (r: (u16, ParameterList)) {
        proof {
            use_type_invariant(&self);
        }
        (RPL_NOTOPIC, self.parameters)
    }
}

impl Clone for NoTopic {
    fn clone(&self) -> (r: Self)
        ensures
            r@ == self@,
    {
        proof {
            use_type_invariant(self);
        }
        match NoTopic::try_from_params(self.parameters.clone()) {
            Ok(x) => x,
            Err(_) => {
                assert(false);
                unreached()
            },
        }
    }
}

/// The `RPL_TOPIC` reply (332)
#[derive(Debug, PartialEq, Eq)]
pub struct Topic {
    parameters: ParameterList,
    client: ReplyTarget,
    channel: Channel,
}

impl View for Topic {
    type V = ParamsView;

    closed spec fn view(&self) -> ParamsView {
        self.parameters@
    }
}

/// Whether `p` reads as a `RPL_TOPIC` reply, and if not, the first error
pub open spec fn check_topic(p: ParamsView) -> Result<(), ReplyErrorView> {
    if p.all().len() < 3 {
        Err(param_qty(3, p))
    } else {
        first_err(field_reply_target(p, 0), first_err(field_channel(p, 1), Ok(())))
    }
}

impl Topic {
    #[verifier::type_invariant]
    spec fn inv(self) -> bool {
        &&& check_topic(self.parameters@) is Ok
        &&& field_reply_target(self.parameters@, 0) == Ok::<TargetView, ReplyErrorView>(self.client@)
        &&& field_channel(self.parameters@, 1) == Ok::<Seq<char>, ReplyErrorView>(self.channel@)
    }

    /// Reads `parameters` as a `RPL_TOPIC` reply
    pub fn try_from_params(parameters: ParameterList) -> (r: Result<Topic, ReplyError>)
        ensures
            match r {
                Ok(x) => check_topic(parameters@) is Ok && x@ == parameters@,
                Err(e) => check_topic(parameters@) == Err::<(), ReplyErrorView>(e@),
            },
    {
        if parameters.len() < 3 {
            return Err(ReplyError::ParamQty { min_required: 3, received: parameters.len() });
        }
        let client = match reply_target_at(&parameters, 0) {
            Ok(v) => v,
            Err(e) => {
                return Err(e);
            },
        };
        let channel = match channel_at(&parameters, 1) {
            Ok(v) => v,
            Err(e) => {
                return Err(e);
            },
        };
        Ok(Topic { parameters, client, channel })
    }

    pub fn client(&self) -> (r: &ReplyTarget)
        ensures
            field_reply_target(self@, 0) == Ok::<TargetView, ReplyErrorView>(r@),
    {
        proof {
            use_type_invariant(self);
        }
        &self.client
    }

    pub fn channel(&self) -> (r: &Channel)
        ensures
            field_channel(self@, 1) == Ok::<Seq<char>, ReplyErrorView>(r@),
    {
        proof {
            use_type_invariant(self);
        }
        &self.channel
    }

    pub fn topic(&self) -> (r: &str)
        ensures
            r@ == self@.all().last(),
    {
        proof {
            use_type_invariant(self);
        }
        last_str(&self.parameters)
    }

}

impl ReplyParts for Topic {
    open spec fn reply_code(&self) -> u16 {
        RPL_TOPIC
    }

    open spec fn reply_params(&self) -> ParamsView {
        self@
    }

    fn code(&self) -> (r: u16) {
        RPL_TOPIC
    }

    fn parameters(&self) -> (r: &ParameterList) {
        proof {
            use_type_invariant(self);
        }
        &self.parameters
    }

    fn is_error(&self) -> (r: bool) {
        false
    }

    fn into_parts(self) -> (r: (u16, ParameterList)) {
        proof {
            use_type_invariant(&self);
        }
        (RPL_TOPIC, self.parameters)
    }
}

impl Clone for Topic {
    fn clone(&self) -> (r: Self)
        ensures
            r@ == self@,
    {
        proof {
            use_type_invariant(self);
        }
        match Topic::try_from_params(self.parameters.clone()) {
            Ok(x) => x,
            Err(_) => {
                assert(false);
                unreached()
            },
        }
    }
}

/// The `RPL_TOPICWHOTIME` reply (333); the user who set the topic is a
/// nickname, or a client source of the form `nick!user@host`
#[derive(Debug, PartialEq, Eq)]
pub struct TopicWhoTime {
    parameters: ParameterList,
    client: ReplyTarget,
    channel: Channel,
    user: ClientSource,
    setat: u64,
}

impl View for TopicWhoTime {
    type V = ParamsView;

    closed spec fn view(&self) -> ParamsView {
        self.parameters@
    }
}

/// Whether `p` reads as a `RPL_TOPICWHOTIME` reply, and if not, the first error
pub open spec fn check_topic_who_time(p: ParamsView) -> Result<(), ReplyErrorView> {
    if p.all().len() < 4 {
        Err(param_qty(4, p))
    } else {
        first_err(field_reply_target(p, 0), first_err(field_channel(p, 1), first_err(field_client_source(p, 2), first_err(field_u64(p, 3), Ok(())))))
    }
}

impl TopicWhoTime {
    #[verifier::type_invariant]
    spec fn inv(self) -> bool {
        &&& check_topic_who_time(self.parameters@) is Ok
        &&& field_reply_target(self.parameters@, 0) == Ok::<TargetView, ReplyErrorView>(self.client@)
        &&& field_channel(self.parameters@, 1) == Ok::<Seq<char>, ReplyErrorView>(self.channel@)
        &&& field_client_source(self.parameters@, 2) == Ok::<ClientSourceView, ReplyErrorView>(self.user@)
        &&& field_u64(self.parameters@, 3) == Ok::<u64, ReplyErrorView>(self.setat)
    }

    /// Reads `parameters` as a `RPL_TOPICWHOTIME` reply
    pub fn try_from_params(parameters: ParameterList) -> (r: Result<TopicWhoTime, ReplyError>)
        ensures
            match r {
                Ok(x) => check_topic_who_time(parameters@) is Ok && x@ == parameters@,
                Err(e) => check_topic_who_time(parameters@) == Err::<(), ReplyErrorView>(e@),
            },
    {
        if parameters.len() < 4 {
            return Err(ReplyError::ParamQty { min_required: 4, received: parameters.len() });
        }
        let client = match reply_target_at(&parameters, 0) {
            Ok(v) => v,
            Err(e) => {
                return Err(e);
            },
        };
        let channel = match channel_at(&parameters, 1) {
            Ok(v) => v,
            Err(e) => {
                return Err(e);
            },
        };
        let user = match client_source_at(&parameters, 2) {
            Ok(v) => v,
            Err(e) => {
                return Err(e);
            },
        };
        let setat = match u64_at(&parameters, 3) {
            Ok(v) => v,
            Err(e) => {
                return Err(e);
            },
        };
        Ok(TopicWhoTime { parameters, client, channel, user, setat })
    }

    pub fn client(&self) -> (r: &ReplyTarget)
        ensures
            field_reply_target(self@, 0) == Ok::<TargetView, ReplyErrorView>(r@),
    {
        proof {
            use_type_invariant(self);
        }
        &self.client
    }

    pub fn channel(&self) -> (r: &Channel)
        ensures
            field_channel(self@, 1) == Ok::<Seq<char>, ReplyErrorView>(r@),
    {
        proof {
            use_type_invariant(self);
        }
        &self.channel
    }

    /// The user who set the topic
    pub fn user(&self) -> (r: &ClientSource)
        ensures
            field_client_source(self@, 2) == Ok::<ClientSourceView, ReplyErrorView>(r@),
    {
        proof {
            use_type_invariant(self);
        }
        &self.user
    }

    /// The nickname of the user who set the topic
    pub fn nickname(&self) -> (r: &Nickname)
        ensures
            field_client_source(self@, 2) matches Ok(c) && c.nickname == r@,
    {
        proof {
            use_type_invariant(self);
        }
        &self.user.nickname
    }

    pub fn setat(&self) -> (r: u64)
        ensures
            field_u64(self@, 3) == Ok::<u64, ReplyErrorView>(r),
    {
        proof {
            use_type_invariant(self);
        }
        self.setat
    }

}

impl ReplyParts for TopicWhoTime {
    open spec fn reply_code(&self) -> u16 {
        RPL_TOPICWHOTIME
    }

    open spec fn reply_params(&self) -> ParamsView {
        self@
    }

    fn code(&self) -> (r: u16) {
        RPL_TOPICWHOTIME
    }

    fn parameters(&self) -> (r: &ParameterList) {
        proof {
            use_type_invariant(self);
        }
        &self.parameters
    }

    fn is_error(&self) -> (r: bool) {
        false
    }

    fn into_parts(self) -> (r: (u16, ParameterList)) {
        proof {
            use_type_invariant(&self);
        }
        (RPL_TOPICWHOTIME, self.parameters)
    }
}

impl Clone for TopicWhoTime {
    fn clone(&self) -> (r: Self)
        ensures
            r@ == self@,
    {
        proof {
            use_type_invariant(self);
        }
        match TopicWhoTime::try_from_params(self.parameters.clone()) {
            Ok(x) => x,
            Err(_) => {
                assert(false);
                unreached()
            },
        }
    }
}

/// The `RPL_INVITELIST` reply (336)
#[derive(Debug, PartialEq, Eq)]
pub struct InviteList {
    parameters: ParameterList,
    client: ReplyTarget,
    channel: Channel,
}

impl View for InviteList {
    type V = ParamsView;

    closed spec fn view(&self) -> ParamsView {
        self.parameters@
    }
}

/// Whether `p` reads as a `RPL_INVITELIST` reply, and if not, the first error
pub open spec fn check_invite_list(p: ParamsView) -> Result<(), ReplyErrorView> {
    if p.all().len() < 2 {
        Err(param_qty(2, p))
    } else {
        first_err(field_reply_target(p, 0), first_err(field_channel(p, 1), Ok(())))
    }
}

impl InviteList {
    #[verifier::type_invariant]
    spec fn inv(self) -> bool {
        &&& check_invite_list(self.parameters@) is Ok
        &&& field_reply_target(self.parameters@, 0) == Ok::<TargetView, ReplyErrorView>(self.client@)
        &&& field_channel(self.parameters@, 1) == Ok::<Seq<char>, ReplyErrorView>(self.channel@)
    }

    /// Reads `parameters` as a `RPL_INVITELIST` reply
    pub fn try_from_params(parameters: ParameterList) -> (r: Result<InviteList, ReplyError>)
        ensures
            match r {
                Ok(x) => check_invite_list(parameters@) is Ok && x@ == parameters@,
                Err(e) => check_invite_list(parameters@) == Err::<(), ReplyErrorView>(e@),
            },
    {
        if parameters.len() < 2 {
            return Err(ReplyError::ParamQty { min_required: 2, received: parameters.len() });
        }
        let client = match reply_target_at(&parameters, 0) {
            Ok(v) => v,
            Err(e) => {
                return Err(e);
            },
        };
        let channel = match channel_at(&parameters, 1) {
            Ok(v) => v,
            Err(e) => {
                return Err(e);
            },
        };
        Ok(InviteList { parameters, client, channel })
    }

    pub fn client(&self) -> (r: &ReplyTarget)
        ensures
            field_reply_target(self@, 0) == Ok::<TargetView, ReplyErrorView>(r@),
    {
        proof {
            use_type_invariant(self);
        }
        &self.client
    }

    pub fn channel(&self) -> (r: &Channel)
        ensures
            field_channel(self@, 1) == Ok::<Seq<char>, ReplyErrorView>(r@),
    {
        proof {
            use_type_invariant(self);
        }
        &self.channel
    }

}

impl ReplyParts for InviteList {
    open spec fn reply_code(&self) -> u16 {
        RPL_INVITELIST
    }

    open spec fn reply_params(&self) -> ParamsView {
        self@
    }

    fn code(&self) -> (r: u16) {
        RPL_INVITELIST
    }

    fn parameters(&self) -> (r: &ParameterList) {
        proof {
            use_type_invariant(self);
        }
        &self.parameters
    }

    fn is_error(&self) -> (r: bool) {
        false
    }

    fn into_parts(self) -> (r: (u16, ParameterList)) {
        proof {
            use_type_invariant(&self);
        }
        (RPL_INVITELIST, self.parameters)
    }
}

impl Clone for InviteList {
    fn clone(&self) -> (r: Self)
        ensures
            r@ == self@,
    {
        proof {
            use_type_invariant(self);
        }
        match InviteList::try_from_params(self.parameters.clone()) {
            Ok(x) => x,
            Err(_) => {
                assert(false);
                unreached()
            },
        }
    }
}

/// The `RPL_ENDOFINVITELIST` reply (337)
#[derive(Debug, PartialEq, Eq)]
pub struct EndOfInviteList {
    parameters: ParameterList,
    client: ReplyTarget,
}

impl View for EndOfInviteList {
    type V = ParamsView;

    closed spec fn view(&self) -> ParamsView {
        self.parameters@
    }
}

/// Whether `p` reads as a `RPL_ENDOFINVITELIST` reply, and if not, the first error
pub open spec fn check_end_of_invite_list(p: ParamsView) -> Result<(), ReplyErrorView> {
    if p.all().len() < 2 {
        Err(param_qty(2, p))
    } else {
        first_err(field_reply_target(p, 0), Ok(()))
    }
}

impl EndOfInviteList {
    #[verifier::type_invariant]
    spec fn inv(self) -> bool {
        &&& check_end_of_invite_list(self.parameters@) is Ok
        &&& field_reply_target(self.parameters@, 0) == Ok::<TargetView, ReplyErrorView>(self.client@)
    }

    /// Reads `parameters` as a `RPL_ENDOFINVITELIST` reply
    pub fn try_from_params(parameters: ParameterList) -> (r: Result<EndOfInviteList, ReplyError>)
        ensures
            match r {
                Ok(x) => check_end_of_invite_list(parameters@) is Ok && x@ == parameters@,
                Err(e) => check_end_of_invite_list(parameters@) == Err::<(), ReplyErrorView>(e@),
            },
    {
        if parameters.len() < 2 {
            return Err(ReplyError::ParamQty { min_required: 2, received: parameters.len() });
        }
        let client = match reply_target_at(&parameters, 0) {
            Ok(v) => v,
            Err(e) => {
                return Err(e);
            },
        };
        Ok(EndOfInviteList { parameters, client })
    }

    pub fn client(&self) -> (r: &ReplyTarget)
        ensures
            field_reply_target(self@, 0) == Ok::<TargetView, ReplyErrorView>(r@),
    {
        proof {
            use_type_invariant(self);
        }
        &self.client
    }

    pub fn message(&self) -> (r: &str)
        ensures
            r@ == self@.all().last(),
    {
        proof {
            use_type_invariant(self);
        }
        last_str(&self.parameters)
    }

}

impl ReplyParts for EndOfInviteList {
    open spec fn reply_code(&self) -> u16 {
        RPL_ENDOFINVITELIST
    }

    open spec fn reply_params(&self) -> ParamsView {
        self@
    }

    fn code(&self) -> (r: u16) {
        RPL_ENDOFINVITELIST
    }

    fn parameters(&self) -> (r: &ParameterList) {
        proof {
            use_type_invariant(self);
        }
        &self.parameters
    }

    fn is_error(&self) -> (r: bool) {
        false
    }

    fn into_parts(self) -> (r: (u16, ParameterList)) {
        proof {
            use_type_invariant(&self);
        }
        (RPL_ENDOFINVITELIST, self.parameters)
    }
}

impl Clone for EndOfInviteList {
    fn clone(&self) -> (r: Self)
        ensures
            r@ == self@,
    {
        proof {
            use_type_invariant(self);
        }
        match EndOfInviteList::try_from_params(self.parameters.clone()) {
            Ok(x) => x,
            Err(_) => {
                assert(false);
                unreached()
            },
        }
    }
}

/// The `RPL_INVITING` reply (341)
#[derive(Debug, PartialEq, Eq)]
pub struct Inviting {
    parameters: ParameterList,
    client: ReplyTarget,
    nickname: Nickname,
    channel: Channel,
}

impl View for Inviting {
    type V = ParamsView;

    closed spec fn view(&self) -> ParamsView {
        self.parameters@
    }
}

/// Whether `p` reads as a `RPL_INVITING` reply, and if not, the first error
pub open spec fn check_inviting(p: ParamsView) -> Result<(), ReplyErrorView> {
    if p.all().len() < 3 {
        Err(param_qty(3, p))
    } else {
        first_err(field_reply_target(p, 0), first_err(field_nickname(p, 1), first_err(field_channel(p, 2), Ok(()))))
    }
}

impl Inviting {
    #[verifier::type_invariant]
    spec fn inv(self) -> bool {
        &&& check_inviting(self.parameters@) is Ok
        &&& field_reply_target(self.parameters@, 0) == Ok::<TargetView, ReplyErrorView>(self.client@)
        &&& field_nickname(self.parameters@, 1) == Ok::<Seq<char>, ReplyErrorView>(self.nickname@)
        &&& field_channel(self.parameters@, 2) == Ok::<Seq<char>, ReplyErrorView>(self.channel@)
    }

    /// Reads `parameters` as a `RPL_INVITING` reply
    pub fn try_from_params(parameters: ParameterList) -> (r: Result<Inviting, ReplyError>)
        ensures
            match r {
                Ok(x) => check_inviting(parameters@) is Ok && x@ == parameters@,
                Err(e) => check_inviting(parameters@) == Err::<(), ReplyErrorView>(e@),
            },
    {
        if parameters.len() < 3 {
            return Err(ReplyError::ParamQty { min_required: 3, received: parameters.len() });
        }
        let client = match reply_target_at(&parameters, 0) {
            Ok(v) => v,
            Err(e) => {
                return Err(e);
            },
        };
        let nickname = match nickname_at(&parameters, 1) {
            Ok(v) => v,
            Err(e) => {
                return Err(e);
            },
        };
        let channel = match channel_at(&parameters, 2) {
            Ok(v) => v,
            Err(e) => {
                return Err(e);
            },
        };
        Ok(Inviting { parameters, client, nickname, channel })
    }

    pub fn client(&self) -> (r: &ReplyTarget)
        ensures
            field_reply_target(self@, 0) == Ok::<TargetView, ReplyErrorView>(r@),
    {
        proof {
            use_type_invariant(self);
        }
        &self.client
    }

    pub fn nickname(&self) -> (r: &Nickname)
        ensures
            field_nickname(self@, 1) == Ok::<Seq<char>, ReplyErrorView>(r@),
    {
        proof {
            use_type_invariant(self);
        }
        &self.nickname
    }

    pub fn channel(&self) -> (r: &Channel)
        ensures
            field_channel(self@, 2) == Ok::<Seq<char>, ReplyErrorView>(r@),
    {
        proof {
            use_type_invariant(self);
        }
        &self.channel
    }

}

impl ReplyParts for Inviting {
    open spec fn reply_code(&self) -> u16 {
        RPL_INVITING
    }

    open spec fn reply_params(&self) -> ParamsView {
        self@
    }

    fn code(&self) -> (r: u16) {
        RPL_INVITING
    }

    fn parameters(&self) -> (r: &ParameterList) {
        proof {
            use_type_invariant(self);
        }
        &self.parameters
    }

    fn is_error(&self) -> (r: bool) {
        false
    }

    fn into_parts(self) -> (r: (u16, ParameterList)) {
        proof {
            use_type_invariant(&self);
        }
        (RPL_INVITING, self.parameters)
    }
}

impl Clone for Inviting {
    fn clone(&self) -> (r: Self)
        ensures
            r@ == self@,
    {
        proof {
            use_type_invariant(self);
        }
        match Inviting::try_from_params(self.parameters.clone()) {
            Ok(x) => x,
            Err(_) => {
                assert(false);
                unreached()
            },
        }
    }
}

/// The `RPL_INVEXLIST` reply (346)
#[derive(Debug, PartialEq, Eq)]
pub struct InvExList {
    parameters: ParameterList,
    client: ReplyTarget,
    channel: Channel,
}

impl View for InvExList {
    type V = ParamsView;

    closed spec fn view(&self) -> ParamsView {
        self.parameters@
    }
}

/// Whether `p` reads as a `RPL_INVEXLIST` reply, and if not, the first error
pub open spec fn check_inv_ex_list(p: ParamsView) -> Result<(), ReplyErrorView> {
    if p.all().len() < 3 {
        Err(param_qty(3, p))
    } else {
        first_err(field_reply_target(p, 0), first_err(field_channel(p, 1), Ok(())))
    }
}

impl InvExList {
    #[verifier::type_invariant]
    spec fn inv(self) -> bool {
        &&& check_inv_ex_list(self.parameters@) is Ok
        &&& field_reply_target(self.parameters@, 0) == Ok::<TargetView, ReplyErrorView>(self.client@)
        &&& field_channel(self.parameters@, 1) == Ok::<Seq<char>, ReplyErrorView>(self.channel@)
    }

    /// Reads `parameters` as a `RPL_INVEXLIST` reply
    pub fn try_from_params(parameters: ParameterList) -> (r: Result<InvExList, ReplyError>)
        ensures
            match r {
                Ok(x) => check_inv_ex_list(parameters@) is Ok && x@ == parameters@,
                Err(e) => check_inv_ex_list(parameters@) == Err::<(), ReplyErrorView>(e@),
            },
    {
        if parameters.len() < 3 {
            return Err(ReplyError::ParamQty { min_required: 3, received: parameters.len() });
        }
        let client = match reply_target_at(&parameters, 0) {
            Ok(v) => v,
            Err(e) => {
                return Err(e);
            },
        };
        let channel = match channel_at(&parameters, 1) {
            Ok(v) => v,
            Err(e) => {
                return Err(e);
            },
        };
        Ok(InvExList { parameters, client, channel })
    }

    pub fn client(&self) -> (r: &ReplyTarget)
        ensures
            field_reply_target(self@, 0) == Ok::<TargetView, ReplyErrorView>(r@),
    {
        proof {
            use_type_invariant(self);
        }
        &self.client
    }

    pub fn channel(&self) -> (r: &Channel)
        ensures
            field_channel(self@, 1) == Ok::<Seq<char>, ReplyErrorView>(r@),
    {
        proof {
            use_type_invariant(self);
        }
        &self.channel
    }

    pub fn mask(&self) -> (r: &str)
        ensures
            r@ == param_at(self@, 2),
    {
        proof {
            use_type_invariant(self);
        }
        param_str(&self.parameters, 2)
    }

}

impl ReplyParts for InvExList {
    open spec fn reply_code(&self) -> u16 {
        RPL_INVEXLIST
    }

    open spec fn reply_params(&self) -> ParamsView {
        self@
    }

    fn code(&self) -> (r: u16) {
        RPL_INVEXLIST
    }

    fn parameters(&self) -> (r: &ParameterList) {
        proof {
            use_type_invariant(self);
        }
        &self.parameters
    }

    fn is_error(&self) -> (r: bool) {
        false
    }

    fn into_parts(self) -> (r: (u16, ParameterList)) {
        proof {
            use_type_invariant(&self);
        }
        (RPL_INVEXLIST, self.parameters)
    }
}

impl Clone for InvExList {
    fn clone(&self) -> (r: Self)
        ensures
            r@ == self@,
    {
        proof {
            use_type_invariant(self);
        }
        match InvExList::try_from_params(self.parameters.clone()) {
            Ok(x) => x,
            Err(_) => {
                assert(false);
                unreached()
            },
        }
    }
}

/// The `RPL_ENDOFINVEXLIST` reply (347)
#[derive(Debug, PartialEq, Eq)]
pub struct EndOfInvExList {
    parameters: ParameterList,
    client: ReplyTarget,
    channel: Channel,
}

impl View for EndOfInvExList {
    type V = ParamsView;

    closed spec fn view(&self) -> ParamsView {
        self.parameters@
    }
}

/// Whether `p` reads as a `RPL_ENDOFINVEXLIST` reply, and if not, the first error
pub open spec fn check_end_of_inv_ex_list(p: ParamsView) -> Result<(), ReplyErrorView> {
    if p.all().len() < 3 {
        Err(param_qty(3, p))
    } else {
        first_err(field_reply_target(p, 0), first_err(field_channel(p, 1), Ok(())))
    }
}

impl EndOfInvExList {
    #[verifier::type_invariant]
    spec fn inv(self) -> bool {
        &&& check_end_of_inv_ex_list(self.parameters@) is Ok
        &&& field_reply_target(self.parameters@, 0) == Ok::<TargetView, ReplyErrorView>(self.client@)
        &&& field_channel(self.parameters@, 1) == Ok::<Seq<char>, ReplyErrorView>(self.channel@)
    }

    /// Reads `parameters` as a `RPL_ENDOFINVEXLIST` reply
    pub fn try_from_params(parameters: ParameterList) -> (r: Result<EndOfInvExList, ReplyError>)
        ensures
            match r {
                Ok(x) => check_end_of_inv_ex_list(parameters@) is Ok && x@ == parameters@,
                Err(e) => check_end_of_inv_ex_list(parameters@) == Err::<(), ReplyErrorView>(e@),
            },
    {
        if parameters.len() < 3 {
            return Err(ReplyError::ParamQty { min_required: 3, received: parameters.len() });
        }
        let client = match reply_target_at(&parameters, 0) {
            Ok(v) => v,
            Err(e) => {
                return Err(e);
            },
        };
        let channel = match channel_at(&parameters, 1) {
            Ok(v) => v,
            Err(e) => {
                return Err(e);
            },
        };
        Ok(EndOfInvExList { parameters, client, channel })
    }

    pub fn client(&self) -> (r: &ReplyTarget)
        ensures
            field_reply_target(self@, 0) == Ok::<TargetView, ReplyErrorView>(r@),
    {
        proof {
            use_type_invariant(self);
        }
        &self.client
    }

    pub fn channel(&self) -> (r: &Channel)
        ensures
            field_channel(self@, 1) == Ok::<Seq<char>, ReplyErrorView>(r@),
    {
        proof {
            use_type_invariant(self);
        }
        &self.channel
    }

    pub fn message(&self) -> (r: &str)
        ensures
            r@ == self@.all().last(),
    {
        proof {
            use_type_invariant(self);
        }
        last_str(&self.parameters)
    }

}

impl ReplyParts for EndOfInvExList {
    open spec fn reply_code(&self) -> u16 {
        RPL_ENDOFINVEXLIST
    }

    open spec fn reply_params(&self) -> ParamsView {
        self@
    }

    fn code(&self) -> (r: u16) {
        RPL_ENDOFINVEXLIST
    }

    fn parameters(&self) -> (r: &ParameterList) {
        proof {
            use_type_invariant(self);
        }
        &self.parameters
    }

    fn is_error(&self) -> (r: bool) {
        false
    }

    fn into_parts(self) -> (r: (u16, ParameterList)) {
        proof {
            use_type_invariant(&self);
        }
        (RPL_ENDOFINVEXLIST, self.parameters)
    }
}

impl Clone for EndOfInvExList {
    fn clone(&self) -> (r: Self)
        ensures
            r@ == self@,
    {
        proof {
            use_type_invariant(self);
        }
        match EndOfInvExList::try_from_params(self.parameters.clone()) {
            Ok(x) => x,
            Err(_) => {
                assert(false);
                unreached()
            },
        }
    }
}

/// The `RPL_EXCEPTLIST` reply (348)
#[derive(Debug, PartialEq, Eq)]
pub struct ExceptList {
    parameters: ParameterList,
    client: ReplyTarget,
    channel: Channel,
}

impl View for ExceptList {
    type V = ParamsView;

    closed spec fn view(&self) -> ParamsView {
        self.parameters@
    }
}

/// Whether `p` reads as a `RPL_EXCEPTLIST` reply, and if not, the first error
pub open spec fn check_except_list(p: ParamsView) -> Result<(), ReplyErrorView> {
    if p.all().len() < 3 {
        Err(param_qty(3, p))
    } else {
        first_err(field_reply_target(p, 0), first_err(field_channel(p, 1), Ok(())))
    }
}

impl ExceptList {
    #[verifier::type_invariant]
    spec fn inv(self) -> bool {
        &&& check_except_list(self.parameters@) is Ok
        &&& field_reply_target(self.parameters@, 0) == Ok::<TargetView, ReplyErrorView>(self.client@)
        &&& field_channel(self.parameters@, 1) == Ok::<Seq<char>, ReplyErrorView>(self.channel@)
    }

    /// Reads `parameters` as a `RPL_EXCEPTLIST` reply
    pub fn try_from_params(parameters: ParameterList) -> (r: Result<ExceptList, ReplyError>)
        ensures
            match r {
                Ok(x) => check_except_list(parameters@) is Ok && x@ == parameters@,
                Err(e) => check_except_list(parameters@) == Err::<(), ReplyErrorView>(e@),
            },
    {
        if parameters.len() < 3 {
            return Err(ReplyError::ParamQty { min_required: 3, received: parameters.len() });
        }
        let client = match reply_target_at(&parameters, 0) {
            Ok(v) => v,
            Err(e) => {
                return Err(e);
            },
        };
        let channel = match channel_at(&parameters, 1) {
            Ok(v) => v,
            Err(e) => {
                return Err(e);
            },
        };
        Ok(ExceptList { parameters, client, channel })
    }

    pub fn client(&self) -> (r: &ReplyTarget)
        ensures
            field_reply_target(self@, 0) == Ok::<TargetView, ReplyErrorView>(r@),
    {
        proof {
            use_type_invariant(self);
        }
        &self.client
    }

    pub fn channel(&self) -> (r: &Channel)
        ensures
            field_channel(self@, 1) == Ok::<Seq<char>, ReplyErrorView>(r@),
    {
        proof {
            use_type_invariant(self);
        }
        &self.channel
    }

    pub fn mask(&self) -> (r: &str)
        ensures
            r@ == param_at(self@, 2),
    {
        proof {
            use_type_invariant(self);
        }
        param_str(&self.parameters, 2)
    }

}

impl ReplyParts for ExceptList {
    open spec fn reply_code(&self) -> u16 {
        RPL_EXCEPTLIST
    }

    open spec fn reply_params(&self) -> ParamsView {
        self@
    }

    fn code(&self) -> (r: u16) {
        RPL_EXCEPTLIST
    }

    fn parameters(&self) -> (r: &ParameterList) {
        proof {
            use_type_invariant(self);
        }
        &self.parameters
    }

    fn is_error(&self) -> (r: bool) {
        false
    }

    fn into_parts(self) -> (r: (u16, ParameterList)) {
        proof {
            use_type_invariant(&self);
        }
        (RPL_EXCEPTLIST, self.parameters)
    }
}

impl Clone for ExceptList {
    fn clone(&self) -> (r: Self)
        ensures
            r@ == self@,
    {
        proof {
            use_type_invariant(self);
        }
        match ExceptList::try_from_params(self.parameters.clone()) {
            Ok(x) => x,
            Err(_) => {
                assert(false);
                unreached()
            },
        }
    }
}

/// The `RPL_ENDOFEXCEPTLIST` reply (349)
#[derive(Debug, PartialEq, Eq)]
pub struct EndOfExceptList {
    parameters: ParameterList,
    client: ReplyTarget,
    channel: Channel,
}

impl View for EndOfExceptList {
    type V = ParamsView;

    closed spec fn view(&self) -> ParamsView {
        self.parameters@
    }
}

/// Whether `p` reads as a `RPL_ENDOFEXCEPTLIST` reply, and if not, the first error
pub open spec fn check_end_of_except_list(p: ParamsView) -> Result<(), ReplyErrorView> {
    if p.all().len() < 3 {
        Err(param_qty(3, p))
    } else {
        first_err(field_reply_target(p, 0), first_err(field_channel(p, 1), Ok(())))
    }
}

impl EndOfExceptList {
    #[verifier::type_invariant]
    spec fn inv(self) -> bool {
        &&& check_end_of_except_list(self.parameters@) is Ok
        &&& field_reply_target(self.parameters@, 0) == Ok::<TargetView, ReplyErrorView>(self.client@)
        &&& field_channel(self.parameters@, 1) == Ok::<Seq<char>, ReplyErrorView>(self.channel@)
    }

    /// Reads `parameters` as a `RPL_ENDOFEXCEPTLIST` reply
    pub fn try_from_params(parameters: ParameterList) -> (r: Result<EndOfExceptList, ReplyError>)
        ensures
            match r {
                Ok(x) => check_end_of_except_list(parameters@) is Ok && x@ == parameters@,
                Err(e) => check_end_of_except_list(parameters@) == Err::<(), ReplyErrorView>(e@),
            },
    {
        if parameters.len() < 3 {
            return Err(ReplyError::ParamQty { min_required: 3, received: parameters.len() });
        }
        let client = match reply_target_at(&parameters, 0) {
            Ok(v) => v,
            Err(e) => {
                return Err(e);
            },
        };
        let channel = match channel_at(&parameters, 1) {
            Ok(v) => v,
            Err(e) => {
                return Err(e);
            },
        };
        Ok(EndOfExceptList { parameters, client, channel })
    }

    pub fn client(&self) -> (r: &ReplyTarget)
        ensures
            field_reply_target(self@, 0) == Ok::<TargetView, ReplyErrorView>(r@),
    {
        proof {
            use_type_invariant(self);
        }
        &self.client
    }

    pub fn channel(&self) -> (r: &Channel)
        ensures
            field_channel(self@, 1) == Ok::<Seq<char>, ReplyErrorView>(r@),
    {
        proof {
            use_type_invariant(self);
        }
        &self.channel
    }

    pub fn message(&self) -> (r: &str)
        ensures
            r@ == self@.all().last(),
    {
        proof {
            use_type_invariant(self);
        }
        last_str(&self.parameters)
    }

}

impl ReplyParts for EndOfExceptList {
    open spec fn reply_code(&self) -> u16 {
        RPL_ENDOFEXCEPTLIST
    }

    open spec fn reply_params(&self) -> ParamsView {
        self@
    }

    fn code(&self) -> (r: u16) {
        RPL_ENDOFEXCEPTLIST
    }

    fn parameters(&self) -> (r: &ParameterList) {
        proof {
            use_type_invariant(self);
        }
        &self.parameters
    }

    fn is_error(&self) -> (r: bool) {
        false
    }

    fn into_parts(self) -> (r: (u16, ParameterList)) {
        proof {
            use_type_invariant(&self);
        }
        (RPL_ENDOFEXCEPTLIST, self.parameters)
    }
}

impl Clone for EndOfExceptList {
    fn clone(&self) -> (r: Self)
        ensures
            r@ == self@,
    {
        proof {
            use_type_invariant(self);
        }
        match EndOfExceptList::try_from_params(self.parameters.clone()) {
            Ok(x) => x,
            Err(_) => {
                assert(false);
                unreached()
            },
        }
    }
}

/// The `RPL_VERSION` reply (351); the comments parameter may be left out
#[derive(Debug, PartialEq, Eq)]
pub struct Version {
    parameters: ParameterList,
    client: ReplyTarget,
}

impl View for Version {
    type V = ParamsView;

    closed spec fn view(&self) -> ParamsView {
        self.parameters@
    }
}

/// Whether `p` reads as a `RPL_VERSION` reply, and if not, the first error
pub open spec fn check_version(p: ParamsView) -> Result<(), ReplyErrorView> {
    if p.all().len() < 3 {
        Err(param_qty(3, p))
    } else {
        first_err(field_reply_target(p, 0), Ok(()))
    }
}

impl Version {
    #[verifier::type_invariant]
    spec fn inv(self) -> bool {
        &&& check_version(self.parameters@) is Ok
        &&& field_reply_target(self.parameters@, 0) == Ok::<TargetView, ReplyErrorView>(self.client@)
    }

    /// Reads `parameters` as a `RPL_VERSION` reply
    pub fn try_from_params(parameters: ParameterList) -> (r: Result<Version, ReplyError>)
        ensures
            match r {
                Ok(x) => check_version(parameters@) is Ok && x@ == parameters@,
                Err(e) => check_version(parameters@) == Err::<(), ReplyErrorView>(e@),
            },
    {
        if parameters.len() < 3 {
            return Err(ReplyError::ParamQty { min_required: 3, received: parameters.len() });
        }
        let client = match reply_target_at(&parameters, 0) {
            Ok(v) => v,
            Err(e) => {
                return Err(e);
            },
        };
        Ok(Version { parameters, client })
    }

    pub fn client(&self) -> (r: &ReplyTarget)
        ensures
            field_reply_target(self@, 0) == Ok::<TargetView, ReplyErrorView>(r@),
    {
        proof {
            use_type_invariant(self);
        }
        &self.client
    }

    pub fn version(&self) -> (r: &str)
        ensures
            r@ == param_at(self@, 1),
    {
        proof {
            use_type_invariant(self);
        }
        param_str(&self.parameters, 1)
    }

    pub fn server(&self) -> (r: &str)
        ensures
            r@ == param_at(self@, 2),
    {
        proof {
            use_type_invariant(self);
        }
        param_str(&self.parameters, 2)
    }

    /// The comments: the last parameter, if there are more than three
    pub fn comments(&self) -> (r: Option<&str>)
        ensures
            r is Some <==> self@.all().len() >= 4,
            r matches Some(c) ==> c@ == self@.all().last(),
    {
        proof {
            use_type_invariant(self);
        }
        if self.parameters.len() >= 4 {
            Some(last_str(&self.parameters))
        } else {
            None
        }
    }

}

impl ReplyParts for Version {
    open spec fn reply_code(&self) -> u16 {
        RPL_VERSION
    }

    open spec fn reply_params(&self) -> ParamsView {
        self@
    }

    fn code(&self) -> (r: u16) {
        RPL_VERSION
    }

    fn parameters(&self) -> (r: &ParameterList) {
        proof {
            use_type_invariant(self);
        }
        &self.parameters
    }

    fn is_error(&self) -> (r: bool) {
        false
    }

    fn into_parts(self) -> (r: (u16, ParameterList)) {
        proof {
            use_type_invariant(&self);
        }
        (RPL_VERSION, self.parameters)
    }
}

impl Clone for Version {
    fn clone(&self) -> (r: Self)
        ensures
            r@ == self@,
    {
        proof {
            use_type_invariant(self);
        }
        match Version::try_from_params(self.parameters.clone()) {
            Ok(x) => x,
            Err(_) => {
                assert(false);
                unreached()
            },
        }
    }
}

/// The `RPL_WHOREPLY` reply (352)
#[derive(Debug, PartialEq, Eq)]
pub struct WhoReply {
    parameters: ParameterList,
    client: ReplyTarget,
    channel: Channel,
    username: Username,
    nickname: Nickname,
    flags: WhoFlags,
    hopcount: u32,
}

impl View for WhoReply {
    type V = ParamsView;

    closed spec fn view(&self) -> ParamsView {
        self.parameters@
    }
}

/// Whether `p` reads as a `RPL_WHOREPLY` reply, and if not, the first error
pub open spec fn check_who_reply(p: ParamsView) -> Result<(), ReplyErrorView> {
    if p.all().len() < 8 {
        Err(param_qty(8, p))
    } else {
        first_err(field_reply_target(p, 0), first_err(field_channel(p, 1), first_err(field_username(p, 2), first_err(field_nickname(p, 5), first_err(field_who_flags(p, 6), first_err(field_hopcount(p), Ok(())))))))
    }
}

impl WhoReply {
    #[verifier::type_invariant]
    spec fn inv(self) -> bool {
        &&& check_who_reply(self.parameters@) is Ok
        &&& field_reply_target(self.parameters@, 0) == Ok::<TargetView, ReplyErrorView>(self.client@)
        &&& field_channel(self.parameters@, 1) == Ok::<Seq<char>, ReplyErrorView>(self.channel@)
        &&& field_username(self.parameters@, 2) == Ok::<Seq<char>, ReplyErrorView>(self.username@)
        &&& field_nickname(self.parameters@, 5) == Ok::<Seq<char>, ReplyErrorView>(self.nickname@)
        &&& field_who_flags(self.parameters@, 6) == Ok::<WhoFlagsView, ReplyErrorView>(self.flags@)
        &&& field_hopcount(self.parameters@) == Ok::<u32, ReplyErrorView>(self.hopcount)
    }

    /// Reads `parameters` as a `RPL_WHOREPLY` reply
    pub fn try_from_params(parameters: ParameterList) -> (r: Result<WhoReply, ReplyError>)
        ensures
            match r {
                Ok(x) => check_who_reply(parameters@) is Ok && x@ == parameters@,
                Err(e) => check_who_reply(parameters@) == Err::<(), ReplyErrorView>(e@),
            },
    {
        if parameters.len() < 8 {
            return Err(ReplyError::ParamQty { min_required: 8, received: parameters.len() });
        }
        let client = match reply_target_at(&parameters, 0) {
            Ok(v) => v,
            Err(e) => {
                return Err(e);
            },
        };
        let channel = match channel_at(&parameters, 1) {
            Ok(v) => v,
            Err(e) => {
                return Err(e);
            },
        };
        let username = match username_at(&parameters, 2) {
            Ok(v) => v,
            Err(e) => {
                return Err(e);
            },
        };
        let nickname = match nickname_at(&parameters, 5) {
            Ok(v) => v,
            Err(e) => {
                return Err(e);
            },
        };
        let flags = match who_flags_at(&parameters, 6) {
            Ok(v) => v,
            Err(e) => {
                return Err(e);
            },
        };
        let hopcount = match hopcount_of(&parameters) {
            Ok(v) => v,
            Err(e) => {
                return Err(e);
            },
        };
        Ok(WhoReply { parameters, client, channel, username, nickname, flags, hopcount })
    }

    pub fn client(&self) -> (r: &ReplyTarget)
        ensures
            field_reply_target(self@, 0) == Ok::<TargetView, ReplyErrorView>(r@),
    {
        proof {
            use_type_invariant(self);
        }
        &self.client
    }

    pub fn channel(&self) -> (r: &Channel)
        ensures
            field_channel(self@, 1) == Ok::<Seq<char>, ReplyErrorView>(r@),
    {
        proof {
            use_type_invariant(self);
        }
        &self.channel
    }

    pub fn username(&self) -> (r: &Username)
        ensures
            field_username(self@, 2) == Ok::<Seq<char>, ReplyErrorView>(r@),
    {
        proof {
            use_type_invariant(self);
        }
        &self.username
    }

    pub fn host(&self) -> (r: &str)
        ensures
            r@ == param_at(self@, 3),
    {
        proof {
            use_type_invariant(self);
        }
        param_str(&self.parameters, 3)
    }

    pub fn server(&self) -> (r: &str)
        ensures
            r@ == param_at(self@, 4),
    {
        proof {
            use_type_invariant(self);
        }
        param_str(&self.parameters, 4)
    }

    pub fn nickname(&self) -> (r: &Nickname)
        ensures
            field_nickname(self@, 5) == Ok::<Seq<char>, ReplyErrorView>(r@),
    {
        proof {
            use_type_invariant(self);
        }
        &self.nickname
    }

    pub fn flags(&self) -> (r: &WhoFlags)
        ensures
            field_who_flags(self@, 6) == Ok::<WhoFlagsView, ReplyErrorView>(r@),
    {
        proof {
            use_type_invariant(self);
        }
        &self.flags
    }

    pub fn hopcount(&self) -> (r: u32)
        ensures
            field_hopcount(self@) == Ok::<u32, ReplyErrorView>(r),
    {
        proof {
            use_type_invariant(self);
        }
        self.hopcount
    }

    pub fn realname(&self) -> (r: &str)
        ensures
            r@ == split_word(self@.all().last()).1,
    {
        proof {
            use_type_invariant(self);
        }
        rest_of_last(&self.parameters)
    }

}

impl ReplyParts for WhoReply {
    open spec fn reply_code(&self) -> u16 {
        RPL_WHOREPLY
    }

    open spec fn reply_params(&self) -> ParamsView {
        self@
    }

    fn code(&self) -> (r: u16) {
        RPL_WHOREPLY
    }

    fn parameters(&self) -> (r: &ParameterList) {
        proof {
            use_type_invariant(self);
        }
        &self.parameters
    }

    fn is_error(&self) -> (r: bool) {
        false
    }

    fn into_parts(self) -> (r: (u16, ParameterList)) {
        proof {
            use_type_invariant(&self);
        }
        (RPL_WHOREPLY, self.parameters)
    }
}

impl Clone for WhoReply {
    fn clone(&self) -> (r: Self)
        ensures
            r@ == self@,
    {
        proof {
            use_type_invariant(self);
        }
        match WhoReply::try_from_params(self.parameters.clone()) {
            Ok(x) => x,
            Err(_) => {
                assert(false);
                unreached()
            },
        }
    }
}

/// The `RPL_LINKS` reply (364)
#[derive(Debug, PartialEq, Eq)]
pub struct Links {
    parameters: ParameterList,
    client: ReplyTarget,
    hopcount: u32,
}

impl View for Links {
    type V = ParamsView;

    closed spec fn view(&self) -> ParamsView {
        self.parameters@
    }
}

/// Whether `p` reads as a `RPL_LINKS` reply, and if not, the first error
pub open spec fn check_links(p: ParamsView) -> Result<(), ReplyErrorView> {
    if p.all().len() < 4 {
        Err(param_qty(4, p))
    } else {
        first_err(field_reply_target(p, 0), first_err(field_hopcount(p), Ok(())))
    }
}

impl Links {
    #[verifier::type_invariant]
    spec fn inv(self) -> bool {
        &&& check_links(self.parameters@) is Ok
        &&& field_reply_target(self.parameters@, 0) == Ok::<TargetView, ReplyErrorView>(self.client@)
        &&& field_hopcount(self.parameters@) == Ok::<u32, ReplyErrorView>(self.hopcount)
    }

    /// Reads `parameters` as a `RPL_LINKS` reply
    pub fn try_from_params(parameters: ParameterList) -> (r: Result<Links, ReplyError>)
        ensures
            match r {
                Ok(x) => check_links(parameters@) is Ok && x@ == parameters@,
                Err(e) => check_links(parameters@) == Err::<(), ReplyErrorView>(e@),
            },
    {
        if parameters.len() < 4 {
            return Err(ReplyError::ParamQty { min_required: 4, received: parameters.len() });
        }
        let client = match reply_target_at(&parameters, 0) {
            Ok(v) => v,
            Err(e) => {
                return Err(e);
            },
        };
        let hopcount = match hopcount_of(&parameters) {
            Ok(v) => v,
            Err(e) => {
                return Err(e);
            },
        };
        Ok(Links { parameters, client, hopcount })
    }

    pub fn client(&self) -> (r: &ReplyTarget)
        ensures
            field_reply_target(self@, 0) == Ok::<TargetView, ReplyErrorView>(r@),
    {
        proof {
            use_type_invariant(self);
        }
        &self.client
    }

    pub fn server1(&self) -> (r: &str)
        ensures
            r@ == param_at(self@, 1),
    {
        proof {
            use_type_invariant(self);
        }
        param_str(&self.parameters, 1)
    }

    pub fn server2(&self) -> (r: &str)
        ensures
            r@ == param_at(self@, 2),
    {
        proof {
            use_type_invariant(self);
        }
        param_str(&self.parameters, 2)
    }

    pub fn hopcount(&self) -> (r: u32)
        ensures
            field_hopcount(self@) == Ok::<u32, ReplyErrorView>(r),
    {
        proof {
            use_type_invariant(self);
        }
        self.hopcount
    }

    pub fn server_info(&self) -> (r: &str)
        ensures
            r@ == split_word(self@.all().last()).1,
    {
        proof {
            use_type_invariant(self);
        }
        rest_of_last(&self.parameters)
    }

}

impl ReplyParts for Links {
    open spec fn reply_code(&self) -> u16 {
        RPL_LINKS
    }

    open spec fn reply_params(&self) -> ParamsView {
        self@
    }

    fn code(&self) -> (r: u16) {
        RPL_LINKS
    }

    fn parameters(&self) -> (r: &ParameterList) {
        proof {
            use_type_invariant(self);
        }
        &self.parameters
    }

    fn is_error(&self) -> (r: bool) {
        false
    }

    fn into_parts(self) -> (r: (u16, ParameterList)) {
        proof {
            use_type_invariant(&self);
        }
        (RPL_LINKS, self.parameters)
    }
}

impl Clone for Links {
    fn clone(&self) -> (r: Self)
        ensures
            r@ == self@,
    {
        proof {
            use_type_invariant(self);
        }
        match Links::try_from_params(self.parameters.clone()) {
            Ok(x) => x,
            Err(_) => {
                assert(false);
                unreached()
            },
        }
    }
}

/// The `RPL_ENDOFLINKS` reply (365)
#[derive(Debug, PartialEq, Eq)]
pub struct EndOfLinks {
    parameters: ParameterList,
    client: ReplyTarget,
}

impl View for EndOfLinks {
    type V = ParamsView;

    closed spec fn view(&self) -> ParamsView {
        self.parameters@
    }
}

/// Whether `p` reads as a `RPL_ENDOFLINKS` reply, and if not, the first error
pub open spec fn check_end_of_links(p: ParamsView) -> Result<(), ReplyErrorView> {
    if p.all().len() < 3 {
        Err(param_qty(3, p))
    } else {
        first_err(field_reply_target(p, 0), Ok(()))
    }
}

impl EndOfLinks {
    #[verifier::type_invariant]
    spec fn inv(self) -> bool {
        &&& check_end_of_links(self.parameters@) is Ok
        &&& field_reply_target(self.parameters@, 0) == Ok::<TargetView, ReplyErrorView>(self.client@)
    }

    /// Reads `parameters` as a `RPL_ENDOFLINKS` reply
    pub fn try_from_params(parameters: ParameterList) -> (r: Result<EndOfLinks, ReplyError>)
        ensures
            match r {
                Ok(x) => check_end_of_links(parameters@) is Ok && x@ == parameters@,
                Err(e) => check_end_of_links(parameters@) == Err::<(), ReplyErrorView>(e@),
            },
    {
        if parameters.len() < 3 {
            return Err(ReplyError::ParamQty { min_required: 3, received: parameters.len() });
        }
        let client = match reply_target_at(&parameters, 0) {
            Ok(v) => v,
            Err(e) => {
                return Err(e);
            },
        };
        Ok(EndOfLinks { parameters, client })
    }

    pub fn client(&self) -> (r: &ReplyTarget)
        ensures
            field_reply_target(self@, 0) == Ok::<TargetView, ReplyErrorView>(r@),
    {
        proof {
            use_type_invariant(self);
        }
        &self.client
    }

    pub fn message(&self) -> (r: &str)
        ensures
            r@ == self@.all().last(),
    {
        proof {
            use_type_invariant(self);
        }
        last_str(&self.parameters)
    }

}

impl ReplyParts for EndOfLinks {
    open spec fn reply_code(&self) -> u16 {
        RPL_ENDOFLINKS
    }

    open spec fn reply_params(&self) -> ParamsView {
        self@
    }

    fn code(&self) -> (r: u16) {
        RPL_ENDOFLINKS
    }

    fn parameters(&self) -> (r: &ParameterList) {
        proof {
            use_type_invariant(self);
        }
        &self.parameters
    }

    fn is_error(&self) -> (r: bool) {
        false
    }

    fn into_parts(self) -> (r: (u16, ParameterList)) {
        proof {
            use_type_invariant(&self);
        }
        (RPL_ENDOFLINKS, self.parameters)
    }
}

impl Clone for EndOfLinks {
    fn clone(&self) -> (r: Self)
        ensures
            r@ == self@,
    {
        proof {
            use_type_invariant(self);
        }
        match EndOfLinks::try_from_params(self.parameters.clone()) {
            Ok(x) => x,
            Err(_) => {
                assert(false);
                unreached()
            },
        }
    }
}

/// The `RPL_ENDOFNAMES` reply (366)
#[derive(Debug, PartialEq, Eq)]
pub struct EndOfNames {
    parameters: ParameterList,
    client: ReplyTarget,
    channel: Channel,
}

impl View for EndOfNames {
    type V = ParamsView;

    closed spec fn view(&self) -> ParamsView {
        self.parameters@
    }
}

/// Whether `p` reads as a `RPL_ENDOFNAMES` reply, and if not, the first error
pub open spec fn check_end_of_names(p: ParamsView) -> Result<(), ReplyErrorView> {
    if p.all().len() < 3 {
        Err(param_qty(3, p))
    } else {
        first_err(field_reply_target(p, 0), first_err(field_channel(p, 1), Ok(())))
    }
}

impl EndOfNames {
    #[verifier::type_invariant]
    spec fn inv(self) -> bool {
        &&& check_end_of_names(self.parameters@) is Ok
        &&& field_reply_target(self.parameters@, 0) == Ok::<TargetView, ReplyErrorView>(self.client@)
        &&& field_channel(self.parameters@, 1) == Ok::<Seq<char>, ReplyErrorView>(self.channel@)
    }

    /// Reads `parameters` as a `RPL_ENDOFNAMES` reply
    pub fn try_from_params(parameters: ParameterList) -> (r: Result<EndOfNames, ReplyError>)
        ensures
            match r {
                Ok(x) => check_end_of_names(parameters@) is Ok && x@ == parameters@,
                Err(e) => check_end_of_names(parameters@) == Err::<(), ReplyErrorView>(e@),
            },
    {
        if parameters.len() < 3 {
            return Err(ReplyError::ParamQty { min_required: 3, received: parameters.len() });
        }
        let client = match reply_target_at(&parameters, 0) {
            Ok(v) => v,
            Err(e) => {
                return Err(e);
            },
        };
        let channel = match channel_at(&parameters, 1) {
            Ok(v) => v,
            Err(e) => {
                return Err(e);
            },
        };
        Ok(EndOfNames { parameters, client, channel })
    }

    pub fn client(&self) -> (r: &ReplyTarget)
        ensures
            field_reply_target(self@, 0) == Ok::<TargetView, ReplyErrorView>(r@),
    {
        proof {
            use_type_invariant(self);
        }
        &self.client
    }

    pub fn channel(&self) -> (r: &Channel)
        ensures
            field_channel(self@, 1) == Ok::<Seq<char>, ReplyErrorView>(r@),
    {
        proof {
            use_type_invariant(self);
        }
        &self.channel
    }

    pub fn message(&self) -> (r: &str)
        ensures
            r@ == self@.all().last(),
    {
        proof {
            use_type_invariant(self);
        }
        last_str(&self.parameters)
    }

}

impl ReplyParts for EndOfNames {
    open spec fn reply_code(&self) -> u16 {
        RPL_ENDOFNAMES
    }

    open spec fn reply_params(&self) -> ParamsView {
        self@
    }

    fn code(&self) -> (r: u16) {
        RPL_ENDOFNAMES
    }

    fn parameters(&self) -> (r: &ParameterList) {
        proof {
            use_type_invariant(self);
        }
        &self.parameters
    }

    fn is_error(&self) -> (r: bool) {
        false
    }

    fn into_parts(self) -> (r: (u16, ParameterList)) {
        proof {
            use_type_invariant(&self);
        }
        (RPL_ENDOFNAMES, self.parameters)
    }
}

impl Clone for EndOfNames {
    fn clone(&self) -> (r: Self)
        ensures
            r@ == self@,
    {
        proof {
            use_type_invariant(self);
        }
        match EndOfNames::try_from_params(self.parameters.clone()) {
            Ok(x) => x,
            Err(_) => {
                assert(false);
                unreached()
            },
        }
    }
}

/// The `RPL_BANLIST` reply (367)
#[derive(Debug, PartialEq, Eq)]
pub struct BanList {
    parameters: ParameterList,
    client: ReplyTarget,
    channel: Channel,
    set_ts: Option<u64>,
}

impl View for BanList {
    type V = ParamsView;

    closed spec fn view(&self) -> ParamsView {
        self.parameters@
    }
}

/// Whether `p` reads as a `RPL_BANLIST` reply, and if not, the first error
pub open spec fn check_ban_list(p: ParamsView) -> Result<(), ReplyErrorView> {
    if p.all().len() < 3 {
        Err(param_qty(3, p))
    } else {
        first_err(field_reply_target(p, 0), first_err(field_channel(p, 1), first_err(field_opt_u64(p, 4), Ok(()))))
    }
}

impl BanList {
    #[verifier::type_invariant]
    spec fn inv(self) -> bool {
        &&& check_ban_list(self.parameters@) is Ok
        &&& field_reply_target(self.parameters@, 0) == Ok::<TargetView, ReplyErrorView>(self.client@)
        &&& field_channel(self.parameters@, 1) == Ok::<Seq<char>, ReplyErrorView>(self.channel@)
        &&& field_opt_u64(self.parameters@, 4) == Ok::<Option<u64>, ReplyErrorView>(self.set_ts)
    }

    /// Reads `parameters` as a `RPL_BANLIST` reply
    pub fn try_from_params(parameters: ParameterList) -> (r: Result<BanList, ReplyError>)
        ensures
            match r {
                Ok(x) => check_ban_list(parameters@) is Ok && x@ == parameters@,
                Err(e) => check_ban_list(parameters@) == Err::<(), ReplyErrorView>(e@),
            },
    {
        if parameters.len() < 3 {
            return Err(ReplyError::ParamQty { min_required: 3, received: parameters.len() });
        }
        let client = match reply_target_at(&parameters, 0) {
            Ok(v) => v,
            Err(e) => {
                return Err(e);
            },
        };
        let channel = match channel_at(&parameters, 1) {
            Ok(v) => v,
            Err(e) => {
                return Err(e);
            },
        };
        let set_ts = match opt_u64_at(&parameters, 4) {
            Ok(v) => v,
            Err(e) => {
                return Err(e);
            },
        };
        Ok(BanList { parameters, client, channel, set_ts })
    }

    pub fn client(&self) -> (r: &ReplyTarget)
        ensures
            field_reply_target(self@, 0) == Ok::<TargetView, ReplyErrorView>(r@),
    {
        proof {
            use_type_invariant(self);
        }
        &self.client
    }

    pub fn channel(&self) -> (r: &Channel)
        ensures
            field_channel(self@, 1) == Ok::<Seq<char>, ReplyErrorView>(r@),
    {
        proof {
            use_type_invariant(self);
        }
        &self.channel
    }

    pub fn mask(&self) -> (r: &str)
        ensures
            r@ == param_at(self@, 2),
    {
        proof {
            use_type_invariant(self);
        }
        param_str(&self.parameters, 2)
    }

    pub fn who(&self) -> (r: Option<&str>)
        ensures
            r is Some <==> 3 < self@.all().len(),
            r matches Some(s) ==> s@ == param_at(self@, 3),
    {
        proof {
            use_type_invariant(self);
        }
        opt_param_str(&self.parameters, 3)
    }

    pub fn set_ts(&self) -> (r: Option<u64>)
        ensures
            field_opt_u64(self@, 4) == Ok::<Option<u64>, ReplyErrorView>(r),
    {
        proof {
            use_type_invariant(self);
        }
        self.set_ts
    }

}

impl ReplyParts for BanList {
    open spec fn reply_code(&self) -> u16 {
        RPL_BANLIST
    }

    open spec fn reply_params(&self) -> ParamsView {
        self@
    }

    fn code(&self) -> (r: u16) {
        RPL_BANLIST
    }

    fn parameters(&self) -> (r: &ParameterList) {
        proof {
            use_type_invariant(self);
        }
        &self.parameters
    }

    fn is_error(&self) -> (r: bool) {
        false
    }

    fn into_parts(self) -> (r: (u16, ParameterList)) {
        proof {
            use_type_invariant(&self);
        }
        (RPL_BANLIST, self.parameters)
    }
}

impl Clone for BanList {
    fn clone(&self) -> (r: Self)
        ensures
            r@ == self@,
    {
        proof {
            use_type_invariant(self);
        }
        match BanList::try_from_params(self.parameters.clone()) {
            Ok(x) => x,
            Err(_) => {
                assert(false);
                unreached()
            },
        }
    }
}

/// The `RPL_ENDOFBANLIST` reply (368)
#[derive(Debug, PartialEq, Eq)]
pub struct EndOfBanList {
    parameters: ParameterList,
    client: ReplyTarget,
    channel: Channel,
}

impl View for EndOfBanList {
    type V = ParamsView;

    closed spec fn view(&self) -> ParamsView {
        self.parameters@
    }
}

/// Whether `p` reads as a `RPL_ENDOFBANLIST` reply, and if not, the first error
pub open spec fn check_end_of_ban_list(p: ParamsView) -> Result<(), ReplyErrorView> {
    if p.all().len() < 3 {
        Err(param_qty(3, p))
    } else {
        first_err(field_reply_target(p, 0), first_err(field_channel(p, 1), Ok(())))
    }
}

impl EndOfBanList {
    #[verifier::type_invariant]
    spec fn inv(self) -> bool {
        &&& check_end_of_ban_list(self.parameters@) is Ok
        &&& field_reply_target(self.parameters@, 0) == Ok::<TargetView, ReplyErrorView>(self.client@)
        &&& field_channel(self.parameters@, 1) == Ok::<Seq<char>, ReplyErrorView>(self.channel@)
    }

    /// Reads `parameters` as a `RPL_ENDOFBANLIST` reply
    pub fn try_from_params(parameters: ParameterList) -> (r: Result<EndOfBanList, ReplyError>)
        ensures
            match r {
                Ok(x) => check_end_of_ban_list(parameters@) is Ok && x@ == parameters@,
                Err(e) => check_end_of_ban_list(parameters@) == Err::<(), ReplyErrorView>(e@),
            },
    {
        if parameters.len() < 3 {
            return Err(ReplyError::ParamQty { min_required: 3, received: parameters.len() });
        }
        let client = match reply_target_at(&parameters, 0) {
            Ok(v) => v,
            Err(e) => {
                return Err(e);
            },
        };
        let channel = match channel_at(&parameters, 1) {
            Ok(v) => v,
            Err(e) => {
                return Err(e);
            },
        };
        Ok(EndOfBanList { parameters, client, channel })
    }

    pub fn client(&self) -> (r: &ReplyTarget)
        ensures
            field_reply_target(self@, 0) == Ok::<TargetView, ReplyErrorView>(r@),
    {
        proof {
            use_type_invariant(self);
        }
        &self.client
    }

    pub fn channel(&self) -> (r: &Channel)
        ensures
            field_channel(self@, 1) == Ok::<Seq<char>, ReplyErrorView>(r@),
    {
        proof {
            use_type_invariant(self);
        }
        &self.channel
    }

    pub fn message(&self) -> (r: &str)
        ensures
            r@ == self@.all().last(),
    {
        proof {
            use_type_invariant(self);
        }
        last_str(&self.parameters)
    }

}

impl ReplyParts for EndOfBanList {
    open spec fn reply_code(&self) -> u16 {
        RPL_ENDOFBANLIST
    }

    open spec fn reply_params(&self) -> ParamsView {
        self@
    }

    fn code(&self) -> (r: u16) {
        RPL_ENDOFBANLIST
    }

    fn parameters(&self) -> (r: &ParameterList) {
        proof {
            use_type_invariant(self);
        }
        &self.parameters
    }

    fn is_error(&self) -> (r: bool) {
        false
    }

    fn into_parts(self) -> (r: (u16, ParameterList)) {
        proof {
            use_type_invariant(&self);
        }
        (RPL_ENDOFBANLIST, self.parameters)
    }
}

impl Clone for EndOfBanList {
    fn clone(&self) -> (r: Self)
        ensures
            r@ == self@,
    {
        proof {
            use_type_invariant(self);
        }
        match EndOfBanList::try_from_params(self.parameters.clone()) {
            Ok(x) => x,
            Err(_) => {
                assert(false);
                unreached()
            },
        }
    }
}

/// The `RPL_ENDOFWHOWAS` reply (369)
#[derive(Debug, PartialEq, Eq)]
pub struct EndOfWhoWas {
    parameters: ParameterList,
    client: ReplyTarget,
    nickname: Nickname,
}

impl View for EndOfWhoWas {
    type V = ParamsView;

    closed spec fn view(&self) -> ParamsView {
        self.parameters@
    }
}

/// Whether `p` reads as a `RPL_ENDOFWHOWAS` reply, and if not, the first error
pub open spec fn check_end_of_who_was(p: ParamsView) -> Result<(), ReplyErrorView> {
    if p.all().len() < 3 {
        Err(param_qty(3, p))
    } else {
        first_err(field_reply_target(p, 0), first_err(field_nickname(p, 1), Ok(())))
    }
}

impl EndOfWhoWas {
    #[verifier::type_invariant]
    spec fn inv(self) -> bool {
        &&& check_end_of_who_was(self.parameters@) is Ok
        &&& field_reply_target(self.parameters@, 0) == Ok::<TargetView, ReplyErrorView>(self.client@)
        &&& field_nickname(self.parameters@, 1) == Ok::<Seq<char>, ReplyErrorView>(self.nickname@)
    }

    /// Reads `parameters` as a `RPL_ENDOFWHOWAS` reply
    pub fn try_from_params(parameters: ParameterList) -> (r: Result<EndOfWhoWas, ReplyError>)
        ensures
            match r {
                Ok(x) => check_end_of_who_was(parameters@) is Ok && x@ == parameters@,
                Err(e) => check_end_of_who_was(parameters@) == Err::<(), ReplyErrorView>(e@),
            },
    {
        if parameters.len() < 3 {
            return Err(ReplyError::ParamQty { min_required: 3, received: parameters.len() });
        }
        let client = match reply_target_at(&parameters, 0) {
            Ok(v) => v,
            Err(e) => {
                return Err(e);
            },
        };
        let nickname = match nickname_at(&parameters, 1) {
            Ok(v) => v,
            Err(e) => {
                return Err(e);
            },
        };
        Ok(EndOfWhoWas { parameters, client, nickname })
    }

    pub fn client(&self) -> (r: &ReplyTarget)
        ensures
            field_reply_target(self@, 0) == Ok::<TargetView, ReplyErrorView>(r@),
    {
        proof {
            use_type_invariant(self);
        }
        &self.client
    }

    pub fn nickname(&self) -> (r: &Nickname)
        ensures
            field_nickname(self@, 1) == Ok::<Seq<char>, ReplyErrorView>(r@),
    {
        proof {
            use_type_invariant(self);
        }
        &self.nickname
    }

    pub fn message(&self) -> (r: &str)
        ensures
            r@ == self@.all().last(),
    {
        proof {
            use_type_invariant(self);
        }
        last_str(&self.parameters)
    }

}

impl ReplyParts for EndOfWhoWas {
    open spec fn reply_code(&self) -> u16 {
        RPL_ENDOFWHOWAS
    }

    open spec fn reply_params(&self) -> ParamsView {
        self@
    }

    fn code(&self) -> (r: u16) {
        RPL_ENDOFWHOWAS
    }

    fn parameters(&self) -> (r: &ParameterList) {
        proof {
            use_type_invariant(self);
        }
        &self.parameters
    }

    fn is_error(&self) -> (r: bool) {
        false
    }

    fn into_parts(self) -> (r: (u16, ParameterList)) {
        proof {
            use_type_invariant(&self);
        }
        (RPL_ENDOFWHOWAS, self.parameters)
    }
}

impl Clone for EndOfWhoWas {
    fn clone(&self) -> (r: Self)
        ensures
            r@ == self@,
    {
        proof {
            use_type_invariant(self);
        }
        match EndOfWhoWas::try_from_params(self.parameters.clone()) {
            Ok(x) => x,
            Err(_) => {
                assert(false);
                unreached()
            },
        }
    }
}

/// The `RPL_INFO` reply (371)
#[derive(Debug, PartialEq, Eq)]
pub struct Info {
    parameters: ParameterList,
    client: ReplyTarget,
}

impl View for Info {
    type V = ParamsView;

    closed spec fn view(&self) -> ParamsView {
        self.parameters@
    }
}

/// Whether `p` reads as a `RPL_INFO` reply, and if not, the first error
pub open spec fn check_info(p: ParamsView) -> Result<(), ReplyErrorView> {
    if p.all().len() < 2 {
        Err(param_qty(2, p))
    } else {
        first_err(field_reply_target(p, 0), Ok(()))
    }
}

impl Info {
    #[verifier::type_invariant]
    spec fn inv(self) -> bool {
        &&& check_info(self.parameters@) is Ok
        &&& field_reply_target(self.parameters@, 0) == Ok::<TargetView, ReplyErrorView>(self.client@)
    }

    /// Reads `parameters` as a `RPL_INFO` reply
    pub fn try_from_params(parameters: ParameterList) -> (r: Result<Info, ReplyError>)
        ensures
            match r {
                Ok(x) => check_info(parameters@) is Ok && x@ == parameters@,
                Err(e) => check_info(parameters@) == Err::<(), ReplyErrorView>(e@),
            },
    {
        if parameters.len() < 2 {
            return Err(ReplyError::ParamQty { min_required: 2, received: parameters.len() });
        }
        let client = match reply_target_at(&parameters, 0) {
            Ok(v) => v,
            Err(e) => {
                return Err(e);
            },
        };
        Ok(Info { parameters, client })
    }

    pub fn client(&self) -> (r: &ReplyTarget)
        ensures
            field_reply_target(self@, 0) == Ok::<TargetView, ReplyErrorView>(r@),
    {
        proof {
            use_type_invariant(self);
        }
        &self.client
    }

    pub fn message(&self) -> (r: &str)
        ensures
            r@ == self@.all().last(),
    {
        proof {
            use_type_invariant(self);
        }
        last_str(&self.parameters)
    }

}

impl ReplyParts for Info {
    open spec fn reply_code(&self) -> u16 {
        RPL_INFO
    }

    open spec fn reply_params(&self) -> ParamsView {
        self@
    }

    fn code(&self) -> (r: u16) {
        RPL_INFO
    }

    fn parameters(&self) -> (r: &ParameterList) {
        proof {
            use_type_invariant(self);
        }
        &self.parameters
    }

    fn is_error(&self) -> (r: bool) {
        false
    }

    fn into_parts(self) -> (r: (u16, ParameterList)) {
        proof {
            use_type_invariant(&self);
        }
        (RPL_INFO, self.parameters)
    }
}

impl Clone for Info {
    fn clone(&self) -> (r: Self)
        ensures
            r@ == self@,
    {
        proof {
            use_type_invariant(self);
        }
        match Info::try_from_params(self.parameters.clone()) {
            Ok(x) => x,
            Err(_) => {
                assert(false);
                unreached()
            },
        }
    }
}

/// The `RPL_MOTD` reply (372)
#[derive(Debug, PartialEq, Eq)]
pub struct Motd {
    parameters: ParameterList,
    client: ReplyTarget,
}

impl View for Motd {
    type V = ParamsView;

    closed spec fn view(&self) -> ParamsView {
        self.parameters@
    }
}

/// Whether `p` reads as a `RPL_MOTD` reply, and if not, the first error
pub open spec fn check_motd(p: ParamsView) -> Result<(), ReplyErrorView> {
    if p.all().len() < 2 {
        Err(param_qty(2, p))
    } else {
        first_err(field_reply_target(p, 0), Ok(()))
    }
}

impl Motd {
    #[verifier::type_invariant]
    spec fn inv(self) -> bool {
        &&& check_motd(self.parameters@) is Ok
        &&& field_reply_target(self.parameters@, 0) == Ok::<TargetView, ReplyErrorView>(self.client@)
    }

    /// Reads `parameters` as a `RPL_MOTD` reply
    pub fn try_from_params(parameters: ParameterList) -> (r: Result<Motd, ReplyError>)
        ensures
            match r {
                Ok(x) => check_motd(parameters@) is Ok && x@ == parameters@,
                Err(e) => check_motd(parameters@) == Err::<(), ReplyErrorView>(e@),
            },
    {
        if parameters.len() < 2 {
            return Err(ReplyError::ParamQty { min_required: 2, received: parameters.len() });
        }
        let client = match reply_target_at(&parameters, 0) {
            Ok(v) => v,
            Err(e) => {
                return Err(e);
            },
        };
        Ok(Motd { parameters, client })
    }

    pub fn client(&self) -> (r: &ReplyTarget)
        ensures
            field_reply_target(self@, 0) == Ok::<TargetView, ReplyErrorView>(r@),
    {
        proof {
            use_type_invariant(self);
        }
        &self.client
    }

    pub fn message(&self) -> (r: &str)
        ensures
            r@ == self@.all().last(),
    {
        proof {
            use_type_invariant(self);
        }
        last_str(&self.parameters)
    }

}

impl ReplyParts for Motd {
    open spec fn reply_code(&self) -> u16 {
        RPL_MOTD
    }

    open spec fn reply_params(&self) -> ParamsView {
        self@
    }

    fn code(&self) -> (r: u16) {
        RPL_MOTD
    }

    fn parameters(&self) -> (r: &ParameterList) {
        proof {
            use_type_invariant(self);
        }
        &self.parameters
    }

    fn is_error(&self) -> (r: bool) {
        false
    }

    fn into_parts(self) -> (r: (u16, ParameterList)) {
        proof {
            use_type_invariant(&self);
        }
        (RPL_MOTD, self.parameters)
    }
}

impl Clone for Motd {
    fn clone(&self) -> (r: Self)
        ensures
            r@ == self@,
    {
        proof {
            use_type_invariant(self);
        }
        match Motd::try_from_params(self.parameters.clone()) {
            Ok(x) => x,
            Err(_) => {
                assert(false);
                unreached()
            },
        }
    }
}

/// The `RPL_ENDOFINFO` reply (374)
#[derive(Debug, PartialEq, Eq)]
pub struct EndOfInfo {
    parameters: ParameterList,
    client: ReplyTarget,
}

impl View for EndOfInfo {
    type V = ParamsView;

    closed spec fn view(&self) -> ParamsView {
        self.parameters@
    }
}

/// Whether `p` reads as a `RPL_ENDOFINFO` reply, and if not, the first error
pub open spec fn check_end_of_info(p: ParamsView) -> Result<(), ReplyErrorView> {
    if p.all().len() < 2 {
        Err(param_qty(2, p))
    } else {
        first_err(field_reply_target(p, 0), Ok(()))
    }
}

impl EndOfInfo {
    #[verifier::type_invariant]
    spec fn inv(self) -> bool {
        &&& check_end_of_info(self.parameters@) is Ok
        &&& field_reply_target(self.parameters@, 0) == Ok::<TargetView, ReplyErrorView>(self.client@)
    }

    /// Reads `parameters` as a `RPL_ENDOFINFO` reply
    pub fn try_from_params(parameters: ParameterList) -> (r: Result<EndOfInfo, ReplyError>)
        ensures
            match r {
                Ok(x) => check_end_of_info(parameters@) is Ok && x@ == parameters@,
                Err(e) => check_end_of_info(parameters@) == Err::<(), ReplyErrorView>(e@),
            },
    {
        if parameters.len() < 2 {
            return Err(ReplyError::ParamQty { min_required: 2, received: parameters.len() });
        }
        let client = match reply_target_at(&parameters, 0) {
            Ok(v) => v,
            Err(e) => {
                return Err(e);
            },
        };
        Ok(EndOfInfo { parameters, client })
    }

    pub fn client(&self) -> (r: &ReplyTarget)
        ensures
            field_reply_target(self@, 0) == Ok::<TargetView, ReplyErrorView>(r@),
    {
        proof {
            use_type_invariant(self);
        }
        &self.client
    }

    pub fn message(&self) -> (r: &str)
        ensures
            r@ == self@.all().last(),
    {
        proof {
            use_type_invariant(self);
        }
        last_str(&self.parameters)
    }

}

impl ReplyParts for EndOfInfo {
    open spec fn reply_code(&self) -> u16 {
        RPL_ENDOFINFO
    }

    open spec fn reply_params(&self) -> ParamsView {
        self@
    }

    fn code(&self) -> (r: u16) {
        RPL_ENDOFINFO
    }

    fn parameters(&self) -> (r: &ParameterList) {
        proof {
            use_type_invariant(self);
        }
        &self.parameters
    }

    fn is_error(&self) -> (r: bool) {
        false
    }

    fn into_parts(self) -> (r: (u16, ParameterList)) {
        proof {
            use_type_invariant(&self);
        }
        (RPL_ENDOFINFO, self.parameters)
    }
}

impl Clone for EndOfInfo {
    fn clone(&self) -> (r: Self)
        ensures
            r@ == self@,
    {
        proof {
            use_type_invariant(self);
        }
        match EndOfInfo::try_from_params(self.parameters.clone()) {
            Ok(x) => x,
            Err(_) => {
                assert(false);
                unreached()
            },
        }
    }
}

/// The `RPL_MOTDSTART` reply (375)
#[derive(Debug, PartialEq, Eq)]
pub struct MotdStart {
    parameters: ParameterList,
    client: ReplyTarget,
}

impl View for MotdStart {
    type V = ParamsView;

    closed spec fn view(&self) -> ParamsView {
        self.parameters@
    }
}

/// Whether `p` reads as a `RPL_MOTDSTART` reply, and if not, the first error
pub open spec fn check_motd_start(p: ParamsView) -> Result<(), ReplyErrorView> {
    if p.all().len() < 2 {
        Err(param_qty(2, p))
    } else {
        first_err(field_reply_target(p, 0), Ok(()))
    }
}

impl MotdStart {
    #[verifier::type_invariant]
    spec fn inv(self) -> bool {
        &&& check_motd_start(self.parameters@) is Ok
        &&& field_reply_target(self.parameters@, 0) == Ok::<TargetView, ReplyErrorView>(self.client@)
    }

    /// Reads `parameters` as a `RPL_MOTDSTART` reply
    pub fn try_from_params(parameters: ParameterList) -> (r: Result<MotdStart, ReplyError>)
        ensures
            match r {
                Ok(x) => check_motd_start(parameters@) is Ok && x@ == parameters@,
                Err(e) => check_motd_start(parameters@) == Err::<(), ReplyErrorView>(e@),
            },
    {
        if parameters.len() < 2 {
            return Err(ReplyError::ParamQty { min_required: 2, received: parameters.len() });
        }
        let client = match reply_target_at(&parameters, 0) {
            Ok(v) => v,
            Err(e) => {
                return Err(e);
            },
        };
        Ok(MotdStart { parameters, client })
    }

    pub fn client(&self) -> (r: &ReplyTarget)
        ensures
            field_reply_target(self@, 0) == Ok::<TargetView, ReplyErrorView>(r@),
    {
        proof {
            use_type_invariant(self);
        }
        &self.client
    }

    pub fn message(&self) -> (r: &str)
        ensures
            r@ == self@.all().last(),
    {
        proof {
            use_type_invariant(self);
        }
        last_str(&self.parameters)
    }

}

impl ReplyParts for MotdStart {
    open spec fn reply_code(&self) -> u16 {
        RPL_MOTDSTART
    }

    open spec fn reply_params(&self) -> ParamsView {
        self@
    }

    fn code(&self) -> (r: u16) {
        RPL_MOTDSTART
    }

    fn parameters(&self) -> (r: &ParameterList) {
        proof {
            use_type_invariant(self);
        }
        &self.parameters
    }

    fn is_error(&self) -> (r: bool) {
        false
    }

    fn into_parts(self) -> (r: (u16, ParameterList)) {
        proof {
            use_type_invariant(&self);
        }
        (RPL_MOTDSTART, self.parameters)
    }
}

impl Clone for MotdStart {
    fn clone(&self) -> (r: Self)
        ensures
            r@ == self@,
    {
        proof {
            use_type_invariant(self);
        }
        match MotdStart::try_from_params(self.parameters.clone()) {
            Ok(x) => x,
            Err(_) => {
                assert(false);
                unreached()
            },
        }
    }
}

/// The `RPL_ENDOFMOTD` reply (376)
#[derive(Debug, PartialEq, Eq)]
pub struct EndOfMotd {
    parameters: ParameterList,
    client: ReplyTarget,
}

impl View for EndOfMotd {
    type V = ParamsView;

    closed spec fn view(&self) -> ParamsView {
        self.parameters@
    }
}

/// Whether `p` reads as a `RPL_ENDOFMOTD` reply, and if not, the first error
pub open spec fn check_end_of_motd(p: ParamsView) -> Result<(), ReplyErrorView> {
    if p.all().len() < 2 {
        Err(param_qty(2, p))
    } else {
        first_err(field_reply_target(p, 0), Ok(()))
    }
}

impl EndOfMotd {
    #[verifier::type_invariant]
    spec fn inv(self) -> bool {
        &&& check_end_of_motd(self.parameters@) is Ok
        &&& field_reply_target(self.parameters@, 0) == Ok::<TargetView, ReplyErrorView>(self.client@)
    }

    /// Reads `parameters` as a `RPL_ENDOFMOTD` reply
    pub fn try_from_params(parameters: ParameterList) -> (r: Result<EndOfMotd, ReplyError>)
        ensures
            match r {
                Ok(x) => check_end_of_motd(parameters@) is Ok && x@ == parameters@,
                Err(e) => check_end_of_motd(parameters@) == Err::<(), ReplyErrorView>(e@),
            },
    {
        if parameters.len() < 2 {
            return Err(ReplyError::ParamQty { min_required: 2, received: parameters.len() });
        }
        let client = match reply_target_at(&parameters, 0) {
            Ok(v) => v,
            Err(e) => {
                return Err(e);
            },
        };
        Ok(EndOfMotd { parameters, client })
    }

    pub fn client(&self) -> (r: &ReplyTarget)
        ensures
            field_reply_target(self@, 0) == Ok::<TargetView, ReplyErrorView>(r@),
    {
        proof {
            use_type_invariant(self);
        }
        &self.client
    }

    pub fn message(&self) -> (r: &str)
        ensures
            r@ == self@.all().last(),
    {
        proof {
            use_type_invariant(self);
        }
        last_str(&self.parameters)
    }

}

impl ReplyParts for EndOfMotd {
    open spec fn reply_code(&self) -> u16 {
        RPL_ENDOFMOTD
    }

    open spec fn reply_params(&self) -> ParamsView {
        self@
    }

    fn code(&self) -> (r: u16) {
        RPL_ENDOFMOTD
    }

    fn parameters(&self) -> (r: &ParameterList) {
        proof {
            use_type_invariant(self);
        }
        &self.parameters
    }

    fn is_error(&self) -> (r: bool) {
        false
    }

    fn into_parts(self) -> (r: (u16, ParameterList)) {
        proof {
            use_type_invariant(&self);
        }
        (RPL_ENDOFMOTD, self.parameters)
    }
}

impl Clone for EndOfMotd {
    fn clone(&self) -> (r: Self)
        ensures
            r@ == self@,
    {
        proof {
            use_type_invariant(self);
        }
        match EndOfMotd::try_from_params(self.parameters.clone()) {
            Ok(x) => x,
            Err(_) => {
                assert(false);
                unreached()
            },
        }
    }
}

/// The `RPL_WHOISHOST` reply (378)
#[derive(Debug, PartialEq, Eq)]
pub struct WhoIsHost {
    parameters: ParameterList,
    client: ReplyTarget,
    nickname: Nickname,
}

impl View for WhoIsHost {
    type V = ParamsView;

    closed spec fn view(&self) -> ParamsView {
        self.parameters@
    }
}

/// Whether `p` reads as a `RPL_WHOISHOST` reply, and if not, the first error
pub open spec fn check_who_is_host(p: ParamsView) -> Result<(), ReplyErrorView> {
    if p.all().len() < 3 {
        Err(param_qty(3, p))
    } else {
        first_err(field_reply_target(p, 0), first_err(field_nickname(p, 1), Ok(())))
    }
}

impl WhoIsHost {
    #[verifier::type_invariant]
    spec fn inv(self) -> bool {
        &&& check_who_is_host(self.parameters@) is Ok
        &&& field_reply_target(self.parameters@, 0) == Ok::<TargetView, ReplyErrorView>(self.client@)
        &&& field_nickname(self.parameters@, 1) == Ok::<Seq<char>, ReplyErrorView>(self.nickname@)
    }

    /// Reads `parameters` as a `RPL_WHOISHOST` reply
    pub fn try_from_params(parameters: ParameterList) -> (r: Result<WhoIsHost, ReplyError>)
        ensures
            match r {
                Ok(x) => check_who_is_host(parameters@) is Ok && x@ == parameters@,
                Err(e) => check_who_is_host(parameters@) == Err::<(), ReplyErrorView>(e@),
            },
    {
        if parameters.len() < 3 {
            return Err(ReplyError::ParamQty { min_required: 3, received: parameters.len() });
        }
        let client = match reply_target_at(&parameters, 0) {
            Ok(v) => v,
            Err(e) => {
                return Err(e);
            },
        };
        let nickname = match nickname_at(&parameters, 1) {
            Ok(v) => v,
            Err(e) => {
                return Err(e);
            },
        };
        Ok(WhoIsHost { parameters, client, nickname })
    }

    pub fn client(&self) -> (r: &ReplyTarget)
        ensures
            field_reply_target(self@, 0) == Ok::<TargetView, ReplyErrorView>(r@),
    {
        proof {
            use_type_invariant(self);
        }
        &self.client
    }

    pub fn nickname(&self) -> (r: &Nickname)
        ensures
            field_nickname(self@, 1) == Ok::<Seq<char>, ReplyErrorView>(r@),
    {
        proof {
            use_type_invariant(self);
        }
        &self.nickname
    }

    pub fn message(&self) -> (r: &str)
        ensures
            r@ == self@.all().last(),
    {
        proof {
            use_type_invariant(self);
        }
        last_str(&self.parameters)
    }

}

impl ReplyParts for WhoIsHost {
    open spec fn reply_code(&self) -> u16 {
        RPL_WHOISHOST
    }

    open spec fn reply_params(&self) -> ParamsView {
        self@
    }

    fn code(&self) -> (r: u16) {
        RPL_WHOISHOST
    }

    fn parameters(&self) -> (r: &ParameterList) {
        proof {
            use_type_invariant(self);
        }
        &self.parameters
    }

    fn is_error(&self) -> (r: bool) {
        false
    }

    fn into_parts(self) -> (r: (u16, ParameterList)) {
        proof {
            use_type_invariant(&self);
        }
        (RPL_WHOISHOST, self.parameters)
    }
}

impl Clone for WhoIsHost {
    fn clone(&self) -> (r: Self)
        ensures
            r@ == self@,
    {
        proof {
            use_type_invariant(self);
        }
        match WhoIsHost::try_from_params(self.parameters.clone()) {
            Ok(x) => x,
            Err(_) => {
                assert(false);
                unreached()
            },
        }
    }
}

/// The `RPL_WHOISMODES` reply (379)
#[derive(Debug, PartialEq, Eq)]
pub struct WhoIsModes {
    parameters: ParameterList,
    client: ReplyTarget,
    nickname: Nickname,
}

impl View for WhoIsModes {
    type V = ParamsView;

    closed spec fn view(&self) -> ParamsView {
        self.parameters@
    }
}

/// Whether `p` reads as a `RPL_WHOISMODES` reply, and if not, the first error
pub open spec fn check_who_is_modes(p: ParamsView) -> Result<(), ReplyErrorView> {
    if p.all().len() < 3 {
        Err(param_qty(3, p))
    } else {
        first_err(field_reply_target(p, 0), first_err(field_nickname(p, 1), Ok(())))
    }
}

impl WhoIsModes {
    #[verifier::type_invariant]
    spec fn inv(self) -> bool {
        &&& check_who_is_modes(self.parameters@) is Ok
        &&& field_reply_target(self.parameters@, 0) == Ok::<TargetView, ReplyErrorView>(self.client@)
        &&& field_nickname(self.parameters@, 1) == Ok::<Seq<char>, ReplyErrorView>(self.nickname@)
    }

    /// Reads `parameters` as a `RPL_WHOISMODES` reply
    pub fn try_from_params(parameters: ParameterList) -> (r: Result<WhoIsModes, ReplyError>)
        ensures
            match r {
                Ok(x) => check_who_is_modes(parameters@) is Ok && x@ == parameters@,
                Err(e) => check_who_is_modes(parameters@) == Err::<(), ReplyErrorView>(e@),
            },
    {
        if parameters.len() < 3 {
            return Err(ReplyError::ParamQty { min_required: 3, received: parameters.len() });
        }
        let client = match reply_target_at(&parameters, 0) {
            Ok(v) => v,
            Err(e) => {
                return Err(e);
            },
        };
        let nickname = match nickname_at(&parameters, 1) {
            Ok(v) => v,
            Err(e) => {
                return Err(e);
            },
        };
        Ok(WhoIsModes { parameters, client, nickname })
    }

    pub fn client(&self) -> (r: &ReplyTarget)
        ensures
            field_reply_target(self@, 0) == Ok::<TargetView, ReplyErrorView>(r@),
    {
        proof {
            use_type_invariant(self);
        }
        &self.client
    }

    pub fn nickname(&self) -> (r: &Nickname)
        ensures
            field_nickname(self@, 1) == Ok::<Seq<char>, ReplyErrorView>(r@),
    {
        proof {
            use_type_invariant(self);
        }
        &self.nickname
    }

    pub fn message(&self) -> (r: &str)
        ensures
            r@ == self@.all().last(),
    {
        proof {
            use_type_invariant(self);
        }
        last_str(&self.parameters)
    }

}

impl ReplyParts for WhoIsModes {
    open spec fn reply_code(&self) -> u16 {
        RPL_WHOISMODES
    }

    open spec fn reply_params(&self) -> ParamsView {
        self@
    }

    fn code(&self) -> (r: u16) {
        RPL_WHOISMODES
    }

    fn parameters(&self) -> (r: &ParameterList) {
        proof {
            use_type_invariant(self);
        }
        &self.parameters
    }

    fn is_error(&self) -> (r: bool) {
        false
    }

    fn into_parts(self) -> (r: (u16, ParameterList)) {
        proof {
            use_type_invariant(&self);
        }
        (RPL_WHOISMODES, self.parameters)
    }
}

impl Clone for WhoIsModes {
    fn clone(&self) -> (r: Self)
        ensures
            r@ == self@,
    {
        proof {
            use_type_invariant(self);
        }
        match WhoIsModes::try_from_params(self.parameters.clone()) {
            Ok(x) => x,
            Err(_) => {
                assert(false);
                unreached()
            },
        }
    }
}

/// The `RPL_YOUREOPER` reply (381)
#[derive(Debug, PartialEq, Eq)]
pub struct YoureOper {
    parameters: ParameterList,
    client: ReplyTarget,
}

impl View for YoureOper {
    type V = ParamsView;

    closed spec fn view(&self) -> ParamsView {
        self.parameters@
    }
}

/// Whether `p` reads as a `RPL_YOUREOPER` reply, and if not, the first error
pub open spec fn check_youre_oper(p: ParamsView) -> Result<(), ReplyErrorView> {
    if p.all().len() < 2 {
        Err(param_qty(2, p))
    } else {
        first_err(field_reply_target(p, 0), Ok(()))
    }
}

impl YoureOper {
    #[verifier::type_invariant]
    spec fn inv(self) -> bool {
        &&& check_youre_oper(self.parameters@) is Ok
        &&& field_reply_target(self.parameters@, 0) == Ok::<TargetView, ReplyErrorView>(self.client@)
    }

    /// Reads `parameters` as a `RPL_YOUREOPER` reply
    pub fn try_from_params(parameters: ParameterList) -> (r: Result<YoureOper, ReplyError>)
        ensures
            match r {
                Ok(x) => check_youre_oper(parameters@) is Ok && x@ == parameters@,
                Err(e) => check_youre_oper(parameters@) == Err::<(), ReplyErrorView>(e@),
            },
    {
        if parameters.len() < 2 {
            return Err(ReplyError::ParamQty { min_required: 2, received: parameters.len() });
        }
        let client = match reply_target_at(&parameters, 0) {
            Ok(v) => v,
            Err(e) => {
                return Err(e);
            },
        };
        Ok(YoureOper { parameters, client })
    }

    pub fn client(&self) -> (r: &ReplyTarget)
        ensures
            field_reply_target(self@, 0) == Ok::<TargetView, ReplyErrorView>(r@),
    {
        proof {
            use_type_invariant(self);
        }
        &self.client
    }

    pub fn message(&self) -> (r: &str)
        ensures
            r@ == self@.all().last(),
    {
        proof {
            use_type_invariant(self);
        }
        last_str(&self.parameters)
    }

}

impl ReplyParts for YoureOper {
    open spec fn reply_code(&self) -> u16 {
        RPL_YOUREOPER
    }

    open spec fn reply_params(&self) -> ParamsView {
        self@
    }

    fn code(&self) -> (r: u16) {
        RPL_YOUREOPER
    }

    fn parameters(&self) -> (r: &ParameterList) {
        proof {
            use_type_invariant(self);
        }
        &self.parameters
    }

    fn is_error(&self) -> (r: bool) {
        false
    }

    fn into_parts(self) -> (r: (u16, ParameterList)) {
        proof {
            use_type_invariant(&self);
        }
        (RPL_YOUREOPER, self.parameters)
    }
}

impl Clone for YoureOper {
    fn clone(&self) -> (r: Self)
        ensures
            r@ == self@,
    {
        proof {
            use_type_invariant(self);
        }
        match YoureOper::try_from_params(self.parameters.clone()) {
            Ok(x) => x,
            Err(_) => {
                assert(false);
                unreached()
            },
        }
    }
}

/// The `RPL_REHASHING` reply (382)
#[derive(Debug, PartialEq, Eq)]
pub struct Rehashing {
    parameters: ParameterList,
    client: ReplyTarget,
}

impl View for Rehashing {
    type V = ParamsView;

    closed spec fn view(&self) -> ParamsView {
        self.parameters@
    }
}

/// Whether `p` reads as a `RPL_REHASHING` reply, and if not, the first error
pub open spec fn check_rehashing(p: ParamsView) -> Result<(), ReplyErrorView> {
    if p.all().len() < 3 {
        Err(param_qty(3, p))
    } else {
        first_err(field_reply_target(p, 0), Ok(()))
    }
}

impl Rehashing {
    #[verifier::type_invariant]
    spec fn inv(self) -> bool {
        &&& check_rehashing(self.parameters@) is Ok
        &&& field_reply_target(self.parameters@, 0) == Ok::<TargetView, ReplyErrorView>(self.client@)
    }

    /// Reads `parameters` as a `RPL_REHASHING` reply
    pub fn try_from_params(parameters: ParameterList) -> (r: Result<Rehashing, ReplyError>)
        ensures
            match r {
                Ok(x) => check_rehashing(parameters@) is Ok && x@ == parameters@,
                Err(e) => check_rehashing(parameters@) == Err::<(), ReplyErrorView>(e@),
            },
    {
        if parameters.len() < 3 {
            return Err(ReplyError::ParamQty { min_required: 3, received: parameters.len() });
        }
        let client = match reply_target_at(&parameters, 0) {
            Ok(v) => v,
            Err(e) => {
                return Err(e);
            },
        };
        Ok(Rehashing { parameters, client })
    }

    pub fn client(&self) -> (r: &ReplyTarget)
        ensures
            field_reply_target(self@, 0) == Ok::<TargetView, ReplyErrorView>(r@),
    {
        proof {
            use_type_invariant(self);
        }
        &self.client
    }

    pub fn config_file(&self) -> (r: &str)
        ensures
            r@ == param_at(self@, 1),
    {
        proof {
            use_type_invariant(self);
        }
        param_str(&self.parameters, 1)
    }

    pub fn message(&self) -> (r: &str)
        ensures
            r@ == self@.all().last(),
    {
        proof {
            use_type_invariant(self);
        }
        last_str(&self.parameters)
    }

}

impl ReplyParts for Rehashing {
    open spec fn reply_code(&self) -> u16 {
        RPL_REHASHING
    }

    open spec fn reply_params(&self) -> ParamsView {
        self@
    }

    fn code(&self) -> (r: u16) {
        RPL_REHASHING
    }

    fn parameters(&self) -> (r: &ParameterList) {
        proof {
            use_type_invariant(self);
        }
        &self.parameters
    }

    fn is_error(&self) -> (r: bool) {
        false
    }

    fn into_parts(self) -> (r: (u16, ParameterList)) {
        proof {
            use_type_invariant(&self);
        }
        (RPL_REHASHING, self.parameters)
    }
}

impl Clone for Rehashing {
    fn clone(&self) -> (r: Self)
        ensures
            r@ == self@,
    {
        proof {
            use_type_invariant(self);
        }
        match Rehashing::try_from_params(self.parameters.clone()) {
            Ok(x) => x,
            Err(_) => {
                assert(false);
                unreached()
            },
        }
    }
}

/// The `RPL_TIME` reply (391)
#[derive(Debug, PartialEq, Eq)]
pub struct Time {
    parameters: ParameterList,
    client: ReplyTarget,
    timestamp: Option<u64>,
}

impl View for Time {
    type V = ParamsView;

    closed spec fn view(&self) -> ParamsView {
        self.parameters@
    }
}

/// Whether `p` reads as a `RPL_TIME` reply, and if not, the first error
pub open spec fn check_time(p: ParamsView) -> Result<(), ReplyErrorView> {
    if p.all().len() < 3 {
        Err(param_qty(3, p))
    } else {
        first_err(field_reply_target(p, 0), first_err(field_u64_if_more(p, 2, 3), Ok(())))
    }
}

impl Time {
    #[verifier::type_invariant]
    spec fn inv(self) -> bool {
        &&& check_time(self.parameters@) is Ok
        &&& field_reply_target(self.parameters@, 0) == Ok::<TargetView, ReplyErrorView>(self.client@)
        &&& field_u64_if_more(self.parameters@, 2, 3) == Ok::<Option<u64>, ReplyErrorView>(self.timestamp)
    }

    /// Reads `parameters` as a `RPL_TIME` reply
    pub fn try_from_params(parameters: ParameterList) -> (r: Result<Time, ReplyError>)
        ensures
            match r {
                Ok(x) => check_time(parameters@) is Ok && x@ == parameters@,
                Err(e) => check_time(parameters@) == Err::<(), ReplyErrorView>(e@),
            },
    {
        if parameters.len() < 3 {
            return Err(ReplyError::ParamQty { min_required: 3, received: parameters.len() });
        }
        let client = match reply_target_at(&parameters, 0) {
            Ok(v) => v,
            Err(e) => {
                return Err(e);
            },
        };
        let timestamp = match u64_if_more_at(&parameters, 2, 3) {
            Ok(v) => v,
            Err(e) => {
                return Err(e);
            },
        };
        Ok(Time { parameters, client, timestamp })
    }

    pub fn client(&self) -> (r: &ReplyTarget)
        ensures
            field_reply_target(self@, 0) == Ok::<TargetView, ReplyErrorView>(r@),
    {
        proof {
            use_type_invariant(self);
        }
        &self.client
    }

    pub fn server(&self) -> (r: &str)
        ensures
            r@ == param_at(self@, 1),
    {
        proof {
            use_type_invariant(self);
        }
        param_str(&self.parameters, 1)
    }

    pub fn timestamp(&self) -> (r: Option<u64>)
        ensures
            field_u64_if_more(self@, 2, 3) == Ok::<Option<u64>, ReplyErrorView>(r),
    {
        proof {
            use_type_invariant(self);
        }
        self.timestamp
    }

    pub fn ts_offset(&self) -> (r: Option<&str>)
        ensures
            r is Some <==> 3 < self@.all().len(),
            r matches Some(s) ==> s@ == param_at(self@, 3),
    {
        proof {
            use_type_invariant(self);
        }
        opt_param_str(&self.parameters, 3)
    }

    pub fn human_time(&self) -> (r: &str)
        ensures
            r@ == self@.all().last(),
    {
        proof {
            use_type_invariant(self);
        }
        last_str(&self.parameters)
    }

}

impl ReplyParts for Time {
    open spec fn reply_code(&self) -> u16 {
        RPL_TIME
    }

    open spec fn reply_params(&self) -> ParamsView {
        self@
    }

    fn code(&self) -> (r: u16) {
        RPL_TIME
    }

    fn parameters(&self) -> (r: &ParameterList) {
        proof {
            use_type_invariant(self);
        }
        &self.parameters
    }

    fn is_error(&self) -> (r: bool) {
        false
    }

    fn into_parts(self) -> (r: (u16, ParameterList)) {
        proof {
            use_type_invariant(&self);
        }
        (RPL_TIME, self.parameters)
    }
}

impl Clone for Time {
    fn clone(&self) -> (r: Self)
        ensures
            r@ == self@,
    {
        proof {
            use_type_invariant(self);
        }
        match Time::try_from_params(self.parameters.clone()) {
            Ok(x) => x,
            Err(_) => {
                assert(false);
                unreached()
            },
        }
    }
}

} // verus!
