//! Replies beyond the main specification that servers send: the highest
//! connection counts, a channel's URL, the error for an unknown `CAP`
//! subcommand, and the catch-all for codes that name no reply known here.
use super::codes::{ERR_INVALIDCAPCMD, RPL_CHANNEL_URL, RPL_STATSCONN};
use super::fields::{
    channel_at, field_channel, field_reply_target, first_err, last_str, param_at, param_qty, param_str,
    reply_target_at,
};
use super::{check_reply, is_error_code, is_known_code, ReplyError, ReplyErrorView, ReplyParts};
use crate::names::Channel;
use crate::paramlist::{ParameterList, ParamsView};
use crate::targets::{ReplyTarget, TargetView};
use vstd::prelude::*;

verus! {

/// The `RPL_STATSCONN` reply (250): the highest connection counts, as text
#[derive(Debug, PartialEq, Eq)]
pub struct StatsConn {
    parameters: ParameterList,
    client: ReplyTarget,
}

impl View for StatsConn {
    type V = ParamsView;

    closed spec fn view(&self) -> ParamsView {
        self.parameters@
    }
}

/// Whether `p` reads as a `RPL_STATSCONN` reply, and if not, the first error
pub open spec fn check_stats_conn(p: ParamsView) -> Result<(), ReplyErrorView> {
    if p.all().len() < 2 {
        Err(param_qty(2, p))
    } else {
        first_err(field_reply_target(p, 0), Ok(()))
    }
}

impl StatsConn {
    #[verifier::type_invariant]
    spec fn inv(self) -> bool {
        &&& check_stats_conn(self.parameters@) is Ok
        &&& field_reply_target(self.parameters@, 0) == Ok::<TargetView, ReplyErrorView>(self.client@)
    }

    /// Reads `parameters` as a `RPL_STATSCONN` reply
    pub fn try_from_params(parameters: ParameterList) -> (r: Result<StatsConn, ReplyError>)
        ensures
            match r {
                Ok(x) => check_stats_conn(parameters@) is Ok && x@ == parameters@,
                Err(e) => check_stats_conn(parameters@) == Err::<(), ReplyErrorView>(e@),
            },
    {
        if parameters.len() < 2 {
            return Err(ReplyError::ParamQty { min_required: 2, received: parameters.len() });
        }
        let client = match reply_target_at(&parameters, 0) {
            Ok(v) => v,
            Err(e) => {
                return Err(e);
            },
        };
        Ok(StatsConn { parameters, client })
    }

    pub fn client(&self) -> (r: &ReplyTarget)
        ensures
            field_reply_target(self@, 0) == Ok::<TargetView, ReplyErrorView>(r@),
    {
        proof {
            use_type_invariant(self);
        }
        &self.client
    }

    pub fn message(&self) -> (r: &str)
        ensures
            r@ == self@.all().last(),
    {
        proof {
            use_type_invariant(self);
        }
        last_str(&self.parameters)
    }
}

impl ReplyParts for StatsConn {
    open spec fn reply_code(&self) -> u16 {
        RPL_STATSCONN
    }

    open spec fn reply_params(&self) -> ParamsView {
        self@
    }

    fn code(&self) -> (r: u16) {
        RPL_STATSCONN
    }

    fn parameters(&self) -> (r: &ParameterList) {
        proof {
            use_type_invariant(self);
        }
        &self.parameters
    }

    fn is_error(&self) -> (r: bool) {
        false
    }

    fn into_parts(self) -> (r: (u16, ParameterList)) {
        proof {
            use_type_invariant(&self);
        }
        (RPL_STATSCONN, self.parameters)
    }
}

impl Clone for StatsConn {
    fn clone(&self) -> (r: Self)
        ensures
            r@ == self@,
    {
        proof {
            use_type_invariant(self);
        }
        match StatsConn::try_from_params(self.parameters.clone()) {
            Ok(x) => x,
            Err(_) => {
                assert(false);
                unreached()
            },
        }
    }
}

/// The `RPL_CHANNEL_URL` reply (328): a channel's URL
#[derive(Debug, PartialEq, Eq)]
pub struct ChannelUrl {
    parameters: ParameterList,
    client: ReplyTarget,
    channel: Channel,
}

impl View for ChannelUrl {
    type V = ParamsView;

    closed spec fn view(&self) -> ParamsView {
        self.parameters@
    }
}

/// Whether `p` reads as a `RPL_CHANNEL_URL` reply, and if not, the first error
pub open spec fn check_channel_url(p: ParamsView) -> Result<(), ReplyErrorView> {
    if p.all().len() < 3 {
        Err(param_qty(3, p))
    } else {
        first_err(field_reply_target(p, 0), first_err(field_channel(p, 1), Ok(())))
    }
}

impl ChannelUrl {
    #[verifier::type_invariant]
    spec fn inv(self) -> bool {
        &&& check_channel_url(self.parameters@) is Ok
        &&& field_reply_target(self.parameters@, 0) == Ok::<TargetView, ReplyErrorView>(self.client@)
        &&& field_channel(self.parameters@, 1) == Ok::<Seq<char>, ReplyErrorView>(self.channel@)
    }

    /// Reads `parameters` as a `RPL_CHANNEL_URL` reply
    pub fn try_from_params(parameters: ParameterList) -> (r: Result<ChannelUrl, ReplyError>)
        ensures
            match r {
                Ok(x) => check_channel_url(parameters@) is Ok && x@ == parameters@,
                Err(e) => check_channel_url(parameters@) == Err::<(), ReplyErrorView>(e@),
            },
    {
        if parameters.len() < 3 {
            return Err(ReplyError::ParamQty { min_required: 3, received: parameters.len() });
        }
        let client = match reply_target_at(&parameters, 0) {
            Ok(v) => v,
            Err(e) => {
                return Err(e);
            },
        };
        let channel = match channel_at(&parameters, 1) {
            Ok(v) => v,
            Err(e) => {
                return Err(e);
            },
        };
        Ok(ChannelUrl { parameters, client, channel })
    }

    pub fn client(&self) -> (r: &ReplyTarget)
        ensures
            field_reply_target(self@, 0) == Ok::<TargetView, ReplyErrorView>(r@),
    {
        proof {
            use_type_invariant(self);
        }
        &self.client
    }

    pub fn channel(&self) -> (r: &Channel)
        ensures
            field_channel(self@, 1) == Ok::<Seq<char>, ReplyErrorView>(r@),
    {
        proof {
            use_type_invariant(self);
        }
        &self.channel
    }

    /// The URL
    pub fn url(&self) -> (r: &str)
        ensures
            r@ == param_at(self@, 2),
    {
        proof {
            use_type_invariant(self);
        }
        param_str(&self.parameters, 2)
    }
}

impl ReplyParts for ChannelUrl {
    open spec fn reply_code(&self) -> u16 {
        RPL_CHANNEL_URL
    }

    open spec fn reply_params(&self) -> ParamsView {
        self@
    }

    fn code(&self) -> (r: u16) {
        RPL_CHANNEL_URL
    }

    fn parameters(&self) -> (r: &ParameterList) {
        proof {
            use_type_invariant(self);
        }
        &self.parameters
    }

    fn is_error(&self) -> (r: bool) {
        false
    }

    fn into_parts(self) -> (r: (u16, ParameterList)) {
        proof {
            use_type_invariant(&self);
        }
        (RPL_CHANNEL_URL, self.parameters)
    }
}

impl Clone for ChannelUrl {
    fn clone(&self) -> (r: Self)
        ensures
            r@ == self@,
    {
        proof {
            use_type_invariant(self);
        }
        match ChannelUrl::try_from_params(self.parameters.clone()) {
            Ok(x) => x,
            Err(_) => {
                assert(false);
                unreached()
            },
        }
    }
}

/// The `ERR_INVALIDCAPCMD` reply (410): a `CAP` subcommand that the server does not know
#[derive(Debug, PartialEq, Eq)]
pub struct InvalidCapCmd {
    parameters: ParameterList,
    client: ReplyTarget,
}

impl View for InvalidCapCmd {
    type V = ParamsView;

    closed spec fn view(&self) -> ParamsView {
        self.parameters@
    }
}

/// Whether `p` reads as a `ERR_INVALIDCAPCMD` reply, and if not, the first error
pub open spec fn check_invalid_cap_cmd(p: ParamsView) -> Result<(), ReplyErrorView> {
    if p.all().len() < 3 {
        Err(param_qty(3, p))
    } else {
        first_err(field_reply_target(p, 0), Ok(()))
    }
}

impl InvalidCapCmd {
    #[verifier::type_invariant]
    spec fn inv(self) -> bool {
        &&& check_invalid_cap_cmd(self.parameters@) is Ok
        &&& field_reply_target(self.parameters@, 0) == Ok::<TargetView, ReplyErrorView>(self.client@)
    }

    /// Reads `parameters` as a `ERR_INVALIDCAPCMD` reply
    pub fn try_from_params(parameters: ParameterList) -> (r: Result<InvalidCapCmd, ReplyError>)
        ensures
            match r {
                Ok(x) => check_invalid_cap_cmd(parameters@) is Ok && x@ == parameters@,
                Err(e) => check_invalid_cap_cmd(parameters@) == Err::<(), ReplyErrorView>(e@),
            },
    {
        if parameters.len() < 3 {
            return Err(ReplyError::ParamQty { min_required: 3, received: parameters.len() });
        }
        let client = match reply_target_at(&parameters, 0) {
            Ok(v) => v,
            Err(e) => {
                return Err(e);
            },
        };
        Ok(InvalidCapCmd { parameters, client })
    }

    pub fn client(&self) -> (r: &ReplyTarget)
        ensures
            field_reply_target(self@, 0) == Ok::<TargetView, ReplyErrorView>(r@),
    {
        proof {
            use_type_invariant(self);
        }
        &self.client
    }

    /// The unknown subcommand
    pub fn subcommand(&self) -> (r: &str)
        ensures
            r@ == param_at(self@, 1),
    {
        proof {
            use_type_invariant(self);
        }
        param_str(&self.parameters, 1)
    }

    pub fn message(&self) -> (r: &str)
        ensures
            r@ == self@.all().last(),
    {
        proof {
            use_type_invariant(self);
        }
        last_str(&self.parameters)
    }
}

impl ReplyParts for InvalidCapCmd {
    open spec fn reply_code(&self) -> u16 {
        ERR_INVALIDCAPCMD
    }

    open spec fn reply_params(&self) -> ParamsView {
        self@
    }

    fn code(&self) -> (r: u16) {
        ERR_INVALIDCAPCMD
    }

    fn parameters(&self) -> (r: &ParameterList) {
        proof {
            use_type_invariant(self);
        }
        &self.parameters
    }

    fn is_error(&self) -> (r: bool) {
        true
    }

    fn into_parts(self) -> (r: (u16, ParameterList)) {
        proof {
            use_type_invariant(&self);
        }
        (ERR_INVALIDCAPCMD, self.parameters)
    }
}

impl Clone for InvalidCapCmd {
    fn clone(&self) -> (r: Self)
        ensures
            r@ == self@,
    {
        proof {
            use_type_invariant(self);
        }
        match InvalidCapCmd::try_from_params(self.parameters.clone()) {
            Ok(x) => x,
            Err(_) => {
                assert(false);
                unreached()
            },
        }
    }
}

/// A reply whose code names no reply kind known here, kept with its code and
/// parameters as they are
#[derive(Debug, PartialEq, Eq)]
pub struct UnknownReply {
    code: u16,
    parameters: ParameterList,
}

impl View for UnknownReply {
    type V = (u16, ParamsView);

    closed spec fn view(&self) -> (u16, ParamsView) {
        (self.code, self.parameters@)
    }
}

impl UnknownReply {
    #[verifier::type_invariant]
    spec fn inv(self) -> bool {
        !is_known_code(self.code)
    }

    /// The reply of an unknown code with its parameters
    pub(crate) fn new(code: u16, parameters: ParameterList) -> (r: UnknownReply)
        requires
            !is_known_code(code),
        ensures
            r@ == (code, parameters@),
    {
        UnknownReply { code, parameters }
    }
}

impl ReplyParts for UnknownReply {
    open spec fn reply_code(&self) -> u16 {
        self@.0
    }

    open spec fn reply_params(&self) -> ParamsView {
        self@.1
    }

    fn code(&self) -> (r: u16)
        ensures
            !is_known_code(r),
    {
        proof {
            use_type_invariant(self);
        }
        self.code
    }

    fn parameters(&self) -> (r: &ParameterList) {
        proof {
            use_type_invariant(self);
        }
        &self.parameters
    }

    fn is_error(&self) -> (r: bool) {
        proof {
            use_type_invariant(self);
        }
        false
    }

    fn into_parts(self) -> (r: (u16, ParameterList)) {
        proof {
            use_type_invariant(&self);
        }
        (self.code, self.parameters)
    }
}

impl Clone for UnknownReply {
    fn clone(&self) -> (r: Self)
        ensures
            r@ == self@,
    {
        proof {
            use_type_invariant(self);
        }
        UnknownReply { code: self.code, parameters: self.parameters.clone() }
    }
}

} // verus!
