//! Replies sent on registration and for server statistics (codes below 300).
use super::codes::{
    RPL_WELCOME, RPL_YOURHOST, RPL_CREATED, RPL_MYINFO, RPL_BOUNCE, RPL_STATSCOMMANDS, RPL_ENDOFSTATS, RPL_UMODEIS, RPL_STATSUPTIME, RPL_LUSERCLIENT, RPL_LUSEROP, RPL_LUSERUNKNOWN, RPL_LUSERCHANNELS, RPL_LUSERME, RPL_ADMINME, RPL_ADMINLOC1, RPL_ADMINLOC2, RPL_ADMINEMAIL, RPL_TRYAGAIN, RPL_LOCALUSERS, RPL_GLOBALUSERS, RPL_WHOISCERTFP,
};
use super::fields::{
    field_nickname, field_opt_u64, field_reply_target, field_u16, field_u64, field_u64_if_more, first_err, last_str, nickname_at, opt_param_str, opt_u64_at, param_at, param_qty, param_str, reply_target_at, u16_at, u64_at, u64_if_more_at, verb_at,
};
use super::{check_reply, is_error_code, ReplyError, ReplyErrorView, ReplyParts};
use crate::names::{Channel, Modestring, Nickname, Username, Verb};
use crate::paramlist::{ParameterList, ParamsView};
use crate::source::{ClientSource, ClientSourceView};
use crate::targets::{ModeTarget, ReplyTarget, Target, TargetView};
use crate::text::split_word;
use crate::types::{ChannelStatus, WhoFlags, WhoFlagsView};
use vstd::prelude::*;

verus! {

/// The `RPL_WELCOME` reply (001)
#[derive(Debug, PartialEq, Eq)]
pub struct Welcome {
    parameters: ParameterList,
    client: ReplyTarget,
}

impl View for Welcome {
    type V = ParamsView;

    closed spec fn view(&self) -> ParamsView {
        self.parameters@
    }
}

/// Whether `p` reads as a `RPL_WELCOME` reply, and if not, the first error
pub open spec fn check_welcome(p: ParamsView) -> Result<(), ReplyErrorView> {
    if p.all().len() < 2 {
        Err(param_qty(2, p))
    } else {
        first_err(field_reply_target(p, 0), Ok(()))
    }
}

impl Welcome {
    #[verifier::type_invariant]
    spec fn inv(self) -> bool {
        &&& check_welcome(self.parameters@) is Ok
        &&& field_reply_target(self.parameters@, 0) == Ok::<TargetView, ReplyErrorView>(self.client@)
    }

    /// Reads `parameters` as a `RPL_WELCOME` reply
    pub fn try_from_params(parameters: ParameterList) -> (r: Result<Welcome, ReplyError>)
        ensures
            match r {
                Ok(x) => check_welcome(parameters@) is Ok && x@ == parameters@,
                Err(e) => check_welcome(parameters@) == Err::<(), ReplyErrorView>(e@),
            },
    {
        if parameters.len() < 2 {
            return Err(ReplyError::ParamQty { min_required: 2, received: parameters.len() });
        }
        let client = match reply_target_at(&parameters, 0) {
            Ok(v) => v,
            Err(e) => {
                return Err(e);
            },
        };
        Ok(Welcome { parameters, client })
    }

    pub fn client(&self) -> (r: &ReplyTarget)
        ensures
            field_reply_target(self@, 0) == Ok::<TargetView, ReplyErrorView>(r@),
    {
        proof {
            use_type_invariant(self);
        }
        &self.client
    }

    pub fn message(&self) -> (r: &str)
        ensures
            r@ == self@.all().last(),
    {
        proof {
            use_type_invariant(self);
        }
        last_str(&self.parameters)
    }

}

impl ReplyParts for Welcome {
    open spec fn reply_code(&self) -> u16 {
        RPL_WELCOME
    }

    open spec fn reply_params(&self) -> ParamsView {
        self@
    }

    fn code(&self) -> (r: u16) {
        RPL_WELCOME
    }

    fn parameters(&self) -> (r: &ParameterList) {
        proof {
            use_type_invariant(self);
        }
        &self.parameters
    }

    fn is_error(&self) -> (r: bool) {
        false
    }

    fn into_parts(self) -> (r: (u16, ParameterList)) {
        proof {
            use_type_invariant(&self);
        }
        (RPL_WELCOME, self.parameters)
    }
}

impl Clone for Welcome {
    fn clone(&self) -> (r: Self)
        ensures
            r@ == self@,
    {
        proof {
            use_type_invariant(self);
        }
        match Welcome::try_from_params(self.parameters.clone()) {
            Ok(x) => x,
            Err(_) => {
                assert(false);
                unreached()
            },
        }
    }
}

/// The `RPL_YOURHOST` reply (002)
#[derive(Debug, PartialEq, Eq)]
pub struct YourHost {
    parameters: ParameterList,
    client: ReplyTarget,
}

impl View for YourHost {
    type V = ParamsView;

    closed spec fn view(&self) -> ParamsView {
        self.parameters@
    }
}

/// Whether `p` reads as a `RPL_YOURHOST` reply, and if not, the first error
pub open spec fn check_your_host(p: ParamsView) -> Result<(), ReplyErrorView> {
    if p.all().len() < 2 {
        Err(param_qty(2, p))
    } else {
        first_err(field_reply_target(p, 0), Ok(()))
    }
}

impl YourHost {
    #[verifier::type_invariant]
    spec fn inv(self) -> bool {
        &&& check_your_host(self.parameters@) is Ok
        &&& field_reply_target(self.parameters@, 0) == Ok::<TargetView, ReplyErrorView>(self.client@)
    }

    /// Reads `parameters` as a `RPL_YOURHOST` reply
    pub fn try_from_params(parameters: ParameterList) -> (r: Result<YourHost, ReplyError>)
        ensures
            match r {
                Ok(x) => check_your_host(parameters@) is Ok && x@ == parameters@,
                Err(e) => check_your_host(parameters@) == Err::<(), ReplyErrorView>(e@),
            },
    {
        if parameters.len() < 2 {
            return Err(ReplyError::ParamQty { min_required: 2, received: parameters.len() });
        }
        let client = match reply_target_at(&parameters, 0) {
            Ok(v) => v,
            Err(e) => {
                return Err(e);
            },
        };
        Ok(YourHost { parameters, client })
    }

    pub fn client(&self) -> (r: &ReplyTarget)
        ensures
            field_reply_target(self@, 0) == Ok::<TargetView, ReplyErrorView>(r@),
    {
        proof {
            use_type_invariant(self);
        }
        &self.client
    }

    pub fn message(&self) -> (r: &str)
        ensures
            r@ == self@.all().last(),
    {
        proof {
            use_type_invariant(self);
        }
        last_str(&self.parameters)
    }

}

impl ReplyParts for YourHost {
    open spec fn reply_code(&self) -> u16 {
        RPL_YOURHOST
    }

    open spec fn reply_params(&self) -> ParamsView {
        self@
    }

    fn code(&self) -> (r: u16) {
        RPL_YOURHOST
    }

    fn parameters(&self) -> (r: &ParameterList) {
        proof {
            use_type_invariant(self);
        }
        &self.parameters
    }

    fn is_error(&self) -> (r: bool) {
        false
    }

    fn into_parts(self) -> (r: (u16, ParameterList)) {
        proof {
            use_type_invariant(&self);
        }
        (RPL_YOURHOST, self.parameters)
    }
}

impl Clone for YourHost {
    fn clone(&self) -> (r: Self)
        ensures
            r@ == self@,
    {
        proof {
            use_type_invariant(self);
        }
        match YourHost::try_from_params(self.parameters.clone()) {
            Ok(x) => x,
            Err(_) => {
                assert(false);
                unreached()
            },
        }
    }
}

/// The `RPL_CREATED` reply (003)
#[derive(Debug, PartialEq, Eq)]
pub struct Created {
    parameters: ParameterList,
    client: ReplyTarget,
}

impl View for Created {
    type V = ParamsView;

    closed spec fn view(&self) -> ParamsView {
        self.parameters@
    }
}

/// Whether `p` reads as a `RPL_CREATED` reply, and if not, the first error
pub open spec fn check_created(p: ParamsView) -> Result<(), ReplyErrorView> {
    if p.all().len() < 2 {
        Err(param_qty(2, p))
    } else {
        first_err(field_reply_target(p, 0), Ok(()))
    }
}

impl Created {
    #[verifier::type_invariant]
    spec fn inv(self) -> bool {
        &&& check_created(self.parameters@) is Ok
        &&& field_reply_target(self.parameters@, 0) == Ok::<TargetView, ReplyErrorView>(self.client@)
    }

    /// Reads `parameters` as a `RPL_CREATED` reply
    pub fn try_from_params(parameters: ParameterList) -> (r: Result<Created, ReplyError>)
        ensures
            match r {
                Ok(x) => check_created(parameters@) is Ok && x@ == parameters@,
                Err(e) => check_created(parameters@) == Err::<(), ReplyErrorView>(e@),
            },
    {
        if parameters.len() < 2 {
            return Err(ReplyError::ParamQty { min_required: 2, received: parameters.len() });
        }
        let client = match reply_target_at(&parameters, 0) {
            Ok(v) => v,
            Err(e) => {
                return Err(e);
            },
        };
        Ok(Created { parameters, client })
    }

    pub fn client(&self) -> (r: &ReplyTarget)
        ensures
            field_reply_target(self@, 0) == Ok::<TargetView, ReplyErrorView>(r@),
    {
        proof {
            use_type_invariant(self);
        }
        &self.client
    }

    pub fn message(&self) -> (r: &str)
        ensures
            r@ == self@.all().last(),
    {
        proof {
            use_type_invariant(self);
        }
        last_str(&self.parameters)
    }

}

impl ReplyParts for Created {
    open spec fn reply_code(&self) -> u16 {
        RPL_CREATED
    }

    open spec fn reply_params(&self) -> ParamsView {
        self@
    }

    fn code(&self) -> (r: u16) {
        RPL_CREATED
    }

    fn parameters(&self) -> (r: &ParameterList) {
        proof {
            use_type_invariant(self);
        }
        &self.parameters
    }

    fn is_error(&self) -> (r: bool) {
        false
    }

    fn into_parts(self) -> (r: (u16, ParameterList)) {
        proof {
            use_type_invariant(&self);
        }
        (RPL_CREATED, self.parameters)
    }
}

impl Clone for Created {
    fn clone(&self) -> (r: Self)
        ensures
            r@ == self@,
    {
        proof {
            use_type_invariant(self);
        }
        match Created::try_from_params(self.parameters.clone()) {
            Ok(x) => x,
            Err(_) => {
                assert(false);
                unreached()
            },
        }
    }
}

/// The `RPL_MYINFO` reply (004)
#[derive(Debug, PartialEq, Eq)]
pub struct MyInfo {
    parameters: ParameterList,
    client: ReplyTarget,
}

impl View for MyInfo {
    type V = ParamsView;

    closed spec fn view(&self) -> ParamsView {
        self.parameters@
    }
}

/// Whether `p` reads as a `RPL_MYINFO` reply, and if not, the first error
pub open spec fn check_my_info(p: ParamsView) -> Result<(), ReplyErrorView> {
    if p.all().len() < 5 {
        Err(param_qty(5, p))
    } else {
        first_err(field_reply_target(p, 0), Ok(()))
    }
}

impl MyInfo {
    #[verifier::type_invariant]
    spec fn inv(self) -> bool {
        &&& check_my_info(self.parameters@) is Ok
        &&& field_reply_target(self.parameters@, 0) == Ok::<TargetView, ReplyErrorView>(self.client@)
    }

    /// Reads `parameters` as a `RPL_MYINFO` reply
    pub fn try_from_params(parameters: ParameterList) -> (r: Result<MyInfo, ReplyError>)
        ensures
            match r {
                Ok(x) => check_my_info(parameters@) is Ok && x@ == parameters@,
                Err(e) => check_my_info(parameters@) == Err::<(), ReplyErrorView>(e@),
            },
    {
        if parameters.len() < 5 {
            return Err(ReplyError::ParamQty { min_required: 5, received: parameters.len() });
        }
        let client = match reply_target_at(&parameters, 0) {
            Ok(v) => v,
            Err(e) => {
                return Err(e);
            },
        };
        Ok(MyInfo { parameters, client })
    }

    pub fn client(&self) -> (r: &ReplyTarget)
        ensures
            field_reply_target(self@, 0) == Ok::<TargetView, ReplyErrorView>(r@),
    {
        proof {
            use_type_invariant(self);
        }
        &self.client
    }

    pub fn servername(&self) -> (r: &str)
        ensures
            r@ == param_at(self@, 1),
    {
        proof {
            use_type_invariant(self);
        }
        param_str(&self.parameters, 1)
    }

    pub fn version(&self) -> (r: &str)
        ensures
            r@ == param_at(self@, 2),
    {
        proof {
            use_type_invariant(self);
        }
        param_str(&self.parameters, 2)
    }

    pub fn available_user_modes(&self) -> (r: &str)
        ensures
            r@ == param_at(self@, 3),
    {
        proof {
            use_type_invariant(self);
        }
        param_str(&self.parameters, 3)
    }

    pub fn available_channel_modes(&self) -> (r: &str)
        ensures
            r@ == param_at(self@, 4),
    {
        proof {
            use_type_invariant(self);
        }
        param_str(&self.parameters, 4)
    }

    pub fn channel_modes_with_param(&self) -> (r: Option<&str>)
        ensures
            r is Some <==> 5 < self@.all().len(),
            r matches Some(s) ==> s@ == param_at(self@, 5),
    {
        proof {
            use_type_invariant(self);
        }
        opt_param_str(&self.parameters, 5)
    }

}

impl ReplyParts for MyInfo {
    open spec fn reply_code(&self) -> u16 {
        RPL_MYINFO
    }

    open spec fn reply_params(&self) -> ParamsView {
        self@
    }

    fn code(&self) -> (r: u16) {
        RPL_MYINFO
    }

    fn parameters(&self) -> (r: &ParameterList) {
        proof {
            use_type_invariant(self);
        }
        &self.parameters
    }

    fn is_error(&self) -> (r: bool) {
        false
    }

    fn into_parts(self) -> (r: (u16, ParameterList)) {
        proof {
            use_type_invariant(&self);
        }
        (RPL_MYINFO, self.parameters)
    }
}

impl Clone for MyInfo {
    fn clone(&self) -> (r: Self)
        ensures
            r@ == self@,
    {
        proof {
            use_type_invariant(self);
        }
        match MyInfo::try_from_params(self.parameters.clone()) {
            Ok(x) => x,
            Err(_) => {
                assert(false);
                unreached()
            },
        }
    }
}

/// The `RPL_BOUNCE` reply (010)
#[derive(Debug, PartialEq, Eq)]
pub struct Bounce {
    parameters: ParameterList,
    client: ReplyTarget,
    port: u16,
}

impl View for Bounce {
    type V = ParamsView;

    closed spec fn view(&self) -> ParamsView {
        self.parameters@
    }
}

/// Whether `p` reads as a `RPL_BOUNCE` reply, and if not, the first error
pub open spec fn check_bounce(p: ParamsView) -> Result<(), ReplyErrorView> {
    if p.all().len() < 4 {
        Err(param_qty(4, p))
    } else {
        first_err(field_reply_target(p, 0), first_err(field_u16(p, 2), Ok(())))
    }
}

impl Bounce {
    #[verifier::type_invariant]
    spec fn inv(self) -> bool {
        &&& check_bounce(self.parameters@) is Ok
        &&& field_reply_target(self.parameters@, 0) == Ok::<TargetView, ReplyErrorView>(self.client@)
        &&& field_u16(self.parameters@, 2) == Ok::<u16, ReplyErrorView>(self.port)
    }

    /// Reads `parameters` as a `RPL_BOUNCE` reply
    pub fn try_from_params(parameters: ParameterList) -> (r: Result<Bounce, ReplyError>)
        ensures
            match r {
                Ok(x) => check_bounce(parameters@) is Ok && x@ == parameters@,
                Err(e) => check_bounce(parameters@) == Err::<(), ReplyErrorView>(e@),
            },
    {
        if parameters.len() < 4 {
            return Err(ReplyError::ParamQty { min_required: 4, received: parameters.len() });
        }
        let client = match reply_target_at(&parameters, 0) {
            Ok(v) => v,
            Err(e) => {
                return Err(e);
            },
        };
        let port = match u16_at(&parameters, 2) {
            Ok(v) => v,
            Err(e) => {
                return Err(e);
            },
        };
        Ok(Bounce { parameters, client, port })
    }

    pub fn client(&self) -> (r: &ReplyTarget)
        ensures
            field_reply_target(self@, 0) == Ok::<TargetView, ReplyErrorView>(r@),
    {
        proof {
            use_type_invariant(self);
        }
        &self.client
    }

    pub fn hostname(&self) -> (r: &str)
        ensures
            r@ == param_at(self@, 1),
    {
        proof {
            use_type_invariant(self);
        }
        param_str(&self.parameters, 1)
    }

    pub fn port(&self) -> (r: u16)
        ensures
            field_u16(self@, 2) == Ok::<u16, ReplyErrorView>(r),
    {
        proof {
            use_type_invariant(self);
        }
        self.port
    }

    pub fn message(&self) -> (r: &str)
        ensures
            r@ == self@.all().last(),
    {
        proof {
            use_type_invariant(self);
        }
        last_str(&self.parameters)
    }

}

impl ReplyParts for Bounce {
    open spec fn reply_code(&self) -> u16 {
        RPL_BOUNCE
    }

    open spec fn reply_params(&self) -> ParamsView {
        self@
    }

    fn code(&self) -> (r: u16) {
        RPL_BOUNCE
    }

    fn parameters(&self) -> (r: &ParameterList) {
        proof {
            use_type_invariant(self);
        }
        &self.parameters
    }

    fn is_error(&self) -> (r: bool) {
        false
    }

    fn into_parts(self) -> (r: (u16, ParameterList)) {
        proof {
            use_type_invariant(&self);
        }
        (RPL_BOUNCE, self.parameters)
    }
}

impl Clone for Bounce {
    fn clone(&self) -> (r: Self)
        ensures
            r@ == self@,
    {
        proof {
            use_type_invariant(self);
        }
        match Bounce::try_from_params(self.parameters.clone()) {
            Ok(x) => x,
            Err(_) => {
                assert(false);
                unreached()
            },
        }
    }
}

/// The `RPL_STATSCOMMANDS` reply (212)
#[derive(Debug, PartialEq, Eq)]
pub struct StatsCommands {
    parameters: ParameterList,
    client: ReplyTarget,
    count: u64,
    byte_count: Option<u64>,
    remote_count: Option<u64>,
}

impl View for StatsCommands {
    type V = ParamsView;

    closed spec fn view(&self) -> ParamsView {
        self.parameters@
    }
}

/// Whether `p` reads as a `RPL_STATSCOMMANDS` reply, and if not, the first error
pub open spec fn check_stats_commands(p: ParamsView) -> Result<(), ReplyErrorView> {
    if p.all().len() < 3 {
        Err(param_qty(3, p))
    } else {
        first_err(field_reply_target(p, 0), first_err(field_u64(p, 2), first_err(field_opt_u64(p, 3), first_err(field_opt_u64(p, 4), Ok(())))))
    }
}

impl StatsCommands {
    #[verifier::type_invariant]
    spec fn inv(self) -> bool {
        &&& check_stats_commands(self.parameters@) is Ok
        &&& field_reply_target(self.parameters@, 0) == Ok::<TargetView, ReplyErrorView>(self.client@)
        &&& field_u64(self.parameters@, 2) == Ok::<u64, ReplyErrorView>(self.count)
        &&& field_opt_u64(self.parameters@, 3) == Ok::<Option<u64>, ReplyErrorView>(self.byte_count)
        &&& field_opt_u64(self.parameters@, 4) == Ok::<Option<u64>, ReplyErrorView>(self.remote_count)
    }

    /// Reads `parameters` as a `RPL_STATSCOMMANDS` reply
    pub fn try_from_params(parameters: ParameterList) -> (r: Result<StatsCommands, ReplyError>)
        ensures
            match r {
                Ok(x) => check_stats_commands(parameters@) is Ok && x@ == parameters@,
                Err(e) => check_stats_commands(parameters@) == Err::<(), ReplyErrorView>(e@),
            },
    {
        if parameters.len() < 3 {
            return Err(ReplyError::ParamQty { min_required: 3, received: parameters.len() });
        }
        let client = match reply_target_at(&parameters, 0) {
            Ok(v) => v,
            Err(e) => {
                return Err(e);
            },
        };
        let count = match u64_at(&parameters, 2) {
            Ok(v) => v,
            Err(e) => {
                return Err(e);
            },
        };
        let byte_count = match opt_u64_at(&parameters, 3) {
            Ok(v) => v,
            Err(e) => {
                return Err(e);
            },
        };
        let remote_count = match opt_u64_at(&parameters, 4) {
            Ok(v) => v,
            Err(e) => {
                return Err(e);
            },
        };
        Ok(StatsCommands { parameters, client, count, byte_count, remote_count })
    }

    pub fn client(&self) -> (r: &ReplyTarget)
        ensures
            field_reply_target(self@, 0) == Ok::<TargetView, ReplyErrorView>(r@),
    {
        proof {
            use_type_invariant(self);
        }
        &self.client
    }

    pub fn command(&self) -> (r: &str)
        ensures
            r@ == param_at(self@, 1),
    {
        proof {
            use_type_invariant(self);
        }
        param_str(&self.parameters, 1)
    }

    pub fn count(&self) -> (r: u64)
        ensures
            field_u64(self@, 2) == Ok::<u64, ReplyErrorView>(r),
    {
        proof {
            use_type_invariant(self);
        }
        self.count
    }

    pub fn byte_count(&self) -> (r: Option<u64>)
        ensures
            field_opt_u64(self@, 3) == Ok::<Option<u64>, ReplyErrorView>(r),
    {
        proof {
            use_type_invariant(self);
        }
        self.byte_count
    }

    pub fn remote_count(&self) -> (r: Option<u64>)
        ensures
            field_opt_u64(self@, 4) == Ok::<Option<u64>, ReplyErrorView>(r),
    {
        proof {
            use_type_invariant(self);
        }
        self.remote_count
    }

}

impl ReplyParts for StatsCommands {
    open spec fn reply_code(&self) -> u16 {
        RPL_STATSCOMMANDS
    }

    open spec fn reply_params(&self) -> ParamsView {
        self@
    }

    fn code(&self) -> (r: u16) {
        RPL_STATSCOMMANDS
    }

    fn parameters(&self) -> (r: &ParameterList) {
        proof {
            use_type_invariant(self);
        }
        &self.parameters
    }

    fn is_error(&self) -> (r: bool) {
        false
    }

    fn into_parts(self) -> (r: (u16, ParameterList)) {
        proof {
            use_type_invariant(&self);
        }
        (RPL_STATSCOMMANDS, self.parameters)
    }
}

impl Clone for StatsCommands {
    fn clone(&self) -> (r: Self)
        ensures
            r@ == self@,
    {
        proof {
            use_type_invariant(self);
        }
        match StatsCommands::try_from_params(self.parameters.clone()) {
            Ok(x) => x,
            Err(_) => {
                assert(false);
                unreached()
            },
        }
    }
}

/// The `RPL_ENDOFSTATS` reply (219)
#[derive(Debug, PartialEq, Eq)]
pub struct EndOfStats {
    parameters: ParameterList,
    client: ReplyTarget,
}

impl View for EndOfStats {
    type V = ParamsView;

    closed spec fn view(&self) -> ParamsView {
        self.parameters@
    }
}

/// Whether `p` reads as a `RPL_ENDOFSTATS` reply, and if not, the first error
pub open spec fn check_end_of_stats(p: ParamsView) -> Result<(), ReplyErrorView> {
    if p.all().len() < 3 {
        Err(param_qty(3, p))
    } else {
        first_err(field_reply_target(p, 0), Ok(()))
    }
}

impl EndOfStats {
    #[verifier::type_invariant]
    spec fn inv(self) -> bool {
        &&& check_end_of_stats(self.parameters@) is Ok
        &&& field_reply_target(self.parameters@, 0) == Ok::<TargetView, ReplyErrorView>(self.client@)
    }

    /// Reads `parameters` as a `RPL_ENDOFSTATS` reply
    pub fn try_from_params(parameters: ParameterList) -> (r: Result<EndOfStats, ReplyError>)
        ensures
            match r {
                Ok(x) => check_end_of_stats(parameters@) is Ok && x@ == parameters@,
                Err(e) => check_end_of_stats(parameters@) == Err::<(), ReplyErrorView>(e@),
            },
    {
        if parameters.len() < 3 {
            return Err(ReplyError::ParamQty { min_required: 3, received: parameters.len() });
        }
        let client = match reply_target_at(&parameters, 0) {
            Ok(v) => v,
            Err(e) => {
                return Err(e);
            },
        };
        Ok(EndOfStats { parameters, client })
    }

    pub fn client(&self) -> (r: &ReplyTarget)
        ensures
            field_reply_target(self@, 0) == Ok::<TargetView, ReplyErrorView>(r@),
    {
        proof {
            use_type_invariant(self);
        }
        &self.client
    }

    pub fn stats_letter(&self) -> (r: &str)
        ensures
            r@ == param_at(self@, 1),
    {
        proof {
            use_type_invariant(self);
        }
        param_str(&self.parameters, 1)
    }

    pub fn message(&self) -> (r: &str)
        ensures
            r@ == self@.all().last(),
    {
        proof {
            use_type_invariant(self);
        }
        last_str(&self.parameters)
    }

}

impl ReplyParts for EndOfStats {
    open spec fn reply_code(&self) -> u16 {
        RPL_ENDOFSTATS
    }

    open spec fn reply_params(&self) -> ParamsView {
        self@
    }

    fn code(&self) -> (r: u16) {
        RPL_ENDOFSTATS
    }

    fn parameters(&self) -> (r: &ParameterList) {
        proof {
            use_type_invariant(self);
        }
        &self.parameters
    }

    fn is_error(&self) -> (r: bool) {
        false
    }

    fn into_parts(self) -> (r: (u16, ParameterList)) {
        proof {
            use_type_invariant(&self);
        }
        (RPL_ENDOFSTATS, self.parameters)
    }
}

impl Clone for EndOfStats {
    fn clone(&self) -> (r: Self)
        ensures
            r@ == self@,
    {
        proof {
            use_type_invariant(self);
        }
        match EndOfStats::try_from_params(self.parameters.clone()) {
            Ok(x) => x,
            Err(_) => {
                assert(false);
                unreached()
            },
        }
    }
}

/// The `RPL_UMODEIS` reply (221)
#[derive(Debug, PartialEq, Eq)]
pub struct UModeIs {
    parameters: ParameterList,
    client: ReplyTarget,
}

impl View for UModeIs {
    type V = ParamsView;

    closed spec fn view(&self) -> ParamsView {
        self.parameters@
    }
}

/// Whether `p` reads as a `RPL_UMODEIS` reply, and if not, the first error
pub open spec fn check_u_mode_is(p: ParamsView) -> Result<(), ReplyErrorView> {
    if p.all().len() < 2 {
        Err(param_qty(2, p))
    } else {
        first_err(field_reply_target(p, 0), Ok(()))
    }
}

impl UModeIs {
    #[verifier::type_invariant]
    spec fn inv(self) -> bool {
        &&& check_u_mode_is(self.parameters@) is Ok
        &&& field_reply_target(self.parameters@, 0) == Ok::<TargetView, ReplyErrorView>(self.client@)
    }

    /// Reads `parameters` as a `RPL_UMODEIS` reply
    pub fn try_from_params(parameters: ParameterList) -> (r: Result<UModeIs, ReplyError>)
        ensures
            match r {
                Ok(x) => check_u_mode_is(parameters@) is Ok && x@ == parameters@,
                Err(e) => check_u_mode_is(parameters@) == Err::<(), ReplyErrorView>(e@),
            },
    {
        if parameters.len() < 2 {
            return Err(ReplyError::ParamQty { min_required: 2, received: parameters.len() });
        }
        let client = match reply_target_at(&parameters, 0) {
            Ok(v) => v,
            Err(e) => {
                return Err(e);
            },
        };
        Ok(UModeIs { parameters, client })
    }

    pub fn client(&self) -> (r: &ReplyTarget)
        ensures
            field_reply_target(self@, 0) == Ok::<TargetView, ReplyErrorView>(r@),
    {
        proof {
            use_type_invariant(self);
        }
        &self.client
    }

    pub fn user_modes(&self) -> (r: &str)
        ensures
            r@ == param_at(self@, 1),
    {
        proof {
            use_type_invariant(self);
        }
        param_str(&self.parameters, 1)
    }

}

impl ReplyParts for UModeIs {
    open spec fn reply_code(&self) -> u16 {
        RPL_UMODEIS
    }

    open spec fn reply_params(&self) -> ParamsView {
        self@
    }

    fn code(&self) -> (r: u16) {
        RPL_UMODEIS
    }

    fn parameters(&self) -> (r: &ParameterList) {
        proof {
            use_type_invariant(self);
        }
        &self.parameters
    }

    fn is_error(&self) -> (r: bool) {
        false
    }

    fn into_parts(self) -> (r: (u16, ParameterList)) {
        proof {
            use_type_invariant(&self);
        }
        (RPL_UMODEIS, self.parameters)
    }
}

impl Clone for UModeIs {
    fn clone(&self) -> (r: Self)
        ensures
            r@ == self@,
    {
        proof {
            use_type_invariant(self);
        }
        match UModeIs::try_from_params(self.parameters.clone()) {
            Ok(x) => x,
            Err(_) => {
                assert(false);
                unreached()
            },
        }
    }
}

/// The `RPL_STATSUPTIME` reply (242)
#[derive(Debug, PartialEq, Eq)]
pub struct StatsUptime {
    parameters: ParameterList,
    client: ReplyTarget,
}

impl View for StatsUptime {
    type V = ParamsView;

    closed spec fn view(&self) -> ParamsView {
        self.parameters@
    }
}

/// Whether `p` reads as a `RPL_STATSUPTIME` reply, and if not, the first error
pub open spec fn check_stats_uptime(p: ParamsView) -> Result<(), ReplyErrorView> {
    if p.all().len() < 2 {
        Err(param_qty(2, p))
    } else {
        first_err(field_reply_target(p, 0), Ok(()))
    }
}

impl StatsUptime {
    #[verifier::type_invariant]
    spec fn inv(self) -> bool {
        &&& check_stats_uptime(self.parameters@) is Ok
        &&& field_reply_target(self.parameters@, 0) == Ok::<TargetView, ReplyErrorView>(self.client@)
    }

    /// Reads `parameters` as a `RPL_STATSUPTIME` reply
    pub fn try_from_params(parameters: ParameterList) -> (r: Result<StatsUptime, ReplyError>)
        ensures
            match r {
                Ok(x) => check_stats_uptime(parameters@) is Ok && x@ == parameters@,
                Err(e) => check_stats_uptime(parameters@) == Err::<(), ReplyErrorView>(e@),
            },
    {
        if parameters.len() < 2 {
            return Err(ReplyError::ParamQty { min_required: 2, received: parameters.len() });
        }
        let client = match reply_target_at(&parameters, 0) {
            Ok(v) => v,
            Err(e) => {
                return Err(e);
            },
        };
        Ok(StatsUptime { parameters, client })
    }

    pub fn client(&self) -> (r: &ReplyTarget)
        ensures
            field_reply_target(self@, 0) == Ok::<TargetView, ReplyErrorView>(r@),
    {
        proof {
            use_type_invariant(self);
        }
        &self.client
    }

    pub fn message(&self) -> (r: &str)
        ensures
            r@ == self@.all().last(),
    {
        proof {
            use_type_invariant(self);
        }
        last_str(&self.parameters)
    }

}

impl ReplyParts for StatsUptime {
    open spec fn reply_code(&self) -> u16 {
        RPL_STATSUPTIME
    }

    open spec fn reply_params(&self) -> ParamsView {
        self@
    }

    fn code(&self) -> (r: u16) {
        RPL_STATSUPTIME
    }

    fn parameters(&self) -> (r: &ParameterList) {
        proof {
            use_type_invariant(self);
        }
        &self.parameters
    }

    fn is_error(&self) -> (r: bool) {
        false
    }

    fn into_parts(self) -> (r: (u16, ParameterList)) {
        proof {
            use_type_invariant(&self);
        }
        (RPL_STATSUPTIME, self.parameters)
    }
}

impl Clone for StatsUptime {
    fn clone(&self) -> (r: Self)
        ensures
            r@ == self@,
    {
        proof {
            use_type_invariant(self);
        }
        match StatsUptime::try_from_params(self.parameters.clone()) {
            Ok(x) => x,
            Err(_) => {
                assert(false);
                unreached()
            },
        }
    }
}

/// The `RPL_LUSERCLIENT` reply (251)
#[derive(Debug, PartialEq, Eq)]
pub struct LuserClient {
    parameters: ParameterList,
    client: ReplyTarget,
}

impl View for LuserClient {
    type V = ParamsView;

    closed spec fn view(&self) -> ParamsView {
        self.parameters@
    }
}

/// Whether `p` reads as a `RPL_LUSERCLIENT` reply, and if not, the first error
pub open spec fn check_luser_client(p: ParamsView) -> Result<(), ReplyErrorView> {
    if p.all().len() < 2 {
        Err(param_qty(2, p))
    } else {
        first_err(field_reply_target(p, 0), Ok(()))
    }
}

impl LuserClient {
    #[verifier::type_invariant]
    spec fn inv(self) -> bool {
        &&& check_luser_client(self.parameters@) is Ok
        &&& field_reply_target(self.parameters@, 0) == Ok::<TargetView, ReplyErrorView>(self.client@)
    }

    /// Reads `parameters` as a `RPL_LUSERCLIENT` reply
    pub fn try_from_params(parameters: ParameterList) -> (r: Result<LuserClient, ReplyError>)
        ensures
            match r {
                Ok(x) => check_luser_client(parameters@) is Ok && x@ == parameters@,
                Err(e) => check_luser_client(parameters@) == Err::<(), ReplyErrorView>(e@),
            },
    {
        if parameters.len() < 2 {
            return Err(ReplyError::ParamQty { min_required: 2, received: parameters.len() });
        }
        let client = match reply_target_at(&parameters, 0) {
            Ok(v) => v,
            Err(e) => {
                return Err(e);
            },
        };
        Ok(LuserClient { parameters, client })
    }

    pub fn client(&self) -> (r: &ReplyTarget)
        ensures
            field_reply_target(self@, 0) == Ok::<TargetView, ReplyErrorView>(r@),
    {
        proof {
            use_type_invariant(self);
        }
        &self.client
    }

    pub fn message(&self) -> (r: &str)
        ensures
            r@ == self@.all().last(),
    {
        proof {
            use_type_invariant(self);
        }
        last_str(&self.parameters)
    }

}

impl ReplyParts for LuserClient {
    open spec fn reply_code(&self) -> u16 {
        RPL_LUSERCLIENT
    }

    open spec fn reply_params(&self) -> ParamsView {
        self@
    }

    fn code(&self) -> (r: u16) {
        RPL_LUSERCLIENT
    }

    fn parameters(&self) -> (r: &ParameterList) {
        proof {
            use_type_invariant(self);
        }
        &self.parameters
    }

    fn is_error(&self) -> (r: bool) {
        false
    }

    fn into_parts(self) -> (r: (u16, ParameterList)) {
        proof {
            use_type_invariant(&self);
        }
        (RPL_LUSERCLIENT, self.parameters)
    }
}

impl Clone for LuserClient {
    fn clone(&self) -> (r: Self)
        ensures
            r@ == self@,
    {
        proof {
            use_type_invariant(self);
        }
        match LuserClient::try_from_params(self.parameters.clone()) {
            Ok(x) => x,
            Err(_) => {
                assert(false);
                unreached()
            },
        }
    }
}

/// The `RPL_LUSEROP` reply (252)
#[derive(Debug, PartialEq, Eq)]
pub struct LuserOp {
    parameters: ParameterList,
    client: ReplyTarget,
    ops: u64,
}

impl View for LuserOp {
    type V = ParamsView;

    closed spec fn view(&self) -> ParamsView {
        self.parameters@
    }
}

/// Whether `p` reads as a `RPL_LUSEROP` reply, and if not, the first error
pub open spec fn check_luser_op(p: ParamsView) -> Result<(), ReplyErrorView> {
    if p.all().len() < 3 {
        Err(param_qty(3, p))
    } else {
        first_err(field_reply_target(p, 0), first_err(field_u64(p, 1), Ok(())))
    }
}

impl LuserOp {
    #[verifier::type_invariant]
    spec fn inv(self) -> bool {
        &&& check_luser_op(self.parameters@) is Ok
        &&& field_reply_target(self.parameters@, 0) == Ok::<TargetView, ReplyErrorView>(self.client@)
        &&& field_u64(self.parameters@, 1) == Ok::<u64, ReplyErrorView>(self.ops)
    }

    /// Reads `parameters` as a `RPL_LUSEROP` reply
    pub fn try_from_params(parameters: ParameterList) -> (r: Result<LuserOp, ReplyError>)
        ensures
            match r {
                Ok(x) => check_luser_op(parameters@) is Ok && x@ == parameters@,
                Err(e) => check_luser_op(parameters@) == Err::<(), ReplyErrorView>(e@),
            },
    {
        if parameters.len() < 3 {
            return Err(ReplyError::ParamQty { min_required: 3, received: parameters.len() });
        }
        let client = match reply_target_at(&parameters, 0) {
            Ok(v) => v,
            Err(e) => {
                return Err(e);
            },
        };
        let ops = match u64_at(&parameters, 1) {
            Ok(v) => v,
            Err(e) => {
                return Err(e);
            },
        };
        Ok(LuserOp { parameters, client, ops })
    }

    pub fn client(&self) -> (r: &ReplyTarget)
        ensures
            field_reply_target(self@, 0) == Ok::<TargetView, ReplyErrorView>(r@),
    {
        proof {
            use_type_invariant(self);
        }
        &self.client
    }

    pub fn ops(&self) -> (r: u64)
        ensures
            field_u64(self@, 1) == Ok::<u64, ReplyErrorView>(r),
    {
        proof {
            use_type_invariant(self);
        }
        self.ops
    }

    pub fn message(&self) -> (r: &str)
        ensures
            r@ == self@.all().last(),
    {
        proof {
            use_type_invariant(self);
        }
        last_str(&self.parameters)
    }

}

impl ReplyParts for LuserOp {
    open spec fn reply_code(&self) -> u16 {
        RPL_LUSEROP
    }

    open spec fn reply_params(&self) -> ParamsView {
        self@
    }

    fn code(&self) -> (r: u16) {
        RPL_LUSEROP
    }

    fn parameters(&self) -> (r: &ParameterList) {
        proof {
            use_type_invariant(self);
        }
        &self.parameters
    }

    fn is_error(&self) -> (r: bool) {
        false
    }

    fn into_parts(self) -> (r: (u16, ParameterList)) {
        proof {
            use_type_invariant(&self);
        }
        (RPL_LUSEROP, self.parameters)
    }
}

impl Clone for LuserOp {
    fn clone(&self) -> (r: Self)
        ensures
            r@ == self@,
    {
        proof {
            use_type_invariant(self);
        }
        match LuserOp::try_from_params(self.parameters.clone()) {
            Ok(x) => x,
            Err(_) => {
                assert(false);
                unreached()
            },
        }
    }
}

/// The `RPL_LUSERUNKNOWN` reply (253)
#[derive(Debug, PartialEq, Eq)]
pub struct LuserUnknown {
    parameters: ParameterList,
    client: ReplyTarget,
    connections: u64,
}

impl View for LuserUnknown {
    type V = ParamsView;

    closed spec fn view(&self) -> ParamsView {
        self.parameters@
    }
}

/// Whether `p` reads as a `RPL_LUSERUNKNOWN` reply, and if not, the first error
pub open spec fn check_luser_unknown(p: ParamsView) -> Result<(), ReplyErrorView> {
    if p.all().len() < 3 {
        Err(param_qty(3, p))
    } else {
        first_err(field_reply_target(p, 0), first_err(field_u64(p, 1), Ok(())))
    }
}

impl LuserUnknown {
    #[verifier::type_invariant]
    spec fn inv(self) -> bool {
        &&& check_luser_unknown(self.parameters@) is Ok
        &&& field_reply_target(self.parameters@, 0) == Ok::<TargetView, ReplyErrorView>(self.client@)
        &&& field_u64(self.parameters@, 1) == Ok::<u64, ReplyErrorView>(self.connections)
    }

    /// Reads `parameters` as a `RPL_LUSERUNKNOWN` reply
    pub fn try_from_params(parameters: ParameterList) -> (r: Result<LuserUnknown, ReplyError>)
        ensures
            match r {
                Ok(x) => check_luser_unknown(parameters@) is Ok && x@ == parameters@,
                Err(e) => check_luser_unknown(parameters@) == Err::<(), ReplyErrorView>(e@),
            },
    {
        if parameters.len() < 3 {
            return Err(ReplyError::ParamQty { min_required: 3, received: parameters.len() });
        }
        let client = match reply_target_at(&parameters, 0) {
            Ok(v) => v,
            Err(e) => {
                return Err(e);
            },
        };
        let connections = match u64_at(&parameters, 1) {
            Ok(v) => v,
            Err(e) => {
                return Err(e);
            },
        };
        Ok(LuserUnknown { parameters, client, connections })
    }

    pub fn client(&self) -> (r: &ReplyTarget)
        ensures
            field_reply_target(self@, 0) == Ok::<TargetView, ReplyErrorView>(r@),
    {
        proof {
            use_type_invariant(self);
        }
        &self.client
    }

    pub fn connections(&self) -> (r: u64)
        ensures
            field_u64(self@, 1) == Ok::<u64, ReplyErrorView>(r),
    {
        proof {
            use_type_invariant(self);
        }
        self.connections
    }

    pub fn message(&self) -> (r: &str)
        ensures
            r@ == self@.all().last(),
    {
        proof {
            use_type_invariant(self);
        }
        last_str(&self.parameters)
    }

}

impl ReplyParts for LuserUnknown {
    open spec fn reply_code(&self) -> u16 {
        RPL_LUSERUNKNOWN
    }

    open spec fn reply_params(&self) -> ParamsView {
        self@
    }

    fn code(&self) -> (r: u16) {
        RPL_LUSERUNKNOWN
    }

    fn parameters(&self) -> (r: &ParameterList) {
        proof {
            use_type_invariant(self);
        }
        &self.parameters
    }

    fn is_error(&self) -> (r: bool) {
        false
    }

    fn into_parts(self) -> (r: (u16, ParameterList)) {
        proof {
            use_type_invariant(&self);
        }
        (RPL_LUSERUNKNOWN, self.parameters)
    }
}

impl Clone for LuserUnknown {
    fn clone(&self) -> (r: Self)
        ensures
            r@ == self@,
    {
        proof {
            use_type_invariant(self);
        }
        match LuserUnknown::try_from_params(self.parameters.clone()) {
            Ok(x) => x,
            Err(_) => {
                assert(false);
                unreached()
            },
        }
    }
}

/// The `RPL_LUSERCHANNELS` reply (254)
#[derive(Debug, PartialEq, Eq)]
pub struct LuserChannels {
    parameters: ParameterList,
    client: ReplyTarget,
    channels: u64,
}

impl View for LuserChannels {
    type V = ParamsView;

    closed spec fn view(&self) -> ParamsView {
        self.parameters@
    }
}

/// Whether `p` reads as a `RPL_LUSERCHANNELS` reply, and if not, the first error
pub open spec fn check_luser_channels(p: ParamsView) -> Result<(), ReplyErrorView> {
    if p.all().len() < 3 {
        Err(param_qty(3, p))
    } else {
        first_err(field_reply_target(p, 0), first_err(field_u64(p, 1), Ok(())))
    }
}

impl LuserChannels {
    #[verifier::type_invariant]
    spec fn inv(self) -> bool {
        &&& check_luser_channels(self.parameters@) is Ok
        &&& field_reply_target(self.parameters@, 0) == Ok::<TargetView, ReplyErrorView>(self.client@)
        &&& field_u64(self.parameters@, 1) == Ok::<u64, ReplyErrorView>(self.channels)
    }

    /// Reads `parameters` as a `RPL_LUSERCHANNELS` reply
    pub fn try_from_params(parameters: ParameterList) -> (r: Result<LuserChannels, ReplyError>)
        ensures
            match r {
                Ok(x) => check_luser_channels(parameters@) is Ok && x@ == parameters@,
                Err(e) => check_luser_channels(parameters@) == Err::<(), ReplyErrorView>(e@),
            },
    {
        if parameters.len() < 3 {
            return Err(ReplyError::ParamQty { min_required: 3, received: parameters.len() });
        }
        let client = match reply_target_at(&parameters, 0) {
            Ok(v) => v,
            Err(e) => {
                return Err(e);
            },
        };
        let channels = match u64_at(&parameters, 1) {
            Ok(v) => v,
            Err(e) => {
                return Err(e);
            },
        };
        Ok(LuserChannels { parameters, client, channels })
    }

    pub fn client(&self) -> (r: &ReplyTarget)
        ensures
            field_reply_target(self@, 0) == Ok::<TargetView, ReplyErrorView>(r@),
    {
        proof {
            use_type_invariant(self);
        }
        &self.client
    }

    pub fn channels(&self) -> (r: u64)
        ensures
            field_u64(self@, 1) == Ok::<u64, ReplyErrorView>(r),
    {
        proof {
            use_type_invariant(self);
        }
        self.channels
    }

    pub fn message(&self) -> (r: &str)
        ensures
            r@ == self@.all().last(),
    {
        proof {
            use_type_invariant(self);
        }
        last_str(&self.parameters)
    }

}

impl ReplyParts for LuserChannels {
    open spec fn reply_code(&self) -> u16 {
        RPL_LUSERCHANNELS
    }

    open spec fn reply_params(&self) -> ParamsView {
        self@
    }

    fn code(&self) -> (r: u16) {
        RPL_LUSERCHANNELS
    }

    fn parameters(&self) -> (r: &ParameterList) {
        proof {
            use_type_invariant(self);
        }
        &self.parameters
    }

    fn is_error(&self) -> (r: bool) {
        false
    }

    fn into_parts(self) -> (r: (u16, ParameterList)) {
        proof {
            use_type_invariant(&self);
        }
        (RPL_LUSERCHANNELS, self.parameters)
    }
}

impl Clone for LuserChannels {
    fn clone(&self) -> (r: Self)
        ensures
            r@ == self@,
    {
        proof {
            use_type_invariant(self);
        }
        match LuserChannels::try_from_params(self.parameters.clone()) {
            Ok(x) => x,
            Err(_) => {
                assert(false);
                unreached()
            },
        }
    }
}

/// The `RPL_LUSERME` reply (255)
#[derive(Debug, PartialEq, Eq)]
pub struct LuserMe {
    parameters: ParameterList,
    client: ReplyTarget,
}

impl View for LuserMe {
    type V = ParamsView;

    closed spec fn view(&self) -> ParamsView {
        self.parameters@
    }
}

/// Whether `p` reads as a `RPL_LUSERME` reply, and if not, the first error
pub open spec fn check_luser_me(p: ParamsView) -> Result<(), ReplyErrorView> {
    if p.all().len() < 2 {
        Err(param_qty(2, p))
    } else {
        first_err(field_reply_target(p, 0), Ok(()))
    }
}

impl LuserMe {
    #[verifier::type_invariant]
    spec fn inv(self) -> bool {
        &&& check_luser_me(self.parameters@) is Ok
        &&& field_reply_target(self.parameters@, 0) == Ok::<TargetView, ReplyErrorView>(self.client@)
    }

    /// Reads `parameters` as a `RPL_LUSERME` reply
    pub fn try_from_params(parameters: ParameterList) -> (r: Result<LuserMe, ReplyError>)
        ensures
            match r {
                Ok(x) => check_luser_me(parameters@) is Ok && x@ == parameters@,
                Err(e) => check_luser_me(parameters@) == Err::<(), ReplyErrorView>(e@),
            },
    {
        if parameters.len() < 2 {
            return Err(ReplyError::ParamQty { min_required: 2, received: parameters.len() });
        }
        let client = match reply_target_at(&parameters, 0) {
            Ok(v) => v,
            Err(e) => {
                return Err(e);
            },
        };
        Ok(LuserMe { parameters, client })
    }

    pub fn client(&self) -> (r: &ReplyTarget)
        ensures
            field_reply_target(self@, 0) == Ok::<TargetView, ReplyErrorView>(r@),
    {
        proof {
            use_type_invariant(self);
        }
        &self.client
    }

    pub fn message(&self) -> (r: &str)
        ensures
            r@ == self@.all().last(),
    {
        proof {
            use_type_invariant(self);
        }
        last_str(&self.parameters)
    }

}

impl ReplyParts for LuserMe {
    open spec fn reply_code(&self) -> u16 {
        RPL_LUSERME
    }

    open spec fn reply_params(&self) -> ParamsView {
        self@
    }

    fn code(&self) -> (r: u16) {
        RPL_LUSERME
    }

    fn parameters(&self) -> (r: &ParameterList) {
        proof {
            use_type_invariant(self);
        }
        &self.parameters
    }

    fn is_error(&self) -> (r: bool) {
        false
    }

    fn into_parts(self) -> (r: (u16, ParameterList)) {
        proof {
            use_type_invariant(&self);
        }
        (RPL_LUSERME, self.parameters)
    }
}

impl Clone for LuserMe {
    fn clone(&self) -> (r: Self)
        ensures
            r@ == self@,
    {
        proof {
            use_type_invariant(self);
        }
        match LuserMe::try_from_params(self.parameters.clone()) {
            Ok(x) => x,
            Err(_) => {
                assert(false);
                unreached()
            },
        }
    }
}

/// The `RPL_ADMINME` reply (256)
#[derive(Debug, PartialEq, Eq)]
pub struct AdminMe {
    parameters: ParameterList,
    client: ReplyTarget,
}

impl View for AdminMe {
    type V = ParamsView;

    closed spec fn view(&self) -> ParamsView {
        self.parameters@
    }
}

/// Whether `p` reads as a `RPL_ADMINME` reply, and if not, the first error
pub open spec fn check_admin_me(p: ParamsView) -> Result<(), ReplyErrorView> {
    if p.all().len() < 2 {
        Err(param_qty(2, p))
    } else {
        first_err(field_reply_target(p, 0), Ok(()))
    }
}

impl AdminMe {
    #[verifier::type_invariant]
    spec fn inv(self) -> bool {
        &&& check_admin_me(self.parameters@) is Ok
        &&& field_reply_target(self.parameters@, 0) == Ok::<TargetView, ReplyErrorView>(self.client@)
    }

    /// Reads `parameters` as a `RPL_ADMINME` reply
    pub fn try_from_params(parameters: ParameterList) -> (r: Result<AdminMe, ReplyError>)
        ensures
            match r {
                Ok(x) => check_admin_me(parameters@) is Ok && x@ == parameters@,
                Err(e) => check_admin_me(parameters@) == Err::<(), ReplyErrorView>(e@),
            },
    {
        if parameters.len() < 2 {
            return Err(ReplyError::ParamQty { min_required: 2, received: parameters.len() });
        }
        let client = match reply_target_at(&parameters, 0) {
            Ok(v) => v,
            Err(e) => {
                return Err(e);
            },
        };
        Ok(AdminMe { parameters, client })
    }

    pub fn client(&self) -> (r: &ReplyTarget)
        ensures
            field_reply_target(self@, 0) == Ok::<TargetView, ReplyErrorView>(r@),
    {
        proof {
            use_type_invariant(self);
        }
        &self.client
    }

    pub fn server(&self) -> (r: Option<&str>)
        ensures
            r is Some <==> 1 < self@.all().len(),
            r matches Some(s) ==> s@ == param_at(self@, 1),
    {
        proof {
            use_type_invariant(self);
        }
        opt_param_str(&self.parameters, 1)
    }

    pub fn message(&self) -> (r: &str)
        ensures
            r@ == self@.all().last(),
    {
        proof {
            use_type_invariant(self);
        }
        last_str(&self.parameters)
    }

}

impl ReplyParts for AdminMe {
    open spec fn reply_code(&self) -> u16 {
        RPL_ADMINME
    }

    open spec fn reply_params(&self) -> ParamsView {
        self@
    }

    fn code(&self) -> (r: u16) {
        RPL_ADMINME
    }

    fn parameters(&self) -> (r: &ParameterList) {
        proof {
            use_type_invariant(self);
        }
        &self.parameters
    }

    fn is_error(&self) -> (r: bool) {
        false
    }

    fn into_parts(self) -> (r: (u16, ParameterList)) {
        proof {
            use_type_invariant(&self);
        }
        (RPL_ADMINME, self.parameters)
    }
}

impl Clone for AdminMe {
    fn clone(&self) -> (r: Self)
        ensures
            r@ == self@,
    {
        proof {
            use_type_invariant(self);
        }
        match AdminMe::try_from_params(self.parameters.clone()) {
            Ok(x) => x,
            Err(_) => {
                assert(false);
                unreached()
            },
        }
    }
}

/// The `RPL_ADMINLOC1` reply (257)
#[derive(Debug, PartialEq, Eq)]
pub struct AdminLoc1 {
    parameters: ParameterList,
    client: ReplyTarget,
}

impl View for AdminLoc1 {
    type V = ParamsView;

    closed spec fn view(&self) -> ParamsView {
        self.parameters@
    }
}

/// Whether `p` reads as a `RPL_ADMINLOC1` reply, and if not, the first error
pub open spec fn check_admin_loc1(p: ParamsView) -> Result<(), ReplyErrorView> {
    if p.all().len() < 2 {
        Err(param_qty(2, p))
    } else {
        first_err(field_reply_target(p, 0), Ok(()))
    }
}

impl AdminLoc1 {
    #[verifier::type_invariant]
    spec fn inv(self) -> bool {
        &&& check_admin_loc1(self.parameters@) is Ok
        &&& field_reply_target(self.parameters@, 0) == Ok::<TargetView, ReplyErrorView>(self.client@)
    }

    /// Reads `parameters` as a `RPL_ADMINLOC1` reply
    pub fn try_from_params(parameters: ParameterList) -> (r: Result<AdminLoc1, ReplyError>)
        ensures
            match r {
                Ok(x) => check_admin_loc1(parameters@) is Ok && x@ == parameters@,
                Err(e) => check_admin_loc1(parameters@) == Err::<(), ReplyErrorView>(e@),
            },
    {
        if parameters.len() < 2 {
            return Err(ReplyError::ParamQty { min_required: 2, received: parameters.len() });
        }
        let client = match reply_target_at(&parameters, 0) {
            Ok(v) => v,
            Err(e) => {
                return Err(e);
            },
        };
        Ok(AdminLoc1 { parameters, client })
    }

    pub fn client(&self) -> (r: &ReplyTarget)
        ensures
            field_reply_target(self@, 0) == Ok::<TargetView, ReplyErrorView>(r@),
    {
        proof {
            use_type_invariant(self);
        }
        &self.client
    }

    pub fn message(&self) -> (r: &str)
        ensures
            r@ == self@.all().last(),
    {
        proof {
            use_type_invariant(self);
        }
        last_str(&self.parameters)
    }

}

impl ReplyParts for AdminLoc1 {
    open spec fn reply_code(&self) -> u16 {
        RPL_ADMINLOC1
    }

    open spec fn reply_params(&self) -> ParamsView {
        self@
    }

    fn code(&self) -> (r: u16) {
        RPL_ADMINLOC1
    }

    fn parameters(&self) -> (r: &ParameterList) {
        proof {
            use_type_invariant(self);
        }
        &self.parameters
    }

    fn is_error(&self) -> (r: bool) {
        false
    }

    fn into_parts(self) -> (r: (u16, ParameterList)) {
        proof {
            use_type_invariant(&self);
        }
        (RPL_ADMINLOC1, self.parameters)
    }
}

impl Clone for AdminLoc1 {
    fn clone(&self) -> (r: Self)
        ensures
            r@ == self@,
    {
        proof {
            use_type_invariant(self);
        }
        match AdminLoc1::try_from_params(self.parameters.clone()) {
            Ok(x) => x,
            Err(_) => {
                assert(false);
                unreached()
            },
        }
    }
}

/// The `RPL_ADMINLOC2` reply (258)
#[derive(Debug, PartialEq, Eq)]
pub struct AdminLoc2 {
    parameters: ParameterList,
    client: ReplyTarget,
}

impl View for AdminLoc2 {
    type V = ParamsView;

    closed spec fn view(&self) -> ParamsView {
        self.parameters@
    }
}

/// Whether `p` reads as a `RPL_ADMINLOC2` reply, and if not, the first error
pub open spec fn check_admin_loc2(p: ParamsView) -> Result<(), ReplyErrorView> {
    if p.all().len() < 2 {
        Err(param_qty(2, p))
    } else {
        first_err(field_reply_target(p, 0), Ok(()))
    }
}

impl AdminLoc2 {
    #[verifier::type_invariant]
    spec fn inv(self) -> bool {
        &&& check_admin_loc2(self.parameters@) is Ok
        &&& field_reply_target(self.parameters@, 0) == Ok::<TargetView, ReplyErrorView>(self.client@)
    }

    /// Reads `parameters` as a `RPL_ADMINLOC2` reply
    pub fn try_from_params(parameters: ParameterList) -> (r: Result<AdminLoc2, ReplyError>)
        ensures
            match r {
                Ok(x) => check_admin_loc2(parameters@) is Ok && x@ == parameters@,
                Err(e) => check_admin_loc2(parameters@) == Err::<(), ReplyErrorView>(e@),
            },
    {
        if parameters.len() < 2 {
            return Err(ReplyError::ParamQty { min_required: 2, received: parameters.len() });
        }
        let client = match reply_target_at(&parameters, 0) {
            Ok(v) => v,
            Err(e) => {
                return Err(e);
            },
        };
        Ok(AdminLoc2 { parameters, client })
    }

    pub fn client(&self) -> (r: &ReplyTarget)
        ensures
            field_reply_target(self@, 0) == Ok::<TargetView, ReplyErrorView>(r@),
    {
        proof {
            use_type_invariant(self);
        }
        &self.client
    }

    pub fn message(&self) -> (r: &str)
        ensures
            r@ == self@.all().last(),
    {
        proof {
            use_type_invariant(self);
        }
        last_str(&self.parameters)
    }

}

impl ReplyParts for AdminLoc2 {
    open spec fn reply_code(&self) -> u16 {
        RPL_ADMINLOC2
    }

    open spec fn reply_params(&self) -> ParamsView {
        self@
    }

    fn code(&self) -> (r: u16) {
        RPL_ADMINLOC2
    }

    fn parameters(&self) -> (r: &ParameterList) {
        proof {
            use_type_invariant(self);
        }
        &self.parameters
    }

    fn is_error(&self) -> (r: bool) {
        false
    }

    fn into_parts(self) -> (r: (u16, ParameterList)) {
        proof {
            use_type_invariant(&self);
        }
        (RPL_ADMINLOC2, self.parameters)
    }
}

impl Clone for AdminLoc2 {
    fn clone(&self) -> (r: Self)
        ensures
            r@ == self@,
    {
        proof {
            use_type_invariant(self);
        }
        match AdminLoc2::try_from_params(self.parameters.clone()) {
            Ok(x) => x,
            Err(_) => {
                assert(false);
                unreached()
            },
        }
    }
}

/// The `RPL_ADMINEMAIL` reply (259)
#[derive(Debug, PartialEq, Eq)]
pub struct AdminEmail {
    parameters: ParameterList,
    client: ReplyTarget,
}

impl View for AdminEmail {
    type V = ParamsView;

    closed spec fn view(&self) -> ParamsView {
        self.parameters@
    }
}

/// Whether `p` reads as a `RPL_ADMINEMAIL` reply, and if not, the first error
pub open spec fn check_admin_email(p: ParamsView) -> Result<(), ReplyErrorView> {
    if p.all().len() < 2 {
        Err(param_qty(2, p))
    } else {
        first_err(field_reply_target(p, 0), Ok(()))
    }
}

impl AdminEmail {
    #[verifier::type_invariant]
    spec fn inv(self) -> bool {
        &&& check_admin_email(self.parameters@) is Ok
        &&& field_reply_target(self.parameters@, 0) == Ok::<TargetView, ReplyErrorView>(self.client@)
    }

    /// Reads `parameters` as a `RPL_ADMINEMAIL` reply
    pub fn try_from_params(parameters: ParameterList) -> (r: Result<AdminEmail, ReplyError>)
        ensures
            match r {
                Ok(x) => check_admin_email(parameters@) is Ok && x@ == parameters@,
                Err(e) => check_admin_email(parameters@) == Err::<(), ReplyErrorView>(e@),
            },
    {
        if parameters.len() < 2 {
            return Err(ReplyError::ParamQty { min_required: 2, received: parameters.len() });
        }
        let client = match reply_target_at(&parameters, 0) {
            Ok(v) => v,
            Err(e) => {
                return Err(e);
            },
        };
        Ok(AdminEmail { parameters, client })
    }

    pub fn client(&self) -> (r: &ReplyTarget)
        ensures
            field_reply_target(self@, 0) == Ok::<TargetView, ReplyErrorView>(r@),
    {
        proof {
            use_type_invariant(self);
        }
        &self.client
    }

    pub fn message(&self) -> (r: &str)
        ensures
            r@ == self@.all().last(),
    {
        proof {
            use_type_invariant(self);
        }
        last_str(&self.parameters)
    }

}

impl ReplyParts for AdminEmail {
    open spec fn reply_code(&self) -> u16 {
        RPL_ADMINEMAIL
    }

    open spec fn reply_params(&self) -> ParamsView {
        self@
    }

    fn code(&self) -> (r: u16) {
        RPL_ADMINEMAIL
    }

    fn parameters(&self) -> (r: &ParameterList) {
        proof {
            use_type_invariant(self);
        }
        &self.parameters
    }

    fn is_error(&self) -> (r: bool) {
        false
    }

    fn into_parts(self) -> (r: (u16, ParameterList)) {
        proof {
            use_type_invariant(&self);
        }
        (RPL_ADMINEMAIL, self.parameters)
    }
}

impl Clone for AdminEmail {
    fn clone(&self) -> (r: Self)
        ensures
            r@ == self@,
    {
        proof {
            use_type_invariant(self);
        }
        match AdminEmail::try_from_params(self.parameters.clone()) {
            Ok(x) => x,
            Err(_) => {
                assert(false);
                unreached()
            },
        }
    }
}

/// The `RPL_TRYAGAIN` reply (263)
#[derive(Debug, PartialEq, Eq)]
pub struct TryAgain {
    parameters: ParameterList,
    client: ReplyTarget,
    command: Verb,
}

impl View for TryAgain {
    type V = ParamsView;

    closed spec fn view(&self) -> ParamsView {
        self.parameters@
    }
}

/// Whether `p` reads as a `RPL_TRYAGAIN` reply, and if not, the first error
pub open spec fn check_try_again(p: ParamsView) -> Result<(), ReplyErrorView> {
    if p.all().len() < 2 {
        Err(param_qty(2, p))
    } else {
        first_err(field_reply_target(p, 0), Ok(()))
    }
}

impl TryAgain {
    #[verifier::type_invariant]
    spec fn inv(self) -> bool {
        &&& check_try_again(self.parameters@) is Ok
        &&& field_reply_target(self.parameters@, 0) == Ok::<TargetView, ReplyErrorView>(self.client@)
        &&& self.command@ == param_at(self.parameters@, 1)
    }

    /// Reads `parameters` as a `RPL_TRYAGAIN` reply
    pub fn try_from_params(parameters: ParameterList) -> (r: Result<TryAgain, ReplyError>)
        ensures
            match r {
                Ok(x) => check_try_again(parameters@) is Ok && x@ == parameters@,
                Err(e) => check_try_again(parameters@) == Err::<(), ReplyErrorView>(e@),
            },
    {
        if parameters.len() < 2 {
            return Err(ReplyError::ParamQty { min_required: 2, received: parameters.len() });
        }
        let client = match reply_target_at(&parameters, 0) {
            Ok(v) => v,
            Err(e) => {
                return Err(e);
            },
        };
        let command = verb_at(&parameters, 1);
        Ok(TryAgain { parameters, client, command })
    }

    pub fn client(&self) -> (r: &ReplyTarget)
        ensures
            field_reply_target(self@, 0) == Ok::<TargetView, ReplyErrorView>(r@),
    {
        proof {
            use_type_invariant(self);
        }
        &self.client
    }

    pub fn command(&self) -> (r: &Verb)
        ensures
            r@ == param_at(self@, 1),
    {
        proof {
            use_type_invariant(self);
        }
        &self.command
    }

    pub fn message(&self) -> (r: &str)
        ensures
            r@ == self@.all().last(),
    {
        proof {
            use_type_invariant(self);
        }
        last_str(&self.parameters)
    }

}

impl ReplyParts for TryAgain {
    open spec fn reply_code(&self) -> u16 {
        RPL_TRYAGAIN
    }

    open spec fn reply_params(&self) -> ParamsView {
        self@
    }

    fn code(&self) -> (r: u16) {
        RPL_TRYAGAIN
    }

    fn parameters(&self) -> (r: &ParameterList) {
        proof {
            use_type_invariant(self);
        }
        &self.parameters
    }

    fn is_error(&self) -> (r: bool) {
        false
    }

    fn into_parts(self) -> (r: (u16, ParameterList)) {
        proof {
            use_type_invariant(&self);
        }
        (RPL_TRYAGAIN, self.parameters)
    }
}

impl Clone for TryAgain {
    fn clone(&self) -> (r: Self)
        ensures
            r@ == self@,
    {
        proof {
            use_type_invariant(self);
        }
        match TryAgain::try_from_params(self.parameters.clone()) {
            Ok(x) => x,
            Err(_) => {
                assert(false);
                unreached()
            },
        }
    }
}

/// The `RPL_LOCALUSERS` reply (265)
#[derive(Debug, PartialEq, Eq)]
pub struct LocalUsers {
    parameters: ParameterList,
    client: ReplyTarget,
    current_users: Option<u64>,
    max_users: Option<u64>,
}

impl View for LocalUsers {
    type V = ParamsView;

    closed spec fn view(&self) -> ParamsView {
        self.parameters@
    }
}

/// Whether `p` reads as a `RPL_LOCALUSERS` reply, and if not, the first error
pub open spec fn check_local_users(p: ParamsView) -> Result<(), ReplyErrorView> {
    if p.all().len() < 2 {
        Err(param_qty(2, p))
    } else {
        first_err(field_reply_target(p, 0), first_err(field_u64_if_more(p, 1, 2), first_err(field_u64_if_more(p, 2, 3), Ok(()))))
    }
}

impl LocalUsers {
    #[verifier::type_invariant]
    spec fn inv(self) -> bool {
        &&& check_local_users(self.parameters@) is Ok
        &&& field_reply_target(self.parameters@, 0) == Ok::<TargetView, ReplyErrorView>(self.client@)
        &&& field_u64_if_more(self.parameters@, 1, 2) == Ok::<Option<u64>, ReplyErrorView>(self.current_users)
        &&& field_u64_if_more(self.parameters@, 2, 3) == Ok::<Option<u64>, ReplyErrorView>(self.max_users)
    }

    /// Reads `parameters` as a `RPL_LOCALUSERS` reply
    pub fn try_from_params(parameters: ParameterList) -> (r: Result<LocalUsers, ReplyError>)
        ensures
            match r {
                Ok(x) => check_local_users(parameters@) is Ok && x@ == parameters@,
                Err(e) => check_local_users(parameters@) == Err::<(), ReplyErrorView>(e@),
            },
    {
        if parameters.len() < 2 {
            return Err(ReplyError::ParamQty { min_required: 2, received: parameters.len() });
        }
        let client = match reply_target_at(&parameters, 0) {
            Ok(v) => v,
            Err(e) => {
                return Err(e);
            },
        };
        let current_users = match u64_if_more_at(&parameters, 1, 2) {
            Ok(v) => v,
            Err(e) => {
                return Err(e);
            },
        };
        let max_users = match u64_if_more_at(&parameters, 2, 3) {
            Ok(v) => v,
            Err(e) => {
                return Err(e);
            },
        };
        Ok(LocalUsers { parameters, client, current_users, max_users })
    }

    pub fn client(&self) -> (r: &ReplyTarget)
        ensures
            field_reply_target(self@, 0) == Ok::<TargetView, ReplyErrorView>(r@),
    {
        proof {
            use_type_invariant(self);
        }
        &self.client
    }

    pub fn current_users(&self) -> (r: Option<u64>)
        ensures
            field_u64_if_more(self@, 1, 2) == Ok::<Option<u64>, ReplyErrorView>(r),
    {
        proof {
            use_type_invariant(self);
        }
        self.current_users
    }

    pub fn max_users(&self) -> (r: Option<u64>)
        ensures
            field_u64_if_more(self@, 2, 3) == Ok::<Option<u64>, ReplyErrorView>(r),
    {
        proof {
            use_type_invariant(self);
        }
        self.max_users
    }

    pub fn message(&self) -> (r: &str)
        ensures
            r@ == self@.all().last(),
    {
        proof {
            use_type_invariant(self);
        }
        last_str(&self.parameters)
    }

}

impl ReplyParts for LocalUsers {
    open spec fn reply_code(&self) -> u16 {
        RPL_LOCALUSERS
    }

    open spec fn reply_params(&self) -> ParamsView {
        self@
    }

    fn code(&self) -> (r: u16) {
        RPL_LOCALUSERS
    }

    fn parameters(&self) -> (r: &ParameterList) {
        proof {
            use_type_invariant(self);
        }
        &self.parameters
    }

    fn is_error(&self) -> (r: bool) {
        false
    }

    fn into_parts(self) -> (r: (u16, ParameterList)) {
        proof {
            use_type_invariant(&self);
        }
        (RPL_LOCALUSERS, self.parameters)
    }
}

impl Clone for LocalUsers {
    fn clone(&self) -> (r: Self)
        ensures
            r@ == self@,
    {
        proof {
            use_type_invariant(self);
        }
        match LocalUsers::try_from_params(self.parameters.clone()) {
            Ok(x) => x,
            Err(_) => {
                assert(false);
                unreached()
            },
        }
    }
}

/// The `RPL_GLOBALUSERS` reply (266)
#[derive(Debug, PartialEq, Eq)]
pub struct GlobalUsers {
    parameters: ParameterList,
    client: ReplyTarget,
    current_users: Option<u64>,
    max_users: Option<u64>,
}

impl View for GlobalUsers {
    type V = ParamsView;

    closed spec fn view(&self) -> ParamsView {
        self.parameters@
    }
}

/// Whether `p` reads as a `RPL_GLOBALUSERS` reply, and if not, the first error
pub open spec fn check_global_users(p: ParamsView) -> Result<(), ReplyErrorView> {
    if p.all().len() < 2 {
        Err(param_qty(2, p))
    } else {
        first_err(field_reply_target(p, 0), first_err(field_u64_if_more(p, 1, 2), first_err(field_u64_if_more(p, 2, 3), Ok(()))))
    }
}

impl GlobalUsers {
    #[verifier::type_invariant]
    spec fn inv(self) -> bool {
        &&& check_global_users(self.parameters@) is Ok
        &&& field_reply_target(self.parameters@, 0) == Ok::<TargetView, ReplyErrorView>(self.client@)
        &&& field_u64_if_more(self.parameters@, 1, 2) == Ok::<Option<u64>, ReplyErrorView>(self.current_users)
        &&& field_u64_if_more(self.parameters@, 2, 3) == Ok::<Option<u64>, ReplyErrorView>(self.max_users)
    }

    /// Reads `parameters` as a `RPL_GLOBALUSERS` reply
    pub fn try_from_params(parameters: ParameterList) -> (r: Result<GlobalUsers, ReplyError>)
        ensures
            match r {
                Ok(x) => check_global_users(parameters@) is Ok && x@ == parameters@,
                Err(e) => check_global_users(parameters@) == Err::<(), ReplyErrorView>(e@),
            },
    {
        if parameters.len() < 2 {
            return Err(ReplyError::ParamQty { min_required: 2, received: parameters.len() });
        }
        let client = match reply_target_at(&parameters, 0) {
            Ok(v) => v,
            Err(e) => {
                return Err(e);
            },
        };
        let current_users = match u64_if_more_at(&parameters, 1, 2) {
            Ok(v) => v,
            Err(e) => {
                return Err(e);
            },
        };
        let max_users = match u64_if_more_at(&parameters, 2, 3) {
            Ok(v) => v,
            Err(e) => {
                return Err(e);
            },
        };
        Ok(GlobalUsers { parameters, client, current_users, max_users })
    }

    pub fn client(&self) -> (r: &ReplyTarget)
        ensures
            field_reply_target(self@, 0) == Ok::<TargetView, ReplyErrorView>(r@),
    {
        proof {
            use_type_invariant(self);
        }
        &self.client
    }

    pub fn current_users(&self) -> (r: Option<u64>)
        ensures
            field_u64_if_more(self@, 1, 2) == Ok::<Option<u64>, ReplyErrorView>(r),
    {
        proof {
            use_type_invariant(self);
        }
        self.current_users
    }

    pub fn max_users(&self) -> (r: Option<u64>)
        ensures
            field_u64_if_more(self@, 2, 3) == Ok::<Option<u64>, ReplyErrorView>(r),
    {
        proof {
            use_type_invariant(self);
        }
        self.max_users
    }

    pub fn message(&self) -> (r: &str)
        ensures
            r@ == self@.all().last(),
    {
        proof {
            use_type_invariant(self);
        }
        last_str(&self.parameters)
    }

}

impl ReplyParts for GlobalUsers {
    open spec fn reply_code(&self) -> u16 {
        RPL_GLOBALUSERS
    }

    open spec fn reply_params(&self) -> ParamsView {
        self@
    }

    fn code(&self) -> (r: u16) {
        RPL_GLOBALUSERS
    }

    fn parameters(&self) -> (r: &ParameterList) {
        proof {
            use_type_invariant(self);
        }
        &self.parameters
    }

    fn is_error(&self) -> (r: bool) {
        false
    }

    fn into_parts(self) -> (r: (u16, ParameterList)) {
        proof {
            use_type_invariant(&self);
        }
        (RPL_GLOBALUSERS, self.parameters)
    }
}

impl Clone for GlobalUsers {
    fn clone(&self) -> (r: Self)
        ensures
            r@ == self@,
    {
        proof {
            use_type_invariant(self);
        }
        match GlobalUsers::try_from_params(self.parameters.clone()) {
            Ok(x) => x,
            Err(_) => {
                assert(false);
                unreached()
            },
        }
    }
}

/// The `RPL_WHOISCERTFP` reply (276)
#[derive(Debug, PartialEq, Eq)]
pub struct WhoIsCertFP {
    parameters: ParameterList,
    client: ReplyTarget,
    nickname: Nickname,
}

impl View for WhoIsCertFP {
    type V = ParamsView;

    closed spec fn view(&self) -> ParamsView {
        self.parameters@
    }
}

/// Whether `p` reads as a `RPL_WHOISCERTFP` reply, and if not, the first error
pub open spec fn check_who_is_cert_fp(p: ParamsView) -> Result<(), ReplyErrorView> {
    if p.all().len() < 3 {
        Err(param_qty(3, p))
    } else {
        first_err(field_reply_target(p, 0), first_err(field_nickname(p, 1), Ok(())))
    }
}

impl WhoIsCertFP {
    #[verifier::type_invariant]
    spec fn inv(self) -> bool {
        &&& check_who_is_cert_fp(self.parameters@) is Ok
        &&& field_reply_target(self.parameters@, 0) == Ok::<TargetView, ReplyErrorView>(self.client@)
        &&& field_nickname(self.parameters@, 1) == Ok::<Seq<char>, ReplyErrorView>(self.nickname@)
    }

    /// Reads `parameters` as a `RPL_WHOISCERTFP` reply
    pub fn try_from_params(parameters: ParameterList) -> (r: Result<WhoIsCertFP, ReplyError>)
        ensures
            match r {
                Ok(x) => check_who_is_cert_fp(parameters@) is Ok && x@ == parameters@,
                Err(e) => check_who_is_cert_fp(parameters@) == Err::<(), ReplyErrorView>(e@),
            },
    {
        if parameters.len() < 3 {
            return Err(ReplyError::ParamQty { min_required: 3, received: parameters.len() });
        }
        let client = match reply_target_at(&parameters, 0) {
            Ok(v) => v,
            Err(e) => {
                return Err(e);
            },
        };
        let nickname = match nickname_at(&parameters, 1) {
            Ok(v) => v,
            Err(e) => {
                return Err(e);
            },
        };
        Ok(WhoIsCertFP { parameters, client, nickname })
    }

    pub fn client(&self) -> (r: &ReplyTarget)
        ensures
            field_reply_target(self@, 0) == Ok::<TargetView, ReplyErrorView>(r@),
    {
        proof {
            use_type_invariant(self);
        }
        &self.client
    }

    pub fn nickname(&self) -> (r: &Nickname)
        ensures
            field_nickname(self@, 1) == Ok::<Seq<char>, ReplyErrorView>(r@),
    {
        proof {
            use_type_invariant(self);
        }
        &self.nickname
    }

    pub fn message(&self) -> (r: &str)
        ensures
            r@ == self@.all().last(),
    {
        proof {
            use_type_invariant(self);
        }
        last_str(&self.parameters)
    }

}

impl ReplyParts for WhoIsCertFP {
    open spec fn reply_code(&self) -> u16 {
        RPL_WHOISCERTFP
    }

    open spec fn reply_params(&self) -> ParamsView {
        self@
    }

    fn code(&self) -> (r: u16) {
        RPL_WHOISCERTFP
    }

    fn parameters(&self) -> (r: &ParameterList) {
        proof {
            use_type_invariant(self);
        }
        &self.parameters
    }

    fn is_error(&self) -> (r: bool) {
        false
    }

    fn into_parts(self) -> (r: (u16, ParameterList)) {
        proof {
            use_type_invariant(&self);
        }
        (RPL_WHOISCERTFP, self.parameters)
    }
}

impl Clone for WhoIsCertFP {
    fn clone(&self) -> (r: Self)
        ensures
            r@ == self@,
    {
        proof {
            use_type_invariant(self);
        }
        match WhoIsCertFP::try_from_params(self.parameters.clone()) {
            Ok(x) => x,
            Err(_) => {
                assert(false);
                unreached()
            },
        }
    }
}

} // verus!
