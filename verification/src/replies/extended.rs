//! Replies from extensions: TLS, help, SASL, and accounts (codes 600 and above).
use super::codes::{
    RPL_STARTTLS, RPL_WHOISSECURE, ERR_STARTTLSERROR, ERR_INVALIDMODEPARAM, RPL_HELPSTART, RPL_HELPTXT, RPL_ENDOFHELP, ERR_NOPRIVS, RPL_LOGGEDIN, RPL_LOGGEDOUT, ERR_NICKLOCKED, RPL_SASLSUCCESS, ERR_SASLFAIL, ERR_SASLTOOLONG, ERR_SASLABORTED, ERR_SASLALREADY, RPL_SASLMECHS,
};
use super::fields::{
    client_source_at, field_client_source, field_mode_target, field_opt_client_source, opt_client_source_at, opt_client_source_view, field_nickname, field_reply_target, first_err, last_str, mode_target_at, nickname_at, param_at, param_qty, param_str, reply_target_at,
};
use super::{check_reply, is_error_code, ReplyError, ReplyErrorView, ReplyParts};
use crate::names::{Channel, Modestring, Nickname, Username, Verb};
use crate::paramlist::{ParameterList, ParamsView};
use crate::source::{ClientSource, ClientSourceView};
use crate::targets::{ModeTarget, ReplyTarget, Target, TargetView};
use crate::text::split_word;
use crate::types::{ChannelStatus, WhoFlags, WhoFlagsView};
use vstd::prelude::*;

verus! {

/// The `RPL_STARTTLS` reply (670)
#[derive(Debug, PartialEq, Eq)]
pub struct StartTLS {
    parameters: ParameterList,
    client: ReplyTarget,
}

impl View for StartTLS {
    type V = ParamsView;

    closed spec fn view(&self) -> ParamsView {
        self.parameters@
    }
}

/// Whether `p` reads as a `RPL_STARTTLS` reply, and if not, the first error
pub open spec fn check_start_tls(p: ParamsView) -> Result<(), ReplyErrorView> {
    if p.all().len() < 2 {
        Err(param_qty(2, p))
    } else {
        first_err(field_reply_target(p, 0), Ok(()))
    }
}

impl StartTLS {
    #[verifier::type_invariant]
    spec fn inv(self) -> bool {
        &&& check_start_tls(self.parameters@) is Ok
        &&& field_reply_target(self.parameters@, 0) == Ok::<TargetView, ReplyErrorView>(self.client@)
    }

    /// Reads `parameters` as a `RPL_STARTTLS` reply
    pub fn try_from_params(parameters: ParameterList) -> (r: Result<StartTLS, ReplyError>)
        ensures
            match r {
                Ok(x) => check_start_tls(parameters@) is Ok && x@ == parameters@,
                Err(e) => check_start_tls(parameters@) == Err::<(), ReplyErrorView>(e@),
            },
    {
        if parameters.len() < 2 {
            return Err(ReplyError::ParamQty { min_required: 2, received: parameters.len() });
        }
        let client = match reply_target_at(&parameters, 0) {
            Ok(v) => v,
            Err(e) => {
                return Err(e);
            },
        };
        Ok(StartTLS { parameters, client })
    }

    pub fn client(&self) -> (r: &ReplyTarget)
        ensures
            field_reply_target(self@, 0) == Ok::<TargetView, ReplyErrorView>(r@),
    {
        proof {
            use_type_invariant(self);
        }
        &self.client
    }

    pub fn message(&self) -> (r: &str)
        ensures
            r@ == self@.all().last(),
    {
        proof {
            use_type_invariant(self);
        }
        last_str(&self.parameters)
    }

}

impl ReplyParts for StartTLS {
    open spec fn reply_code(&self) -> u16 {
        RPL_STARTTLS
    }

    open spec fn reply_params(&self) -> ParamsView {
        self@
    }

    fn code(&self) -> (r: u16) {
        RPL_STARTTLS
    }

    fn parameters(&self) -> (r: &ParameterList) {
        proof {
            use_type_invariant(self);
        }
        &self.parameters
    }

    fn is_error(&self) -> (r: bool) {
        false
    }

    fn into_parts(self) -> (r: (u16, ParameterList)) {
        proof {
            use_type_invariant(&self);
        }
        (RPL_STARTTLS, self.parameters)
    }
}

impl Clone for StartTLS {
    fn clone(&self) -> (r: Self)
        ensures
            r@ == self@,
    {
        proof {
            use_type_invariant(self);
        }
        match StartTLS::try_from_params(self.parameters.clone()) {
            Ok(x) => x,
            Err(_) => {
                assert(false);
                unreached()
            },
        }
    }
}

/// The `RPL_WHOISSECURE` reply (671)
#[derive(Debug, PartialEq, Eq)]
pub struct WhoIsSecure {
    parameters: ParameterList,
    client: ReplyTarget,
    nickname: Nickname,
}

impl View for WhoIsSecure {
    type V = ParamsView;

    closed spec fn view(&self) -> ParamsView {
        self.parameters@
    }
}

/// Whether `p` reads as a `RPL_WHOISSECURE` reply, and if not, the first error
pub open spec fn check_who_is_secure(p: ParamsView) -> Result<(), ReplyErrorView> {
    if p.all().len() < 3 {
        Err(param_qty(3, p))
    } else {
        first_err(field_reply_target(p, 0), first_err(field_nickname(p, 1), Ok(())))
    }
}

impl WhoIsSecure {
    #[verifier::type_invariant]
    spec fn inv(self) -> bool {
        &&& check_who_is_secure(self.parameters@) is Ok
        &&& field_reply_target(self.parameters@, 0) == Ok::<TargetView, ReplyErrorView>(self.client@)
        &&& field_nickname(self.parameters@, 1) == Ok::<Seq<char>, ReplyErrorView>(self.nickname@)
    }

    /// Reads `parameters` as a `RPL_WHOISSECURE` reply
    pub fn try_from_params(parameters: ParameterList) -> (r: Result<WhoIsSecure, ReplyError>)
        ensures
            match r {
                Ok(x) => check_who_is_secure(parameters@) is Ok && x@ == parameters@,
                Err(e) => check_who_is_secure(parameters@) == Err::<(), ReplyErrorView>(e@),
            },
    {
        if parameters.len() < 3 {
            return Err(ReplyError::ParamQty { min_required: 3, received: parameters.len() });
        }
        let client = match reply_target_at(&parameters, 0) {
            Ok(v) => v,
            Err(e) => {
                return Err(e);
            },
        };
        let nickname = match nickname_at(&parameters, 1) {
            Ok(v) => v,
            Err(e) => {
                return Err(e);
            },
        };
        Ok(WhoIsSecure { parameters, client, nickname })
    }

    pub fn client(&self) -> (r: &ReplyTarget)
        ensures
            field_reply_target(self@, 0) == Ok::<TargetView, ReplyErrorView>(r@),
    {
        proof {
            use_type_invariant(self);
        }
        &self.client
    }

    pub fn nickname(&self) -> (r: &Nickname)
        ensures
            field_nickname(self@, 1) == Ok::<Seq<char>, ReplyErrorView>(r@),
    {
        proof {
            use_type_invariant(self);
        }
        &self.nickname
    }

    pub fn message(&self) -> (r: &str)
        ensures
            r@ == self@.all().last(),
    {
        proof {
            use_type_invariant(self);
        }
        last_str(&self.parameters)
    }

}

impl ReplyParts for WhoIsSecure {
    open spec fn reply_code(&self) -> u16 {
        RPL_WHOISSECURE
    }

    open spec fn reply_params(&self) -> ParamsView {
        self@
    }

    fn code(&self) -> (r: u16) {
        RPL_WHOISSECURE
    }

    fn parameters(&self) -> (r: &ParameterList) {
        proof {
            use_type_invariant(self);
        }
        &self.parameters
    }

    fn is_error(&self) -> (r: bool) {
        false
    }

    fn into_parts(self) -> (r: (u16, ParameterList)) {
        proof {
            use_type_invariant(&self);
        }
        (RPL_WHOISSECURE, self.parameters)
    }
}

impl Clone for WhoIsSecure {
    fn clone(&self) -> (r: Self)
        ensures
            r@ == self@,
    {
        proof {
            use_type_invariant(self);
        }
        match WhoIsSecure::try_from_params(self.parameters.clone()) {
            Ok(x) => x,
            Err(_) => {
                assert(false);
                unreached()
            },
        }
    }
}

/// The `ERR_STARTTLSERROR` reply (691)
#[derive(Debug, PartialEq, Eq)]
pub struct StartTLSError {
    parameters: ParameterList,
    client: ReplyTarget,
}

impl View for StartTLSError {
    type V = ParamsView;

    closed spec fn view(&self) -> ParamsView {
        self.parameters@
    }
}

/// Whether `p` reads as a `ERR_STARTTLSERROR` reply, and if not, the first error
pub open spec fn check_start_tls_error(p: ParamsView) -> Result<(), ReplyErrorView> {
    if p.all().len() < 2 {
        Err(param_qty(2, p))
    } else {
        first_err(field_reply_target(p, 0), Ok(()))
    }
}

impl StartTLSError {
    #[verifier::type_invariant]
    spec fn inv(self) -> bool {
        &&& check_start_tls_error(self.parameters@) is Ok
        &&& field_reply_target(self.parameters@, 0) == Ok::<TargetView, ReplyErrorView>(self.client@)
    }

    /// Reads `parameters` as a `ERR_STARTTLSERROR` reply
    pub fn try_from_params(parameters: ParameterList) -> (r: Result<StartTLSError, ReplyError>)
        ensures
            match r {
                Ok(x) => check_start_tls_error(parameters@) is Ok && x@ == parameters@,
                Err(e) => check_start_tls_error(parameters@) == Err::<(), ReplyErrorView>(e@),
            },
    {
        if parameters.len() < 2 {
            return Err(ReplyError::ParamQty { min_required: 2, received: parameters.len() });
        }
        let client = match reply_target_at(&parameters, 0) {
            Ok(v) => v,
            Err(e) => {
                return Err(e);
            },
        };
        Ok(StartTLSError { parameters, client })
    }

    pub fn client(&self) -> (r: &ReplyTarget)
        ensures
            field_reply_target(self@, 0) == Ok::<TargetView, ReplyErrorView>(r@),
    {
        proof {
            use_type_invariant(self);
        }
        &self.client
    }

    pub fn message(&self) -> (r: &str)
        ensures
            r@ == self@.all().last(),
    {
        proof {
            use_type_invariant(self);
        }
        last_str(&self.parameters)
    }

}

impl ReplyParts for StartTLSError {
    open spec fn reply_code(&self) -> u16 {
        ERR_STARTTLSERROR
    }

    open spec fn reply_params(&self) -> ParamsView {
        self@
    }

    fn code(&self) -> (r: u16) {
        ERR_STARTTLSERROR
    }

    fn parameters(&self) -> (r: &ParameterList) {
        proof {
            use_type_invariant(self);
        }
        &self.parameters
    }

    fn is_error(&self) -> (r: bool) {
        true
    }

    fn into_parts(self) -> (r: (u16, ParameterList)) {
        proof {
            use_type_invariant(&self);
        }
        (ERR_STARTTLSERROR, self.parameters)
    }
}

impl Clone for StartTLSError {
    fn clone(&self) -> (r: Self)
        ensures
            r@ == self@,
    {
        proof {
            use_type_invariant(self);
        }
        match StartTLSError::try_from_params(self.parameters.clone()) {
            Ok(x) => x,
            Err(_) => {
                assert(false);
                unreached()
            },
        }
    }
}

/// The `ERR_INVALIDMODEPARAM` reply (696)
#[derive(Debug, PartialEq, Eq)]
pub struct InvalidModeParam {
    parameters: ParameterList,
    client: ReplyTarget,
    target: ModeTarget,
}

impl View for InvalidModeParam {
    type V = ParamsView;

    closed spec fn view(&self) -> ParamsView {
        self.parameters@
    }
}

/// Whether `p` reads as a `ERR_INVALIDMODEPARAM` reply, and if not, the first error
pub open spec fn check_invalid_mode_param(p: ParamsView) -> Result<(), ReplyErrorView> {
    if p.all().len() < 5 {
        Err(param_qty(5, p))
    } else {
        first_err(field_reply_target(p, 0), first_err(field_mode_target(p, 1), Ok(())))
    }
}

impl InvalidModeParam {
    #[verifier::type_invariant]
    spec fn inv(self) -> bool {
        &&& check_invalid_mode_param(self.parameters@) is Ok
        &&& field_reply_target(self.parameters@, 0) == Ok::<TargetView, ReplyErrorView>(self.client@)
        &&& field_mode_target(self.parameters@, 1) == Ok::<TargetView, ReplyErrorView>(self.target@)
    }

    /// Reads `parameters` as a `ERR_INVALIDMODEPARAM` reply
    pub fn try_from_params(parameters: ParameterList) -> (r: Result<InvalidModeParam, ReplyError>)
        ensures
            match r {
                Ok(x) => check_invalid_mode_param(parameters@) is Ok && x@ == parameters@,
                Err(e) => check_invalid_mode_param(parameters@) == Err::<(), ReplyErrorView>(e@),
            },
    {
        if parameters.len() < 5 {
            return Err(ReplyError::ParamQty { min_required: 5, received: parameters.len() });
        }
        let client = match reply_target_at(&parameters, 0) {
            Ok(v) => v,
            Err(e) => {
                return Err(e);
            },
        };
        let target = match mode_target_at(&parameters, 1) {
            Ok(v) => v,
            Err(e) => {
                return Err(e);
            },
        };
        Ok(InvalidModeParam { parameters, client, target })
    }

    pub fn client(&self) -> (r: &ReplyTarget)
        ensures
            field_reply_target(self@, 0) == Ok::<TargetView, ReplyErrorView>(r@),
    {
        proof {
            use_type_invariant(self);
        }
        &self.client
    }

    pub fn target(&self) -> (r: &ModeTarget)
        ensures
            field_mode_target(self@, 1) == Ok::<TargetView, ReplyErrorView>(r@),
    {
        proof {
            use_type_invariant(self);
        }
        &self.target
    }

    pub fn modechar(&self) -> (r: &str)
        ensures
            r@ == param_at(self@, 2),
    {
        proof {
            use_type_invariant(self);
        }
        param_str(&self.parameters, 2)
    }

    pub fn parameter(&self) -> (r: &str)
        ensures
            r@ == param_at(self@, 3),
    {
        proof {
            use_type_invariant(self);
        }
        param_str(&self.parameters, 3)
    }

    pub fn message(&self) -> (r: &str)
        ensures
            r@ == self@.all().last(),
    {
        proof {
            use_type_invariant(self);
        }
        last_str(&self.parameters)
    }

}

impl ReplyParts for InvalidModeParam {
    open spec fn reply_code(&self) -> u16 {
        ERR_INVALIDMODEPARAM
    }

    open spec fn reply_params(&self) -> ParamsView {
        self@
    }

    fn code(&self) -> (r: u16) {
        ERR_INVALIDMODEPARAM
    }

    fn parameters(&self) -> (r: &ParameterList) {
        proof {
            use_type_invariant(self);
        }
        &self.parameters
    }

    fn is_error(&self) -> (r: bool) {
        true
    }

    fn into_parts(self) -> (r: (u16, ParameterList)) {
        proof {
            use_type_invariant(&self);
        }
        (ERR_INVALIDMODEPARAM, self.parameters)
    }
}

impl Clone for InvalidModeParam {
    fn clone(&self) -> (r: Self)
        ensures
            r@ == self@,
    {
        proof {
            use_type_invariant(self);
        }
        match InvalidModeParam::try_from_params(self.parameters.clone()) {
            Ok(x) => x,
            Err(_) => {
                assert(false);
                unreached()
            },
        }
    }
}

/// The `RPL_HELPSTART` reply (704)
#[derive(Debug, PartialEq, Eq)]
pub struct HelpStart {
    parameters: ParameterList,
    client: ReplyTarget,
}

impl View for HelpStart {
    type V = ParamsView;

    closed spec fn view(&self) -> ParamsView {
        self.parameters@
    }
}

/// Whether `p` reads as a `RPL_HELPSTART` reply, and if not, the first error
pub open spec fn check_help_start(p: ParamsView) -> Result<(), ReplyErrorView> {
    if p.all().len() < 3 {
        Err(param_qty(3, p))
    } else {
        first_err(field_reply_target(p, 0), Ok(()))
    }
}

impl HelpStart {
    #[verifier::type_invariant]
    spec fn inv(self) -> bool {
        &&& check_help_start(self.parameters@) is Ok
        &&& field_reply_target(self.parameters@, 0) == Ok::<TargetView, ReplyErrorView>(self.client@)
    }

    /// Reads `parameters` as a `RPL_HELPSTART` reply
    pub fn try_from_params(parameters: ParameterList) -> (r: Result<HelpStart, ReplyError>)
        ensures
            match r {
                Ok(x) => check_help_start(parameters@) is Ok && x@ == parameters@,
                Err(e) => check_help_start(parameters@) == Err::<(), ReplyErrorView>(e@),
            },
    {
        if parameters.len() < 3 {
            return Err(ReplyError::ParamQty { min_required: 3, received: parameters.len() });
        }
        let client = match reply_target_at(&parameters, 0) {
            Ok(v) => v,
            Err(e) => {
                return Err(e);
            },
        };
        Ok(HelpStart { parameters, client })
    }

    pub fn client(&self) -> (r: &ReplyTarget)
        ensures
            field_reply_target(self@, 0) == Ok::<TargetView, ReplyErrorView>(r@),
    {
        proof {
            use_type_invariant(self);
        }
        &self.client
    }

    pub fn subject(&self) -> (r: &str)
        ensures
            r@ == param_at(self@, 1),
    {
        proof {
            use_type_invariant(self);
        }
        param_str(&self.parameters, 1)
    }

    pub fn message(&self) -> (r: &str)
        ensures
            r@ == self@.all().last(),
    {
        proof {
            use_type_invariant(self);
        }
        last_str(&self.parameters)
    }

}

impl ReplyParts for HelpStart {
    open spec fn reply_code(&self) -> u16 {
        RPL_HELPSTART
    }

    open spec fn reply_params(&self) -> ParamsView {
        self@
    }

    fn code(&self) -> (r: u16) {
        RPL_HELPSTART
    }

    fn parameters(&self) -> (r: &ParameterList) {
        proof {
            use_type_invariant(self);
        }
        &self.parameters
    }

    fn is_error(&self) -> (r: bool) {
        false
    }

    fn into_parts(self) -> (r: (u16, ParameterList)) {
        proof {
            use_type_invariant(&self);
        }
        (RPL_HELPSTART, self.parameters)
    }
}

impl Clone for HelpStart {
    fn clone(&self) -> (r: Self)
        ensures
            r@ == self@,
    {
        proof {
            use_type_invariant(self);
        }
        match HelpStart::try_from_params(self.parameters.clone()) {
            Ok(x) => x,
            Err(_) => {
                assert(false);
                unreached()
            },
        }
    }
}

/// The `RPL_HELPTXT` reply (705)
#[derive(Debug, PartialEq, Eq)]
pub struct HelpTxt {
    parameters: ParameterList,
    client: ReplyTarget,
}

impl View for HelpTxt {
    type V = ParamsView;

    closed spec fn view(&self) -> ParamsView {
        self.parameters@
    }
}

/// Whether `p` reads as a `RPL_HELPTXT` reply, and if not, the first error
pub open spec fn check_help_txt(p: ParamsView) -> Result<(), ReplyErrorView> {
    if p.all().len() < 3 {
        Err(param_qty(3, p))
    } else {
        first_err(field_reply_target(p, 0), Ok(()))
    }
}

impl HelpTxt {
    #[verifier::type_invariant]
    spec fn inv(self) -> bool {
        &&& check_help_txt(self.parameters@) is Ok
        &&& field_reply_target(self.parameters@, 0) == Ok::<TargetView, ReplyErrorView>(self.client@)
    }

    /// Reads `parameters` as a `RPL_HELPTXT` reply
    pub fn try_from_params(parameters: ParameterList) -> (r: Result<HelpTxt, ReplyError>)
        ensures
            match r {
                Ok(x) => check_help_txt(parameters@) is Ok && x@ == parameters@,
                Err(e) => check_help_txt(parameters@) == Err::<(), ReplyErrorView>(e@),
            },
    {
        if parameters.len() < 3 {
            return Err(ReplyError::ParamQty { min_required: 3, received: parameters.len() });
        }
        let client = match reply_target_at(&parameters, 0) {
            Ok(v) => v,
            Err(e) => {
                return Err(e);
            },
        };
        Ok(HelpTxt { parameters, client })
    }

    pub fn client(&self) -> (r: &ReplyTarget)
        ensures
            field_reply_target(self@, 0) == Ok::<TargetView, ReplyErrorView>(r@),
    {
        proof {
            use_type_invariant(self);
        }
        &self.client
    }

    pub fn subject(&self) -> (r: &str)
        ensures
            r@ == param_at(self@, 1),
    {
        proof {
            use_type_invariant(self);
        }
        param_str(&self.parameters, 1)
    }

    pub fn message(&self) -> (r: &str)
        ensures
            r@ == self@.all().last(),
    {
        proof {
            use_type_invariant(self);
        }
        last_str(&self.parameters)
    }

}

impl ReplyParts for HelpTxt {
    open spec fn reply_code(&self) -> u16 {
        RPL_HELPTXT
    }

    open spec fn reply_params(&self) -> ParamsView {
        self@
    }

    fn code(&self) -> (r: u16) {
        RPL_HELPTXT
    }

    fn parameters(&self) -> (r: &ParameterList) {
        proof {
            use_type_invariant(self);
        }
        &self.parameters
    }

    fn is_error(&self) -> (r: bool) {
        false
    }

    fn into_parts(self) -> (r: (u16, ParameterList)) {
        proof {
            use_type_invariant(&self);
        }
        (RPL_HELPTXT, self.parameters)
    }
}

impl Clone for HelpTxt {
    fn clone(&self) -> (r: Self)
        ensures
            r@ == self@,
    {
        proof {
            use_type_invariant(self);
        }
        match HelpTxt::try_from_params(self.parameters.clone()) {
            Ok(x) => x,
            Err(_) => {
                assert(false);
                unreached()
            },
        }
    }
}

/// The `RPL_ENDOFHELP` reply (706)
#[derive(Debug, PartialEq, Eq)]
pub struct EndOfHelp {
    parameters: ParameterList,
    client: ReplyTarget,
}

impl View for EndOfHelp {
    type V = ParamsView;

    closed spec fn view(&self) -> ParamsView {
        self.parameters@
    }
}

/// Whether `p` reads as a `RPL_ENDOFHELP` reply, and if not, the first error
pub open spec fn check_end_of_help(p: ParamsView) -> Result<(), ReplyErrorView> {
    if p.all().len() < 3 {
        Err(param_qty(3, p))
    } else {
        first_err(field_reply_target(p, 0), Ok(()))
    }
}

impl EndOfHelp {
    #[verifier::type_invariant]
    spec fn inv(self) -> bool {
        &&& check_end_of_help(self.parameters@) is Ok
        &&& field_reply_target(self.parameters@, 0) == Ok::<TargetView, ReplyErrorView>(self.client@)
    }

    /// Reads `parameters` as a `RPL_ENDOFHELP` reply
    pub fn try_from_params(parameters: ParameterList) -> (r: Result<EndOfHelp, ReplyError>)
        ensures
            match r {
                Ok(x) => check_end_of_help(parameters@) is Ok && x@ == parameters@,
                Err(e) => check_end_of_help(parameters@) == Err::<(), ReplyErrorView>(e@),
            },
    {
        if parameters.len() < 3 {
            return Err(ReplyError::ParamQty { min_required: 3, received: parameters.len() });
        }
        let client = match reply_target_at(&parameters, 0) {
            Ok(v) => v,
            Err(e) => {
                return Err(e);
            },
        };
        Ok(EndOfHelp { parameters, client })
    }

    pub fn client(&self) -> (r: &ReplyTarget)
        ensures
            field_reply_target(self@, 0) == Ok::<TargetView, ReplyErrorView>(r@),
    {
        proof {
            use_type_invariant(self);
        }
        &self.client
    }

    pub fn subject(&self) -> (r: &str)
        ensures
            r@ == param_at(self@, 1),
    {
        proof {
            use_type_invariant(self);
        }
        param_str(&self.parameters, 1)
    }

    pub fn message(&self) -> (r: &str)
        ensures
            r@ == self@.all().last(),
    {
        proof {
            use_type_invariant(self);
        }
        last_str(&self.parameters)
    }

}

impl ReplyParts for EndOfHelp {
    open spec fn reply_code(&self) -> u16 {
        RPL_ENDOFHELP
    }

    open spec fn reply_params(&self) -> ParamsView {
        self@
    }

    fn code(&self) -> (r: u16) {
        RPL_ENDOFHELP
    }

    fn parameters(&self) -> (r: &ParameterList) {
        proof {
            use_type_invariant(self);
        }
        &self.parameters
    }

    fn is_error(&self) -> (r: bool) {
        false
    }

    fn into_parts(self) -> (r: (u16, ParameterList)) {
        proof {
            use_type_invariant(&self);
        }
        (RPL_ENDOFHELP, self.parameters)
    }
}

impl Clone for EndOfHelp {
    fn clone(&self) -> (r: Self)
        ensures
            r@ == self@,
    {
        proof {
            use_type_invariant(self);
        }
        match EndOfHelp::try_from_params(self.parameters.clone()) {
            Ok(x) => x,
            Err(_) => {
                assert(false);
                unreached()
            },
        }
    }
}

/// The `ERR_NOPRIVS` reply (723)
#[derive(Debug, PartialEq, Eq)]
pub struct NoPrivs {
    parameters: ParameterList,
    client: ReplyTarget,
}

impl View for NoPrivs {
    type V = ParamsView;

    closed spec fn view(&self) -> ParamsView {
        self.parameters@
    }
}

/// Whether `p` reads as a `ERR_NOPRIVS` reply, and if not, the first error
pub open spec fn check_no_privs(p: ParamsView) -> Result<(), ReplyErrorView> {
    if p.all().len() < 3 {
        Err(param_qty(3, p))
    } else {
        first_err(field_reply_target(p, 0), Ok(()))
    }
}

impl NoPrivs {
    #[verifier::type_invariant]
    spec fn inv(self) -> bool {
        &&& check_no_privs(self.parameters@) is Ok
        &&& field_reply_target(self.parameters@, 0) == Ok::<TargetView, ReplyErrorView>(self.client@)
    }

    /// Reads `parameters` as a `ERR_NOPRIVS` reply
    pub fn try_from_params(parameters: ParameterList) -> (r: Result<NoPrivs, ReplyError>)
        ensures
            match r {
                Ok(x) => check_no_privs(parameters@) is Ok && x@ == parameters@,
                Err(e) => check_no_privs(parameters@) == Err::<(), ReplyErrorView>(e@),
            },
    {
        if parameters.len() < 3 {
            return Err(ReplyError::ParamQty { min_required: 3, received: parameters.len() });
        }
        let client = match reply_target_at(&parameters, 0) {
            Ok(v) => v,
            Err(e) => {
                return Err(e);
            },
        };
        Ok(NoPrivs { parameters, client })
    }

    pub fn client(&self) -> (r: &ReplyTarget)
        ensures
            field_reply_target(self@, 0) == Ok::<TargetView, ReplyErrorView>(r@),
    {
        proof {
            use_type_invariant(self);
        }
        &self.client
    }

    pub fn privilege(&self) -> (r: &str)
        ensures
            r@ == param_at(self@, 1),
    {
        proof {
            use_type_invariant(self);
        }
        param_str(&self.parameters, 1)
    }

    pub fn message(&self) -> (r: &str)
        ensures
            r@ == self@.all().last(),
    {
        proof {
            use_type_invariant(self);
        }
        last_str(&self.parameters)
    }

}

impl ReplyParts for NoPrivs {
    open spec fn reply_code(&self) -> u16 {
        ERR_NOPRIVS
    }

    open spec fn reply_params(&self) -> ParamsView {
        self@
    }

    fn code(&self) -> (r: u16) {
        ERR_NOPRIVS
    }

    fn parameters(&self) -> (r: &ParameterList) {
        proof {
            use_type_invariant(self);
        }
        &self.parameters
    }

    fn is_error(&self) -> (r: bool) {
        true
    }

    fn into_parts(self) -> (r: (u16, ParameterList)) {
        proof {
            use_type_invariant(&self);
        }
        (ERR_NOPRIVS, self.parameters)
    }
}

impl Clone for NoPrivs {
    fn clone(&self) -> (r: Self)
        ensures
            r@ == self@,
    {
        proof {
            use_type_invariant(self);
        }
        match NoPrivs::try_from_params(self.parameters.clone()) {
            Ok(x) => x,
            Err(_) => {
                assert(false);
                unreached()
            },
        }
    }
}

/// The `RPL_LOGGEDIN` reply (900)
#[derive(Debug, PartialEq, Eq)]
pub struct LoggedIn {
    parameters: ParameterList,
    client: ReplyTarget,
    your_source: Option<ClientSource>,
}

impl View for LoggedIn {
    type V = ParamsView;

    closed spec fn view(&self) -> ParamsView {
        self.parameters@
    }
}

/// Whether `p` reads as a `RPL_LOGGEDIN` reply, and if not, the first error
pub open spec fn check_logged_in(p: ParamsView) -> Result<(), ReplyErrorView> {
    if p.all().len() < 4 {
        Err(param_qty(4, p))
    } else {
        first_err(field_reply_target(p, 0), first_err(field_opt_client_source(p, 1), Ok(())))
    }
}

impl LoggedIn {
    #[verifier::type_invariant]
    spec fn inv(self) -> bool {
        &&& check_logged_in(self.parameters@) is Ok
        &&& field_reply_target(self.parameters@, 0) == Ok::<TargetView, ReplyErrorView>(self.client@)
        &&& field_opt_client_source(self.parameters@, 1) == Ok::<Option<ClientSourceView>, ReplyErrorView>(
            opt_client_source_view(self.your_source),
        )
    }

    /// Reads `parameters` as a `RPL_LOGGEDIN` reply
    pub fn try_from_params(parameters: ParameterList) -> (r: Result<LoggedIn, ReplyError>)
        ensures
            match r {
                Ok(x) => check_logged_in(parameters@) is Ok && x@ == parameters@,
                Err(e) => check_logged_in(parameters@) == Err::<(), ReplyErrorView>(e@),
            },
    {
        if parameters.len() < 4 {
            return Err(ReplyError::ParamQty { min_required: 4, received: parameters.len() });
        }
        let client = match reply_target_at(&parameters, 0) {
            Ok(v) => v,
            Err(e) => {
                return Err(e);
            },
        };
        let your_source = match opt_client_source_at(&parameters, 1) {
            Ok(v) => v,
            Err(e) => {
                return Err(e);
            },
        };
        Ok(LoggedIn { parameters, client, your_source })
    }

    pub fn client(&self) -> (r: &ReplyTarget)
        ensures
            field_reply_target(self@, 0) == Ok::<TargetView, ReplyErrorView>(r@),
    {
        proof {
            use_type_invariant(self);
        }
        &self.client
    }

    /// The source of the client that logged in, or none if the server gave `*`
    pub fn your_source(&self) -> (r: Option<&ClientSource>)
        ensures
            field_opt_client_source(self@, 1) == Ok::<Option<ClientSourceView>, ReplyErrorView>(match r {
                Some(c) => Some(c@),
                None => None,
            }),
    {
        proof {
            use_type_invariant(self);
        }
        match &self.your_source {
            Some(c) => Some(c),
            None => None,
        }
    }

    pub fn account(&self) -> (r: &str)
        ensures
            r@ == param_at(self@, 2),
    {
        proof {
            use_type_invariant(self);
        }
        param_str(&self.parameters, 2)
    }

    pub fn message(&self) -> (r: &str)
        ensures
            r@ == self@.all().last(),
    {
        proof {
            use_type_invariant(self);
        }
        last_str(&self.parameters)
    }

}

impl ReplyParts for LoggedIn {
    open spec fn reply_code(&self) -> u16 {
        RPL_LOGGEDIN
    }

    open spec fn reply_params(&self) -> ParamsView {
        self@
    }

    fn code(&self) -> (r: u16) {
        RPL_LOGGEDIN
    }

    fn parameters(&self) -> (r: &ParameterList) {
        proof {
            use_type_invariant(self);
        }
        &self.parameters
    }

    fn is_error(&self) -> (r: bool) {
        false
    }

    fn into_parts(self) -> (r: (u16, ParameterList)) {
        proof {
            use_type_invariant(&self);
        }
        (RPL_LOGGEDIN, self.parameters)
    }
}

impl Clone for LoggedIn {
    fn clone(&self) -> (r: Self)
        ensures
            r@ == self@,
    {
        proof {
            use_type_invariant(self);
        }
        match LoggedIn::try_from_params(self.parameters.clone()) {
            Ok(x) => x,
            Err(_) => {
                assert(false);
                unreached()
            },
        }
    }
}

/// The `RPL_LOGGEDOUT` reply (901)
#[derive(Debug, PartialEq, Eq)]
pub struct LoggedOut {
    parameters: ParameterList,
    client: ReplyTarget,
    your_source: ClientSource,
}

impl View for LoggedOut {
    type V = ParamsView;

    closed spec fn view(&self) -> ParamsView {
        self.parameters@
    }
}

/// Whether `p` reads as a `RPL_LOGGEDOUT` reply, and if not, the first error
pub open spec fn check_logged_out(p: ParamsView) -> Result<(), ReplyErrorView> {
    if p.all().len() < 3 {
        Err(param_qty(3, p))
    } else {
        first_err(field_reply_target(p, 0), first_err(field_client_source(p, 1), Ok(())))
    }
}

impl LoggedOut {
    #[verifier::type_invariant]
    spec fn inv(self) -> bool {
        &&& check_logged_out(self.parameters@) is Ok
        &&& field_reply_target(self.parameters@, 0) == Ok::<TargetView, ReplyErrorView>(self.client@)
        &&& field_client_source(self.parameters@, 1) == Ok::<ClientSourceView, ReplyErrorView>(self.your_source@)
    }

    /// Reads `parameters` as a `RPL_LOGGEDOUT` reply
    pub fn try_from_params(parameters: ParameterList) -> (r: Result<LoggedOut, ReplyError>)
        ensures
            match r {
                Ok(x) => check_logged_out(parameters@) is Ok && x@ == parameters@,
                Err(e) => check_logged_out(parameters@) == Err::<(), ReplyErrorView>(e@),
            },
    {
        if parameters.len() < 3 {
            return Err(ReplyError::ParamQty { min_required: 3, received: parameters.len() });
        }
        let client = match reply_target_at(&parameters, 0) {
            Ok(v) => v,
            Err(e) => {
                return Err(e);
            },
        };
        let your_source = match client_source_at(&parameters, 1) {
            Ok(v) => v,
            Err(e) => {
                return Err(e);
            },
        };
        Ok(LoggedOut { parameters, client, your_source })
    }

    pub fn client(&self) -> (r: &ReplyTarget)
        ensures
            field_reply_target(self@, 0) == Ok::<TargetView, ReplyErrorView>(r@),
    {
        proof {
            use_type_invariant(self);
        }
        &self.client
    }

    pub fn your_source(&self) -> (r: &ClientSource)
        ensures
            field_client_source(self@, 1) == Ok::<ClientSourceView, ReplyErrorView>(r@),
    {
        proof {
            use_type_invariant(self);
        }
        &self.your_source
    }

    pub fn message(&self) -> (r: &str)
        ensures
            r@ == self@.all().last(),
    {
        proof {
            use_type_invariant(self);
        }
        last_str(&self.parameters)
    }

}

impl ReplyParts for LoggedOut {
    open spec fn reply_code(&self) -> u16 {
        RPL_LOGGEDOUT
    }

    open spec fn reply_params(&self) -> ParamsView {
        self@
    }

    fn code(&self) -> (r: u16) {
        RPL_LOGGEDOUT
    }

    fn parameters(&self) -> (r: &ParameterList) {
        proof {
            use_type_invariant(self);
        }
        &self.parameters
    }

    fn is_error(&self) -> (r: bool) {
        false
    }

    fn into_parts(self) -> (r: (u16, ParameterList)) {
        proof {
            use_type_invariant(&self);
        }
        (RPL_LOGGEDOUT, self.parameters)
    }
}

impl Clone for LoggedOut {
    fn clone(&self) -> (r: Self)
        ensures
            r@ == self@,
    {
        proof {
            use_type_invariant(self);
        }
        match LoggedOut::try_from_params(self.parameters.clone()) {
            Ok(x) => x,
            Err(_) => {
                assert(false);
                unreached()
            },
        }
    }
}

/// The `ERR_NICKLOCKED` reply (902)
#[derive(Debug, PartialEq, Eq)]
pub struct NickLocked {
    parameters: ParameterList,
    client: ReplyTarget,
}

impl View for NickLocked {
    type V = ParamsView;

    closed spec fn view(&self) -> ParamsView {
        self.parameters@
    }
}

/// Whether `p` reads as a `ERR_NICKLOCKED` reply, and if not, the first error
pub open spec fn check_nick_locked(p: ParamsView) -> Result<(), ReplyErrorView> {
    if p.all().len() < 2 {
        Err(param_qty(2, p))
    } else {
        first_err(field_reply_target(p, 0), Ok(()))
    }
}

impl NickLocked {
    #[verifier::type_invariant]
    spec fn inv(self) -> bool {
        &&& check_nick_locked(self.parameters@) is Ok
        &&& field_reply_target(self.parameters@, 0) == Ok::<TargetView, ReplyErrorView>(self.client@)
    }

    /// Reads `parameters` as a `ERR_NICKLOCKED` reply
    pub fn try_from_params(parameters: ParameterList) -> (r: Result<NickLocked, ReplyError>)
        ensures
            match r {
                Ok(x) => check_nick_locked(parameters@) is Ok && x@ == parameters@,
                Err(e) => check_nick_locked(parameters@) == Err::<(), ReplyErrorView>(e@),
            },
    {
        if parameters.len() < 2 {
            return Err(ReplyError::ParamQty { min_required: 2, received: parameters.len() });
        }
        let client = match reply_target_at(&parameters, 0) {
            Ok(v) => v,
            Err(e) => {
                return Err(e);
            },
        };
        Ok(NickLocked { parameters, client })
    }

    pub fn client(&self) -> (r: &ReplyTarget)
        ensures
            field_reply_target(self@, 0) == Ok::<TargetView, ReplyErrorView>(r@),
    {
        proof {
            use_type_invariant(self);
        }
        &self.client
    }

    pub fn message(&self) -> (r: &str)
        ensures
            r@ == self@.all().last(),
    {
        proof {
            use_type_invariant(self);
        }
        last_str(&self.parameters)
    }

}

impl ReplyParts for NickLocked {
    open spec fn reply_code(&self) -> u16 {
        ERR_NICKLOCKED
    }

    open spec fn reply_params(&self) -> ParamsView {
        self@
    }

    fn code(&self) -> (r: u16) {
        ERR_NICKLOCKED
    }

    fn parameters(&self) -> (r: &ParameterList) {
        proof {
            use_type_invariant(self);
        }
        &self.parameters
    }

    fn is_error(&self) -> (r: bool) {
        true
    }

    fn into_parts(self) -> (r: (u16, ParameterList)) {
        proof {
            use_type_invariant(&self);
        }
        (ERR_NICKLOCKED, self.parameters)
    }
}

impl Clone for NickLocked {
    fn clone(&self) -> (r: Self)
        ensures
            r@ == self@,
    {
        proof {
            use_type_invariant(self);
        }
        match NickLocked::try_from_params(self.parameters.clone()) {
            Ok(x) => x,
            Err(_) => {
                assert(false);
                unreached()
            },
        }
    }
}

/// The `RPL_SASLSUCCESS` reply (903)
#[derive(Debug, PartialEq, Eq)]
pub struct SaslSuccess {
    parameters: ParameterList,
    client: ReplyTarget,
}

impl View for SaslSuccess {
    type V = ParamsView;

    closed spec fn view(&self) -> ParamsView {
        self.parameters@
    }
}

/// Whether `p` reads as a `RPL_SASLSUCCESS` reply, and if not, the first error
pub open spec fn check_sasl_success(p: ParamsView) -> Result<(), ReplyErrorView> {
    if p.all().len() < 2 {
        Err(param_qty(2, p))
    } else {
        first_err(field_reply_target(p, 0), Ok(()))
    }
}

impl SaslSuccess {
    #[verifier::type_invariant]
    spec fn inv(self) -> bool {
        &&& check_sasl_success(self.parameters@) is Ok
        &&& field_reply_target(self.parameters@, 0) == Ok::<TargetView, ReplyErrorView>(self.client@)
    }

    /// Reads `parameters` as a `RPL_SASLSUCCESS` reply
    pub fn try_from_params(parameters: ParameterList) -> (r: Result<SaslSuccess, ReplyError>)
        ensures
            match r {
                Ok(x) => check_sasl_success(parameters@) is Ok && x@ == parameters@,
                Err(e) => check_sasl_success(parameters@) == Err::<(), ReplyErrorView>(e@),
            },
    {
        if parameters.len() < 2 {
            return Err(ReplyError::ParamQty { min_required: 2, received: parameters.len() });
        }
        let client = match reply_target_at(&parameters, 0) {
            Ok(v) => v,
            Err(e) => {
                return Err(e);
            },
        };
        Ok(SaslSuccess { parameters, client })
    }

    pub fn client(&self) -> (r: &ReplyTarget)
        ensures
            field_reply_target(self@, 0) == Ok::<TargetView, ReplyErrorView>(r@),
    {
        proof {
            use_type_invariant(self);
        }
        &self.client
    }

    pub fn message(&self) -> (r: &str)
        ensures
            r@ == self@.all().last(),
    {
        proof {
            use_type_invariant(self);
        }
        last_str(&self.parameters)
    }

}

impl ReplyParts for SaslSuccess {
    open spec fn reply_code(&self) -> u16 {
        RPL_SASLSUCCESS
    }

    open spec fn reply_params(&self) -> ParamsView {
        self@
    }

    fn code(&self) -> (r: u16) {
        RPL_SASLSUCCESS
    }

    fn parameters(&self) -> (r: &ParameterList) {
        proof {
            use_type_invariant(self);
        }
        &self.parameters
    }

    fn is_error(&self) -> (r: bool) {
        false
    }

    fn into_parts(self) -> (r: (u16, ParameterList)) {
        proof {
            use_type_invariant(&self);
        }
        (RPL_SASLSUCCESS, self.parameters)
    }
}

impl Clone for SaslSuccess {
    fn clone(&self) -> (r: Self)
        ensures
            r@ == self@,
    {
        proof {
            use_type_invariant(self);
        }
        match SaslSuccess::try_from_params(self.parameters.clone()) {
            Ok(x) => x,
            Err(_) => {
                assert(false);
                unreached()
            },
        }
    }
}

/// The `ERR_SASLFAIL` reply (904)
#[derive(Debug, PartialEq, Eq)]
pub struct SaslFail {
    parameters: ParameterList,
    client: ReplyTarget,
}

impl View for SaslFail {
    type V = ParamsView;

    closed spec fn view(&self) -> ParamsView {
        self.parameters@
    }
}

/// Whether `p` reads as a `ERR_SASLFAIL` reply, and if not, the first error
pub open spec fn check_sasl_fail(p: ParamsView) -> Result<(), ReplyErrorView> {
    if p.all().len() < 2 {
        Err(param_qty(2, p))
    } else {
        first_err(field_reply_target(p, 0), Ok(()))
    }
}

impl SaslFail {
    #[verifier::type_invariant]
    spec fn inv(self) -> bool {
        &&& check_sasl_fail(self.parameters@) is Ok
        &&& field_reply_target(self.parameters@, 0) == Ok::<TargetView, ReplyErrorView>(self.client@)
    }

    /// Reads `parameters` as a `ERR_SASLFAIL` reply
    pub fn try_from_params(parameters: ParameterList) -> (r: Result<SaslFail, ReplyError>)
        ensures
            match r {
                Ok(x) => check_sasl_fail(parameters@) is Ok && x@ == parameters@,
                Err(e) => check_sasl_fail(parameters@) == Err::<(), ReplyErrorView>(e@),
            },
    {
        if parameters.len() < 2 {
            return Err(ReplyError::ParamQty { min_required: 2, received: parameters.len() });
        }
        let client = match reply_target_at(&parameters, 0) {
            Ok(v) => v,
            Err(e) => {
                return Err(e);
            },
        };
        Ok(SaslFail { parameters, client })
    }

    pub fn client(&self) -> (r: &ReplyTarget)
        ensures
            field_reply_target(self@, 0) == Ok::<TargetView, ReplyErrorView>(r@),
    {
        proof {
            use_type_invariant(self);
        }
        &self.client
    }

    pub fn message(&self) -> (r: &str)
        ensures
            r@ == self@.all().last(),
    {
        proof {
            use_type_invariant(self);
        }
        last_str(&self.parameters)
    }

}

impl ReplyParts for SaslFail {
    open spec fn reply_code(&self) -> u16 {
        ERR_SASLFAIL
    }

    open spec fn reply_params(&self) -> ParamsView {
        self@
    }

    fn code(&self) -> (r: u16) {
        ERR_SASLFAIL
    }

    fn parameters(&self) -> (r: &ParameterList) {
        proof {
            use_type_invariant(self);
        }
        &self.parameters
    }

    fn is_error(&self) -> (r: bool) {
        true
    }

    fn into_parts(self) -> (r: (u16, ParameterList)) {
        proof {
            use_type_invariant(&self);
        }
        (ERR_SASLFAIL, self.parameters)
    }
}

impl Clone for SaslFail {
    fn clone(&self) -> (r: Self)
        ensures
            r@ == self@,
    {
        proof {
            use_type_invariant(self);
        }
        match SaslFail::try_from_params(self.parameters.clone()) {
            Ok(x) => x,
            Err(_) => {
                assert(false);
                unreached()
            },
        }
    }
}

/// The `ERR_SASLTOOLONG` reply (905)
#[derive(Debug, PartialEq, Eq)]
pub struct SaslTooLong {
    parameters: ParameterList,
    client: ReplyTarget,
}

impl View for SaslTooLong {
    type V = ParamsView;

    closed spec fn view(&self) -> ParamsView {
        self.parameters@
    }
}

/// Whether `p` reads as a `ERR_SASLTOOLONG` reply, and if not, the first error
pub open spec fn check_sasl_too_long(p: ParamsView) -> Result<(), ReplyErrorView> {
    if p.all().len() < 2 {
        Err(param_qty(2, p))
    } else {
        first_err(field_reply_target(p, 0), Ok(()))
    }
}

impl SaslTooLong {
    #[verifier::type_invariant]
    spec fn inv(self) -> bool {
        &&& check_sasl_too_long(self.parameters@) is Ok
        &&& field_reply_target(self.parameters@, 0) == Ok::<TargetView, ReplyErrorView>(self.client@)
    }

    /// Reads `parameters` as a `ERR_SASLTOOLONG` reply
    pub fn try_from_params(parameters: ParameterList) -> (r: Result<SaslTooLong, ReplyError>)
        ensures
            match r {
                Ok(x) => check_sasl_too_long(parameters@) is Ok && x@ == parameters@,
                Err(e) => check_sasl_too_long(parameters@) == Err::<(), ReplyErrorView>(e@),
            },
    {
        if parameters.len() < 2 {
            return Err(ReplyError::ParamQty { min_required: 2, received: parameters.len() });
        }
        let client = match reply_target_at(&parameters, 0) {
            Ok(v) => v,
            Err(e) => {
                return Err(e);
            },
        };
        Ok(SaslTooLong { parameters, client })
    }

    pub fn client(&self) -> (r: &ReplyTarget)
        ensures
            field_reply_target(self@, 0) == Ok::<TargetView, ReplyErrorView>(r@),
    {
        proof {
            use_type_invariant(self);
        }
        &self.client
    }

    pub fn message(&self) -> (r: &str)
        ensures
            r@ == self@.all().last(),
    {
        proof {
            use_type_invariant(self);
        }
        last_str(&self.parameters)
    }

}

impl ReplyParts for SaslTooLong {
    open spec fn reply_code(&self) -> u16 {
        ERR_SASLTOOLONG
    }

    open spec fn reply_params(&self) -> ParamsView {
        self@
    }

    fn code(&self) -> (r: u16) {
        ERR_SASLTOOLONG
    }

    fn parameters(&self) -> (r: &ParameterList) {
        proof {
            use_type_invariant(self);
        }
        &self.parameters
    }

    fn is_error(&self) -> (r: bool) {
        true
    }

    fn into_parts(self) -> (r: (u16, ParameterList)) {
        proof {
            use_type_invariant(&self);
        }
        (ERR_SASLTOOLONG, self.parameters)
    }
}

impl Clone for SaslTooLong {
    fn clone(&self) -> (r: Self)
        ensures
            r@ == self@,
    {
        proof {
            use_type_invariant(self);
        }
        match SaslTooLong::try_from_params(self.parameters.clone()) {
            Ok(x) => x,
            Err(_) => {
                assert(false);
                unreached()
            },
        }
    }
}

/// The `ERR_SASLABORTED` reply (906)
#[derive(Debug, PartialEq, Eq)]
pub struct SaslAborted {
    parameters: ParameterList,
    client: ReplyTarget,
}

impl View for SaslAborted {
    type V = ParamsView;

    closed spec fn view(&self) -> ParamsView {
        self.parameters@
    }
}

/// Whether `p` reads as a `ERR_SASLABORTED` reply, and if not, the first error
pub open spec fn check_sasl_aborted(p: ParamsView) -> Result<(), ReplyErrorView> {
    if p.all().len() < 2 {
        Err(param_qty(2, p))
    } else {
        first_err(field_reply_target(p, 0), Ok(()))
    }
}

impl SaslAborted {
    #[verifier::type_invariant]
    spec fn inv(self) -> bool {
        &&& check_sasl_aborted(self.parameters@) is Ok
        &&& field_reply_target(self.parameters@, 0) == Ok::<TargetView, ReplyErrorView>(self.client@)
    }

    /// Reads `parameters` as a `ERR_SASLABORTED` reply
    pub fn try_from_params(parameters: ParameterList) -> (r: Result<SaslAborted, ReplyError>)
        ensures
            match r {
                Ok(x) => check_sasl_aborted(parameters@) is Ok && x@ == parameters@,
                Err(e) => check_sasl_aborted(parameters@) == Err::<(), ReplyErrorView>(e@),
            },
    {
        if parameters.len() < 2 {
            return Err(ReplyError::ParamQty { min_required: 2, received: parameters.len() });
        }
        let client = match reply_target_at(&parameters, 0) {
            Ok(v) => v,
            Err(e) => {
                return Err(e);
            },
        };
        Ok(SaslAborted { parameters, client })
    }

    pub fn client(&self) -> (r: &ReplyTarget)
        ensures
            field_reply_target(self@, 0) == Ok::<TargetView, ReplyErrorView>(r@),
    {
        proof {
            use_type_invariant(self);
        }
        &self.client
    }

    pub fn message(&self) -> (r: &str)
        ensures
            r@ == self@.all().last(),
    {
        proof {
            use_type_invariant(self);
        }
        last_str(&self.parameters)
    }

}

impl ReplyParts for SaslAborted {
    open spec fn reply_code(&self) -> u16 {
        ERR_SASLABORTED
    }

    open spec fn reply_params(&self) -> ParamsView {
        self@
    }

    fn code(&self) -> (r: u16) {
        ERR_SASLABORTED
    }

    fn parameters(&self) -> (r: &ParameterList) {
        proof {
            use_type_invariant(self);
        }
        &self.parameters
    }

    fn is_error(&self) -> (r: bool) {
        true
    }

    fn into_parts(self) -> (r: (u16, ParameterList)) {
        proof {
            use_type_invariant(&self);
        }
        (ERR_SASLABORTED, self.parameters)
    }
}

impl Clone for SaslAborted {
    fn clone(&self) -> (r: Self)
        ensures
            r@ == self@,
    {
        proof {
            use_type_invariant(self);
        }
        match SaslAborted::try_from_params(self.parameters.clone()) {
            Ok(x) => x,
            Err(_) => {
                assert(false);
                unreached()
            },
        }
    }
}

/// The `ERR_SASLALREADY` reply (907)
#[derive(Debug, PartialEq, Eq)]
pub struct SaslAlready {
    parameters: ParameterList,
    client: ReplyTarget,
}

impl View for SaslAlready {
    type V = ParamsView;

    closed spec fn view(&self) -> ParamsView {
        self.parameters@
    }
}

/// Whether `p` reads as a `ERR_SASLALREADY` reply, and if not, the first error
pub open spec fn check_sasl_already(p: ParamsView) -> Result<(), ReplyErrorView> {
    if p.all().len() < 2 {
        Err(param_qty(2, p))
    } else {
        first_err(field_reply_target(p, 0), Ok(()))
    }
}

impl SaslAlready {
    #[verifier::type_invariant]
    spec fn inv(self) -> bool {
        &&& check_sasl_already(self.parameters@) is Ok
        &&& field_reply_target(self.parameters@, 0) == Ok::<TargetView, ReplyErrorView>(self.client@)
    }

    /// Reads `parameters` as a `ERR_SASLALREADY` reply
    pub fn try_from_params(parameters: ParameterList) -> (r: Result<SaslAlready, ReplyError>)
        ensures
            match r {
                Ok(x) => check_sasl_already(parameters@) is Ok && x@ == parameters@,
                Err(e) => check_sasl_already(parameters@) == Err::<(), ReplyErrorView>(e@),
            },
    {
        if parameters.len() < 2 {
            return Err(ReplyError::ParamQty { min_required: 2, received: parameters.len() });
        }
        let client = match reply_target_at(&parameters, 0) {
            Ok(v) => v,
            Err(e) => {
                return Err(e);
            },
        };
        Ok(SaslAlready { parameters, client })
    }

    pub fn client(&self) -> (r: &ReplyTarget)
        ensures
            field_reply_target(self@, 0) == Ok::<TargetView, ReplyErrorView>(r@),
    {
        proof {
            use_type_invariant(self);
        }
        &self.client
    }

    pub fn message(&self) -> (r: &str)
        ensures
            r@ == self@.all().last(),
    {
        proof {
            use_type_invariant(self);
        }
        last_str(&self.parameters)
    }

}

impl ReplyParts for SaslAlready {
    open spec fn reply_code(&self) -> u16 {
        ERR_SASLALREADY
    }

    open spec fn reply_params(&self) -> ParamsView {
        self@
    }

    fn code(&self) -> (r: u16) {
        ERR_SASLALREADY
    }

    fn parameters(&self) -> (r: &ParameterList) {
        proof {
            use_type_invariant(self);
        }
        &self.parameters
    }

    fn is_error(&self) -> (r: bool) {
        true
    }

    fn into_parts(self) -> (r: (u16, ParameterList)) {
        proof {
            use_type_invariant(&self);
        }
        (ERR_SASLALREADY, self.parameters)
    }
}

impl Clone for SaslAlready {
    fn clone(&self) -> (r: Self)
        ensures
            r@ == self@,
    {
        proof {
            use_type_invariant(self);
        }
        match SaslAlready::try_from_params(self.parameters.clone()) {
            Ok(x) => x,
            Err(_) => {
                assert(false);
                unreached()
            },
        }
    }
}

/// The `RPL_SASLMECHS` reply (908)
#[derive(Debug, PartialEq, Eq)]
pub struct SaslMechs {
    parameters: ParameterList,
    client: ReplyTarget,
}

impl View for SaslMechs {
    type V = ParamsView;

    closed spec fn view(&self) -> ParamsView {
        self.parameters@
    }
}

/// Whether `p` reads as a `RPL_SASLMECHS` reply, and if not, the first error
pub open spec fn check_sasl_mechs(p: ParamsView) -> Result<(), ReplyErrorView> {
    if p.all().len() < 3 {
        Err(param_qty(3, p))
    } else {
        first_err(field_reply_target(p, 0), Ok(()))
    }
}

impl SaslMechs {
    #[verifier::type_invariant]
    spec fn inv(self) -> bool {
        &&& check_sasl_mechs(self.parameters@) is Ok
        &&& field_reply_target(self.parameters@, 0) == Ok::<TargetView, ReplyErrorView>(self.client@)
    }

    /// Reads `parameters` as a `RPL_SASLMECHS` reply
    pub fn try_from_params(parameters: ParameterList) -> (r: Result<SaslMechs, ReplyError>)
        ensures
            match r {
                Ok(x) => check_sasl_mechs(parameters@) is Ok && x@ == parameters@,
                Err(e) => check_sasl_mechs(parameters@) == Err::<(), ReplyErrorView>(e@),
            },
    {
        if parameters.len() < 3 {
            return Err(ReplyError::ParamQty { min_required: 3, received: parameters.len() });
        }
        let client = match reply_target_at(&parameters, 0) {
            Ok(v) => v,
            Err(e) => {
                return Err(e);
            },
        };
        Ok(SaslMechs { parameters, client })
    }

    pub fn client(&self) -> (r: &ReplyTarget)
        ensures
            field_reply_target(self@, 0) == Ok::<TargetView, ReplyErrorView>(r@),
    {
        proof {
            use_type_invariant(self);
        }
        &self.client
    }

    pub fn mechanisms(&self) -> (r: &str)
        ensures
            r@ == param_at(self@, 1),
    {
        proof {
            use_type_invariant(self);
        }
        param_str(&self.parameters, 1)
    }

    pub fn message(&self) -> (r: &str)
        ensures
            r@ == self@.all().last(),
    {
        proof {
            use_type_invariant(self);
        }
        last_str(&self.parameters)
    }

}

impl ReplyParts for SaslMechs {
    open spec fn reply_code(&self) -> u16 {
        RPL_SASLMECHS
    }

    open spec fn reply_params(&self) -> ParamsView {
        self@
    }

    fn code(&self) -> (r: u16) {
        RPL_SASLMECHS
    }

    fn parameters(&self) -> (r: &ParameterList) {
        proof {
            use_type_invariant(self);
        }
        &self.parameters
    }

    fn is_error(&self) -> (r: bool) {
        false
    }

    fn into_parts(self) -> (r: (u16, ParameterList)) {
        proof {
            use_type_invariant(&self);
        }
        (RPL_SASLMECHS, self.parameters)
    }
}

impl Clone for SaslMechs {
    fn clone(&self) -> (r: Self)
        ensures
            r@ == self@,
    {
        proof {
            use_type_invariant(self);
        }
        match SaslMechs::try_from_params(self.parameters.clone()) {
            Ok(x) => x,
            Err(_) => {
                assert(false);
                unreached()
            },
        }
    }
}

} // verus!
