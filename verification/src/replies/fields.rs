//! Reading typed fields out of reply parameters.
use super::{ReplyError, ReplyErrorView};
use crate::command::CommandView;
use crate::host::HostError;
use crate::names::{
    channel_check, modestring_check, nickname_check, username_check, Channel, Modestring,
    Nickname, Username, Verb,
};
use crate::paramlist::{sat_len, ParameterList, ParamsView};
use crate::source::{parse_client_source, ClientSource, ClientSourceView};
use crate::targets::{
    parse_mode_target, parse_reply_target, parse_target, ModeTarget, ReplyTarget, Target,
    TargetView,
};
use crate::text::{parse_uint, parse_uint_exec, split_word, chars_of, exec_split_word, str_eq, string_of, IntErrorKind};
use crate::types::{
    parse_channel_status, parse_who_flags, ChannelStatus, WhoFlags, WhoFlagsView,
};
use vstd::prelude::*;
use vstd::string::*;

verus! {

/// The error for a list `p` with fewer than `min` parameters
pub open spec fn param_qty(min: usize, p: ParamsView) -> ReplyErrorView {
    ReplyErrorView::ParamQty { min_required: min, received: sat_len(p) }
}

/// The error of `r`, if any, else `rest`: reads of several fields, checked in
/// order, fail with the first error
pub open spec fn first_err<T>(r: Result<T, ReplyErrorView>, rest: Result<(), ReplyErrorView>) -> Result<(), ReplyErrorView> {
    match r {
        Ok(_) => rest,
        Err(e) => Err(e),
    }
}

/// The text of parameter `i`
pub open spec fn param_at(p: ParamsView, i: int) -> Seq<char> {
    p.all()[i]
}

/// Parameter `i` as the reply's target
pub open spec fn field_reply_target(p: ParamsView, i: int) -> Result<TargetView, ReplyErrorView> {
    match parse_reply_target(param_at(p, i)) {
        Ok(t) => Ok(t),
        Err(e) => Err(ReplyErrorView::ReplyTarget((e, param_at(p, i)))),
    }
}

/// Parameter `i` as a nickname
pub open spec fn field_nickname(p: ParamsView, i: int) -> Result<Seq<char>, ReplyErrorView> {
    match nickname_check(param_at(p, i)) {
        Ok(_) => Ok(param_at(p, i)),
        Err(e) => Err(ReplyErrorView::Nickname((e, param_at(p, i)))),
    }
}

/// Parameter `i` as a channel
pub open spec fn field_channel(p: ParamsView, i: int) -> Result<Seq<char>, ReplyErrorView> {
    match channel_check(param_at(p, i)) {
        Ok(_) => Ok(param_at(p, i)),
        Err(e) => Err(ReplyErrorView::Channel((e, param_at(p, i)))),
    }
}

/// Parameter `i` as a username
pub open spec fn field_username(p: ParamsView, i: int) -> Result<Seq<char>, ReplyErrorView> {
    match username_check(param_at(p, i)) {
        Ok(_) => Ok(param_at(p, i)),
        Err(e) => Err(ReplyErrorView::Username((e, param_at(p, i)))),
    }
}

/// Parameter `i` as a mode string
pub open spec fn field_modestring(p: ParamsView, i: int) -> Result<Seq<char>, ReplyErrorView> {
    match modestring_check(param_at(p, i)) {
        Ok(_) => Ok(param_at(p, i)),
        Err(e) => Err(ReplyErrorView::ModeString((e, param_at(p, i)))),
    }
}

/// Parameter `i` as a client source
pub open spec fn field_client_source(p: ParamsView, i: int) -> Result<ClientSourceView, ReplyErrorView> {
    match parse_client_source(param_at(p, i)) {
        Ok(c) => Ok(c),
        Err(e) => Err(ReplyErrorView::ClientSource((e, param_at(p, i)))),
    }
}

/// Parameter `i` as a client source, or none if it is `*`
pub open spec fn field_opt_client_source(p: ParamsView, i: int) -> Result<Option<ClientSourceView>, ReplyErrorView> {
    if param_at(p, i) == seq!['*'] {
        Ok(None)
    } else {
        match field_client_source(p, i) {
            Ok(c) => Ok(Some(c)),
            Err(e) => Err(e),
        }
    }
}

/// The abstract content of an optional client source
pub open spec fn opt_client_source_view(c: Option<ClientSource>) -> Option<ClientSourceView> {
    match c {
        Some(x) => Some(x@),
        None => None,
    }
}

/// Parameter `i` as a mode target
pub open spec fn field_mode_target(p: ParamsView, i: int) -> Result<TargetView, ReplyErrorView> {
    match parse_mode_target(param_at(p, i)) {
        Ok(t) => Ok(t),
        Err(e) => Err(ReplyErrorView::ModeTarget((e, param_at(p, i)))),
    }
}

/// Parameter `i` as a message target
pub open spec fn field_msg_target(p: ParamsView, i: int) -> Result<TargetView, ReplyErrorView> {
    match parse_target(param_at(p, i)) {
        Ok(t) => Ok(t),
        Err(e) => Err(ReplyErrorView::MsgTarget((e, param_at(p, i)))),
    }
}

/// Parameter `i` as a channel status
pub open spec fn field_channel_status(p: ParamsView, i: int) -> Result<ChannelStatus, ReplyErrorView> {
    match parse_channel_status(param_at(p, i)) {
        Some(c) => Ok(c),
        None => Err(ReplyErrorView::ChannelStatus(param_at(p, i))),
    }
}

/// Parameter `i` as `RPL_WHOREPLY` flags
pub open spec fn field_who_flags(p: ParamsView, i: int) -> Result<WhoFlagsView, ReplyErrorView> {
    match parse_who_flags(param_at(p, i)) {
        Ok(f) => Ok(f),
        Err(e) => Err(ReplyErrorView::WhoFlags((e, param_at(p, i)))),
    }
}

/// `s` as an unsigned integer no greater than `max`
pub open spec fn field_uint(s: Seq<char>, max: nat) -> Result<nat, ReplyErrorView> {
    match parse_uint(s, max) {
        Ok(n) => Ok(n),
        Err(k) => Err(ReplyErrorView::Int(s, k)),
    }
}

/// Parameter `i` as a `u64`
pub open spec fn field_u64(p: ParamsView, i: int) -> Result<u64, ReplyErrorView> {
    match field_uint(param_at(p, i), u64::MAX as nat) {
        Ok(n) => Ok(n as u64),
        Err(e) => Err(e),
    }
}

/// Parameter `i` as a `u64`, if there is a parameter `i`
pub open spec fn field_opt_u64(p: ParamsView, i: int) -> Result<Option<u64>, ReplyErrorView> {
    if i < p.all().len() {
        match field_u64(p, i) {
            Ok(n) => Ok(Some(n)),
            Err(e) => Err(e),
        }
    } else {
        Ok(None)
    }
}

/// Parameter `i` as a `u64`, if there are more than `n` parameters
pub open spec fn field_u64_if_more(p: ParamsView, i: int, n: int) -> Result<Option<u64>, ReplyErrorView> {
    if p.all().len() > n {
        match field_u64(p, i) {
            Ok(v) => Ok(Some(v)),
            Err(e) => Err(e),
        }
    } else {
        Ok(None)
    }
}

/// Parameter `i` as a `u16`
pub open spec fn field_u16(p: ParamsView, i: int) -> Result<u16, ReplyErrorView> {
    match field_uint(param_at(p, i), u16::MAX as nat) {
        Ok(n) => Ok(n as u16),
        Err(e) => Err(e),
    }
}

/// The first word of the last parameter as a `u32` hop count
pub open spec fn field_hopcount(p: ParamsView) -> Result<u32, ReplyErrorView> {
    match field_uint(split_word(p.all().last()).0, u32::MAX as nat) {
        Ok(n) => Ok(n as u32),
        Err(e) => Err(e),
    }
}

pub fn reply_target_at(p: &ParameterList, i: usize) -> (r: Result<ReplyTarget, ReplyError>)
    requires
        i < p@.all().len(),
    ensures
        match r {
            Ok(t) => field_reply_target(p@, i as int) == Ok::<TargetView, ReplyErrorView>(t@),
            Err(e) => field_reply_target(p@, i as int) == Err::<TargetView, ReplyErrorView>(e@),
        },
{
    let s = param_string(p, i);
    match ReplyTarget::try_from_string(s) {
        Ok(t) => Ok(t),
        Err(e) => Err(ReplyError::ReplyTarget(e)),
    }
}

pub fn nickname_at(p: &ParameterList, i: usize) -> (r: Result<Nickname, ReplyError>)
    requires
        i < p@.all().len(),
    ensures
        match r {
            Ok(t) => field_nickname(p@, i as int) == Ok::<Seq<char>, ReplyErrorView>(t@),
            Err(e) => field_nickname(p@, i as int) == Err::<Seq<char>, ReplyErrorView>(e@),
        },
{
    let s = param_string(p, i);
    match Nickname::try_from_string(s) {
        Ok(t) => Ok(t),
        Err(e) => Err(ReplyError::Nickname(e)),
    }
}

pub fn channel_at(p: &ParameterList, i: usize) -> (r: Result<Channel, ReplyError>)
    requires
        i < p@.all().len(),
    ensures
        match r {
            Ok(t) => field_channel(p@, i as int) == Ok::<Seq<char>, ReplyErrorView>(t@),
            Err(e) => field_channel(p@, i as int) == Err::<Seq<char>, ReplyErrorView>(e@),
        },
{
    let s = param_string(p, i);
    match Channel::try_from_string(s) {
        Ok(t) => Ok(t),
        Err(e) => Err(ReplyError::Channel(e)),
    }
}

pub fn username_at(p: &ParameterList, i: usize) -> (r: Result<Username, ReplyError>)
    requires
        i < p@.all().len(),
    ensures
        match r {
            Ok(t) => field_username(p@, i as int) == Ok::<Seq<char>, ReplyErrorView>(t@),
            Err(e) => field_username(p@, i as int) == Err::<Seq<char>, ReplyErrorView>(e@),
        },
{
    let s = param_string(p, i);
    match Username::try_from_string(s) {
        Ok(t) => Ok(t),
        Err(e) => Err(ReplyError::Username(e)),
    }
}

pub fn modestring_at(p: &ParameterList, i: usize) -> (r: Result<Modestring, ReplyError>)
    requires
        i < p@.all().len(),
    ensures
        match r {
            Ok(t) => field_modestring(p@, i as int) == Ok::<Seq<char>, ReplyErrorView>(t@),
            Err(e) => field_modestring(p@, i as int) == Err::<Seq<char>, ReplyErrorView>(e@),
        },
{
    let s = param_string(p, i);
    match Modestring::try_from_string(s) {
        Ok(t) => Ok(t),
        Err(e) => Err(ReplyError::ModeString(e)),
    }
}

pub fn client_source_at(p: &ParameterList, i: usize) -> (r: Result<ClientSource, ReplyError>)
    requires
        i < p@.all().len(),
    ensures
        match r {
            Ok(t) => field_client_source(p@, i as int) == Ok::<ClientSourceView, ReplyErrorView>(t@),
            Err(e) => field_client_source(p@, i as int) == Err::<ClientSourceView, ReplyErrorView>(e@),
        },
{
    let s = param_string(p, i);
    match ClientSource::try_from_string(s) {
        Ok(t) => Ok(t),
        Err(e) => Err(ReplyError::ClientSource(e)),
    }
}

pub fn opt_client_source_at(p: &ParameterList, i: usize) -> (r: Result<Option<ClientSource>, ReplyError>)
    requires
        i < p@.all().len(),
    ensures
        match r {
            Ok(t) => field_opt_client_source(p@, i as int) == Ok::<Option<ClientSourceView>, ReplyErrorView>(
                opt_client_source_view(t),
            ),
            Err(e) => field_opt_client_source(p@, i as int) == Err::<Option<ClientSourceView>, ReplyErrorView>(e@),
        },
{
    let star = "*";
    proof {
        reveal_strlit("*");
        assert(star@ =~= seq!['*']);
    }
    if str_eq(param_str(p, i), star) {
        Ok(None)
    } else {
        match client_source_at(p, i) {
            Ok(c) => Ok(Some(c)),
            Err(e) => Err(e),
        }
    }
}

pub fn mode_target_at(p: &ParameterList, i: usize) -> (r: Result<ModeTarget, ReplyError>)
    requires
        i < p@.all().len(),
    ensures
        match r {
            Ok(t) => field_mode_target(p@, i as int) == Ok::<TargetView, ReplyErrorView>(t@),
            Err(e) => field_mode_target(p@, i as int) == Err::<TargetView, ReplyErrorView>(e@),
        },
{
    let s = param_string(p, i);
    match ModeTarget::try_from_string(s) {
        Ok(t) => Ok(t),
        Err(e) => Err(ReplyError::ModeTarget(e)),
    }
}

pub fn msg_target_at(p: &ParameterList, i: usize) -> (r: Result<Target, ReplyError>)
    requires
        i < p@.all().len(),
    ensures
        match r {
            Ok(t) => field_msg_target(p@, i as int) == Ok::<TargetView, ReplyErrorView>(t@),
            Err(e) => field_msg_target(p@, i as int) == Err::<TargetView, ReplyErrorView>(e@),
        },
{
    let s = param_string(p, i);
    match Target::try_from_string(s) {
        Ok(t) => Ok(t),
        Err(e) => Err(ReplyError::MsgTarget(e)),
    }
}

pub fn channel_status_at(p: &ParameterList, i: usize) -> (r: Result<ChannelStatus, ReplyError>)
    requires
        i < p@.all().len(),
    ensures
        match r {
            Ok(t) => field_channel_status(p@, i as int) == Ok::<ChannelStatus, ReplyErrorView>(t),
            Err(e) => field_channel_status(p@, i as int) == Err::<ChannelStatus, ReplyErrorView>(e@),
        },
{
    let s = param_string(p, i);
    match ChannelStatus::try_from_string(s) {
        Ok(t) => Ok(t),
        Err(e) => Err(ReplyError::ChannelStatus(e)),
    }
}

pub fn who_flags_at(p: &ParameterList, i: usize) -> (r: Result<WhoFlags, ReplyError>)
    requires
        i < p@.all().len(),
    ensures
        match r {
            Ok(t) => field_who_flags(p@, i as int) == Ok::<WhoFlagsView, ReplyErrorView>(t@),
            Err(e) => field_who_flags(p@, i as int) == Err::<WhoFlagsView, ReplyErrorView>(e@),
        },
{
    let s = param_string(p, i);
    match WhoFlags::try_from_string(s) {
        Ok(t) => Ok(t),
        Err(e) => Err(ReplyError::WhoFlags(e)),
    }
}

pub fn verb_at(p: &ParameterList, i: usize) -> (r: Verb)
    requires
        i < p@.all().len(),
    ensures
        r@ == param_at(p@, i as int),
{
    Verb::from_string(param_string(p, i))
}

/// `s` as an unsigned integer no greater than `max`
pub fn uint_of(s: &str, max: u64) -> (r: Result<u64, ReplyError>)
    ensures
        match r {
            Ok(n) => field_uint(s@, max as nat) == Ok::<nat, ReplyErrorView>(n as nat),
            Err(e) => field_uint(s@, max as nat) == Err::<nat, ReplyErrorView>(e@),
        },
{
    match parse_uint_exec(s, max) {
        Ok(n) => Ok(n),
        Err(k) => Err(ReplyError::Int { string: crate::text::string_from(s), inner: k }),
    }
}

pub fn u64_at(p: &ParameterList, i: usize) -> (r: Result<u64, ReplyError>)
    requires
        i < p@.all().len(),
    ensures
        match r {
            Ok(n) => field_u64(p@, i as int) == Ok::<u64, ReplyErrorView>(n),
            Err(e) => field_u64(p@, i as int) == Err::<u64, ReplyErrorView>(e@),
        },
{
    let s = param_string(p, i);
    uint_of(s.as_str(), u64::MAX)
}

pub fn opt_u64_at(p: &ParameterList, i: usize) -> (r: Result<Option<u64>, ReplyError>)
    ensures
        match r {
            Ok(n) => field_opt_u64(p@, i as int) == Ok::<Option<u64>, ReplyErrorView>(n),
            Err(e) => field_opt_u64(p@, i as int) == Err::<Option<u64>, ReplyErrorView>(e@),
        },
{
    match p.get(i) {
        Some(_) => match u64_at(p, i) {
            Ok(n) => Ok(Some(n)),
            Err(e) => Err(e),
        },
        None => Ok(None),
    }
}

pub fn u64_if_more_at(p: &ParameterList, i: usize, n: usize) -> (r: Result<Option<u64>, ReplyError>)
    requires
        n < p@.all().len() ==> i < p@.all().len(),
    ensures
        match r {
            Ok(v) => field_u64_if_more(p@, i as int, n as int) == Ok::<Option<u64>, ReplyErrorView>(v),
            Err(e) => field_u64_if_more(p@, i as int, n as int) == Err::<Option<u64>, ReplyErrorView>(e@),
        },
{
    if param_count(p) > n {
        match u64_at(p, i) {
            Ok(v) => Ok(Some(v)),
            Err(e) => Err(e),
        }
    } else {
        Ok(None)
    }
}

pub fn u16_at(p: &ParameterList, i: usize) -> (r: Result<u16, ReplyError>)
    requires
        i < p@.all().len(),
    ensures
        match r {
            Ok(n) => field_u16(p@, i as int) == Ok::<u16, ReplyErrorView>(n),
            Err(e) => field_u16(p@, i as int) == Err::<u16, ReplyErrorView>(e@),
        },
{
    let s = param_string(p, i);
    match uint_of(s.as_str(), u16::MAX as u64) {
        Ok(n) => Ok(n as u16),
        Err(e) => Err(e),
    }
}

pub fn hopcount_of(p: &ParameterList) -> (r: Result<u32, ReplyError>)
    requires
        p@.all().len() > 0,
    ensures
        match r {
            Ok(n) => field_hopcount(p@) == Ok::<u32, ReplyErrorView>(n),
            Err(e) => field_hopcount(p@) == Err::<u32, ReplyErrorView>(e@),
        },
{
    let last = match p.last() {
        Some(l) => l,
        None => {
            return Err(ReplyError::NoAt(String::new()));
        },
    };
    let v = chars_of(last.as_str());
    let (we, _) = exec_split_word(&v);
    let w = string_of(&v, 0, we);
    assert(w@ =~= v@.take(we as int));
    match uint_of(w.as_str(), u32::MAX as u64) {
        Ok(n) => Ok(n as u32),
        Err(e) => Err(e),
    }
}

/// The number of parameters
pub fn param_count(p: &ParameterList) -> (n: usize)
    ensures
        n == p@.all().len(),
{
    let items = p.iter();
    items.len()
}

/// An owned copy of parameter `i`
pub fn param_string(p: &ParameterList, i: usize) -> (r: String)
    requires
        i < p@.all().len(),
    ensures
        r@ == param_at(p@, i as int),
{
    match p.get(i) {
        Some(x) => x.to_string(),
        None => {
            assert(false);
            String::new()
        },
    }
}

/// Parameter `i`, borrowed
pub fn param_str(p: &ParameterList, i: usize) -> (r: &str)
    requires
        i < p@.all().len(),
    ensures
        r@ == param_at(p@, i as int),
{
    match p.get(i) {
        Some(x) => x.as_str(),
        None => {
            assert(false);
            unreached()
        },
    }
}

/// The last parameter, borrowed
pub fn last_str(p: &ParameterList) -> (r: &str)
    requires
        p@.all().len() > 0,
    ensures
        r@ == p@.all().last(),
{
    match p.last() {
        Some(x) => x.as_str(),
        None => {
            assert(false);
            unreached()
        },
    }
}

/// The last parameter after its first word and the spaces that follow it
pub fn rest_of_last(p: &ParameterList) -> (r: &str)
    requires
        p@.all().len() > 0,
    ensures
        r@ == split_word(p@.all().last()).1,
{
    let last = last_str(p);
    let v = chars_of(last);
    let (_, rs) = exec_split_word(&v);
    last.substring_char(rs, v.len())
}

/// Parameter `i`, borrowed, if there is one
pub fn opt_param_str(p: &ParameterList, i: usize) -> (r: Option<&str>)
    ensures
        r is Some <==> i < p@.all().len(),
        r matches Some(s) ==> s@ == param_at(p@, i as int),
{
    match p.get(i) {
        Some(x) => Some(x.as_str()),
        None => None,
    }
}

} // verus!
