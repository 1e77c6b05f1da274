//! Replies whose fields are lists: `RPL_ISUPPORT` tokens, `RPL_USERHOST`
//! entries, channel and name lists, and the parameters that follow a fixed
//! prefix.
use super::codes::{
    RPL_ISUPPORT, RPL_REMOTEISUPPORT, RPL_WHOISACTUALLY, RPL_USERHOST, RPL_WHOISCHANNELS, RPL_CHANNELMODEIS, RPL_NAMREPLY, ERR_UNKNOWNERROR,
};
use super::fields::{
    channel_at, channel_status_at, field_channel, field_channel_status, field_modestring, field_nickname, field_reply_target, first_err, last_str, modestring_at, nickname_at, param_at, param_count, param_qty, param_str, param_string, reply_target_at, verb_at,
};
use super::{check_reply, is_error_code, ReplyError, ReplyErrorView, ReplyParts};
use crate::host::{
    ip_option_view, parse_host, parse_ip, std_ip_parse, url_host_parse, Host, HostView, IpAddr, IpAddrView,
};
use crate::names::{channel_check, nickname_check, username_check, Channel, Modestring, Nickname, Username, Verb};
use crate::source::exec_split_last;
use crate::paramlist::{ParameterList, ParamsView, params_as_items};
use crate::parameters::Parameter;
use crate::targets::{ReplyTarget, TargetView};
use crate::text::{chars_of, split_last, split_spaces, string_from, string_of, words};
use crate::types::{
    parse_isupport, parse_userhost, pop_channel_membership, pop_membership, ChannelStatus,
    ISupportParam, ISupportView, UserHostReply, UserHostView,
};
use vstd::prelude::*;

verus! {

/// The parameters of `p` from index `from` up to, but not including, the last
pub open spec fn inner_params(p: ParamsView, from: int) -> Seq<Seq<char>> {
    p.all().subrange(from, p.all().len() - 1)
}

/// The tokens of `RPL_ISUPPORT` that `ts` spell, or the error for the first
/// one that is not valid
pub open spec fn isupport_tokens(ts: Seq<Seq<char>>) -> Result<Seq<ISupportView>, ReplyErrorView>
    decreases ts.len(),
{
    if ts.len() == 0 {
        Ok(Seq::empty())
    } else {
        match isupport_tokens(ts.drop_last()) {
            Err(e) => Err(e),
            Ok(v) => match parse_isupport(ts.last()) {
                Some(t) => Ok(v.push(t)),
                None => Err(ReplyErrorView::ISupportParam(ts.last())),
            },
        }
    }
}

proof fn lemma_isupport_prefix_err(ts: Seq<Seq<char>>, n: int)
    requires
        0 <= n <= ts.len(),
        isupport_tokens(ts.take(n)) is Err,
    ensures
        isupport_tokens(ts) == isupport_tokens(ts.take(n)),
    decreases ts.len() - n,
{
    if n < ts.len() {
        assert(ts.take(n + 1).drop_last() =~= ts.take(n));
        lemma_isupport_prefix_err(ts, n + 1);
    } else {
        assert(ts.take(n) =~= ts);
    }
}

/// The views of `RPL_ISUPPORT` tokens
pub open spec fn isupport_views(v: Seq<ISupportParam>) -> Seq<ISupportView> {
    v.map_values(|t: ISupportParam| t@)
}

/// Reads the parameters of `p` from `from` to the last, exclusive, as
/// `RPL_ISUPPORT` tokens
fn read_isupport_tokens(p: &ParameterList, from: usize) -> (r: Result<Vec<ISupportParam>, ReplyError>)
    requires
        1 <= from < p@.all().len(),
    ensures
        match r {
            Ok(v) => isupport_tokens(inner_params(p@, from as int)) == Ok::<Seq<ISupportView>, ReplyErrorView>(isupport_views(v@)),
            Err(e) => isupport_tokens(inner_params(p@, from as int)) == Err::<Seq<ISupportView>, ReplyErrorView>(e@),
        },
{
    let ghost ts = inner_params(p@, from as int);
    let n = param_count(p);
    let end = n - 1;
    let mut out: Vec<ISupportParam> = Vec::new();
    let mut i = from;
    assert(ts.take(0) =~= Seq::<Seq<char>>::empty());
    assert(isupport_views(out@) =~= Seq::<ISupportView>::empty());
    while i < end
        invariant
            from <= i <= end,
            end == p@.all().len() - 1,
            ts == inner_params(p@, from as int),
            isupport_tokens(ts.take(i - from)) == Ok::<Seq<ISupportView>, ReplyErrorView>(isupport_views(out@)),
        decreases end - i,
    {
        let s = param_string(p, i);
        assert(ts.take(i + 1 - from).drop_last() =~= ts.take(i - from));
        assert(ts.take(i + 1 - from).last() == s@);
        match ISupportParam::try_from_string(s) {
            Ok(t) => {
                let ghost prev = out@;
                let ghost tv = t@;
                out.push(t);
                assert(isupport_views(out@) =~= isupport_views(prev).push(tv));
            },
            Err(e) => {
                proof {
                    lemma_isupport_prefix_err(ts, i + 1 - from);
                }
                return Err(ReplyError::ISupportParam(e));
            },
        }
        i = i + 1;
    }
    assert(ts.take(end - from) =~= ts);
    Ok(out)
}

/// Whether `p` reads as an `RPL_ISUPPORT` reply, and if not, the first error
pub open spec fn check_isupport(p: ParamsView) -> Result<(), ReplyErrorView> {
    if p.all().len() < 3 {
        Err(param_qty(3, p))
    } else {
        first_err(field_reply_target(p, 0), first_err(isupport_tokens(inner_params(p, 1)), Ok(())))
    }
}

/// The `RPL_ISUPPORT` reply (005): the tokens lie between the client and the
/// final message
#[derive(Debug, PartialEq, Eq)]
pub struct ISupport {
    parameters: ParameterList,
    client: ReplyTarget,
    tokens: Vec<ISupportParam>,
}

impl View for ISupport {
    type V = ParamsView;

    closed spec fn view(&self) -> ParamsView {
        self.parameters@
    }
}

impl ISupport {
    #[verifier::type_invariant]
    spec fn inv(self) -> bool {
        &&& check_isupport(self.parameters@) is Ok
        &&& field_reply_target(self.parameters@, 0) == Ok::<TargetView, ReplyErrorView>(self.client@)
        &&& isupport_tokens(inner_params(self.parameters@, 1)) == Ok::<Seq<ISupportView>, ReplyErrorView>(isupport_views(self.tokens@))
    }

    /// Reads `parameters` as an `RPL_ISUPPORT` reply
    pub fn try_from_params(parameters: ParameterList) -> (r: Result<ISupport, ReplyError>)
        ensures
            match r {
                Ok(x) => check_isupport(parameters@) is Ok && x@ == parameters@,
                Err(e) => check_isupport(parameters@) == Err::<(), ReplyErrorView>(e@),
            },
    {
        if parameters.len() < 3 {
            return Err(ReplyError::ParamQty { min_required: 3, received: parameters.len() });
        }
        let client = match reply_target_at(&parameters, 0) {
            Ok(v) => v,
            Err(e) => {
                return Err(e);
            },
        };
        let tokens = match read_isupport_tokens(&parameters, 1) {
            Ok(v) => v,
            Err(e) => {
                return Err(e);
            },
        };
        Ok(ISupport { parameters, client, tokens })
    }

    pub fn client(&self) -> (r: &ReplyTarget)
        ensures
            field_reply_target(self@, 0) == Ok::<TargetView, ReplyErrorView>(r@),
    {
        proof {
            use_type_invariant(self);
        }
        &self.client
    }

    /// The tokens: the parameters between the client and the last
    pub fn tokens(&self) -> (r: &[ISupportParam])
        ensures
            isupport_tokens(inner_params(self@, 1)) == Ok::<Seq<ISupportView>, ReplyErrorView>(isupport_views(r@)),
    {
        proof {
            use_type_invariant(self);
        }
        self.tokens.as_slice()
    }

    pub fn message(&self) -> (r: &str)
        ensures
            r@ == self@.all().last(),
    {
        proof {
            use_type_invariant(self);
        }
        last_str(&self.parameters)
    }
}

impl ReplyParts for ISupport {
    open spec fn reply_code(&self) -> u16 {
        RPL_ISUPPORT
    }

    open spec fn reply_params(&self) -> ParamsView {
        self@
    }

    fn code(&self) -> (r: u16) {
        RPL_ISUPPORT
    }

    fn parameters(&self) -> (r: &ParameterList) {
        proof {
            use_type_invariant(self);
        }
        &self.parameters
    }

    fn is_error(&self) -> (r: bool) {
        false
    }

    fn into_parts(self) -> (r: (u16, ParameterList)) {
        proof {
            use_type_invariant(&self);
        }
        (RPL_ISUPPORT, self.parameters)
    }
}

impl Clone for ISupport {
    fn clone(&self) -> (r: Self)
        ensures
            r@ == self@,
    {
        proof {
            use_type_invariant(self);
        }
        match ISupport::try_from_params(self.parameters.clone()) {
            Ok(x) => x,
            Err(_) => {
                assert(false);
                unreached()
            },
        }
    }
}

/// Whether `p` reads as an `RPL_REMOTEISUPPORT` reply, and if not, the first
/// error: the same reading as `RPL_ISUPPORT`
pub open spec fn check_remote_isupport(p: ParamsView) -> Result<(), ReplyErrorView> {
    if p.all().len() < 3 {
        Err(param_qty(3, p))
    } else {
        first_err(field_reply_target(p, 0), first_err(isupport_tokens(inner_params(p, 1)), Ok(())))
    }
}

/// The `RPL_REMOTEISUPPORT` reply (105): the tokens lie between the client and
/// the final message
#[derive(Debug, PartialEq, Eq)]
pub struct RemoteISupport {
    parameters: ParameterList,
    client: ReplyTarget,
    tokens: Vec<ISupportParam>,
}

impl View for RemoteISupport {
    type V = ParamsView;

    closed spec fn view(&self) -> ParamsView {
        self.parameters@
    }
}

impl RemoteISupport {
    #[verifier::type_invariant]
    spec fn inv(self) -> bool {
        &&& check_remote_isupport(self.parameters@) is Ok
        &&& field_reply_target(self.parameters@, 0) == Ok::<TargetView, ReplyErrorView>(self.client@)
        &&& isupport_tokens(inner_params(self.parameters@, 1)) == Ok::<Seq<ISupportView>, ReplyErrorView>(isupport_views(self.tokens@))
    }

    /// Reads `parameters` as an `RPL_REMOTEISUPPORT` reply
    pub fn try_from_params(parameters: ParameterList) -> (r: Result<RemoteISupport, ReplyError>)
        ensures
            match r {
                Ok(x) => check_remote_isupport(parameters@) is Ok && x@ == parameters@,
                Err(e) => check_remote_isupport(parameters@) == Err::<(), ReplyErrorView>(e@),
            },
    {
        if parameters.len() < 3 {
            return Err(ReplyError::ParamQty { min_required: 3, received: parameters.len() });
        }
        let client = match reply_target_at(&parameters, 0) {
            Ok(v) => v,
            Err(e) => {
                return Err(e);
            },
        };
        let tokens = match read_isupport_tokens(&parameters, 1) {
            Ok(v) => v,
            Err(e) => {
                return Err(e);
            },
        };
        Ok(RemoteISupport { parameters, client, tokens })
    }

    pub fn client(&self) -> (r: &ReplyTarget)
        ensures
            field_reply_target(self@, 0) == Ok::<TargetView, ReplyErrorView>(r@),
    {
        proof {
            use_type_invariant(self);
        }
        &self.client
    }

    /// The tokens: the parameters between the client and the last
    pub fn tokens(&self) -> (r: &[ISupportParam])
        ensures
            isupport_tokens(inner_params(self@, 1)) == Ok::<Seq<ISupportView>, ReplyErrorView>(isupport_views(r@)),
    {
        proof {
            use_type_invariant(self);
        }
        self.tokens.as_slice()
    }

    pub fn message(&self) -> (r: &str)
        ensures
            r@ == self@.all().last(),
    {
        proof {
            use_type_invariant(self);
        }
        last_str(&self.parameters)
    }
}

impl ReplyParts for RemoteISupport {
    open spec fn reply_code(&self) -> u16 {
        RPL_REMOTEISUPPORT
    }

    open spec fn reply_params(&self) -> ParamsView {
        self@
    }

    fn code(&self) -> (r: u16) {
        RPL_REMOTEISUPPORT
    }

    fn parameters(&self) -> (r: &ParameterList) {
        proof {
            use_type_invariant(self);
        }
        &self.parameters
    }

    fn is_error(&self) -> (r: bool) {
        false
    }

    fn into_parts(self) -> (r: (u16, ParameterList)) {
        proof {
            use_type_invariant(&self);
        }
        (RPL_REMOTEISUPPORT, self.parameters)
    }
}

impl Clone for RemoteISupport {
    fn clone(&self) -> (r: Self)
        ensures
            r@ == self@,
    {
        proof {
            use_type_invariant(self);
        }
        match RemoteISupport::try_from_params(self.parameters.clone()) {
            Ok(x) => x,
            Err(_) => {
                assert(false);
                unreached()
            },
        }
    }
}

/// The entries of `RPL_USERHOST` that the words `ws` spell, or the error for
/// the first word that is not a valid entry
pub open spec fn userhost_entries(ws: Seq<Seq<char>>) -> Result<Seq<UserHostView>, ReplyErrorView>
    decreases ws.len(),
{
    if ws.len() == 0 {
        Ok(Seq::empty())
    } else {
        match userhost_entries(ws.drop_last()) {
            Err(e) => Err(e),
            Ok(v) => match parse_userhost(ws.last()) {
                Ok(u) => Ok(v.push(u)),
                Err(e) => Err(ReplyErrorView::UserHostReply((e, ws.last()))),
            },
        }
    }
}

proof fn lemma_userhost_prefix_err(ws: Seq<Seq<char>>, n: int)
    requires
        0 <= n <= ws.len(),
        userhost_entries(ws.take(n)) is Err,
    ensures
        userhost_entries(ws) == userhost_entries(ws.take(n)),
    decreases ws.len() - n,
{
    if n < ws.len() {
        assert(ws.take(n + 1).drop_last() =~= ws.take(n));
        lemma_userhost_prefix_err(ws, n + 1);
    } else {
        assert(ws.take(n) =~= ws);
    }
}

/// The views of `RPL_USERHOST` entries
pub open spec fn userhost_views(v: Seq<UserHostReply>) -> Seq<UserHostView> {
    v.map_values(|u: UserHostReply| u@)
}

/// The words of the last parameter of `p`
fn last_words(p: &ParameterList) -> (r: Vec<String>)
    requires
        p@.all().len() > 0,
    ensures
        r@.len() == words(p@.all().last()).len(),
        forall|i: int| 0 <= i < r@.len() ==> #[trigger] r@[i]@ == words(p@.all().last())[i],
{
    let last = last_str(p);
    let v = chars_of(last);
    split_spaces(&v)
}

/// Reads the words of the last parameter of `p` as `RPL_USERHOST` entries
fn read_userhost_entries(p: &ParameterList) -> (r: Result<Vec<UserHostReply>, ReplyError>)
    requires
        p@.all().len() > 0,
    ensures
        match r {
            Ok(v) => userhost_entries(words(p@.all().last())) == Ok::<Seq<UserHostView>, ReplyErrorView>(userhost_views(v@)),
            Err(e) => userhost_entries(words(p@.all().last())) == Err::<Seq<UserHostView>, ReplyErrorView>(e@),
        },
{
    let ghost ws = words(p@.all().last());
    let items = last_words(p);
    let mut out: Vec<UserHostReply> = Vec::new();
    let mut i: usize = 0;
    assert(ws.take(0) =~= Seq::<Seq<char>>::empty());
    assert(userhost_views(out@) =~= Seq::<UserHostView>::empty());
    while i < items.len()
        invariant
            0 <= i <= items@.len() == ws.len(),
            ws == words(p@.all().last()),
            forall|j: int| 0 <= j < items@.len() ==> #[trigger] items@[j]@ == ws[j],
            userhost_entries(ws.take(i as int)) == Ok::<Seq<UserHostView>, ReplyErrorView>(userhost_views(out@)),
        decreases items@.len() - i,
    {
        let s = items[i].clone();
        assert(ws.take(i + 1).drop_last() =~= ws.take(i as int));
        assert(ws.take(i + 1).last() == s@);
        match UserHostReply::try_from_string(s) {
            Ok(u) => {
                let ghost prev = out@;
                let ghost uv = u@;
                out.push(u);
                assert(userhost_views(out@) =~= userhost_views(prev).push(uv));
            },
            Err(e) => {
                proof {
                    lemma_userhost_prefix_err(ws, i + 1);
                }
                return Err(ReplyError::UserHostReply(e));
            },
        }
        i = i + 1;
    }
    assert(ws.take(items@.len() as int) =~= ws);
    Ok(out)
}

/// The channels that the words `ws` name, each after an optional membership
/// prefix, or the error for the first word that does not name one
pub open spec fn member_channels(ws: Seq<Seq<char>>) -> Result<Seq<(Option<char>, Seq<char>)>, ReplyErrorView>
    decreases ws.len(),
{
    if ws.len() == 0 {
        Ok(Seq::empty())
    } else {
        match member_channels(ws.drop_last()) {
            Err(e) => Err(e),
            Ok(v) => {
                let (prefix, rest) = pop_membership(ws.last());
                match channel_check(rest) {
                    Ok(_) => Ok(v.push((prefix, rest))),
                    Err(e) => Err(ReplyErrorView::Channel((e, rest))),
                }
            },
        }
    }
}

proof fn lemma_member_channels_prefix_err(ws: Seq<Seq<char>>, n: int)
    requires
        0 <= n <= ws.len(),
        member_channels(ws.take(n)) is Err,
    ensures
        member_channels(ws) == member_channels(ws.take(n)),
    decreases ws.len() - n,
{
    if n < ws.len() {
        assert(ws.take(n + 1).drop_last() =~= ws.take(n));
        lemma_member_channels_prefix_err(ws, n + 1);
    } else {
        assert(ws.take(n) =~= ws);
    }
}

/// The views of prefixed channels
pub open spec fn channel_member_views(v: Seq<(Option<char>, Channel)>) -> Seq<(Option<char>, Seq<char>)> {
    v.map_values(|m: (Option<char>, Channel)| (m.0, m.1@))
}

/// Reads the words of the last parameter of `p` as prefixed channels
fn read_member_channels(p: &ParameterList) -> (r: Result<Vec<(Option<char>, Channel)>, ReplyError>)
    requires
        p@.all().len() > 0,
    ensures
        match r {
            Ok(v) => member_channels(words(p@.all().last())) == Ok::<Seq<(Option<char>, Seq<char>)>, ReplyErrorView>(channel_member_views(v@)),
            Err(e) => member_channels(words(p@.all().last())) == Err::<Seq<(Option<char>, Seq<char>)>, ReplyErrorView>(e@),
        },
{
    let ghost ws = words(p@.all().last());
    let items = last_words(p);
    let mut out: Vec<(Option<char>, Channel)> = Vec::new();
    let mut i: usize = 0;
    assert(ws.take(0) =~= Seq::<Seq<char>>::empty());
    assert(channel_member_views(out@) =~= Seq::<(Option<char>, Seq<char>)>::empty());
    while i < items.len()
        invariant
            0 <= i <= items@.len() == ws.len(),
            ws == words(p@.all().last()),
            forall|j: int| 0 <= j < items@.len() ==> #[trigger] items@[j]@ == ws[j],
            member_channels(ws.take(i as int)) == Ok::<Seq<(Option<char>, Seq<char>)>, ReplyErrorView>(channel_member_views(out@)),
        decreases items@.len() - i,
    {
        let (prefix, rest) = pop_channel_membership(items[i].as_str());
        assert(ws.take(i + 1).drop_last() =~= ws.take(i as int));
        assert(ws.take(i + 1).last() == items@[i as int]@);
        match Channel::try_from_string(rest) {
            Ok(c) => {
                let ghost prev = out@;
                let ghost cv = c@;
                out.push((prefix, c));
                assert(channel_member_views(out@) =~= channel_member_views(prev).push((prefix, cv)));
            },
            Err(e) => {
                proof {
                    lemma_member_channels_prefix_err(ws, i + 1);
                }
                return Err(ReplyError::Channel(e));
            },
        }
        i = i + 1;
    }
    assert(ws.take(items@.len() as int) =~= ws);
    Ok(out)
}

/// The nicknames that the words `ws` name, each after an optional membership
/// prefix, or the error for the first word that does not name one
pub open spec fn member_nicks(ws: Seq<Seq<char>>) -> Result<Seq<(Option<char>, Seq<char>)>, ReplyErrorView>
    decreases ws.len(),
{
    if ws.len() == 0 {
        Ok(Seq::empty())
    } else {
        match member_nicks(ws.drop_last()) {
            Err(e) => Err(e),
            Ok(v) => {
                let (prefix, rest) = pop_membership(ws.last());
                match nickname_check(rest) {
                    Ok(_) => Ok(v.push((prefix, rest))),
                    Err(e) => Err(ReplyErrorView::Nickname((e, rest))),
                }
            },
        }
    }
}

proof fn lemma_member_nicks_prefix_err(ws: Seq<Seq<char>>, n: int)
    requires
        0 <= n <= ws.len(),
        member_nicks(ws.take(n)) is Err,
    ensures
        member_nicks(ws) == member_nicks(ws.take(n)),
    decreases ws.len() - n,
{
    if n < ws.len() {
        assert(ws.take(n + 1).drop_last() =~= ws.take(n));
        lemma_member_nicks_prefix_err(ws, n + 1);
    } else {
        assert(ws.take(n) =~= ws);
    }
}

/// The views of prefixed nicknames
pub open spec fn nick_member_views(v: Seq<(Option<char>, Nickname)>) -> Seq<(Option<char>, Seq<char>)> {
    v.map_values(|m: (Option<char>, Nickname)| (m.0, m.1@))
}

/// Reads the words of the last parameter of `p` as prefixed nicknames
fn read_member_nicks(p: &ParameterList) -> (r: Result<Vec<(Option<char>, Nickname)>, ReplyError>)
    requires
        p@.all().len() > 0,
    ensures
        match r {
            Ok(v) => member_nicks(words(p@.all().last())) == Ok::<Seq<(Option<char>, Seq<char>)>, ReplyErrorView>(nick_member_views(v@)),
            Err(e) => member_nicks(words(p@.all().last())) == Err::<Seq<(Option<char>, Seq<char>)>, ReplyErrorView>(e@),
        },
{
    let ghost ws = words(p@.all().last());
    let items = last_words(p);
    let mut out: Vec<(Option<char>, Nickname)> = Vec::new();
    let mut i: usize = 0;
    assert(ws.take(0) =~= Seq::<Seq<char>>::empty());
    assert(nick_member_views(out@) =~= Seq::<(Option<char>, Seq<char>)>::empty());
    while i < items.len()
        invariant
            0 <= i <= items@.len() == ws.len(),
            ws == words(p@.all().last()),
            forall|j: int| 0 <= j < items@.len() ==> #[trigger] items@[j]@ == ws[j],
            member_nicks(ws.take(i as int)) == Ok::<Seq<(Option<char>, Seq<char>)>, ReplyErrorView>(nick_member_views(out@)),
        decreases items@.len() - i,
    {
        let (prefix, rest) = pop_channel_membership(items[i].as_str());
        assert(ws.take(i + 1).drop_last() =~= ws.take(i as int));
        assert(ws.take(i + 1).last() == items@[i as int]@);
        match Nickname::try_from_string(rest) {
            Ok(c) => {
                let ghost prev = out@;
                let ghost cv = c@;
                out.push((prefix, c));
                assert(nick_member_views(out@) =~= nick_member_views(prev).push((prefix, cv)));
            },
            Err(e) => {
                proof {
                    lemma_member_nicks_prefix_err(ws, i + 1);
                }
                return Err(ReplyError::Nickname(e));
            },
        }
        i = i + 1;
    }
    assert(ws.take(items@.len() as int) =~= ws);
    Ok(out)
}

/// The characters of each string
pub open spec fn string_views(v: Seq<String>) -> Seq<Seq<char>> {
    v.map_values(|s: String| s@)
}

/// Copies of the parameters of `p` from `from` to the last, exclusive
fn read_inner_strings(p: &ParameterList, from: usize) -> (r: Vec<String>)
    requires
        1 <= from < p@.all().len(),
    ensures
        string_views(r@) == inner_params(p@, from as int),
{
    let ghost ts = inner_params(p@, from as int);
    let n = param_count(p);
    let end = n - 1;
    let mut out: Vec<String> = Vec::new();
    let mut i = from;
    assert(string_views(out@) =~= ts.take(0));
    while i < end
        invariant
            from <= i <= end,
            end == p@.all().len() - 1,
            ts == inner_params(p@, from as int),
            string_views(out@) == ts.take(i - from),
        decreases end - i,
    {
        let s = param_string(p, i);
        let ghost prev = out@;
        let ghost sv = s@;
        assert(ts[i - from] == sv);
        out.push(s);
        assert(string_views(out@) =~= string_views(prev).push(sv));
        assert(ts.take(i + 1 - from) =~= ts.take(i - from).push(sv));
        i = i + 1;
    }
    assert(ts.take(end - from) =~= ts);
    out
}

/// The parameters of `p` after the first `k`, where `k` is at most the number
/// of middle parameters
pub open spec fn params_after(p: ParamsView, k: int) -> ParamsView {
    ParamsView { middle: p.middle.skip(k), trailing: p.trailing }
}

/// Two parameter lists with the same parameters and the same number of middle
/// parameters are the same
proof fn lemma_params_view_eq(w: ParamsView, v: ParamsView)
    requires
        w.all() == v.all(),
        w.middle.len() == v.middle.len(),
    ensures
        w == v,
{
    assert(w.trailing is Some <==> v.trailing is Some);
    assert(w.middle =~= v.middle) by {
        assert forall|i: int| 0 <= i < w.middle.len() implies w.middle[i] == v.middle[i] by {
            assert(w.all()[i] == v.all()[i]);
        }
    }
    if w.trailing is Some {
        assert(w.all().last() == v.all().last());
    }
}

/// The parameters of `p` after the first two, as a list
fn drop_two(p: &ParameterList) -> (r: ParameterList)
    requires
        p@.all().len() >= 3,
    ensures
        r@ == params_after(p@, 2),
{
    let ghost v = p@;
    let mut it = p.clone().into_iter();
    let ghost ps = it@;
    let _ = it.next();
    let _ = it.next();
    assert(it@ =~= ps.skip(2));
    let r = it.into_parameter_list();
    proof {
        let w = params_after(v, 2);
        assert(v.middle.len() >= 2) by {
            assert(v.all().len() <= v.middle.len() + 1);
        }
        assert(w.all() =~= v.all().skip(2)) by {
            if v.trailing is Some {
                assert(v.middle.skip(2).push(v.trailing->Some_0) =~= v.middle.push(v.trailing->Some_0).skip(2));
            }
        }
        assert(r@.all() =~= w.all()) by {
            assert forall|i: int| 0 <= i < r@.all().len() implies r@.all()[i] == w.all()[i] by {
                assert(ps[i + 2]@ == v.all()[i + 2]);
            }
        }
        if v.trailing is Some {
            assert(ps[ps.len() - 1] is Trailing) by {
                assert(!(ps.len() - 1 < v.middle.len()));
            }
            assert(it@.last() == ps.last());
        } else {
            assert(ps[ps.len() - 1] is Middle);
            assert(it@.last() == ps.last());
        }
        lemma_params_view_eq(r@, w);
    }
    r
}

/// The `RPL_USERHOST` reply (302): the entries are the words of the final parameter
#[derive(Debug, PartialEq, Eq)]
pub struct UserHostRpl {
    parameters: ParameterList,
    client: ReplyTarget,
    replies: Vec<UserHostReply>,
}

impl View for UserHostRpl {
    type V = ParamsView;

    closed spec fn view(&self) -> ParamsView {
        self.parameters@
    }
}

/// Whether `p` reads as a `RPL_USERHOST` reply, and if not, the first error
pub open spec fn check_user_host_rpl(p: ParamsView) -> Result<(), ReplyErrorView> {
    if p.all().len() < 2 {
        Err(param_qty(2, p))
    } else {
        first_err(field_reply_target(p, 0), first_err(userhost_entries(words(p.all().last())), Ok(())))
    }
}

impl UserHostRpl {
    #[verifier::type_invariant]
    spec fn inv(self) -> bool {
        &&& check_user_host_rpl(self.parameters@) is Ok
        &&& field_reply_target(self.parameters@, 0) == Ok::<TargetView, ReplyErrorView>(self.client@)
        &&& userhost_entries(words(self.parameters@.all().last())) == Ok::<Seq<UserHostView>, ReplyErrorView>(userhost_views(self.replies@))
    }

    /// Reads `parameters` as a `RPL_USERHOST` reply
    pub fn try_from_params(parameters: ParameterList) -> (r: Result<UserHostRpl, ReplyError>)
        ensures
            match r {
                Ok(x) => check_user_host_rpl(parameters@) is Ok && x@ == parameters@,
                Err(e) => check_user_host_rpl(parameters@) == Err::<(), ReplyErrorView>(e@),
            },
    {
        if parameters.len() < 2 {
            return Err(ReplyError::ParamQty { min_required: 2, received: parameters.len() });
        }
        let client = match reply_target_at(&parameters, 0) {
            Ok(v) => v,
            Err(e) => {
                return Err(e);
            },
        };
        let replies = match read_userhost_entries(&parameters) {
            Ok(v) => v,
            Err(e) => {
                return Err(e);
            },
        };
        Ok(UserHostRpl { parameters, client, replies })
    }

    pub fn client(&self) -> (r: &ReplyTarget)
        ensures
            field_reply_target(self@, 0) == Ok::<TargetView, ReplyErrorView>(r@),
    {
        proof {
            use_type_invariant(self);
        }
        &self.client
    }

    /// The entries: the space-separated words of the last parameter
    pub fn replies(&self) -> (r: &[UserHostReply])
        ensures
            userhost_entries(words(self@.all().last())) == Ok::<Seq<UserHostView>, ReplyErrorView>(userhost_views(r@)),
    {
        proof {
            use_type_invariant(self);
        }
        self.replies.as_slice()
    }

}

impl ReplyParts for UserHostRpl {
    open spec fn reply_code(&self) -> u16 {
        RPL_USERHOST
    }

    open spec fn reply_params(&self) -> ParamsView {
        self@
    }

    fn code(&self) -> (r: u16) {
        RPL_USERHOST
    }

    fn parameters(&self) -> (r: &ParameterList) {
        proof {
            use_type_invariant(self);
        }
        &self.parameters
    }

    fn is_error(&self) -> (r: bool) {
        false
    }

    fn into_parts(self) -> (r: (u16, ParameterList)) {
        proof {
            use_type_invariant(&self);
        }
        (RPL_USERHOST, self.parameters)
    }
}

impl Clone for UserHostRpl {
    fn clone(&self) -> (r: Self)
        ensures
            r@ == self@,
    {
        proof {
            use_type_invariant(self);
        }
        match UserHostRpl::try_from_params(self.parameters.clone()) {
            Ok(x) => x,
            Err(_) => {
                assert(false);
                unreached()
            },
        }
    }
}

/// The `RPL_WHOISCHANNELS` reply (319): the channels are the words of the final parameter
#[derive(Debug, PartialEq, Eq)]
pub struct WhoIsChannels {
    parameters: ParameterList,
    client: ReplyTarget,
    nickname: Nickname,
    channels: Vec<(Option<char>, Channel)>,
}

impl View for WhoIsChannels {
    type V = ParamsView;

    closed spec fn view(&self) -> ParamsView {
        self.parameters@
    }
}

/// Whether `p` reads as a `RPL_WHOISCHANNELS` reply, and if not, the first error
pub open spec fn check_who_is_channels(p: ParamsView) -> Result<(), ReplyErrorView> {
    if p.all().len() < 3 {
        Err(param_qty(3, p))
    } else {
        first_err(
            field_reply_target(p, 0),
            first_err(field_nickname(p, 1), first_err(member_channels(words(p.all().last())), Ok(()))),
        )
    }
}

impl WhoIsChannels {
    #[verifier::type_invariant]
    spec fn inv(self) -> bool {
        &&& check_who_is_channels(self.parameters@) is Ok
        &&& field_reply_target(self.parameters@, 0) == Ok::<TargetView, ReplyErrorView>(self.client@)
        &&& field_nickname(self.parameters@, 1) == Ok::<Seq<char>, ReplyErrorView>(self.nickname@)
        &&& member_channels(words(self.parameters@.all().last())) == Ok::<Seq<(Option<char>, Seq<char>)>, ReplyErrorView>(channel_member_views(self.channels@))
    }

    /// Reads `parameters` as a `RPL_WHOISCHANNELS` reply
    pub fn try_from_params(parameters: ParameterList) -> (r: Result<WhoIsChannels, ReplyError>)
        ensures
            match r {
                Ok(x) => check_who_is_channels(parameters@) is Ok && x@ == parameters@,
                Err(e) => check_who_is_channels(parameters@) == Err::<(), ReplyErrorView>(e@),
            },
    {
        if parameters.len() < 3 {
            return Err(ReplyError::ParamQty { min_required: 3, received: parameters.len() });
        }
        let client = match reply_target_at(&parameters, 0) {
            Ok(v) => v,
            Err(e) => {
                return Err(e);
            },
        };
        let nickname = match nickname_at(&parameters, 1) {
            Ok(v) => v,
            Err(e) => {
                return Err(e);
            },
        };
        let channels = match read_member_channels(&parameters) {
            Ok(v) => v,
            Err(e) => {
                return Err(e);
            },
        };
        Ok(WhoIsChannels { parameters, client, nickname, channels })
    }

    pub fn client(&self) -> (r: &ReplyTarget)
        ensures
            field_reply_target(self@, 0) == Ok::<TargetView, ReplyErrorView>(r@),
    {
        proof {
            use_type_invariant(self);
        }
        &self.client
    }

    pub fn nickname(&self) -> (r: &Nickname)
        ensures
            field_nickname(self@, 1) == Ok::<Seq<char>, ReplyErrorView>(r@),
    {
        proof {
            use_type_invariant(self);
        }
        &self.nickname
    }

    /// The channels, each with the membership prefix before it, if any
    pub fn channels(&self) -> (r: &[(Option<char>, Channel)])
        ensures
            member_channels(words(self@.all().last())) == Ok::<Seq<(Option<char>, Seq<char>)>, ReplyErrorView>(channel_member_views(r@)),
    {
        proof {
            use_type_invariant(self);
        }
        self.channels.as_slice()
    }

}

impl ReplyParts for WhoIsChannels {
    open spec fn reply_code(&self) -> u16 {
        RPL_WHOISCHANNELS
    }

    open spec fn reply_params(&self) -> ParamsView {
        self@
    }

    fn code(&self) -> (r: u16) {
        RPL_WHOISCHANNELS
    }

    fn parameters(&self) -> (r: &ParameterList) {
        proof {
            use_type_invariant(self);
        }
        &self.parameters
    }

    fn is_error(&self) -> (r: bool) {
        false
    }

    fn into_parts(self) -> (r: (u16, ParameterList)) {
        proof {
            use_type_invariant(&self);
        }
        (RPL_WHOISCHANNELS, self.parameters)
    }
}

impl Clone for WhoIsChannels {
    fn clone(&self) -> (r: Self)
        ensures
            r@ == self@,
    {
        proof {
            use_type_invariant(self);
        }
        match WhoIsChannels::try_from_params(self.parameters.clone()) {
            Ok(x) => x,
            Err(_) => {
                assert(false);
                unreached()
            },
        }
    }
}

/// The `RPL_NAMREPLY` reply (353): the clients are the words of the final parameter
#[derive(Debug, PartialEq, Eq)]
pub struct NamReply {
    parameters: ParameterList,
    client: ReplyTarget,
    channel_status: ChannelStatus,
    channel: Channel,
    clients: Vec<(Option<char>, Nickname)>,
}

impl View for NamReply {
    type V = ParamsView;

    closed spec fn view(&self) -> ParamsView {
        self.parameters@
    }
}

/// Whether `p` reads as a `RPL_NAMREPLY` reply, and if not, the first error
pub open spec fn check_nam_reply(p: ParamsView) -> Result<(), ReplyErrorView> {
    if p.all().len() < 4 {
        Err(param_qty(4, p))
    } else {
        first_err(
            field_reply_target(p, 0),
            first_err(
                field_channel_status(p, 1),
                first_err(field_channel(p, 2), first_err(member_nicks(words(p.all().last())), Ok(()))),
            ),
        )
    }
}

impl NamReply {
    #[verifier::type_invariant]
    spec fn inv(self) -> bool {
        &&& check_nam_reply(self.parameters@) is Ok
        &&& field_reply_target(self.parameters@, 0) == Ok::<TargetView, ReplyErrorView>(self.client@)
        &&& field_channel_status(self.parameters@, 1) == Ok::<ChannelStatus, ReplyErrorView>(self.channel_status)
        &&& field_channel(self.parameters@, 2) == Ok::<Seq<char>, ReplyErrorView>(self.channel@)
        &&& member_nicks(words(self.parameters@.all().last())) == Ok::<Seq<(Option<char>, Seq<char>)>, ReplyErrorView>(nick_member_views(self.clients@))
    }

    /// Reads `parameters` as a `RPL_NAMREPLY` reply
    pub fn try_from_params(parameters: ParameterList) -> (r: Result<NamReply, ReplyError>)
        ensures
            match r {
                Ok(x) => check_nam_reply(parameters@) is Ok && x@ == parameters@,
                Err(e) => check_nam_reply(parameters@) == Err::<(), ReplyErrorView>(e@),
            },
    {
        if parameters.len() < 4 {
            return Err(ReplyError::ParamQty { min_required: 4, received: parameters.len() });
        }
        let client = match reply_target_at(&parameters, 0) {
            Ok(v) => v,
            Err(e) => {
                return Err(e);
            },
        };
        let channel_status = match channel_status_at(&parameters, 1) {
            Ok(v) => v,
            Err(e) => {
                return Err(e);
            },
        };
        let channel = match channel_at(&parameters, 2) {
            Ok(v) => v,
            Err(e) => {
                return Err(e);
            },
        };
        let clients = match read_member_nicks(&parameters) {
            Ok(v) => v,
            Err(e) => {
                return Err(e);
            },
        };
        Ok(NamReply { parameters, client, channel_status, channel, clients })
    }

    pub fn client(&self) -> (r: &ReplyTarget)
        ensures
            field_reply_target(self@, 0) == Ok::<TargetView, ReplyErrorView>(r@),
    {
        proof {
            use_type_invariant(self);
        }
        &self.client
    }

    pub fn channel_status(&self) -> (r: &ChannelStatus)
        ensures
            field_channel_status(self@, 1) == Ok::<ChannelStatus, ReplyErrorView>(*r),
    {
        proof {
            use_type_invariant(self);
        }
        &self.channel_status
    }

    pub fn channel(&self) -> (r: &Channel)
        ensures
            field_channel(self@, 2) == Ok::<Seq<char>, ReplyErrorView>(r@),
    {
        proof {
            use_type_invariant(self);
        }
        &self.channel
    }

    /// The clients, each with the membership prefix before it, if any
    pub fn clients(&self) -> (r: &[(Option<char>, Nickname)])
        ensures
            member_nicks(words(self@.all().last())) == Ok::<Seq<(Option<char>, Seq<char>)>, ReplyErrorView>(nick_member_views(r@)),
    {
        proof {
            use_type_invariant(self);
        }
        self.clients.as_slice()
    }

}

impl ReplyParts for NamReply {
    open spec fn reply_code(&self) -> u16 {
        RPL_NAMREPLY
    }

    open spec fn reply_params(&self) -> ParamsView {
        self@
    }

    fn code(&self) -> (r: u16) {
        RPL_NAMREPLY
    }

    fn parameters(&self) -> (r: &ParameterList) {
        proof {
            use_type_invariant(self);
        }
        &self.parameters
    }

    fn is_error(&self) -> (r: bool) {
        false
    }

    fn into_parts(self) -> (r: (u16, ParameterList)) {
        proof {
            use_type_invariant(&self);
        }
        (RPL_NAMREPLY, self.parameters)
    }
}

impl Clone for NamReply {
    fn clone(&self) -> (r: Self)
        ensures
            r@ == self@,
    {
        proof {
            use_type_invariant(self);
        }
        match NamReply::try_from_params(self.parameters.clone()) {
            Ok(x) => x,
            Err(_) => {
                assert(false);
                unreached()
            },
        }
    }
}

/// The `ERR_UNKNOWNERROR` reply (400)
#[derive(Debug, PartialEq, Eq)]
pub struct UnknownError {
    parameters: ParameterList,
    client: ReplyTarget,
    command: Verb,
    subcommands: Vec<String>,
}

impl View for UnknownError {
    type V = ParamsView;

    closed spec fn view(&self) -> ParamsView {
        self.parameters@
    }
}

/// Whether `p` reads as a `ERR_UNKNOWNERROR` reply, and if not, the first error
pub open spec fn check_unknown_error(p: ParamsView) -> Result<(), ReplyErrorView> {
    if p.all().len() < 3 {
        Err(param_qty(3, p))
    } else {
        first_err(field_reply_target(p, 0), Ok(()))
    }
}

impl UnknownError {
    #[verifier::type_invariant]
    spec fn inv(self) -> bool {
        &&& check_unknown_error(self.parameters@) is Ok
        &&& field_reply_target(self.parameters@, 0) == Ok::<TargetView, ReplyErrorView>(self.client@)
        &&& self.command@ == param_at(self.parameters@, 1)
        &&& string_views(self.subcommands@) == inner_params(self.parameters@, 2)
    }

    /// Reads `parameters` as a `ERR_UNKNOWNERROR` reply
    pub fn try_from_params(parameters: ParameterList) -> (r: Result<UnknownError, ReplyError>)
        ensures
            match r {
                Ok(x) => check_unknown_error(parameters@) is Ok && x@ == parameters@,
                Err(e) => check_unknown_error(parameters@) == Err::<(), ReplyErrorView>(e@),
            },
    {
        if parameters.len() < 3 {
            return Err(ReplyError::ParamQty { min_required: 3, received: parameters.len() });
        }
        let client = match reply_target_at(&parameters, 0) {
            Ok(v) => v,
            Err(e) => {
                return Err(e);
            },
        };
        let command = verb_at(&parameters, 1);
        let subcommands = read_inner_strings(&parameters, 2);
        Ok(UnknownError { parameters, client, command, subcommands })
    }

    pub fn client(&self) -> (r: &ReplyTarget)
        ensures
            field_reply_target(self@, 0) == Ok::<TargetView, ReplyErrorView>(r@),
    {
        proof {
            use_type_invariant(self);
        }
        &self.client
    }

    pub fn command(&self) -> (r: &Verb)
        ensures
            r@ == param_at(self@, 1),
    {
        proof {
            use_type_invariant(self);
        }
        &self.command
    }

    /// The parameters between the command and the last
    pub fn subcommands(&self) -> (r: &[String])
        ensures
            string_views(r@) == inner_params(self@, 2),
    {
        proof {
            use_type_invariant(self);
        }
        self.subcommands.as_slice()
    }

    pub fn message(&self) -> (r: &str)
        ensures
            r@ == self@.all().last(),
    {
        proof {
            use_type_invariant(self);
        }
        last_str(&self.parameters)
    }

}

impl ReplyParts for UnknownError {
    open spec fn reply_code(&self) -> u16 {
        ERR_UNKNOWNERROR
    }

    open spec fn reply_params(&self) -> ParamsView {
        self@
    }

    fn code(&self) -> (r: u16) {
        ERR_UNKNOWNERROR
    }

    fn parameters(&self) -> (r: &ParameterList) {
        proof {
            use_type_invariant(self);
        }
        &self.parameters
    }

    fn is_error(&self) -> (r: bool) {
        true
    }

    fn into_parts(self) -> (r: (u16, ParameterList)) {
        proof {
            use_type_invariant(&self);
        }
        (ERR_UNKNOWNERROR, self.parameters)
    }
}

impl Clone for UnknownError {
    fn clone(&self) -> (r: Self)
        ensures
            r@ == self@,
    {
        proof {
            use_type_invariant(self);
        }
        match UnknownError::try_from_params(self.parameters.clone()) {
            Ok(x) => x,
            Err(_) => {
                assert(false);
                unreached()
            },
        }
    }
}

/// The `RPL_CHANNELMODEIS` reply (324)
#[derive(Debug, PartialEq, Eq)]
pub struct ChannelModeIs {
    parameters: ParameterList,
    client: ReplyTarget,
    channel: Channel,
    modestring: Modestring,
    arguments: ParameterList,
}

impl View for ChannelModeIs {
    type V = ParamsView;

    closed spec fn view(&self) -> ParamsView {
        self.parameters@
    }
}

/// Whether `p` reads as a `RPL_CHANNELMODEIS` reply, and if not, the first error
pub open spec fn check_channel_mode_is(p: ParamsView) -> Result<(), ReplyErrorView> {
    if p.all().len() < 3 {
        Err(param_qty(3, p))
    } else {
        first_err(field_reply_target(p, 0), first_err(field_channel(p, 1), first_err(field_modestring(p, 2), Ok(()))))
    }
}

impl ChannelModeIs {
    #[verifier::type_invariant]
    spec fn inv(self) -> bool {
        &&& check_channel_mode_is(self.parameters@) is Ok
        &&& field_reply_target(self.parameters@, 0) == Ok::<TargetView, ReplyErrorView>(self.client@)
        &&& field_channel(self.parameters@, 1) == Ok::<Seq<char>, ReplyErrorView>(self.channel@)
        &&& field_modestring(self.parameters@, 2) == Ok::<Seq<char>, ReplyErrorView>(self.modestring@)
        &&& self.arguments@ == params_after(self.parameters@, 2)
    }

    /// Reads `parameters` as a `RPL_CHANNELMODEIS` reply
    pub fn try_from_params(parameters: ParameterList) -> (r: Result<ChannelModeIs, ReplyError>)
        ensures
            match r {
                Ok(x) => check_channel_mode_is(parameters@) is Ok && x@ == parameters@,
                Err(e) => check_channel_mode_is(parameters@) == Err::<(), ReplyErrorView>(e@),
            },
    {
        if parameters.len() < 3 {
            return Err(ReplyError::ParamQty { min_required: 3, received: parameters.len() });
        }
        let client = match reply_target_at(&parameters, 0) {
            Ok(v) => v,
            Err(e) => {
                return Err(e);
            },
        };
        let channel = match channel_at(&parameters, 1) {
            Ok(v) => v,
            Err(e) => {
                return Err(e);
            },
        };
        let modestring = match modestring_at(&parameters, 2) {
            Ok(v) => v,
            Err(e) => {
                return Err(e);
            },
        };
        let arguments = drop_two(&parameters);
        Ok(ChannelModeIs { parameters, client, channel, modestring, arguments })
    }

    pub fn client(&self) -> (r: &ReplyTarget)
        ensures
            field_reply_target(self@, 0) == Ok::<TargetView, ReplyErrorView>(r@),
    {
        proof {
            use_type_invariant(self);
        }
        &self.client
    }

    pub fn channel(&self) -> (r: &Channel)
        ensures
            field_channel(self@, 1) == Ok::<Seq<char>, ReplyErrorView>(r@),
    {
        proof {
            use_type_invariant(self);
        }
        &self.channel
    }

    pub fn modestring(&self) -> (r: &Modestring)
        ensures
            field_modestring(self@, 2) == Ok::<Seq<char>, ReplyErrorView>(r@),
    {
        proof {
            use_type_invariant(self);
        }
        &self.modestring
    }

    /// The parameters after the client and the channel, starting with the mode string
    pub fn arguments(&self) -> (r: &ParameterList)
        ensures
            r@ == params_after(self@, 2),
    {
        proof {
            use_type_invariant(self);
        }
        &self.arguments
    }

}

impl ReplyParts for ChannelModeIs {
    open spec fn reply_code(&self) -> u16 {
        RPL_CHANNELMODEIS
    }

    open spec fn reply_params(&self) -> ParamsView {
        self@
    }

    fn code(&self) -> (r: u16) {
        RPL_CHANNELMODEIS
    }

    fn parameters(&self) -> (r: &ParameterList) {
        proof {
            use_type_invariant(self);
        }
        &self.parameters
    }

    fn is_error(&self) -> (r: bool) {
        false
    }

    fn into_parts(self) -> (r: (u16, ParameterList)) {
        proof {
            use_type_invariant(&self);
        }
        (RPL_CHANNELMODEIS, self.parameters)
    }
}

impl Clone for ChannelModeIs {
    fn clone(&self) -> (r: Self)
        ensures
            r@ == self@,
    {
        proof {
            use_type_invariant(self);
        }
        match ChannelModeIs::try_from_params(self.parameters.clone()) {
            Ok(x) => x,
            Err(_) => {
                assert(false);
                unreached()
            },
        }
    }
}


/// A host read from a `RPL_WHOISACTUALLY` reply without a username: a domain
/// is a host, an address is an IP address
pub open spec fn host_or_ip(h: HostView) -> (Option<HostView>, Option<IpAddrView>) {
    match h {
        HostView::Domain(_) => (Some(h), None),
        HostView::Ipv4(a, b, c, d) => (None, Some(IpAddrView::V4(a, b, c, d))),
        HostView::Ipv6(a, b, c, d, e, f, g, i) => (None, Some(IpAddrView::V6(a, b, c, d, e, f, g, i))),
    }
}

/// The username, host and IP address that the parameters of a
/// `RPL_WHOISACTUALLY` reply give after the nickname: none with three
/// parameters; a host or an address with four; with more, a `user@host`
/// parameter, split at its last `@`, and an IP address
pub open spec fn actually_fields(p: ParamsView) -> Result<
    (Option<Seq<char>>, Option<HostView>, Option<IpAddrView>),
    ReplyErrorView,
> {
    let n = p.all().len();
    if n <= 3 {
        Ok((None, None, None))
    } else if n == 4 {
        let s = param_at(p, 2);
        match url_host_parse(s) {
            Ok(h) => Ok((None, host_or_ip(h).0, host_or_ip(h).1)),
            Err(e) => Err(ReplyErrorView::Host(s, e)),
        }
    } else {
        let s = param_at(p, 2);
        match split_last(s, '@') {
            (_, None) => Err(ReplyErrorView::NoAt(s)),
            (user, Some(host)) => match username_check(user) {
                Err(e) => Err(ReplyErrorView::Username((e, user))),
                Ok(_) => match url_host_parse(host) {
                    Err(e) => Err(ReplyErrorView::Host(host, e)),
                    Ok(h) => match std_ip_parse(param_at(p, 3)) {
                        None => Err(ReplyErrorView::IpAddr(param_at(p, 3))),
                        Some(ip) => Ok((Some(user), Some(h), Some(ip))),
                    },
                },
            },
        }
    }
}

/// Whether `p` reads as a `RPL_WHOISACTUALLY` reply, and if not, the first error
pub open spec fn check_who_is_actually(p: ParamsView) -> Result<(), ReplyErrorView> {
    if p.all().len() < 3 {
        Err(param_qty(3, p))
    } else {
        first_err(field_reply_target(p, 0), first_err(field_nickname(p, 1), first_err(actually_fields(p), Ok(()))))
    }
}

/// The abstract content of an optional username
pub open spec fn opt_username_view(u: Option<Username>) -> Option<Seq<char>> {
    match u {
        Some(x) => Some(x@),
        None => None,
    }
}

/// The abstract content of an optional host
pub open spec fn opt_host_view(h: Option<Host>) -> Option<HostView> {
    match h {
        Some(x) => Some(x@),
        None => None,
    }
}

/// The `RPL_WHOISACTUALLY` reply (338): the host or IP address a client
/// connects from
#[derive(Debug, PartialEq, Eq)]
pub struct WhoIsActually {
    parameters: ParameterList,
    client: ReplyTarget,
    nickname: Nickname,
    host: Option<Host>,
    username: Option<Username>,
    ip: Option<IpAddr>,
}

impl View for WhoIsActually {
    type V = ParamsView;

    closed spec fn view(&self) -> ParamsView {
        self.parameters@
    }
}

/// Reads the parameters of a `RPL_WHOISACTUALLY` reply after the nickname
fn read_actually_fields(parameters: &ParameterList) -> (r: Result<
    (Option<Username>, Option<Host>, Option<IpAddr>),
    ReplyError,
>)
    requires
        parameters@.all().len() >= 3,
    ensures
        match r {
            Ok((u, h, i)) => actually_fields(parameters@) == Ok::<
                (Option<Seq<char>>, Option<HostView>, Option<IpAddrView>),
                ReplyErrorView,
            >((opt_username_view(u), opt_host_view(h), ip_option_view(i))),
            Err(e) => actually_fields(parameters@) == Err::<
                (Option<Seq<char>>, Option<HostView>, Option<IpAddrView>),
                ReplyErrorView,
            >(e@),
        },
{
    let n = param_count(parameters);
    if n == 3 {
        return Ok((None, None, None));
    }
    let s = param_str(parameters, 2);
    if n == 4 {
        return match parse_host(s) {
            Ok(h) => match h {
                Host::Domain(_) => Ok((None, Some(h), None)),
                Host::Ipv4(a, b, c, d) => Ok((None, None, Some(IpAddr::V4(a, b, c, d)))),
                Host::Ipv6(a, b, c, d, e, f, g, i) => Ok((None, None, Some(IpAddr::V6(a, b, c, d, e, f, g, i)))),
            },
            Err(e) => Err(ReplyError::Host { string: string_from(s), inner: e }),
        };
    }
    let v = chars_of(s);
    proof {
        assert(v@.take(v@.len() as int) =~= v@);
    }
    let (user_end, host_start) = exec_split_last(&v, '@', v.len());
    match host_start {
        None => Err(ReplyError::NoAt(string_from(s))),
        Some(k) => {
            let username = match Username::try_from_string(string_of(&v, 0, user_end)) {
                Ok(u) => u,
                Err(e) => {
                    return Err(ReplyError::Username(e));
                },
            };
            let host_text = string_of(&v, k, v.len());
            let host = match parse_host(host_text.as_str()) {
                Ok(h) => h,
                Err(e) => {
                    return Err(ReplyError::Host { string: host_text, inner: e });
                },
            };
            let ip_text = param_str(parameters, 3);
            match parse_ip(ip_text) {
                Some(ip) => Ok((Some(username), Some(host), Some(ip))),
                None => Err(ReplyError::IpAddr { string: string_from(ip_text) }),
            }
        },
    }
}

impl WhoIsActually {
    #[verifier::type_invariant]
    spec fn inv(self) -> bool {
        &&& check_who_is_actually(self.parameters@) is Ok
        &&& field_reply_target(self.parameters@, 0) == Ok::<TargetView, ReplyErrorView>(self.client@)
        &&& field_nickname(self.parameters@, 1) == Ok::<Seq<char>, ReplyErrorView>(self.nickname@)
        &&& actually_fields(self.parameters@) == Ok::<
            (Option<Seq<char>>, Option<HostView>, Option<IpAddrView>),
            ReplyErrorView,
        >((opt_username_view(self.username), opt_host_view(self.host), ip_option_view(self.ip)))
    }

    /// Reads `parameters` as a `RPL_WHOISACTUALLY` reply
    pub fn try_from_params(parameters: ParameterList) -> (r: Result<WhoIsActually, ReplyError>)
        ensures
            match r {
                Ok(x) => check_who_is_actually(parameters@) is Ok && x@ == parameters@,
                Err(e) => check_who_is_actually(parameters@) == Err::<(), ReplyErrorView>(e@),
            },
    {
        if parameters.len() < 3 {
            return Err(ReplyError::ParamQty { min_required: 3, received: parameters.len() });
        }
        let client = match reply_target_at(&parameters, 0) {
            Ok(v) => v,
            Err(e) => {
                return Err(e);
            },
        };
        let nickname = match nickname_at(&parameters, 1) {
            Ok(v) => v,
            Err(e) => {
                return Err(e);
            },
        };
        let (username, host, ip) = match read_actually_fields(&parameters) {
            Ok(v) => v,
            Err(e) => {
                return Err(e);
            },
        };
        Ok(WhoIsActually { parameters, client, nickname, host, username, ip })
    }

    pub fn client(&self) -> (r: &ReplyTarget)
        ensures
            field_reply_target(self@, 0) == Ok::<TargetView, ReplyErrorView>(r@),
    {
        proof {
            use_type_invariant(self);
        }
        &self.client
    }

    pub fn nickname(&self) -> (r: &Nickname)
        ensures
            field_nickname(self@, 1) == Ok::<Seq<char>, ReplyErrorView>(r@),
    {
        proof {
            use_type_invariant(self);
        }
        &self.nickname
    }

    /// The host the client connects from, if the reply names a domain or a
    /// `user@host`
    pub fn host(&self) -> (r: Option<&Host>)
        ensures
            actually_fields(self@) matches Ok((_, h, _)) && h == match r {
                Some(x) => Some(x@),
                None => None::<HostView>,
            },
    {
        proof {
            use_type_invariant(self);
        }
        match &self.host {
            Some(h) => Some(h),
            None => None,
        }
    }

    /// The username, if the reply has a `user@host` parameter
    pub fn username(&self) -> (r: Option<&Username>)
        ensures
            actually_fields(self@) matches Ok((u, _, _)) && u == match r {
                Some(x) => Some(x@),
                None => None::<Seq<char>>,
            },
    {
        proof {
            use_type_invariant(self);
        }
        match &self.username {
            Some(u) => Some(u),
            None => None,
        }
    }

    /// The IP address the client connects from, if the reply gives one
    pub fn ip(&self) -> (r: Option<IpAddr>)
        ensures
            actually_fields(self@) matches Ok((_, _, i)) && i == ip_option_view(r),
    {
        proof {
            use_type_invariant(self);
        }
        self.ip
    }

    pub fn message(&self) -> (r: &str)
        ensures
            r@ == self@.all().last(),
    {
        proof {
            use_type_invariant(self);
        }
        last_str(&self.parameters)
    }
}

impl ReplyParts for WhoIsActually {
    open spec fn reply_code(&self) -> u16 {
        RPL_WHOISACTUALLY
    }

    open spec fn reply_params(&self) -> ParamsView {
        self@
    }

    fn code(&self) -> (r: u16) {
        RPL_WHOISACTUALLY
    }

    fn parameters(&self) -> (r: &ParameterList) {
        proof {
            use_type_invariant(self);
        }
        &self.parameters
    }

    fn is_error(&self) -> (r: bool) {
        false
    }

    fn into_parts(self) -> (r: (u16, ParameterList)) {
        proof {
            use_type_invariant(&self);
        }
        (RPL_WHOISACTUALLY, self.parameters)
    }
}

impl Clone for WhoIsActually {
    fn clone(&self) -> (r: Self)
        ensures
            r@ == self@,
    {
        proof {
            use_type_invariant(self);
        }
        match WhoIsActually::try_from_params(self.parameters.clone()) {
            Ok(x) => x,
            Err(_) => {
                assert(false);
                unreached()
            },
        }
    }
}

} // verus!
