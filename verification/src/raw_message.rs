//! Messages as they stand on the wire: an optional source, a command, and
//! parameters, with no interpretation of the command.
use crate::command::{
    command_round_trips, lemma_command_roundtrip, lemma_reply_code_text, parse_command, render_command, Command,
    CommandView, ParseCommandError,
};
use crate::parameters::{middle_check, trailing_check};
use crate::paramlist::{
    join_spaces, lemma_join_first, lemma_params_roundtrip, lemma_split_word_join, lemma_split_word_whole,
    parse_params, render_params, ParameterList, ParamsView, ParseParameterListError,
};
use crate::host::{url_host_display, url_host_parse, HostError, HostView};
use crate::source::{
    names_server, client_source_text_round_trips, lemma_concat_without, lemma_not_in_set, lemma_source_roundtrip, parse_source,
    render_client_source, render_source, ParseSourceError, Source, SourceView,
};
use crate::text::{chars_of, exec_split_word, push_char, push_str, split_word, string_of, CharSet};
use crate::validstr::TryFromStringError;
use vstd::prelude::*;

verus! {

/// The abstract content of a [`RawMessage`]
pub struct RawView {
    pub source: Option<SourceView>,
    pub command: CommandView,
    pub parameters: ParamsView,
}

/// A message with its command and parameters not yet interpreted
#[derive(Clone, Debug, PartialEq, Eq)]
pub struct RawMessage {
    pub source: Option<Source>,
    pub command: Command,
    pub parameters: ParameterList,
}

impl View for RawMessage {
    type V = RawView;

    open spec fn view(&self) -> RawView {
        RawView {
            source: match self.source {
                Some(s) => Some(s@),
                None => None,
            },
            command: self.command@,
            parameters: self.parameters@,
        }
    }
}

/// Why a string is not a valid message
#[derive(Clone, Copy, Debug, PartialEq, Eq, Hash)]
pub enum ParseRawMessageError {
    Source(ParseSourceError),
    Command(ParseCommandError),
    Parameter(ParseParameterListError),
}

/// `s` without one trailing LF, and then without one trailing CR
pub open spec fn strip_line_end(s: Seq<char>) -> Seq<char> {
    let s1 = if s.len() > 0 && s.last() == '\n' {
        s.drop_last()
    } else {
        s
    };
    if s1.len() > 0 && s1.last() == '\r' {
        s1.drop_last()
    } else {
        s1
    }
}

/// A line may end with LF, CR LF, or CR: each reads as the same message as
/// the line without it (for a line that does not itself end with CR or LF)
pub proof fn lemma_line_endings(t: Seq<char>)
    requires
        t.len() > 0 ==> t.last() != '\r' && t.last() != '\n',
    ensures
        parse_raw(t + seq!['\r', '\n']) == parse_raw(t),
        parse_raw(t + seq!['\n']) == parse_raw(t),
        parse_raw(t + seq!['\r']) == parse_raw(t),
        strip_line_end(t) == t,
{
    assert((t + seq!['\r', '\n']).drop_last() =~= t + seq!['\r']);
    assert((t + seq!['\r']).drop_last() =~= t);
    assert((t + seq!['\n']).drop_last() =~= t);
    assert(strip_line_end(t + seq!['\r', '\n']) =~= t);
    assert(strip_line_end(t + seq!['\n']) =~= t);
    assert(strip_line_end(t + seq!['\r']) =~= t);
}

/// Reads the command and parameters that follow the source
pub open spec fn parse_after_source(source: Option<SourceView>, s: Seq<char>) -> Result<
    RawView,
    ParseRawMessageError,
> {
    let (cmd, params) = split_word(s);
    match parse_params(params) {
        Err(e) => Err(ParseRawMessageError::Parameter(e)),
        Ok(p) => Ok(RawView { source, command: parse_command(cmd), parameters: p }),
    }
}

/// The message that the line `line` spells, or why it spells none: an
/// optional line ending is dropped; a leading colon starts the source, which
/// runs to the first space; then come the command and the parameters.
pub open spec fn parse_raw(line: Seq<char>) -> Result<RawView, ParseRawMessageError> {
    let s = strip_line_end(line);
    if s.len() > 0 && s[0] == ':' {
        let (src, rest) = split_word(s.drop_first());
        match parse_source(src) {
            Err(e) => Err(ParseRawMessageError::Source(e)),
            Ok(sv) => parse_after_source(Some(sv), rest),
        }
    } else {
        parse_after_source(None, s)
    }
}

/// `items`, each behind a space
pub open spec fn prefix_spaces(items: Seq<Seq<char>>) -> Seq<char>
    decreases items.len(),
{
    if items.len() == 0 {
        Seq::empty()
    } else {
        prefix_spaces(items.drop_last()) + seq![' '] + items.last()
    }
}

/// The text form of a message: `:source ` if there is a source, then the
/// command, then each parameter behind a space, the trailing one behind a
/// colon as well
pub open spec fn render_raw(m: RawView) -> Seq<char> {
    render_prefix(m.source) + render_command(m.command) + prefix_spaces(m.parameters.items())
}

/// The text form of an optional source prefix, with its colon and space
pub open spec fn render_prefix(source: Option<SourceView>) -> Seq<char> {
    match source {
        Some(s) => seq![':'] + render_source(s) + seq![' '],
        None => Seq::empty(),
    }
}

impl RawMessage {
    /// Parses the line `s` as a message (see [`parse_raw`])
    pub fn parse_str(s: &str) -> (r: Result<RawMessage, ParseRawMessageError>)
        ensures
            match r {
                Ok(m) => parse_raw(s@) == Ok::<RawView, ParseRawMessageError>(m@),
                Err(e) => parse_raw(s@) == Err::<RawView, ParseRawMessageError>(e),
            },
    {
        let v = chars_of(s);
        let mut end = v.len();
        if end > 0 && v[end - 1] == '\n' {
            end = end - 1;
        }
        if end > 0 && v[end - 1] == '\r' {
            end = end - 1;
        }
        let line = string_of(&v, 0, end);
        assert(line@ =~= strip_line_end(s@));
        let lv = chars_of(line.as_str());
        if lv.len() > 0 && lv[0] == ':' {
            let after = string_of(&lv, 1, lv.len());
            let av = chars_of(after.as_str());
            assert(av@ =~= lv@.drop_first());
            let (we, rs) = exec_split_word(&av);
            let src = string_of(&av, 0, we);
            let rest = string_of(&av, rs, av.len());
            assert(src@ =~= av@.take(we as int));
            assert(rest@ =~= av@.skip(rs as int));
            let source = match Source::parse_str(src.as_str()) {
                Ok(sv) => sv,
                Err(e) => {
                    return Err(ParseRawMessageError::Source(e));
                },
            };
            RawMessage::parse_after_source(Some(source), rest.as_str())
        } else {
            RawMessage::parse_after_source(None, line.as_str())
        }
    }

    fn parse_after_source(source: Option<Source>, s: &str) -> (r: Result<RawMessage, ParseRawMessageError>)
        ensures
            match r {
                Ok(m) => parse_after_source(
                    match source {
                        Some(x) => Some(x@),
                        None => None,
                    },
                    s@,
                ) == Ok::<RawView, ParseRawMessageError>(m@),
                Err(e) => parse_after_source(
                    match source {
                        Some(x) => Some(x@),
                        None => None,
                    },
                    s@,
                ) == Err::<RawView, ParseRawMessageError>(e),
            },
    {
        let v = chars_of(s);
        let (we, rs) = exec_split_word(&v);
        let cmd = string_of(&v, 0, we);
        let params = string_of(&v, rs, v.len());
        assert(cmd@ =~= v@.take(we as int));
        assert(params@ =~= v@.skip(rs as int));
        let command = match Command::try_from_string(cmd) {
            Ok(c) => c,
            Err(e) => {
                return Err(ParseRawMessageError::Command(e));
            },
        };
        match ParameterList::parse_str(params.as_str()) {
            Ok(parameters) => Ok(RawMessage { source, command, parameters }),
            Err(e) => Err(ParseRawMessageError::Parameter(e)),
        }
    }

    /// Parses `string` as a message, returning it back on failure
    pub fn try_from_string(string: String) -> (r: Result<RawMessage, TryFromStringError<ParseRawMessageError>>)
        ensures
            match r {
                Ok(m) => parse_raw(string@) == Ok::<RawView, ParseRawMessageError>(m@),
                Err(e) => parse_raw(string@) == Err::<RawView, ParseRawMessageError>(e.inner)
                    && e.string@ == string@,
            },
    {
        match RawMessage::parse_str(string.as_str()) {
            Ok(m) => Ok(m),
            Err(inner) => Err(TryFromStringError { inner, string }),
        }
    }

    /// The text form of the message (see [`render_raw`])
    pub fn to_string(&self) -> (r: String)
        ensures
            r@ == render_raw(self@),
    {
        let mut s = String::new();
        match &self.source {
            Some(src) => {
                push_char(&mut s, ':');
                let t = src.to_string();
                push_str(&mut s, t.as_str());
                push_char(&mut s, ' ');
            },
            None => {},
        }
        let c = self.command.to_string();
        push_str(&mut s, c.as_str());
        let ghost head = s@;
        let items = self.parameters.iter();
        let ghost pv = self.parameters@;
        let mut i: usize = 0;
        while i < items.len()
            invariant
                0 <= i <= items@.len(),
                items@.len() == pv.all().len(),
                forall|j: int| 0 <= j < items@.len() ==> (#[trigger] items@[j])@ == pv.all()[j]
                    && (items@[j] is Middle <==> j < pv.middle.len()),
                s@ == head + prefix_spaces(pv.items().take(i as int)),
            decreases items@.len() - i,
        {
            let p = &items[i];
            push_char(&mut s, ' ');
            if !p.is_middle() {
                push_char(&mut s, ':');
            }
            push_str(&mut s, p.as_str());
            proof {
                let its = pv.items();
                assert(its.take(i + 1).drop_last() =~= its.take(i as int));
                assert(its.take(i + 1).last() == its[i as int]);
                if i < pv.middle.len() {
                    assert(its[i as int] == pv.all()[i as int]);
                } else {
                    assert(its[i as int] =~= seq![':'] + pv.all()[i as int]);
                }
                assert(s@ =~= head + prefix_spaces(its.take(i + 1)));
            }
            i = i + 1;
        }
        assert(pv.items().take(items@.len() as int) =~= pv.items());
        assert(s@ =~= render_raw(self@));
        s
    }
}

impl std::str::FromStr for RawMessage {
    type Err = ParseRawMessageError;

    fn from_str(s: &str) -> Result<RawMessage, ParseRawMessageError> {
        RawMessage::parse_str(s)
    }
}


/// `items`, each behind a space, are a space before the items joined with
/// spaces
proof fn lemma_prefix_spaces(items: Seq<Seq<char>>)
    ensures
        prefix_spaces(items) == if items.len() == 0 {
            Seq::<char>::empty()
        } else {
            seq![' '] + join_spaces(items)
        },
    decreases items.len(),
{
    if items.len() == 1 {
        assert(items.drop_last().len() == 0);
        assert(prefix_spaces(items.drop_last()) == Seq::<char>::empty());
        assert(items.last() == items[0]);
        assert(prefix_spaces(items) =~= seq![' '] + items[0]);
    } else if items.len() > 1 {
        lemma_prefix_spaces(items.drop_last());
        assert(prefix_spaces(items) =~= seq![' '] + join_spaces(items));
    }
}

/// Items joined with spaces end with the last character of the last item
proof fn lemma_join_last(items: Seq<Seq<char>>)
    requires
        items.len() >= 1,
        items.last().len() >= 1,
    ensures
        join_spaces(items).len() >= 1,
        join_spaces(items).last() == items.last().last(),
{
}

/// A server whose text form, as the `url` crate writes it, holds no space,
/// names a server (a dot, and neither `!` nor `@`), and is read back by the
/// `url` crate as the same host
pub open spec fn server_text_round_trips(h: HostView) -> bool {
    &&& !url_host_display(h).contains(' ')
    &&& names_server(url_host_display(h))
    &&& url_host_parse(url_host_display(h)) == Ok::<HostView, HostError>(h)
}

/// A message whose text form reads back as itself: valid parameters, a
/// command that reads back as itself, a source (if any) whose text reads back
/// as itself and holds no space, and a verb that is not read as part of what
/// surrounds it: not starting with `:` without a source, not empty between a
/// source and parameters, and not ending a line with CR or LF
pub open spec fn raw_round_trips(m: RawView) -> bool {
    let has_params = m.parameters.items().len() > 0;
    &&& m.parameters.wf()
    &&& command_round_trips(m.command)
    &&& match m.source {
        None => true,
        Some(SourceView::Client(c)) => client_source_text_round_trips(c) && (c.host matches Some(h) ==> !h.contains(' ')),
        Some(SourceView::Server(h)) => server_text_round_trips(h),
    }
    &&& (m.command matches CommandView::Verb(v) ==> {
        &&& (m.source is None && v.len() > 0 ==> v[0] != ':')
        &&& (v.len() == 0 ==> !(m.source is Some && has_params))
        &&& (!has_params && v.len() > 0 ==> v.last() != '\r' && v.last() != '\n')
    })
}

/// The command and parameters of the text form of a message
pub open spec fn raw_body(m: RawView) -> Seq<char> {
    render_command(m.command) + prefix_spaces(m.parameters.items())
}

/// The command and parameters of a message that round-trips read back as
/// themselves, and they start with neither a space nor (without a source) a
/// colon
proof fn lemma_body_roundtrip(m: RawView)
    requires
        raw_round_trips(m),
    ensures
        parse_after_source(m.source, raw_body(m)) == Ok::<RawView, ParseRawMessageError>(m),
        raw_body(m).len() > 0 && m.source is Some ==> raw_body(m)[0] != ' ',
        raw_body(m).len() > 0 && m.source is None ==> raw_body(m)[0] != ':',
{
    let v = m.parameters;
    let items = v.items();
    let cmd = render_command(m.command);
    let body = raw_body(m);
    lemma_prefix_spaces(items);
    lemma_command_roundtrip(m.command);
    lemma_params_roundtrip(v);
    if let CommandView::Reply(code) = m.command {
        lemma_reply_code_text(code);
    }
    assert forall|j: int| 0 <= j < cmd.len() implies cmd[j] != ' ' by {
        if cmd[j] == ' ' {
            assert(cmd.contains(' '));
        }
    }
    if items.len() == 0 {
        assert(body =~= cmd);
        lemma_split_word_whole(cmd);
        assert(render_params(v) == Seq::<char>::empty());
    } else {
        let j = join_spaces(items);
        if v.middle.len() > 0 {
            assert(middle_check(v.middle[0]) is Ok);
            lemma_not_in_set(v.middle[0], CharSet::NulCrLfSpace, ' ');
            assert(items[0] == v.middle[0]);
            assert(v.middle[0][0] != ' ') by {
                if v.middle[0][0] == ' ' {
                    assert(v.middle[0].contains(' '));
                }
            }
        } else {
            assert(items[0] == seq![':'] + v.trailing->0);
        }
        lemma_join_first(items);
        assert(body =~= cmd + seq![' '] + j);
        lemma_split_word_join(cmd, j);
    }
    if cmd.len() > 0 {
        assert(body[0] == cmd[0]);
    }
}

/// The text form of a message that round-trips ends with neither CR nor LF
proof fn lemma_raw_line_end(m: RawView)
    requires
        raw_round_trips(m),
    ensures
        strip_line_end(render_raw(m)) == render_raw(m),
{
    let v = m.parameters;
    let items = v.items();
    let cmd = render_command(m.command);
    let line = render_raw(m);
    lemma_prefix_spaces(items);
    if let CommandView::Reply(code) = m.command {
        lemma_reply_code_text(code);
    }
    if items.len() > 0 {
        let j = join_spaces(items);
        let last = items.last();
        if v.trailing is Some {
            let t = v.trailing->0;
            assert(last == seq![':'] + t);
            lemma_not_in_set(t, CharSet::NulCrLf, '\r');
            lemma_not_in_set(t, CharSet::NulCrLf, '\n');
            if t.len() > 0 {
                assert(last.last() == t.last());
                assert(t.contains(t.last()));
            }
        } else {
            let w = v.middle.last();
            assert(last == w);
            assert(middle_check(v.middle[v.middle.len() - 1]) is Ok);
            lemma_not_in_set(w, CharSet::NulCrLfSpace, '\r');
            lemma_not_in_set(w, CharSet::NulCrLfSpace, '\n');
            assert(w.contains(w.last()));
        }
        lemma_join_last(items);
        assert(line =~= render_prefix(m.source) + cmd + (seq![' '] + j));
        assert(line.last() == j.last());
    } else if cmd.len() > 0 {
        assert(line =~= render_prefix(m.source) + cmd);
        assert(line.last() == cmd.last());
    } else {
        assert(line =~= render_prefix(m.source));
    }
}

/// The text form of a client source that round-trips and holds no space
/// holds no space
proof fn lemma_client_text_no_space(c: crate::source::ClientSourceView)
    requires
        client_source_text_round_trips(c),
        c.host matches Some(h) ==> !h.contains(' '),
    ensures
        forall|j: int| 0 <= j < render_client_source(c).len() ==> render_client_source(c)[j] != ' ',
{
    let rs = render_client_source(c);
    lemma_not_in_set(c.nickname, CharSet::NickBad, ' ');
    let up = match c.user {
        Some(u) => seq!['!'] + u,
        None => Seq::<char>::empty(),
    };
    let hp = match c.host {
        Some(h) => seq!['@'] + h,
        None => Seq::<char>::empty(),
    };
    assert(!up.contains(' ')) by {
        if let Some(u) = c.user {
            lemma_not_in_set(u, CharSet::UserBad, ' ');
            lemma_concat_without(seq!['!'], u, ' ');
        }
    }
    assert(!hp.contains(' ')) by {
        if let Some(h) = c.host {
            lemma_concat_without(seq!['@'], h, ' ');
        }
    }
    lemma_concat_without(c.nickname, up, ' ');
    lemma_concat_without(c.nickname + up, hp, ' ');
    assert(rs == c.nickname + up + hp);
    assert forall|j: int| 0 <= j < rs.len() implies rs[j] != ' ' by {
        if rs[j] == ' ' {
            assert(rs.contains(' '));
        }
    }
}

/// Writing a message and parsing the line gives the same message, when its
/// parameters are valid, its command reads back as itself, its source (if
/// any) reads back as itself without spaces, and its verb is not read as part
/// of the source, the parameters or a line ending
pub proof fn lemma_raw_roundtrip(m: RawView)
    requires
        raw_round_trips(m),
    ensures
        parse_raw(render_raw(m)) == Ok::<RawView, ParseRawMessageError>(m),
{
    let body = raw_body(m);
    let line = render_raw(m);
    lemma_body_roundtrip(m);
    lemma_raw_line_end(m);
    match m.source {
        None => {
            assert(line =~= body);
        },
        Some(SourceView::Client(c)) => {
            let rs = render_client_source(c);
            assert(line =~= seq![':'] + rs + seq![' '] + body);
            assert(line.drop_first() =~= rs + seq![' '] + body);
            lemma_client_text_no_space(c);
            lemma_split_word_join(rs, body);
            lemma_source_roundtrip(c);
        },
        Some(SourceView::Server(h)) => {
            let rs = url_host_display(h);
            assert(line =~= seq![':'] + rs + seq![' '] + body);
            assert(line.drop_first() =~= rs + seq![' '] + body);
            assert forall|j: int| 0 <= j < rs.len() implies rs[j] != ' ' by {
                if rs[j] == ' ' {
                    assert(rs.contains(' '));
                }
            }
            lemma_split_word_join(rs, body);
        },
    }
}

} // verus!
