//! Client messages.  The message types are declared here; they carry no
//! fields yet, and no parameter list is read as one of them.
use vstd::prelude::*;

verus! {

/// The `ADMIN` message
#[derive(Clone, Debug, PartialEq, Eq)]
pub struct Admin;

/// The `CONNECT` message
#[derive(Clone, Debug, PartialEq, Eq)]
pub struct Connect;

/// The `ERROR` message
#[derive(Clone, Debug, PartialEq, Eq)]
pub struct Error;

/// The `INFO` message
#[derive(Clone, Debug, PartialEq, Eq)]
pub struct Info;

/// The `INVITE` message
#[derive(Clone, Debug, PartialEq, Eq)]
pub struct Invite;

/// The `JOIN` message
#[derive(Clone, Debug, PartialEq, Eq)]
pub struct Join;

/// The `KICK` message
#[derive(Clone, Debug, PartialEq, Eq)]
pub struct Kick;

/// The `MODE` message
#[derive(Clone, Debug, PartialEq, Eq)]
pub struct Mode;

/// The `NICK` message
#[derive(Clone, Debug, PartialEq, Eq)]
pub struct Nick;

/// The `NOTICE` message
#[derive(Clone, Debug, PartialEq, Eq)]
pub struct Notice;

/// The `OPER` message
#[derive(Clone, Debug, PartialEq, Eq)]
pub struct Oper;

/// The `PART` message
#[derive(Clone, Debug, PartialEq, Eq)]
pub struct Part;

/// The `PASS` message
#[derive(Clone, Debug, PartialEq, Eq)]
pub struct Pass;

/// The `PING` message
#[derive(Clone, Debug, PartialEq, Eq)]
pub struct Ping;

/// The `PONG` message
#[derive(Clone, Debug, PartialEq, Eq)]
pub struct Pong;

/// The `PRIVMSG` message
#[derive(Clone, Debug, PartialEq, Eq)]
pub struct PrivMsg;

/// The `QUIT` message
#[derive(Clone, Debug, PartialEq, Eq)]
pub struct Quit;

/// The `SQUIT` message
#[derive(Clone, Debug, PartialEq, Eq)]
pub struct Squit;

/// The `USER` message
#[derive(Clone, Debug, PartialEq, Eq)]
pub struct User;

/// The `WHO` message
#[derive(Clone, Debug, PartialEq, Eq)]
pub struct Who;

/// The `WHOWAS` message
#[derive(Clone, Debug, PartialEq, Eq)]
pub struct Whowas;

/// A message sent by a client
#[derive(Clone, Debug, PartialEq, Eq)]
pub enum ClientMessage {
    Join(Join),
    Kick(Kick),
    Mode(Mode),
    Nick(Nick),
    Notice(Notice),
    Part(Part),
    Pass(Pass),
    Ping(Ping),
    Pong(Pong),
    PrivMsg(PrivMsg),
    Quit(Quit),
    User(User),
}

/// Why a verb and a parameter list do not form a client message
#[derive(Clone, Copy, Debug, PartialEq, Eq)]
pub struct ClientMessageError;

} // verus!
