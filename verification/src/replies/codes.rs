//! The numeric codes of the replies that this crate reads.
use vstd::prelude::*;

verus! {

pub const RPL_WELCOME: u16 = 1;
pub const RPL_YOURHOST: u16 = 2;
pub const RPL_CREATED: u16 = 3;
pub const RPL_MYINFO: u16 = 4;
pub const RPL_ISUPPORT: u16 = 5;
pub const RPL_REMOTEISUPPORT: u16 = 105;
pub const RPL_BOUNCE: u16 = 10;
pub const RPL_STATSCOMMANDS: u16 = 212;
pub const RPL_ENDOFSTATS: u16 = 219;
pub const RPL_UMODEIS: u16 = 221;
pub const RPL_STATSUPTIME: u16 = 242;
pub const RPL_STATSCONN: u16 = 250;
pub const RPL_LUSERCLIENT: u16 = 251;
pub const RPL_LUSEROP: u16 = 252;
pub const RPL_LUSERUNKNOWN: u16 = 253;
pub const RPL_LUSERCHANNELS: u16 = 254;
pub const RPL_LUSERME: u16 = 255;
pub const RPL_ADMINME: u16 = 256;
pub const RPL_ADMINLOC1: u16 = 257;
pub const RPL_ADMINLOC2: u16 = 258;
pub const RPL_ADMINEMAIL: u16 = 259;
pub const RPL_TRYAGAIN: u16 = 263;
pub const RPL_LOCALUSERS: u16 = 265;
pub const RPL_GLOBALUSERS: u16 = 266;
pub const RPL_WHOISCERTFP: u16 = 276;
pub const RPL_NONE: u16 = 300;
pub const RPL_AWAY: u16 = 301;
pub const RPL_USERHOST: u16 = 302;
pub const RPL_UNAWAY: u16 = 305;
pub const RPL_NOWAWAY: u16 = 306;
pub const RPL_WHOISREGNICK: u16 = 307;
pub const RPL_WHOISUSER: u16 = 311;
pub const RPL_WHOISSERVER: u16 = 312;
pub const RPL_WHOISOPERATOR: u16 = 313;
pub const RPL_WHOWASUSER: u16 = 314;
pub const RPL_ENDOFWHO: u16 = 315;
pub const RPL_WHOISIDLE: u16 = 317;
pub const RPL_ENDOFWHOIS: u16 = 318;
pub const RPL_WHOISCHANNELS: u16 = 319;
pub const RPL_WHOISSPECIAL: u16 = 320;
pub const RPL_LISTSTART: u16 = 321;
pub const RPL_LIST: u16 = 322;
pub const RPL_LISTEND: u16 = 323;
pub const RPL_CHANNELMODEIS: u16 = 324;
pub const RPL_CHANNEL_URL: u16 = 328;
pub const RPL_CREATIONTIME: u16 = 329;
pub const RPL_WHOISACCOUNT: u16 = 330;
pub const RPL_NOTOPIC: u16 = 331;
pub const RPL_TOPIC: u16 = 332;
pub const RPL_TOPICWHOTIME: u16 = 333;
pub const RPL_INVITELIST: u16 = 336;
pub const RPL_ENDOFINVITELIST: u16 = 337;
pub const RPL_WHOISACTUALLY: u16 = 338;
pub const RPL_INVITING: u16 = 341;
pub const RPL_INVEXLIST: u16 = 346;
pub const RPL_ENDOFINVEXLIST: u16 = 347;
pub const RPL_EXCEPTLIST: u16 = 348;
pub const RPL_ENDOFEXCEPTLIST: u16 = 349;
pub const RPL_VERSION: u16 = 351;
pub const RPL_WHOREPLY: u16 = 352;
pub const RPL_NAMREPLY: u16 = 353;
pub const RPL_LINKS: u16 = 364;
pub const RPL_ENDOFLINKS: u16 = 365;
pub const RPL_ENDOFNAMES: u16 = 366;
pub const RPL_BANLIST: u16 = 367;
pub const RPL_ENDOFBANLIST: u16 = 368;
pub const RPL_ENDOFWHOWAS: u16 = 369;
pub const RPL_INFO: u16 = 371;
pub const RPL_MOTD: u16 = 372;
pub const RPL_ENDOFINFO: u16 = 374;
pub const RPL_MOTDSTART: u16 = 375;
pub const RPL_ENDOFMOTD: u16 = 376;
pub const RPL_WHOISHOST: u16 = 378;
pub const RPL_WHOISMODES: u16 = 379;
pub const RPL_YOUREOPER: u16 = 381;
pub const RPL_REHASHING: u16 = 382;
pub const RPL_TIME: u16 = 391;
pub const ERR_UNKNOWNERROR: u16 = 400;
pub const ERR_NOSUCHNICK: u16 = 401;
pub const ERR_NOSUCHSERVER: u16 = 402;
pub const ERR_NOSUCHCHANNEL: u16 = 403;
pub const ERR_CANNOTSENDTOCHAN: u16 = 404;
pub const ERR_TOOMANYCHANNELS: u16 = 405;
pub const ERR_WASNOSUCHNICK: u16 = 406;
pub const ERR_NOORIGIN: u16 = 409;
pub const ERR_INVALIDCAPCMD: u16 = 410;
pub const ERR_NORECIPIENT: u16 = 411;
pub const ERR_NOTEXTTOSEND: u16 = 412;
pub const ERR_INPUTTOOLONG: u16 = 417;
pub const ERR_UNKNOWNCOMMAND: u16 = 421;
pub const ERR_NOMOTD: u16 = 422;
pub const ERR_NONICKNAMEGIVEN: u16 = 431;
pub const ERR_ERRONEUSNICKNAME: u16 = 432;
pub const ERR_NICKNAMEINUSE: u16 = 433;
pub const ERR_NICKCOLLISION: u16 = 436;
pub const ERR_USERNOTINCHANNEL: u16 = 441;
pub const ERR_NOTONCHANNEL: u16 = 442;
pub const ERR_USERONCHANNEL: u16 = 443;
pub const ERR_NOTREGISTERED: u16 = 451;
pub const ERR_NEEDMOREPARAMS: u16 = 461;
pub const ERR_ALREADYREGISTERED: u16 = 462;
pub const ERR_PASSWDMISMATCH: u16 = 464;
pub const ERR_YOUREBANNEDCREEP: u16 = 465;
pub const ERR_CHANNELISFULL: u16 = 471;
pub const ERR_UNKNOWNMODE: u16 = 472;
pub const ERR_INVITEONLYCHAN: u16 = 473;
pub const ERR_BANNEDFROMCHAN: u16 = 474;
pub const ERR_BADCHANNELKEY: u16 = 475;
pub const ERR_BADCHANMASK: u16 = 476;
pub const ERR_NOPRIVILEGES: u16 = 481;
pub const ERR_CHANOPRIVSNEEDED: u16 = 482;
pub const ERR_CANTKILLSERVER: u16 = 483;
pub const ERR_NOOPERHOST: u16 = 491;
pub const ERR_UMODEUNKNOWNFLAG: u16 = 501;
pub const ERR_USERSDONTMATCH: u16 = 502;
pub const ERR_HELPNOTFOUND: u16 = 524;
pub const ERR_INVALIDKEY: u16 = 525;
pub const RPL_STARTTLS: u16 = 670;
pub const RPL_WHOISSECURE: u16 = 671;
pub const ERR_STARTTLSERROR: u16 = 691;
pub const ERR_INVALIDMODEPARAM: u16 = 696;
pub const RPL_HELPSTART: u16 = 704;
pub const RPL_HELPTXT: u16 = 705;
pub const RPL_ENDOFHELP: u16 = 706;
pub const ERR_NOPRIVS: u16 = 723;
pub const RPL_LOGGEDIN: u16 = 900;
pub const RPL_LOGGEDOUT: u16 = 901;
pub const ERR_NICKLOCKED: u16 = 902;
pub const RPL_SASLSUCCESS: u16 = 903;
pub const ERR_SASLFAIL: u16 = 904;
pub const ERR_SASLTOOLONG: u16 = 905;
pub const ERR_SASLABORTED: u16 = 906;
pub const ERR_SASLALREADY: u16 = 907;
pub const RPL_SASLMECHS: u16 = 908;

} // verus!
