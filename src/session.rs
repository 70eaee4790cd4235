use crate::command::{parse_verb, split_words, verb_of, verb_word, words, Verb};
use crate::stream::{action_for, SmtpStreamControl, StreamAction, StreamEvent};
use crate::conf::ConfigSmtpServer;
use crate::reply::{
    check_command, command_error, error_text, multi_response, string_views, write_multi_response, SmtpError,
    SMTPD_HELP, SMTPD_INFO, SMTPD_NAME,
};
use std::sync::Arc;
use vstd::prelude::*;

verus! {

/// Where a session stands in the protocol.
#[derive(Clone, Copy, Debug, PartialEq, Eq, Structural)]
pub enum SmtpSessionStatus {
    /// The greeting is still to be sent.
    Start,
    /// Greeted; waiting for HELO or EHLO.
    Init,
    /// The client has introduced itself.
    Hello,
    /// A mail transaction has its sender.
    Sender,
    /// A mail transaction has at least one recipient.
    Rcpt,
    /// A mail transaction is taking its message.
    Data,
    /// The session is over.
    Stop,
}

/// The order of the states along a session: a state never passes back to a
/// lower one except through RSET.
pub open spec fn rank(s: SmtpSessionStatus) -> int {
    match s {
        SmtpSessionStatus::Start => 0,
        SmtpSessionStatus::Init => 1,
        SmtpSessionStatus::Hello => 2,
        SmtpSessionStatus::Sender => 3,
        SmtpSessionStatus::Rcpt => 4,
        SmtpSessionStatus::Data => 5,
        SmtpSessionStatus::Stop => 6,
    }
}

/// Whether the client has yet to introduce itself.
pub open spec fn awaiting_hello(s: SmtpSessionStatus) -> bool {
    s == SmtpSessionStatus::Start || s == SmtpSessionStatus::Init
}

/// Whether a mail-transaction verb comes in its place: MAIL after the
/// introduction, RCPT after MAIL or RCPT, DATA after RCPT.
pub open spec fn in_sequence(v: Verb, s: SmtpSessionStatus) -> bool {
    match v {
        Verb::Mail => s == SmtpSessionStatus::Hello,
        Verb::Rcpt => s == SmtpSessionStatus::Sender || s == SmtpSessionStatus::Rcpt,
        Verb::Data => s == SmtpSessionStatus::Rcpt,
        _ => true,
    }
}

/// The greeting sent when a session starts.
pub open spec fn greeting(domain: Seq<char>) -> Seq<char> {
    "220 "@ + domain + " "@ + SMTPD_INFO@ + " "@ + SMTPD_NAME@ + "\r\n"@
}

/// The reply to a successful HELO.
pub open spec fn hello_reply(hello: Seq<char>, domain: Seq<char>) -> Seq<char> {
    "250 "@ + hello + " "@ + domain + "\r\n"@
}

/// The reply to NOOP.
pub open spec fn ok_reply() -> Seq<char> {
    "250 2.0.0 OK\r\n"@
}

/// The reply to QUIT.
pub open spec fn bye_reply() -> Seq<char> {
    "221 2.0.0 Bye\r\n"@
}

/// What one command line does to a session.
pub struct Dispatch {
    /// The state after the line.
    pub status: SmtpSessionStatus,
    /// The reply lines, in order.
    pub replies: Seq<Seq<char>>,
    /// Whether lines already queued behind this one are dropped.
    pub clear_inbound: bool,
    /// The client identity recorded by the line, if it records one.
    pub client: Option<Seq<u8>>,
}

/// A line that leaves the session as it is and answers with `replies`.
pub open spec fn answer(s: SmtpSessionStatus, replies: Seq<Seq<char>>) -> Dispatch {
    Dispatch { status: s, replies, clear_inbound: false, client: None }
}

/// The reply to a command that is not handled where the session stands.
pub open spec fn rejected(s: SmtpSessionStatus, verb: Seq<u8>) -> Dispatch {
    answer(s, seq![error_text(command_error(verb))])
}

/// What a line whose words are `ws` does in state `s`.
///
/// A line with no words is a syntax error. HELO and EHLO take one argument and
/// are accepted only before the client has introduced itself; later HELO is
/// out of sequence and EHLO not implemented. NOOP, QUIT and RSET take no
/// argument: NOOP with arguments reports the error and still answers OK, QUIT
/// ends the session, RSET drops queued lines and goes back to the greeting.
/// HELP ignores its arguments. MAIL, RCPT and DATA out of their place are out
/// of sequence; in their place, like VRFY and EXPN, they are not implemented.
/// Any other word is a syntax error.
pub open spec fn dispatch(
    s: SmtpSessionStatus,
    ws: Seq<Seq<u8>>,
    domain: Seq<char>,
    hello: Seq<char>,
) -> Dispatch {
    if ws.len() == 0 {
        answer(s, seq![error_text(SmtpError::SyntaxError)])
    } else {
        let arity = ws.len() - 1;
        match verb_of(ws[0]) {
            Some(Verb::Helo) => if arity != 1 {
                answer(s, seq![error_text(SmtpError::ParamSyntaxError)])
            } else if awaiting_hello(s) {
                Dispatch {
                    status: SmtpSessionStatus::Hello,
                    replies: seq![hello_reply(hello, domain)],
                    clear_inbound: false,
                    client: Some(ws[1]),
                }
            } else {
                rejected(s, ws[0])
            },
            Some(Verb::Ehlo) => if arity != 1 {
                answer(s, seq![error_text(SmtpError::ParamSyntaxError)])
            } else if awaiting_hello(s) {
                Dispatch {
                    status: SmtpSessionStatus::Hello,
                    replies: multi_response(seq![domain]),
                    clear_inbound: false,
                    client: Some(ws[1]),
                }
            } else {
                rejected(s, ws[0])
            },
            Some(Verb::Noop) => if arity == 0 {
                answer(s, seq![ok_reply()])
            } else {
                answer(s, seq![error_text(SmtpError::ParamSyntaxError), ok_reply()])
            },
            Some(Verb::Quit) => if arity == 0 {
                answer(SmtpSessionStatus::Stop, seq![bye_reply()])
            } else {
                answer(s, seq![error_text(SmtpError::ParamSyntaxError)])
            },
            Some(Verb::Rset) => if arity == 0 {
                Dispatch {
                    status: SmtpSessionStatus::Start,
                    replies: seq![],
                    clear_inbound: true,
                    client: None,
                }
            } else {
                answer(s, seq![error_text(SmtpError::ParamSyntaxError)])
            },
            Some(Verb::Help) => answer(s, seq![SMTPD_HELP@]),
            Some(v) => if in_sequence(v, s) {
                rejected(s, ws[0])
            } else {
                answer(s, seq![error_text(SmtpError::BadSequence)])
            },
            None => rejected(s, ws[0]),
        }
    }
}

/// Each verb is read back from its own spelling.
pub proof fn lemma_verb_word(v: Verb)
    ensures
        verb_of(verb_word(v)) == Some(v),
{
    let w = verb_word(v);
    assert(w[0] != verb_word(Verb::Helo)[0] || w[1] != verb_word(Verb::Helo)[1] || w[3]
        != verb_word(Verb::Helo)[3] || v == Verb::Helo);
    assert(w[0] != verb_word(Verb::Ehlo)[0] || w[1] != verb_word(Verb::Ehlo)[1] || v
        == Verb::Ehlo);
    assert(w[0] != verb_word(Verb::Mail)[0] || v == Verb::Mail);
    assert(w[0] != verb_word(Verb::Rcpt)[0] || w[1] != verb_word(Verb::Rcpt)[1] || v
        == Verb::Rcpt);
    assert(w[0] != verb_word(Verb::Data)[0] || v == Verb::Data);
    assert(w[0] != verb_word(Verb::Rset)[0] || w[1] != verb_word(Verb::Rset)[1] || v
        == Verb::Rset);
    assert(w[0] != verb_word(Verb::Noop)[0] || v == Verb::Noop);
    assert(w[0] != verb_word(Verb::Quit)[0] || v == Verb::Quit);
    assert(w[0] != verb_word(Verb::Vrfy)[0] || v == Verb::Vrfy);
    assert(w[0] != verb_word(Verb::Expn)[0] || w[1] != verb_word(Verb::Expn)[1] || v
        == Verb::Expn);
}

/// HELO or EHLO with other than exactly one argument is answered 501 and
/// changes nothing; with one argument, before the client has introduced
/// itself, it moves the session to Hello. It never moves a session back.
pub proof fn lemma_hello_arity(
    s: SmtpSessionStatus,
    ws: Seq<Seq<u8>>,
    domain: Seq<char>,
    hello: Seq<char>,
)
    requires
        ws.len() > 0,
        verb_of(ws[0]) == Some(Verb::Helo) || verb_of(ws[0]) == Some(Verb::Ehlo),
    ensures
        ws.len() != 2 ==> dispatch(s, ws, domain, hello) == answer(
            s,
            seq![error_text(SmtpError::ParamSyntaxError)],
        ),
        ws.len() == 2 && awaiting_hello(s) ==> dispatch(s, ws, domain, hello).status
            == SmtpSessionStatus::Hello,
        rank(dispatch(s, ws, domain, hello).status) >= rank(s),
{
}

/// QUIT with no argument answers `221 2.0.0 Bye` and ends the session, in any
/// state. An ended session reads no more lines, and the shutdown it then asks
/// of its connection's actor makes the actor flush its queue and close.
pub proof fn lemma_quit_stops(s: SmtpSessionStatus, domain: Seq<char>, hello: Seq<char>)
    ensures
        dispatch(s, seq![verb_word(Verb::Quit)], domain, hello) == answer(
            SmtpSessionStatus::Stop,
            seq![bye_reply()],
        ),
        forall|a: StreamAction|
            action_for(StreamEvent::Control(SmtpStreamControl::Shutdown), a) ==> a is Drain,
{
    lemma_verb_word(Verb::Quit);
}

/// The error for a command issued before the client has introduced itself:
/// out of sequence for the mail-transaction verbs, not implemented for another
/// verb, a syntax error for a word that is no verb.
pub open spec fn premature_error(w: Seq<u8>) -> SmtpError {
    match verb_of(w) {
        None => SmtpError::SyntaxError,
        Some(Verb::Mail) => SmtpError::BadSequence,
        Some(Verb::Rcpt) => SmtpError::BadSequence,
        Some(Verb::Data) => SmtpError::BadSequence,
        Some(_) => SmtpError::CommandNotImplemented,
    }
}

/// Whether a verb is handled in every state: NOOP, QUIT, RSET and HELP.
pub open spec fn always_handled(v: Verb) -> bool {
    v == Verb::Noop || v == Verb::Quit || v == Verb::Rset || v == Verb::Help
}

/// Before the client has introduced itself, a command other than HELO, EHLO
/// and those handled in every state gets exactly one reply, 503, 502 or 500 as
/// `premature_error` says, and leaves the session as it is.
pub proof fn lemma_before_hello(
    s: SmtpSessionStatus,
    ws: Seq<Seq<u8>>,
    domain: Seq<char>,
    hello: Seq<char>,
)
    requires
        awaiting_hello(s),
        ws.len() > 0,
        verb_of(ws[0]) != Some(Verb::Helo),
        verb_of(ws[0]) != Some(Verb::Ehlo),
        !(verb_of(ws[0]) is Some && always_handled(verb_of(ws[0])->0)),
    ensures
        dispatch(s, ws, domain, hello) == answer(s, seq![error_text(premature_error(ws[0]))]),
{
}

/// What a session's driver does after handling a line.
pub struct SessionOutput {
    /// Reply lines to send, in order.
    pub replies: Vec<String>,
    /// Whether to drop the lines already queued for the session.
    pub clear_inbound: bool,
    /// Whether the session is over: read no more lines and shut the connection down.
    pub shutdown: bool,
}

/// The protocol state of one connection.
pub struct SmtpSession {
    /// The server's configuration, shared by all its sessions.
    pub config: Arc<ConfigSmtpServer>,
    /// Where the session stands.
    pub status: SmtpSessionStatus,
    /// Whether the connection runs over TLS.
    pub tls: bool,
    /// The identity the client gave in HELO or EHLO; empty until then.
    pub client: Vec<u8>,
}

impl SmtpSession {
    /// A session that has still to send its greeting.
    pub fn new(config: Arc<ConfigSmtpServer>) -> (r: SmtpSession)
        ensures
            r.config == config,
            r.status == SmtpSessionStatus::Start,
            !r.tls,
            r.client@.len() == 0,
    {
        SmtpSession { config, status: SmtpSessionStatus::Start, tls: false, client: Vec::new() }
    }

    /// Whether the session still reads lines.
    pub fn is_running(&self) -> (r: bool)
        ensures
            r == (self.status != SmtpSessionStatus::Stop),
    {
        self.status != SmtpSessionStatus::Stop
    }

    /// Sends the greeting if it is due, and then waits for the client to
    /// introduce itself; otherwise does nothing.
    pub fn start(&mut self) -> (r: Vec<String>)
        ensures
            final(self).config == old(self).config,
            final(self).tls == old(self).tls,
            final(self).client@ == old(self).client@,
            old(self).status == SmtpSessionStatus::Start ==> final(self).status
                == SmtpSessionStatus::Init && string_views(r@) == seq![
                greeting(old(self).config.domain@),
            ],
            old(self).status != SmtpSessionStatus::Start ==> final(self).status == old(
                self,
            ).status && r@.len() == 0,
    {
        let mut out: Vec<String> = Vec::new();
        if self.status == SmtpSessionStatus::Start {
            let mut line = String::from_str("220 ");
            line.append(self.config.domain.as_str());
            line.append(" ");
            line.append(SMTPD_INFO);
            line.append(" ");
            line.append(SMTPD_NAME);
            line.append("\r\n");
            out.push(line);
            self.status = SmtpSessionStatus::Init;
            assert(string_views(out@) =~= seq![greeting(self.config.domain@)]);
        }
        out
    }

    /// Handles one command line (its terminator already removed), as
    /// `dispatch` says.
    pub fn handle_line(&mut self, line: &[u8]) -> (r: SessionOutput)
        ensures
            ({
                let d = dispatch(
                    old(self).status,
                    words(line@),
                    old(self).config.domain@,
                    old(self).config.hello@,
                );
                &&& final(self).status == d.status
                &&& string_views(r.replies@) == d.replies
                &&& r.clear_inbound == d.clear_inbound
                &&& final(self).client@ == match d.client {
                    Some(c) => c,
                    None => old(self).client@,
                }
            }),
            r.shutdown == (final(self).status == SmtpSessionStatus::Stop),
            final(self).config == old(self).config,
            final(self).tls == old(self).tls,
    {
        let ghost ws = words(line@);
        let ghost domain = self.config.domain@;
        let mut parts = split_words(line);
        let mut replies: Vec<String> = Vec::new();
        let mut clear_inbound = false;
        if parts.len() == 0 {
            replies.push(String::from_str(SmtpError::new(500).message()));
        } else {
            let arity = parts.len() - 1;
            let verb = parse_verb(parts[0].as_slice());
            assert(parts[0]@ == ws[0]);
            match verb {
                Some(Verb::Helo) | Some(Verb::Ehlo) => {
                    if arity != 1 {
                        replies.push(String::from_str(SmtpError::new(501).message()));
                    } else if self.status == SmtpSessionStatus::Start || self.status
                        == SmtpSessionStatus::Init {
                        if verb == Some(Verb::Helo) {
                            let mut reply = String::from_str("250 ");
                            reply.append(self.config.hello.as_str());
                            reply.append(" ");
                            reply.append(self.config.domain.as_str());
                            reply.append("\r\n");
                            replies.push(reply);
                        } else {
                            let mut caps: Vec<String> = Vec::new();
                            caps.push(self.config.domain.clone());
                            assert(string_views(caps@) =~= seq![domain]);
                            write_multi_response(&mut replies, &caps);
                            assert(string_views(replies@) =~= multi_response(seq![domain]));
                        }
                        assert(parts[1]@ == ws[1]);
                        self.client = parts.pop().unwrap();
                        self.status = SmtpSessionStatus::Hello;
                    } else {
                        replies.push(String::from_str(check_command(parts[0].as_slice()).message()));
                    }
                },
                Some(Verb::Noop) => {
                    if arity != 0 {
                        replies.push(String::from_str(SmtpError::new(501).message()));
                    }
                    replies.push(String::from_str("250 2.0.0 OK\r\n"));
                },
                Some(Verb::Quit) => {
                    if arity == 0 {
                        replies.push(String::from_str("221 2.0.0 Bye\r\n"));
                        self.status = SmtpSessionStatus::Stop;
                    } else {
                        replies.push(String::from_str(SmtpError::new(501).message()));
                    }
                },
                Some(Verb::Rset) => {
                    if arity == 0 {
                        self.status = SmtpSessionStatus::Start;
                        clear_inbound = true;
                    } else {
                        replies.push(String::from_str(SmtpError::new(501).message()));
                    }
                },
                Some(Verb::Help) => {
                    replies.push(String::from_str(SMTPD_HELP));
                },
                Some(v) => {
                    let placed = match v {
                        Verb::Mail => self.status == SmtpSessionStatus::Hello,
                        Verb::Rcpt => self.status == SmtpSessionStatus::Sender || self.status
                            == SmtpSessionStatus::Rcpt,
                        Verb::Data => self.status == SmtpSessionStatus::Rcpt,
                        _ => true,
                    };
                    if placed {
                        replies.push(String::from_str(check_command(parts[0].as_slice()).message()));
                    } else {
                        replies.push(String::from_str(SmtpError::new(503).message()));
                    }
                },
                None => {
                    replies.push(String::from_str(check_command(parts[0].as_slice()).message()));
                },
            }
        }
        let shutdown = self.status == SmtpSessionStatus::Stop;
        SessionOutput { replies, clear_inbound, shutdown }
    }
}

} // verus!
