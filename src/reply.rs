use crate::command::{parse_verb, verb_of, Verb};
use vstd::prelude::*;

verus! {

/// The product name announced in the greeting.
pub const SMTPD_NAME: &'static str = "Arcmail";

/// The protocol tag announced in the greeting.
pub const SMTPD_INFO: &'static str = "ESMTP";

/// The banner that HELP sends.
pub const SMTPD_HELP: &'static str = "Arcmail SMTP Server\r\nLicensed under the GPLv3 or later\r\n";

/// A rejected command, each kind bound to one reply code and one fixed reply text.
#[derive(Clone, Copy, Debug, PartialEq, Eq, Structural)]
pub enum SmtpError {
    /// 500: the command is not recognized.
    SyntaxError,
    /// 501: the command's arguments are malformed.
    ParamSyntaxError,
    /// 502: the command is recognized but not implemented.
    CommandNotImplemented,
    /// 503: the command is not allowed at this point of the session.
    BadSequence,
}

/// The error bound to a numeric reply code; an unknown code means a syntax error.
pub open spec fn error_of_code(code: u16) -> SmtpError {
    if code == 501 {
        SmtpError::ParamSyntaxError
    } else if code == 502 {
        SmtpError::CommandNotImplemented
    } else if code == 503 {
        SmtpError::BadSequence
    } else {
        SmtpError::SyntaxError
    }
}

/// The reply line, CRLF included, that reports an error to the peer.
pub open spec fn error_text(e: SmtpError) -> Seq<char> {
    match e {
        SmtpError::SyntaxError => "500 Syntax error, command unrecognized\r\n"@,
        SmtpError::ParamSyntaxError => "501 Syntax error in parameters or arguments\r\n"@,
        SmtpError::CommandNotImplemented => "502 Command not implemented\r\n"@,
        SmtpError::BadSequence => "503 Bad sequence of commands\r\n"@,
    }
}

impl SmtpError {
    /// The error for a reply code: 501, 502 and 503 have their own kinds, every
    /// other code is a syntax error.
    pub fn new(code: u16) -> (r: SmtpError)
        ensures
            r == error_of_code(code),
    {
        match code {
            501 => SmtpError::ParamSyntaxError,
            502 => SmtpError::CommandNotImplemented,
            503 => SmtpError::BadSequence,
            _ => SmtpError::SyntaxError,
        }
    }

    /// The fixed reply line of this error.
    pub fn message(&self) -> (r: &'static str)
        ensures
            r@ == error_text(*self),
    {
        match self {
            SmtpError::SyntaxError => "500 Syntax error, command unrecognized\r\n",
            SmtpError::ParamSyntaxError => "501 Syntax error in parameters or arguments\r\n",
            SmtpError::CommandNotImplemented => "502 Command not implemented\r\n",
            SmtpError::BadSequence => "503 Bad sequence of commands\r\n",
        }
    }
}

/// The error reported for a command that the session did not handle where it
/// stood: an unknown word is a syntax error, HELO (legal only at the start of a
/// session) is out of sequence, and any other verb is not implemented.
pub open spec fn command_error(w: Seq<u8>) -> SmtpError {
    match verb_of(w) {
        None => SmtpError::SyntaxError,
        Some(Verb::Helo) => SmtpError::BadSequence,
        Some(_) => SmtpError::CommandNotImplemented,
    }
}

/// Classifies a command word that was not handled in context.
pub fn check_command(command: &[u8]) -> (r: SmtpError)
    ensures
        r == command_error(command@),
{
    match parse_verb(command) {
        None => SmtpError::new(500),
        Some(Verb::Helo) => SmtpError::new(503),
        Some(_) => SmtpError::new(502),
    }
}

/// The text of each string of a list.
pub open spec fn string_views(v: Seq<String>) -> Seq<Seq<char>> {
    v.map_values(|s: String| s@)
}

/// Line `i` of a 250 reply made of `lines`: a hyphen after the code on every
/// line but the last, a space on the last.
pub open spec fn multi_line(lines: Seq<Seq<char>>, i: int) -> Seq<char> {
    (if i == lines.len() - 1 {
        "250 "@
    } else {
        "250-"@
    }) + lines[i] + "\r\n"@
}

/// The wire lines of a 250 reply made of `lines`.
pub open spec fn multi_response(lines: Seq<Seq<char>>) -> Seq<Seq<char>> {
    Seq::new(lines.len(), |i: int| multi_line(lines, i))
}

/// Appends to `out` the lines of a 250 reply whose texts are `lines`.
pub fn write_multi_response(out: &mut Vec<String>, lines: &Vec<String>)
    ensures
        string_views(final(out)@) == string_views(old(out)@) + multi_response(string_views(lines@)),
{
    let n = lines.len();
    let mut i: usize = 0;
    while i < n
        invariant
            n == lines.len(),
            0 <= i <= n,
            string_views(out@) == string_views(old(out)@) + multi_response(
                string_views(lines@),
            ).subrange(0, i as int),
        decreases n - i,
    {
        let mut line = if i + 1 == n {
            String::from_str("250 ")
        } else {
            String::from_str("250-")
        };
        line.append(lines[i].as_str());
        line.append("\r\n");
        let ghost before = string_views(out@);
        out.push(line);
        assert(line@ == multi_line(string_views(lines@), i as int));
        assert(string_views(out@) =~= before.push(line@));
        assert(multi_response(string_views(lines@)).subrange(0, i + 1) =~= multi_response(
            string_views(lines@),
        ).subrange(0, i as int).push(line@));
        i = i + 1;
    }
    assert(multi_response(string_views(lines@)).subrange(0, n as int) =~= multi_response(
        string_views(lines@),
    ));
}

} // verus!
