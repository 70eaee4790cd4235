use arcmail::{
    ConfigSmtpServer, ConfigSmtpServerExpand, SessionOutput, SmtpSession, SmtpSessionStatus,
};
use std::sync::Arc;

fn config() -> Arc<ConfigSmtpServer> {
    Arc::new(ConfigSmtpServer {
        domain: String::from("example.com"),
        binds: vec![String::from("127.0.0.1")],
        ports: vec![2525],
        hello: String::from("Hello"),
        expand: ConfigSmtpServerExpand { pipe_tx_len: 16, pipe_rx_len: 16 },
    })
}

fn greeted() -> SmtpSession {
    let mut s = SmtpSession::new(config());
    let greeting = s.start();
    assert_eq!(greeting, vec![String::from("220 example.com ESMTP Arcmail\r\n")]);
    s
}

fn send(s: &mut SmtpSession, line: &str) -> SessionOutput {
    s.handle_line(line.as_bytes())
}

#[test]
fn new_session_waits_to_greet() {
    let s = SmtpSession::new(config());
    assert_eq!(s.status, SmtpSessionStatus::Start);
    assert!(!s.tls);
    assert!(s.client.is_empty());
    assert!(s.is_running());
}

#[test]
fn helo_then_quit_scenario() {
    let mut s = greeted();
    assert_eq!(s.status, SmtpSessionStatus::Init);
    let out = send(&mut s, "HELO client");
    assert_eq!(out.replies, vec![String::from("250 Hello example.com\r\n")]);
    assert!(!out.shutdown);
    assert_eq!(s.status, SmtpSessionStatus::Hello);
    assert_eq!(s.client, b"client".to_vec());
    let out = send(&mut s, "QUIT");
    assert_eq!(out.replies, vec![String::from("221 2.0.0 Bye\r\n")]);
    assert!(out.shutdown);
    assert_eq!(s.status, SmtpSessionStatus::Stop);
    assert!(!s.is_running());
}

#[test]
fn unknown_command_before_helo_is_500() {
    let mut s = greeted();
    let out = send(&mut s, "FOO");
    assert_eq!(out.replies, vec![String::from("500 Syntax error, command unrecognized\r\n")]);
    assert_eq!(s.status, SmtpSessionStatus::Init);
}

#[test]
fn transaction_verbs_before_helo_are_503() {
    let mut s = greeted();
    for line in ["MAIL FROM:<a@b>", "RCPT TO:<c@d>", "DATA"] {
        let out = send(&mut s, line);
        assert_eq!(out.replies, vec![String::from("503 Bad sequence of commands\r\n")]);
        assert_eq!(s.status, SmtpSessionStatus::Init);
    }
}

#[test]
fn other_verbs_before_helo_are_502() {
    let mut s = greeted();
    for line in ["VRFY user", "EXPN list"] {
        let out = send(&mut s, line);
        assert_eq!(out.replies, vec![String::from("502 Command not implemented\r\n")]);
    }
}

#[test]
fn verbs_are_case_sensitive() {
    let mut s = greeted();
    let out = send(&mut s, "helo client");
    assert_eq!(out.replies, vec![String::from("500 Syntax error, command unrecognized\r\n")]);
    assert_eq!(s.status, SmtpSessionStatus::Init);
}

#[test]
fn empty_and_blank_lines_are_500() {
    let mut s = greeted();
    for line in ["", "   \t "] {
        let out = send(&mut s, line);
        assert_eq!(out.replies, vec![String::from("500 Syntax error, command unrecognized\r\n")]);
    }
}

#[test]
fn helo_with_wrong_argument_count_is_501() {
    let mut s = greeted();
    for line in ["HELO", "HELO a b", "EHLO", "EHLO a b c"] {
        let out = send(&mut s, line);
        assert_eq!(
            out.replies,
            vec![String::from("501 Syntax error in parameters or arguments\r\n")]
        );
        assert_eq!(s.status, SmtpSessionStatus::Init);
    }
    send(&mut s, "HELO client");
    let out = send(&mut s, "HELO");
    assert_eq!(out.replies, vec![String::from("501 Syntax error in parameters or arguments\r\n")]);
    assert_eq!(s.status, SmtpSessionStatus::Hello);
}

#[test]
fn ehlo_sends_a_capability_block() {
    let mut s = greeted();
    let out = send(&mut s, "EHLO client.example");
    assert_eq!(out.replies, vec![String::from("250 example.com\r\n")]);
    assert_eq!(s.status, SmtpSessionStatus::Hello);
    assert_eq!(s.client, b"client.example".to_vec());
}

#[test]
fn second_helo_is_503_and_second_ehlo_502() {
    let mut s = greeted();
    send(&mut s, "HELO one");
    let out = send(&mut s, "HELO two");
    assert_eq!(out.replies, vec![String::from("503 Bad sequence of commands\r\n")]);
    let out = send(&mut s, "EHLO two");
    assert_eq!(out.replies, vec![String::from("502 Command not implemented\r\n")]);
    assert_eq!(s.status, SmtpSessionStatus::Hello);
    assert_eq!(s.client, b"one".to_vec());
}

#[test]
fn mail_after_helo_is_not_implemented_and_rcpt_is_out_of_sequence() {
    let mut s = greeted();
    send(&mut s, "HELO client");
    let out = send(&mut s, "MAIL FROM:<a@b>");
    assert_eq!(out.replies, vec![String::from("502 Command not implemented\r\n")]);
    let out = send(&mut s, "RCPT TO:<c@d>");
    assert_eq!(out.replies, vec![String::from("503 Bad sequence of commands\r\n")]);
    let out = send(&mut s, "DATA");
    assert_eq!(out.replies, vec![String::from("503 Bad sequence of commands\r\n")]);
}

#[test]
fn noop_answers_ok_and_reports_extra_arguments() {
    let mut s = greeted();
    let out = send(&mut s, "NOOP");
    assert_eq!(out.replies, vec![String::from("250 2.0.0 OK\r\n")]);
    let out = send(&mut s, "NOOP extra");
    assert_eq!(
        out.replies,
        vec![
            String::from("501 Syntax error in parameters or arguments\r\n"),
            String::from("250 2.0.0 OK\r\n"),
        ]
    );
    assert_eq!(s.status, SmtpSessionStatus::Init);
}

#[test]
fn quit_with_arguments_is_501_and_keeps_running() {
    let mut s = greeted();
    let out = send(&mut s, "QUIT now");
    assert_eq!(out.replies, vec![String::from("501 Syntax error in parameters or arguments\r\n")]);
    assert!(!out.shutdown);
    assert!(s.is_running());
}

#[test]
fn quit_before_helo_ends_the_session() {
    let mut s = greeted();
    let out = send(&mut s, "QUIT");
    assert_eq!(out.replies, vec![String::from("221 2.0.0 Bye\r\n")]);
    assert!(out.shutdown);
    assert_eq!(s.status, SmtpSessionStatus::Stop);
}

#[test]
fn rset_goes_back_to_the_greeting_and_drops_queued_lines() {
    let mut s = greeted();
    send(&mut s, "HELO client");
    let out = send(&mut s, "RSET");
    assert!(out.replies.is_empty());
    assert!(out.clear_inbound);
    assert!(!out.shutdown);
    assert_eq!(s.status, SmtpSessionStatus::Start);
    let greeting = s.start();
    assert_eq!(greeting, vec![String::from("220 example.com ESMTP Arcmail\r\n")]);
    assert_eq!(s.status, SmtpSessionStatus::Init);
    let again = s.start();
    assert!(again.is_empty());
}

#[test]
fn rset_with_arguments_is_501() {
    let mut s = greeted();
    let out = send(&mut s, "RSET x");
    assert_eq!(out.replies, vec![String::from("501 Syntax error in parameters or arguments\r\n")]);
    assert!(!out.clear_inbound);
    assert_eq!(s.status, SmtpSessionStatus::Init);
}

#[test]
fn help_sends_the_banner_with_or_without_arguments() {
    let banner = String::from("Arcmail SMTP Server\r\nLicensed under the GPLv3 or later\r\n");
    let mut s = greeted();
    assert_eq!(send(&mut s, "HELP").replies, vec![banner.clone()]);
    assert_eq!(send(&mut s, "HELP HELO").replies, vec![banner]);
}

#[test]
fn words_may_be_separated_by_any_whitespace() {
    let mut s = greeted();
    let out = send(&mut s, "  HELO\t client  ");
    assert_eq!(out.replies, vec![String::from("250 Hello example.com\r\n")]);
    assert_eq!(s.client, b"client".to_vec());
}
