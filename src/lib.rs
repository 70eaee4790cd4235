pub mod command;
pub mod conf;
pub mod framer;
pub mod reply;
pub mod session;
pub mod stream;

pub use command::{parse_verb, split_words, Verb};
pub use conf::{Config, ConfigSmtpServer, ConfigSmtpServerExpand};
pub use framer::{check_8bit, remove_crlf, LineFramer, UtilReadError, MAX_LINE};
pub use reply::{check_command, write_multi_response, SmtpError};
pub use session::{SessionOutput, SmtpSession, SmtpSessionStatus};
pub use stream::{next_action, SmtpServerControl, SmtpStreamControl, StreamAction, StreamEvent};
