use std::sync::Arc;
use vstd::prelude::*;

verus! {

/// Tuning of one server's connections.
pub struct ConfigSmtpServerExpand {
    /// Capacity of each connection's outbound reply queue.
    pub pipe_tx_len: usize,
    /// Capacity of each connection's inbound line queue.
    pub pipe_rx_len: usize,
}

/// One logical server: its identity and where it listens.
pub struct ConfigSmtpServer {
    /// The domain announced in the greeting and in replies.
    pub domain: String,
    /// Addresses to bind, paired in order with `ports`.
    pub binds: Vec<String>,
    /// Ports to bind, paired in order with `binds`.
    pub ports: Vec<u16>,
    /// The text of the reply to HELO.
    pub hello: String,
    /// Connection tuning.
    pub expand: ConfigSmtpServerExpand,
}

/// Every configured server, each shared by all of its sessions.
pub struct Config {
    pub smtp_servers: Vec<Arc<ConfigSmtpServer>>,
}

impl ConfigSmtpServer {
    /// The (address, port) pairs to listen on: the i-th bind address with the
    /// i-th port, as far as both lists go.
    pub fn listen_addrs(&self) -> (r: Vec<(String, u16)>)
        ensures
            r@.len() == if self.binds@.len() <= self.ports@.len() {
                self.binds@.len()
            } else {
                self.ports@.len()
            },
            forall|i: int|
                0 <= i < r@.len() ==> (#[trigger] r@[i]).0@ == self.binds@[i]@ && r@[i].1
                    == self.ports@[i],
    {
        let n = if self.binds.len() <= self.ports.len() {
            self.binds.len()
        } else {
            self.ports.len()
        };
        let mut out: Vec<(String, u16)> = Vec::new();
        let mut i: usize = 0;
        while i < n
            invariant
                n <= self.binds@.len(),
                n <= self.ports@.len(),
                0 <= i <= n,
                out@.len() == i,
                forall|j: int|
                    0 <= j < i ==> (#[trigger] out@[j]).0@ == self.binds@[j]@ && out@[j].1
                        == self.ports@[j],
            decreases n - i,
        {
            let bind = self.binds[i].clone();
            out.push((bind, self.ports[i]));
            i = i + 1;
        }
        out
    }
}

} // verus!
