use vstd::prelude::*;

verus! {

/// The server's command line: how to reach the client, and what to log.
#[derive(Debug, PartialEq, Eq)]
pub struct Cli {
    pub client_process_id: Option<String>,
    pub debug: bool,
    pub command: Command,
}

/// Where the client is.
#[derive(Debug, Clone, Copy, PartialEq, Eq)]
pub enum Command {
    /// Over standard input and output.
    Stdio,
    /// Over a TCP connection accepted on a port.
    Socket { port: usize },
}

impl Cli {
    /// The process id of the client that started the server, if it gave one.
    pub fn client_process_id(&self) -> (r: Option<&String>)
        ensures
            r matches Some(p) ==> self.client_process_id == Some(*p),
            r is None ==> self.client_process_id is None,
    {
        match &self.client_process_id {
            Some(p) => Some(p),
            None => None,
        }
    }

    /// Whether to log at debug level.
    pub fn debug(&self) -> (r: bool)
        ensures
            r == self.debug,
    {
        self.debug
    }

    pub fn command(&self) -> (r: &Command)
        ensures
            *r == self.command,
    {
        &self.command
    }
}

} // verus!
