use vstd::prelude::*;

verus! {

/// Where and how to connect.
#[derive(Clone, Debug, PartialEq, Eq)]
pub struct ConnOptions {
    /// Use TLS.
    pub tls: bool,
    /// Skip server identity verification.
    pub tls_noverify: bool,
    /// PEM file containing a TLS client certificate.
    pub client_cert: Option<String>,
    /// The port number to use.
    pub port: Option<u16>,
    /// The address of the server to connect to.
    pub address: String,
}

/// The settings of one run.
#[derive(Clone, Debug, PartialEq, Eq)]
pub struct Args {
    /// Abort if the operator tries to send an invalid message.
    pub strict: bool,
    /// The file to use for command history.
    pub history: Option<String>,
    /// Log messages at the debug level.
    pub verbose: bool,
    pub conn: ConnOptions,
    pub cmd: Command,
}

/// What to do once connected.
#[derive(Clone, Debug, PartialEq, Eq)]
pub enum Command {
    /// Exchange raw messages between the server and the operator, doing
    /// registration first with the options in this file, if one is given.
    Raw { register: Option<String> },
}

impl Default for Command {
    fn default() -> (r: Command)
        ensures
            r matches Command::Raw { register: None },
    {
        Command::Raw { register: None }
    }
}

impl Command {
    /// The registration file, if registration is asked for.
    pub fn register_file(&self) -> (r: Option<&String>)
        ensures
            r == match self {
                Command::Raw { register } => match register {
                    Some(p) => Some(p),
                    None => None::<&String>,
                },
            },
    {
        match self {
            Command::Raw { register } => register.as_ref(),
        }
    }
}

impl Args {
    /// A relay shaped by these settings: it registers exactly when a
    /// registration file is given.
    pub fn relay(&self) -> (r: crate::relay::Relay)
        ensures
            r.state == crate::relay::SessionState::Connecting,
            r.strict == self.strict,
            r.register == (self.cmd matches Command::Raw { register: Some(_) }),
    {
        let register = match &self.cmd {
            Command::Raw { register } => register.is_some(),
        };
        crate::relay::Relay::new(register, self.strict)
    }
}

} // verus!
