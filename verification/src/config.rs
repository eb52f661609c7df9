//! The login configuration model: an incoming-protocol descriptor and an
//! outgoing-protocol descriptor, each carrying a remote server address and
//! the credentials for it. Immutable once constructed; no partial state is
//! representable.

use vstd::prelude::*;

verus! {

/// The credentials for one mail server: either a password or an OAuth
/// token, each beside the account's username.
#[derive(Debug, Clone)]
pub enum Credentials {
    Password { username: String, secret: String },
    OAuthToken { username: String, token: String },
}

impl Credentials {
    /// The username, whichever variant carries it.
    pub open spec fn spec_username(self) -> Seq<char> {
        match self {
            Credentials::Password { username, .. } => username@,
            Credentials::OAuthToken { username, .. } => username@,
        }
    }

    /// The secret material: the password or the token.
    pub open spec fn spec_secret(self) -> Seq<char> {
        match self {
            Credentials::Password { secret, .. } => secret@,
            Credentials::OAuthToken { token, .. } => token@,
        }
    }
}

/// A remote mail server address.
#[derive(Debug, Clone)]
pub struct RemoteServer {
    pub domain: String,
    pub port: u16,
}

/// One protocol endpoint: a server address and the credentials for it.
#[derive(Debug, Clone)]
pub struct ServerConfig {
    pub server: RemoteServer,
    pub credentials: Credentials,
}

/// The incoming-protocol descriptor; the kinds form a closed set.
#[derive(Debug, Clone)]
pub enum IncomingProtocol {
    Imap(ServerConfig),
    Pop(ServerConfig),
}

impl IncomingProtocol {
    /// The endpoint, whichever protocol kind carries it.
    pub open spec fn spec_config(self) -> ServerConfig {
        match self {
            IncomingProtocol::Imap(config) => config,
            IncomingProtocol::Pop(config) => config,
        }
    }

    pub fn config(&self) -> (r: &ServerConfig)
        ensures
            *r == self.spec_config(),
    {
        match self {
            IncomingProtocol::Imap(config) => config,
            IncomingProtocol::Pop(config) => config,
        }
    }
}

/// The outgoing-protocol descriptor; the kinds form a closed set.
#[derive(Debug, Clone)]
pub enum OutgoingProtocol {
    Smtp(ServerConfig),
}

impl OutgoingProtocol {
    /// The endpoint carried by the protocol descriptor.
    pub open spec fn spec_config(self) -> ServerConfig {
        match self {
            OutgoingProtocol::Smtp(config) => config,
        }
    }

    pub fn config(&self) -> (r: &ServerConfig)
        ensures
            *r == self.spec_config(),
    {
        match self {
            OutgoingProtocol::Smtp(config) => config,
        }
    }
}

/// A user-supplied description of the incoming and outgoing mail protocol
/// endpoints and their credentials.
#[derive(Debug, Clone)]
pub struct LoginConfig {
    incoming: IncomingProtocol,
    outgoing: OutgoingProtocol,
}

impl LoginConfig {
    pub closed spec fn spec_incoming(self) -> IncomingProtocol {
        self.incoming
    }

    pub closed spec fn spec_outgoing(self) -> OutgoingProtocol {
        self.outgoing
    }

    pub fn new(incoming: IncomingProtocol, outgoing: OutgoingProtocol) -> (r: LoginConfig)
        ensures
            r.spec_incoming() == incoming,
            r.spec_outgoing() == outgoing,
    {
        LoginConfig { incoming, outgoing }
    }

    pub fn incoming(&self) -> (r: &IncomingProtocol)
        ensures
            *r == self.spec_incoming(),
    {
        &self.incoming
    }

    pub fn outgoing(&self) -> (r: &OutgoingProtocol)
        ensures
            *r == self.spec_outgoing(),
    {
        &self.outgoing
    }
}

} // verus!
