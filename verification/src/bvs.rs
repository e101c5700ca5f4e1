//! The mod's configuration: its version and the matchmaking server.
use vstd::prelude::*;
use vstd::string::*;

use crate::text::{decimal, decimal_text};

verus! {

/// Where the matchmaking server listens.
#[derive(Debug)]
pub struct Server {
    protocol: String,
    host: String,
    port: u16,
    path: String,
}

/// The mathematical value of a server address.
pub struct ServerView {
    pub protocol: Seq<char>,
    pub host: Seq<char>,
    pub port: u16,
    pub path: Seq<char>,
}

impl View for Server {
    type V = ServerView;

    closed spec fn view(&self) -> ServerView {
        ServerView {
            protocol: self.protocol@,
            host: self.host@,
            port: self.port,
            path: self.path@,
        }
    }
}

/// The port part of a server URL: empty for port 0, else a colon and the port.
pub open spec fn port_text(port: u16) -> Seq<char> {
    if port == 0 {
        Seq::empty()
    } else {
        ":"@ + decimal_text(port as nat)
    }
}

/// The URL of a room on a server: `protocol://host[:port]path<room>?next=2`.
pub open spec fn room_url_text(server: ServerView, room_code: Seq<char>) -> Seq<char> {
    server.protocol + "://"@ + server.host + port_text(server.port) + server.path + room_code
        + "?next=2"@
}

impl Server {
    pub fn get_protocol(&self) -> (r: String)
        ensures
            r@ == self@.protocol,
    {
        self.protocol.clone()
    }

    pub fn get_host(&self) -> (r: String)
        ensures
            r@ == self@.host,
    {
        self.host.clone()
    }

    pub fn get_port(&self) -> (r: u16)
        ensures
            r == self@.port,
    {
        self.port
    }

    pub fn get_path(&self) -> (r: String)
        ensures
            r@ == self@.path,
    {
        self.path.clone()
    }

    pub fn new(protocol: String, host: String, port: u16, path: String) -> (r: Server)
        ensures
            r@ == (ServerView { protocol: protocol@, host: host@, port, path: path@ }),
    {
        Server { protocol, host, port, path }
    }

    /// A copy of this address.
    pub fn duplicate(&self) -> (r: Server)
        ensures
            r@ == self@,
    {
        Server {
            protocol: self.protocol.clone(),
            host: self.host.clone(),
            port: self.port,
            path: self.path.clone(),
        }
    }

    /// The URL of the room `room_code` on this server.
    pub fn room_url(&self, room_code: &str) -> (r: String)
        ensures
            r@ == room_url_text(self@, room_code@),
    {
        let mut url = self.protocol.clone();
        url.append("://");
        url.append(self.host.as_str());
        if self.port != 0 {
            url.append(":");
            let port = decimal(self.port as u64);
            url.append(port.as_str());
        }
        url.append(self.path.as_str());
        url.append(room_code);
        url.append("?next=2");
        url
    }
}

/// The mod's configuration, as read from its `bvs.json`.
#[derive(Debug)]
pub struct BvsConfig {
    version: String,
    server: Server,
}

/// The mathematical value of the configuration.
pub struct BvsConfigView {
    pub version: Seq<char>,
    pub server: ServerView,
}

impl View for BvsConfig {
    type V = BvsConfigView;

    closed spec fn view(&self) -> BvsConfigView {
        BvsConfigView { version: self.version@, server: self.server@ }
    }
}

impl BvsConfig {
    pub fn new(version: String, server: Server) -> (r: BvsConfig)
        ensures
            r@ == (BvsConfigView { version: version@, server: server@ }),
    {
        BvsConfig { version, server }
    }

    pub fn get_version(&self) -> (r: String)
        ensures
            r@ == self@.version,
    {
        self.version.clone()
    }

    pub fn get_server(&self) -> (r: Server)
        ensures
            r@ == self@.server,
    {
        self.server.duplicate()
    }
}

} // verus!
