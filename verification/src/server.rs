//! A server's settings and routing table, and the address it listens on.
use crate::msghandler::MsgHandle;
use crate::request::{IRouter, Request};
use std::sync::Arc;
use vstd::prelude::*;

verus! {

/// The decimal digit for `d` (`d < 10`).
pub open spec fn digit_char(d: nat) -> char {
    (48 + d) as char
}

/// The decimal representation of `n`, without leading zeros.
pub open spec fn decimal(n: nat) -> Seq<char>
    decreases n,
{
    if n < 10 {
        seq![digit_char(n)]
    } else {
        decimal(n / 10) + seq![digit_char(n % 10)]
    }
}

/// `format!("{}:{}", ip, port)`: the host, a colon, and the port in decimal,
/// as `Display` writes a `u32`.
#[verifier::external_body]
fn format_host_port(ip: &str, port: u32) -> (res: String)
    ensures
        res@ == ip@ + seq![':'] + decimal(port as nat),
{
    format!("{}:{}", ip, port)
}

/// A server: started, stopped, served, and given routers.
pub trait Iserver {
    /// The kind of request that the server's routers handle.
    type R: View;

    /// Starts listening and accepting connections.
    fn Start(&self) -> Result<(), std::io::Error>;

    /// Stops the server.
    fn Stop(&mut self);

    /// Starts the server and serves until it stops.
    fn Serve(&mut self);

    /// Registers a router for the connections to use.
    fn AddRouter(&mut self, router: Arc<Box<dyn IRouter<Self::R>>>);
}

/// The settings of a server and the routers that its connections share.
pub struct Server {
    Name: String,
    IPVersion: String,
    IP: String,
    Port: u32,
    Router: Arc<MsgHandle<Request>>,
}

impl Server {
    pub fn new(name: String, ip_version: String, ip: String, port: u32, router: MsgHandle<Request>) -> (res: Self)
        ensures
            res.name_spec() == name@,
            res.ip_version_spec() == ip_version@,
            res.ip_spec() == ip@,
            res.port_spec() == port,
            res.router_spec() == router,
    {
        Server { Name: name, IPVersion: ip_version, IP: ip, Port: port, Router: Arc::new(router) }
    }

    pub closed spec fn name_spec(&self) -> Seq<char> {
        self.Name@
    }

    pub closed spec fn ip_version_spec(&self) -> Seq<char> {
        self.IPVersion@
    }

    pub closed spec fn ip_spec(&self) -> Seq<char> {
        self.IP@
    }

    pub closed spec fn port_spec(&self) -> u32 {
        self.Port
    }

    pub closed spec fn router_spec(&self) -> MsgHandle<Request> {
        *self.Router
    }

    /// The server's name.
    pub fn name(&self) -> (res: &str)
        ensures
            res@ == self.name_spec(),
    {
        self.Name.as_str()
    }

    /// The IP version that the server is configured for.
    pub fn ip_version(&self) -> (res: &str)
        ensures
            res@ == self.ip_version_spec(),
    {
        self.IPVersion.as_str()
    }

    /// The address the server binds.
    pub fn ip(&self) -> (res: &str)
        ensures
            res@ == self.ip_spec(),
    {
        self.IP.as_str()
    }

    /// The port the server binds.
    pub fn port(&self) -> (res: u32)
        ensures
            res == self.port_spec(),
    {
        self.Port
    }

    /// The routing table, shared with each connection.
    pub fn router(&self) -> (res: Arc<MsgHandle<Request>>)
        ensures
            *res == self.router_spec(),
    {
        Arc::clone(&self.Router)
    }

    /// The address to listen on: `ip:port`.
    pub fn listen_addr(&self) -> (res: String)
        ensures
            res@ == self.ip_spec() + seq![':'] + decimal(self.port_spec() as nat),
    {
        format_host_port(self.IP.as_str(), self.Port)
    }
}

} // verus!
