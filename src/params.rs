use vstd::prelude::*;

use std::path::PathBuf;

use crate::text::{decimal, decimal_text};

verus! {

/// An IPv4 socket address: four address bytes and a port.
#[derive(Debug, Clone, Copy)]
pub struct SocketAddrV4 {
    ip: [u8; 4],
    port: u16,
}

/// The dotted notation of an IPv4 address and port, `a.b.c.d:port`.
pub open spec fn socket_text(ip: Seq<u8>, port: u16) -> Seq<char> {
    decimal(ip[0] as nat) + "."@ + decimal(ip[1] as nat) + "."@ + decimal(ip[2] as nat) + "."@
        + decimal(ip[3] as nat) + ":"@ + decimal(port as nat)
}

impl SocketAddrV4 {
    /// The address made of `ip` and `port`.
    pub fn new(ip: [u8; 4], port: u16) -> (r: SocketAddrV4)
        ensures
            r.ip_spec() == ip@,
            r.port_spec() == port,
    {
        SocketAddrV4 { ip, port }
    }

    /// The loopback address `127.0.0.1` with `port`.
    pub fn loopback(port: u16) -> (r: SocketAddrV4)
        ensures
            r.ip_spec() == seq![127u8, 0u8, 0u8, 1u8],
            r.port_spec() == port,
    {
        let r = SocketAddrV4 { ip: [127, 0, 0, 1], port };
        assert(r.ip@ =~= seq![127u8, 0u8, 0u8, 1u8]);
        r
    }

    /// The four address bytes.
    pub closed spec fn ip_spec(&self) -> Seq<u8> {
        self.ip@
    }

    /// The port.
    pub closed spec fn port_spec(&self) -> u16 {
        self.port
    }

    /// The four address bytes.
    pub fn ip(&self) -> (r: [u8; 4])
        ensures
            r@ == self.ip_spec(),
    {
        self.ip
    }

    /// The port.
    pub fn port(&self) -> (r: u16)
        ensures
            r == self.port_spec(),
    {
        self.port
    }

    /// The address in dotted notation with its port, such as `127.0.0.1:8080`.
    pub fn to_text(&self) -> (r: String)
        ensures
            r@ == socket_text(self.ip_spec(), self.port_spec()),
    {
        let mut r = decimal_text(self.ip[0] as u16);
        r.append(".");
        r.append(decimal_text(self.ip[1] as u16).as_str());
        r.append(".");
        r.append(decimal_text(self.ip[2] as u16).as_str());
        r.append(".");
        r.append(decimal_text(self.ip[3] as u16).as_str());
        r.append(":");
        r.append(decimal_text(self.port).as_str());
        r
    }
}

/// What a caller needs to connect to a running daemon.
#[derive(Debug, Clone)]
pub struct ConnectParams {
    /// The daemon's data directory.
    pub datadir: PathBuf,
    /// The socket address of the daemon's RPC interface.
    pub rpc_socket: SocketAddrV4,
}

/// The URL of the RPC interface at `socket`, with its scheme.
pub open spec fn rpc_url_spec(socket: SocketAddrV4) -> Seq<char> {
    "http://"@ + socket_text(socket.ip_spec(), socket.port_spec())
}

impl ConnectParams {
    /// The parameters of a daemon kept in `datadir` whose RPC interface
    /// listens on `rpc_port` of the loopback address.
    pub fn new(datadir: PathBuf, rpc_port: u16) -> (r: ConnectParams)
        ensures
            r.datadir == datadir,
            r.rpc_socket.ip_spec() == seq![127u8, 0u8, 0u8, 1u8],
            r.rpc_socket.port_spec() == rpc_port,
    {
        ConnectParams { datadir, rpc_socket: SocketAddrV4::loopback(rpc_port) }
    }

    /// The RPC URL with its scheme, such as `http://127.0.0.1:44842`.
    pub fn rpc_url(&self) -> (r: String)
        ensures
            r@ == rpc_url_spec(self.rpc_socket),
    {
        let mut r = String::from_str("http://");
        r.append(self.rpc_socket.to_text().as_str());
        r
    }
}

} // verus!
