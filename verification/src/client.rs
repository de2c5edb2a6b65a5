//! The client of the chatbox, without its socket.
//!
//! A [`Client`] knows the peer and makes the datagrams; its caller owns
//! the socket, connects it where a method says so, and sends what a method
//! returns.

use crate::address::{vrchat_osc_addr, IpAddress, SocketAddress, ANY_PORT};
use crate::message::{datagram, encode, EncodeError, Endpoint, EndpointView};
use vstd::prelude::*;
use vstd::string::*;

verus! {

/// The two addresses of a client that is yet to be built.
#[derive(Clone, Copy, Debug, PartialEq, Eq)]
pub struct ClientBuilder {
    client: SocketAddress,
    server: SocketAddress,
}

/// What a [`ClientBuilder`] holds.
pub struct ClientBuilderView {
    /// The local address that the socket is to be bound to.
    pub client: SocketAddress,
    /// The address of the peer.
    pub server: SocketAddress,
}

impl View for ClientBuilder {
    type V = ClientBuilderView;

    closed spec fn view(&self) -> ClientBuilderView {
        ClientBuilderView { client: self.client, server: self.server }
    }
}

/// The peer that the datagrams go to.
#[derive(Debug, PartialEq, Eq)]
pub struct Client {
    server_address: SocketAddress,
}

impl View for Client {
    type V = SocketAddress;

    closed spec fn view(&self) -> SocketAddress {
        self.server_address
    }
}

impl ClientBuilder {
    /// A builder for a client on the loopback host, on a port that the
    /// operating system chooses, with the chatbox's usual address as peer.
    pub fn new() -> (builder: ClientBuilder)
        ensures
            builder@.client == (SocketAddress { ip: IpAddress::localhost(), port: ANY_PORT }),
            builder@.server == vrchat_osc_addr(),
    {
        ClientBuilder {
            client: SocketAddress::new(IpAddress::localhost(), ANY_PORT),
            server: vrchat_osc_addr(),
        }
    }

    pub fn with_server_ip(self, ip: IpAddress) -> (builder: ClientBuilder)
        ensures
            builder@.client == self@.client,
            builder@.server == (SocketAddress { ip, port: self@.server.port }),
    {
        ClientBuilder { client: self.client, server: self.server.with_ip(ip) }
    }

    pub fn with_server_port(self, port: u16) -> (builder: ClientBuilder)
        ensures
            builder@.client == self@.client,
            builder@.server == (SocketAddress { ip: self@.server.ip, port }),
    {
        ClientBuilder { client: self.client, server: self.server.with_port(port) }
    }

    /// Sets the local port; without it the operating system chooses one.
    pub fn with_client_port(self, port: u16) -> (builder: ClientBuilder)
        ensures
            builder@.client == (SocketAddress { ip: self@.client.ip, port }),
            builder@.server == self@.server,
    {
        ClientBuilder { client: self.client.with_port(port), server: self.server }
    }

    /// The local address that the socket is to be bound to.
    pub fn client_address(&self) -> (addr: SocketAddress)
        ensures
            addr == self@.client,
    {
        self.client
    }

    /// The address that the socket is to be connected to.
    pub fn server_address(&self) -> (addr: SocketAddress)
        ensures
            addr == self@.server,
    {
        self.server
    }

    /// The client for the builder's peer.
    pub fn build(&self) -> (client: Client)
        ensures
            client@ == self@.server,
    {
        Client { server_address: self.server }
    }
}

impl Client {
    /// A client for the given peer.
    pub fn new(server_address: SocketAddress) -> (client: Client)
        ensures
            client@ == server_address,
    {
        Client { server_address }
    }

    /// The peer.
    pub fn server_address(&self) -> (addr: SocketAddress)
        ensures
            addr == self@,
    {
        self.server_address
    }

    /// Takes a new peer and returns the address that the socket is to be
    /// connected to. The client keeps the new peer even where that fails.
    pub fn change_server_address(&mut self, new_address: SocketAddress) -> (target: SocketAddress)
        ensures
            final(self)@ == new_address,
            target == new_address,
    {
        self.server_address = new_address;
        self.server_address
    }

    /// As [`Client::change_server_address`], for the peer's IP address alone.
    pub fn change_server_ip(&mut self, new_ip: IpAddress) -> (target: SocketAddress)
        ensures
            final(self)@ == (SocketAddress { ip: new_ip, port: old(self)@.port }),
            target == final(self)@,
    {
        self.server_address = self.server_address.with_ip(new_ip);
        self.server_address
    }

    /// As [`Client::change_server_address`], for the peer's port alone.
    pub fn change_server_port(&mut self, new_port: u16) -> (target: SocketAddress)
        ensures
            final(self)@ == (SocketAddress { ip: old(self)@.ip, port: new_port }),
            target == final(self)@,
    {
        self.server_address = self.server_address.with_port(new_port);
        self.server_address
    }

    /// The datagram that shows or hides the typing indicator.
    pub fn typing_indicator(&self, toggle: bool) -> (r: Result<Vec<u8>, EncodeError>)
        ensures
            r is Ok,
            r matches Ok(bytes) ==> bytes@ == datagram(
                EndpointView::TypingIndicator { active: toggle },
            ),
    {
        encode(&Endpoint::TypingIndicator { active: toggle })
    }

    /// The datagram of a chat message. `keyboard` and `sfx` are the two
    /// flags that travel with the text, in this order.
    pub fn send_message(&self, msg: &str, keyboard: bool, sfx: bool) -> (r: Result<
        Vec<u8>,
        EncodeError,
    >)
        ensures
            r is Ok,
            r matches Ok(bytes) ==> bytes@ == datagram(
                EndpointView::ChatMessage { text: msg@, show_keyboard: keyboard, play_sound: sfx },
            ),
    {
        encode(
            &Endpoint::ChatMessage {
                text: String::from_str(msg),
                show_keyboard: keyboard,
                play_sound: sfx,
            },
        )
    }
}

} // verus!
