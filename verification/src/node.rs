//! The two kinds of node: the central server and its clients, and the
//! requests they send.

use vstd::prelude::*;
use crate::address::{host_port, parse_port, spec_host_port, spec_parse_port};
use crate::json::{encode_json_string, json_string};

verus! {

/// A request that a node sends: an HTTP `POST` of `body` to `url`.
#[derive(Clone, Debug, PartialEq, Eq)]
pub struct Outgoing {
    pub url: String,
    pub body: String,
}

impl View for Outgoing {
    type V = (Seq<char>, Seq<char>);

    open spec fn view(&self) -> (Seq<char>, Seq<char>) {
        (self.url@, self.body@)
    }
}

/// A `POST` of `body` to the URL `base` followed by `channel`.
pub fn post_to(base: &str, channel: &str, body: String) -> (post: Outgoing)
    ensures
        post.url@ == base@ + channel@,
        post.body@ == body@,
{
    Outgoing { url: String::from_str(base).concat(channel), body }
}

/// The request that sends the text `msg` on `channel` to the node whose
/// base URL is `server_ip`: the text travels as one JSON string.
pub fn send_message(server_ip: &str, channel: &str, msg: String) -> (post: Outgoing)
    ensures
        post.url@ == server_ip@ + channel@,
        post.body@ == json_string(msg@),
{
    let body = encode_json_string(msg.as_str());
    post_to(server_ip, channel, body)
}

/// The central server: its TLS identity and CA files, the port it serves,
/// and the addresses of the nodes it knows, in the order they were added.
#[derive(Clone, Debug)]
pub struct Server {
    identity: String,
    ca: String,
    port: u16,
    clients: Vec<String>,
}

/// What a server holds.
pub struct ServerView {
    pub identity: Seq<char>,
    pub ca: Seq<char>,
    pub port: u16,
    pub clients: Seq<Seq<char>>,
}

impl View for Server {
    type V = ServerView;

    closed spec fn view(&self) -> ServerView {
        ServerView {
            identity: self.identity@,
            ca: self.ca@,
            port: self.port,
            clients: self.clients@.map_values(|c: String| c@),
        }
    }
}

/// A server after the node at `addr` was added to it.
pub open spec fn with_client(server: ServerView, addr: Seq<char>) -> ServerView {
    ServerView { clients: server.clients.push(addr), ..server }
}

/// The requests, as `(url, body)`, that send `payload` on `channel` to each
/// of `clients` in turn.
pub open spec fn posts_to_all(clients: Seq<Seq<char>>, channel: Seq<char>, payload: Seq<char>) -> Seq<(Seq<char>, Seq<char>)> {
    clients.map_values(|addr: Seq<char>| (addr + channel, payload))
}

/// A node added to a server receives one more request, after those of the
/// nodes already known, and theirs are unchanged.
pub proof fn lemma_added_client_is_sent_last(server: ServerView, addr: Seq<char>, channel: Seq<char>, payload: Seq<char>)
    ensures
        posts_to_all(with_client(server, addr).clients, channel, payload)
            == posts_to_all(server.clients, channel, payload).push((addr + channel, payload)),
{
    assert(posts_to_all(with_client(server, addr).clients, channel, payload)
        =~= posts_to_all(server.clients, channel, payload).push((addr + channel, payload)));
}

/// A new server to which two nodes were added sends to both, the first one
/// added first, whatever their names and even where the two addresses are
/// the same.
pub proof fn lemma_two_clients_in_order(
    server: ServerView,
    first: Seq<char>,
    second: Seq<char>,
    channel: Seq<char>,
    payload: Seq<char>,
)
    requires
        server.clients == Seq::<Seq<char>>::empty(),
    ensures
        posts_to_all(with_client(with_client(server, first), second).clients, channel, payload)
            == seq![(first + channel, payload), (second + channel, payload)],
{
    lemma_added_client_is_sent_last(server, first, channel, payload);
    lemma_added_client_is_sent_last(with_client(server, first), second, channel, payload);
    assert(posts_to_all(server.clients, channel, payload) =~= Seq::<(Seq<char>, Seq<char>)>::empty());
    assert(posts_to_all(with_client(with_client(server, first), second).clients, channel, payload)
        =~= seq![(first + channel, payload), (second + channel, payload)]);
}

impl Server {
    /// A server on the port that `port` names, with no clients yet.
    pub fn new(identity: String, ca: String, port: String) -> (server: Server)
        requires
            spec_parse_port(port@) is Some,
        ensures
            server@ == (ServerView {
                identity: identity@,
                ca: ca@,
                port: spec_parse_port(port@)->0,
                clients: Seq::empty(),
            }),
    {
        let number = match parse_port(port.as_str()) {
            Some(number) => number,
            None => 0,
        };
        let server = Server { identity, ca, port: number, clients: Vec::new() };
        assert(server@.clients =~= Seq::<Seq<char>>::empty());
        server
    }

    /// Adds the node at `addr` after the known ones; `name` is not kept.
    pub fn add_client(&mut self, name: String, addr: String)
        ensures
            final(self)@ == with_client(old(self)@, addr@),
    {
        self.clients.push(addr);
        assert(self@.clients =~= old(self)@.clients.push(addr@));
    }

    /// The request that sends a message, already written as JSON in
    /// `payload`, to `receiver` on `channel`: its URL is `receiver` followed
    /// by `channel`.
    pub fn send(&self, receiver: String, channel: String, payload: String) -> (post: Outgoing)
        ensures
            post.url@ == receiver@ + channel@,
            post.body@ == payload@,
    {
        post_to(receiver.as_str(), channel.as_str(), payload)
    }

    /// The requests that send `payload` on `channel` to every known node,
    /// one per node, in the order the nodes were added.
    pub fn broadcast(&self, channel: String, payload: String) -> (posts: Vec<Outgoing>)
        ensures
            posts.len() == self@.clients.len(),
            posts@.map_values(|p: Outgoing| p@) == posts_to_all(self@.clients, channel@, payload@),
            forall|i: int| #![trigger posts[i]] 0 <= i < posts.len() ==> posts[i].url@ == self@.clients[i] + channel@
                && posts[i].body@ == payload@,
    {
        let mut posts: Vec<Outgoing> = Vec::new();
        let mut i: usize = 0;
        while i < self.clients.len()
            invariant
                i <= self.clients.len(),
                posts.len() == i,
                forall|j: int| #![trigger posts[j]] 0 <= j < i ==> posts[j].url@ == self@.clients[j] + channel@
                    && posts[j].body@ == payload@,
            decreases self.clients.len() - i,
        {
            let post = self.send(self.clients[i].clone(), channel.clone(), payload.clone());
            assert(self@.clients[i as int] == self.clients@[i as int]@);
            posts.push(post);
            i = i + 1;
        }
        assert(self@.clients.len() == self.clients@.len());
        assert(posts@.map_values(|p: Outgoing| p@) =~= posts_to_all(self@.clients, channel@, payload@));
        posts
    }

    /// The file holding the server's certificate and key.
    pub fn identity(&self) -> (identity: &String)
        ensures
            identity@ == self@.identity,
    {
        &self.identity
    }

    /// The file holding the CA that other nodes are checked against.
    pub fn ca(&self) -> (ca: &String)
        ensures
            ca@ == self@.ca,
    {
        &self.ca
    }

    /// The port the server serves.
    pub fn port(&self) -> (port: u16)
        ensures
            port == self@.port,
    {
        self.port
    }

    /// The addresses of the known nodes, in the order they were added.
    pub fn clients(&self) -> (clients: &Vec<String>)
        ensures
            clients@.map_values(|c: String| c@) == self@.clients,
    {
        &self.clients
    }
}

/// A client node: its TLS identity and CA files, the address and port it
/// serves on, and the address of the central server as `host:port`.
#[derive(Clone, Debug)]
pub struct Client {
    identity: String,
    ca: String,
    addr: String,
    port: String,
    central: String,
}

/// What a client holds.
pub struct ClientView {
    pub identity: Seq<char>,
    pub ca: Seq<char>,
    pub addr: Seq<char>,
    pub port: Seq<char>,
    pub central: Seq<char>,
}

impl View for Client {
    type V = ClientView;

    closed spec fn view(&self) -> ClientView {
        ClientView {
            identity: self.identity@,
            ca: self.ca@,
            addr: self.addr@,
            port: self.port@,
            central: self.central@,
        }
    }
}

impl Client {
    /// A client serving on `addr` and `port` that talks to the central server
    /// at `central_addr` and `central_port`.
    pub fn new(
        identity: String,
        ca: String,
        addr: String,
        port: String,
        central_addr: String,
        central_port: String,
    ) -> (client: Client)
        ensures
            client@ == (ClientView {
                identity: identity@,
                ca: ca@,
                addr: addr@,
                port: port@,
                central: spec_host_port(central_addr@, central_port@),
            }),
    {
        let central = host_port(central_addr.as_str(), central_port.as_str());
        Client { identity, ca, addr, port, central }
    }

    /// The address the client serves on, as `addr:port`.
    pub fn listen_address(&self) -> (text: String)
        ensures
            text@ == spec_host_port(self@.addr, self@.port),
    {
        host_port(self.addr.as_str(), self.port.as_str())
    }

    /// The request that sends a message, already written as JSON in
    /// `payload`, to the central server on `channel`: its URL is the central
    /// server's `host:port` followed by `channel`.
    pub fn send(&self, channel: String, payload: String) -> (post: Outgoing)
        ensures
            post.url@ == self@.central + channel@,
            post.body@ == payload@,
    {
        post_to(self.central.as_str(), channel.as_str(), payload)
    }

    /// The file holding the client's certificate and key.
    pub fn identity(&self) -> (identity: &String)
        ensures
            identity@ == self@.identity,
    {
        &self.identity
    }

    /// The file holding the CA that other nodes are checked against.
    pub fn ca(&self) -> (ca: &String)
        ensures
            ca@ == self@.ca,
    {
        &self.ca
    }

    /// The central server's address as `host:port`.
    pub fn central(&self) -> (central: &String)
        ensures
            central@ == self@.central,
    {
        &self.central
    }
}

} // verus!
