//! The client: a credential together with at most one gateway connection.

use crate::workers::ws::{resolution, text_chars, url_parses, Discovery, GatewayError, Lifecycle, WebSocket};
use vstd::prelude::*;

verus! {

/// A credential and the connection that was opened with it. Both are absent
/// until a login starts a connection, and both are set together.
#[derive(Debug)]
pub struct Client {
    ws: Option<WebSocket>,
    /// The stored credential.
    pub token: Option<String>,
}

/// What a login does to a client, given what discovery resolves to.
///
/// Where discovery fails, or resolves to a malformed URL, the login fails
/// with that error and the client is left as it was. Otherwise the client
/// holds the token and a new connection to the resolved URL whose connect
/// step is in flight, and the connection it held before is handed back with
/// its teardown already asked for.
pub open spec fn logged_in(
    before: Client,
    after: Client,
    token: String,
    discovery: Discovery,
    r: Result<Option<WebSocket>, GatewayError>,
) -> bool {
    match resolution(discovery) {
        Err(e) => r == Err::<Option<WebSocket>, GatewayError>(e) && after == before,
        Ok(url) => if url_parses(url) {
            &&& after.credential() == Some(token@)
            &&& after.connection() matches Some(ws) && ws.lifecycle() == Lifecycle::Connecting
                && ws.url() == url
            &&& r matches Ok(previous) && replaced(before.connection(), previous)
        } else {
            r == Err::<Option<WebSocket>, GatewayError>(GatewayError::InvalidUrl) && after == before
        },
    }
}

/// How the connection handed back by a login relates to the one that was held.
pub open spec fn replaced(held: Option<WebSocket>, previous: Option<WebSocket>) -> bool {
    match held {
        None => previous is None,
        Some(old_ws) => previous matches Some(p) && p.url() == old_ws.url() && p.lifecycle()
            == old_ws.lifecycle().after_teardown(),
    }
}

impl Client {
    /// The connection the client holds.
    pub closed spec fn connection(&self) -> Option<WebSocket> {
        self.ws
    }

    /// The stored credential by its characters.
    pub closed spec fn credential(&self) -> Option<Seq<char>> {
        text_chars(self.token)
    }

    /// A client without credential and without connection.
    pub fn new() -> (c: Client)
        ensures
            c.connection() is None,
            c.credential() is None,
    {
        Client { ws: None, token: None }
    }

    /// Logs in with `token`, given the answer to the discovery request:
    /// resolves the gateway URL and starts a connection to it. A connection
    /// held before is torn down first and handed back, so that the caller can
    /// close its socket and join its task before opening the new one.
    pub fn login(&mut self, token: String, discovery: &Discovery) -> (r: Result<
        Option<WebSocket>,
        GatewayError,
    >)
        ensures
            logged_in(*old(self), *final(self), token, *discovery, r),
    {
        let gateway = match WebSocket::retrieve_gateway_url(discovery) {
            Ok(url) => url,
            Err(e) => {
                return Err(e);
            },
        };
        let fresh = match WebSocket::init(gateway) {
            Ok(ws) => ws,
            Err(e) => {
                return Err(e);
            },
        };
        let previous = match self.ws.take() {
            Some(mut held) => {
                held.teardown();
                Some(held)
            },
            None => None,
        };
        self.token = Some(token);
        self.ws = Some(fresh);
        Ok(previous)
    }

    /// The stored credential; absent until a login has succeeded.
    pub fn token(&self) -> (t: Option<String>)
        ensures
            text_chars(t) == self.credential(),
    {
        match &self.token {
            Some(t) => Some(t.clone()),
            None => None,
        }
    }

    /// The state of the held connection; a client without one has not
    /// initialised any.
    pub fn state(&self) -> (s: Lifecycle)
        ensures
            s == (match self.connection() {
                Some(ws) => ws.lifecycle(),
                None => Lifecycle::Uninitialized,
            }),
    {
        match &self.ws {
            Some(ws) => ws.state(),
            None => Lifecycle::Uninitialized,
        }
    }

    /// Takes the connection out of the client, to report a transport outcome
    /// to it or to tear it down. The credential stays.
    pub fn take_connection(&mut self) -> (ws: Option<WebSocket>)
        ensures
            ws == old(self).connection(),
            final(self).connection() is None,
            final(self).credential() == old(self).credential(),
    {
        self.ws.take()
    }

    /// Puts a connection into a client that holds none; a client that holds
    /// one keeps it and hands `ws` back.
    pub fn attach(&mut self, ws: WebSocket) -> (refused: Option<WebSocket>)
        ensures
            final(self).credential() == old(self).credential(),
            old(self).connection() is None ==> refused is None && final(self).connection() == Some(
                ws,
            ),
            old(self).connection() is Some ==> refused == Some(ws) && final(self).connection()
                == old(self).connection(),
    {
        if self.ws.is_none() {
            self.ws = Some(ws);
            None
        } else {
            Some(ws)
        }
    }
}

} // verus!
