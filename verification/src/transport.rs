//! A message transport over one socket, for runtimes without raw sockets.
//!
//! The transport is the state behind the socket's callbacks: the caller owns
//! the socket, reports each event (`on_open`, `on_message`, `on_error`,
//! `on_close`), and does what the transport answers. Reconnection is the only
//! retry: a close schedules one attempt after a fixed delay, as long as the
//! attempts made since the last open stay under the configured maximum.

use crate::text::{replace, replace_all};
use std::collections::VecDeque;
use vstd::prelude::*;
use vstd::string::*;

verus! {

/// The life of the socket under a transport. It says nothing of circuits.
#[derive(Debug, Clone, Copy, PartialEq, Eq, Structural)]
pub enum TransportState {
    Disconnected,
    Connecting,
    Connected,
    Error,
}

/// How a transport connects and reconnects.
#[derive(Debug, PartialEq, Eq)]
pub struct TransportConfig {
    pub url: String,
    pub max_reconnect_attempts: u32,
    pub reconnect_delay_ms: u32,
}

/// The model of [`TransportConfig`].
pub struct TransportConfigView {
    pub url: Seq<char>,
    pub max_reconnect_attempts: u32,
    pub reconnect_delay_ms: u32,
}

impl View for TransportConfig {
    type V = TransportConfigView;

    open spec fn view(&self) -> TransportConfigView {
        TransportConfigView {
            url: self.url@,
            max_reconnect_attempts: self.max_reconnect_attempts,
            reconnect_delay_ms: self.reconnect_delay_ms,
        }
    }
}

impl Clone for TransportConfig {
    fn clone(&self) -> (r: Self)
        ensures
            r@ == self@,
    {
        TransportConfig {
            url: self.url.clone(),
            max_reconnect_attempts: self.max_reconnect_attempts,
            reconnect_delay_ms: self.reconnect_delay_ms,
        }
    }
}

impl TransportConfig {
    /// The configuration for `url` with three reconnection attempts, one
    /// second apart.
    pub fn new(url: String) -> (c: TransportConfig)
        ensures
            c@ == (TransportConfigView {
                url: url@,
                max_reconnect_attempts: 3,
                reconnect_delay_ms: 1000,
            }),
    {
        TransportConfig { url, max_reconnect_attempts: 3, reconnect_delay_ms: 1000 }
    }

    /// The address to connect to.
    pub fn url(&self) -> (r: &str)
        ensures
            r@ == self@.url,
    {
        self.url.as_str()
    }

    /// How many reconnection attempts may follow one open.
    pub fn max_reconnect_attempts(&self) -> (n: u32)
        ensures
            n == self@.max_reconnect_attempts,
    {
        self.max_reconnect_attempts
    }

    /// The wait before a reconnection attempt, in milliseconds.
    pub fn reconnect_delay_ms(&self) -> (n: u32)
        ensures
            n == self@.reconnect_delay_ms,
    {
        self.reconnect_delay_ms
    }
}

/// Why a transport refuses.
#[derive(Debug, PartialEq, Eq)]
pub enum TransportError {
    /// There is no socket.
    NotConnected,
    /// The socket could not be made, with the runtime's words.
    Socket(String),
}

/// The model of [`TransportError`].
pub enum TransportErrorView {
    NotConnected,
    Socket(Seq<char>),
}

impl TransportErrorView {
    /// The error as a line of text.
    pub open spec fn text(self) -> Seq<char> {
        match self {
            TransportErrorView::NotConnected => "Not connected"@,
            TransportErrorView::Socket(d) => d,
        }
    }
}

impl View for TransportError {
    type V = TransportErrorView;

    open spec fn view(&self) -> TransportErrorView {
        match self {
            TransportError::NotConnected => TransportErrorView::NotConnected,
            TransportError::Socket(d) => TransportErrorView::Socket(d@),
        }
    }
}

impl TransportError {
    /// The error as a line of text.
    pub fn to_string(&self) -> (s: String)
        ensures
            s@ == self@.text(),
    {
        match self {
            TransportError::NotConnected => "Not connected".to_owned(),
            TransportError::Socket(d) => d.clone(),
        }
    }
}

/// `url` with the scheme `zk://` written as `ws://`, then `zks://` as
/// `wss://`, wherever they stand.
pub open spec fn converted_zk_url(url: Seq<char>) -> Seq<char> {
    replace(replace(url, "zk://"@, "ws://"@), "zks://"@, "wss://"@)
}

/// The socket address for a `zk://` or `zks://` address.
pub fn convert_zk_url(url: &str) -> (r: String)
    ensures
        r@ == converted_zk_url(url@),
{
    let plain = replace_all(url, "zk://", "ws://");
    replace_all(plain.as_str(), "zks://", "wss://")
}

/// What a close asks of the caller.
#[derive(Debug, Clone, Copy, PartialEq, Eq, Structural)]
pub enum Reconnect {
    /// Try to connect again after this many milliseconds.
    After(u32),
    /// Stay disconnected: the attempts are used up.
    GiveUp,
}

/// What a close does to the attempt counter `attempts` under the maximum
/// `max`: one more attempt while `attempts` is under `max`, none after.
pub open spec fn after_close(attempts: u32, max: u32, delay_ms: u32) -> (u32, Reconnect) {
    if attempts < max {
        ((attempts + 1) as u32, Reconnect::After(delay_ms))
    } else {
        (attempts, Reconnect::GiveUp)
    }
}

/// `n` closes in a row, starting from `attempts`: the counter afterwards.
pub open spec fn attempts_after(attempts: u32, max: u32, delay_ms: u32, n: nat) -> u32
    decreases n,
{
    if n == 0 {
        attempts
    } else {
        after_close(attempts_after(attempts, max, delay_ms, (n - 1) as nat), max, delay_ms).0
    }
}

/// A close never takes the counter past the maximum.
pub proof fn lemma_close_keeps_bound(attempts: u32, max: u32, delay_ms: u32)
    requires
        attempts <= max,
    ensures
        after_close(attempts, max, delay_ms).0 <= max,
        after_close(attempts, max, delay_ms).0 >= attempts,
{
}

/// Closes in a row after an open: the `n`-th is answered with a new attempt
/// exactly while `n` is at most the maximum, and the counter stands at the
/// smaller of `n` and the maximum. So a transport that allows `max` attempts
/// schedules exactly `max` of them, each after `delay_ms`, and then none.
pub proof fn lemma_closes_in_a_row(max: u32, delay_ms: u32, n: nat)
    ensures
        attempts_after(0, max, delay_ms, n) == if n <= max {
            n
        } else {
            max as nat
        },
        n >= 1 ==> after_close(attempts_after(0, max, delay_ms, (n - 1) as nat), max, delay_ms).1
            == if n <= max {
            Reconnect::After(delay_ms)
        } else {
            Reconnect::GiveUp
        },
    decreases n,
{
    if n >= 1 {
        lemma_closes_in_a_row(max, delay_ms, (n - 1) as nat);
    }
}

/// The count of reconnection attempts under its maximum.
pub struct ReconnectPolicy {
    max_attempts: u32,
    delay_ms: u32,
    attempts: u32,
}

/// The model of [`ReconnectPolicy`].
pub struct ReconnectPolicyView {
    pub max_attempts: u32,
    pub delay_ms: u32,
    /// Attempts since the last open.
    pub attempts: u32,
}

impl View for ReconnectPolicy {
    type V = ReconnectPolicyView;

    closed spec fn view(&self) -> ReconnectPolicyView {
        ReconnectPolicyView {
            max_attempts: self.max_attempts,
            delay_ms: self.delay_ms,
            attempts: self.attempts,
        }
    }
}

impl ReconnectPolicy {
    /// The attempts never pass the maximum.
    #[verifier::type_invariant]
    spec fn bounded(self) -> bool {
        self.attempts <= self.max_attempts
    }

    /// A policy that allows `max_attempts` attempts, `delay_ms` after each
    /// close, with none made yet.
    pub fn new(max_attempts: u32, delay_ms: u32) -> (p: ReconnectPolicy)
        ensures
            p@ == (ReconnectPolicyView { max_attempts, delay_ms, attempts: 0 }),
    {
        ReconnectPolicy { max_attempts, delay_ms, attempts: 0 }
    }

    /// How many attempts may follow one open.
    pub fn max_attempts(&self) -> (n: u32)
        ensures
            n == self@.max_attempts,
    {
        self.max_attempts
    }

    /// The wait before an attempt, in milliseconds.
    pub fn delay_ms(&self) -> (n: u32)
        ensures
            n == self@.delay_ms,
    {
        self.delay_ms
    }

    /// The attempts made since the last open: in every state at most the
    /// maximum.
    pub fn attempts(&self) -> (n: u32)
        ensures
            n == self@.attempts,
            n <= self@.max_attempts,
    {
        proof {
            use_type_invariant(self);
        }
        self.attempts
    }

    /// A connection succeeded, or was let go: the count starts again.
    pub fn reset(&mut self)
        ensures
            final(self)@ == (ReconnectPolicyView { attempts: 0, ..old(self)@ }),
    {
        self.attempts = 0;
    }

    /// The connection closed: one more attempt while the count is under the
    /// maximum, none after.
    pub fn on_close(&mut self) -> (r: Reconnect)
        ensures
            final(self)@ == (ReconnectPolicyView {
                attempts: after_close(
                    old(self)@.attempts,
                    old(self)@.max_attempts,
                    old(self)@.delay_ms,
                ).0,
                ..old(self)@
            }),
            r == after_close(old(self)@.attempts, old(self)@.max_attempts, old(self)@.delay_ms).1,
            final(self)@.attempts <= final(self)@.max_attempts,
    {
        proof {
            use_type_invariant(&*self);
        }
        if self.attempts < self.max_attempts {
            self.attempts = self.attempts + 1;
            Reconnect::After(self.delay_ms)
        } else {
            Reconnect::GiveUp
        }
    }
}

/// The bytes of each payload in a queue.
pub open spec fn payloads(queue: Seq<Vec<u8>>) -> Seq<Seq<u8>> {
    queue.map_values(|v: Vec<u8>| v@)
}

/// The transport's state.
pub struct WebSocketTransport {
    has_socket: bool,
    message_queue: VecDeque<Vec<u8>>,
    state: TransportState,
    url: String,
    retry: ReconnectPolicy,
}

/// The model of [`WebSocketTransport`].
pub struct WebSocketTransportView {
    /// Whether the caller holds a socket for this transport.
    pub has_socket: bool,
    /// Payloads that arrived and were not received yet, oldest first.
    pub queue: Seq<Seq<u8>>,
    pub state: TransportState,
    pub config: TransportConfigView,
    /// Reconnection attempts since the last open.
    pub reconnect_attempts: u32,
}

impl View for WebSocketTransport {
    type V = WebSocketTransportView;

    closed spec fn view(&self) -> WebSocketTransportView {
        WebSocketTransportView {
            has_socket: self.has_socket,
            queue: payloads(self.message_queue@),
            state: self.state,
            config: TransportConfigView {
                url: self.url@,
                max_reconnect_attempts: self.retry@.max_attempts,
                reconnect_delay_ms: self.retry@.delay_ms,
            },
            reconnect_attempts: self.retry@.attempts,
        }
    }
}

impl WebSocketTransport {
    /// A transport for `url`: disconnected, without socket, nothing queued,
    /// no attempt made, reconnecting one second after a close.
    pub fn new(url: String, max_reconnect_attempts: u32) -> (t: WebSocketTransport)
        ensures
            t@ == (WebSocketTransportView {
                has_socket: false,
                queue: Seq::empty(),
                state: TransportState::Disconnected,
                config: TransportConfigView {
                    url: url@,
                    max_reconnect_attempts,
                    reconnect_delay_ms: 1000,
                },
                reconnect_attempts: 0,
            }),
    {
        let t = WebSocketTransport {
            has_socket: false,
            message_queue: VecDeque::new(),
            state: TransportState::Disconnected,
            url,
            retry: ReconnectPolicy::new(max_reconnect_attempts, 1000),
        };
        assert(payloads(t.message_queue@) =~= Seq::<Seq<u8>>::empty());
        t
    }

    /// The configuration this transport runs under.
    pub fn config(&self) -> (c: TransportConfig)
        ensures
            c@ == self@.config,
    {
        TransportConfig {
            url: self.url.clone(),
            max_reconnect_attempts: self.retry.max_attempts(),
            reconnect_delay_ms: self.retry.delay_ms(),
        }
    }

    /// The address at which the caller opens the socket.
    pub fn connect_url(&self) -> (r: String)
        ensures
            r@ == converted_zk_url(self@.config.url),
    {
        convert_zk_url(self.url.as_str())
    }

    /// Takes note of the socket the caller made at `connect_url()`. With a
    /// socket the transport is connecting; a socket that could not be made
    /// changes nothing and is reported.
    pub fn connect(&mut self, socket: Result<(), String>) -> (r: Result<(), TransportError>)
        ensures
            match socket {
                Ok(_) => r is Ok && final(self)@ == (WebSocketTransportView {
                    has_socket: true,
                    state: TransportState::Connecting,
                    ..old(self)@
                }),
                Err(why) => r matches Err(e) && e@ == TransportErrorView::Socket(why@)
                    && final(self)@ == old(self)@,
            },
    {
        match socket {
            Ok(_) => {
                self.state = TransportState::Connecting;
                self.has_socket = true;
                Ok(())
            },
            Err(why) => Err(TransportError::Socket(why)),
        }
    }

    /// Lets go of the socket: disconnected, nothing queued, attempts at zero.
    pub fn disconnect(&mut self)
        ensures
            final(self)@ == (WebSocketTransportView {
                has_socket: false,
                queue: Seq::empty(),
                state: TransportState::Disconnected,
                config: old(self)@.config,
                reconnect_attempts: 0,
            }),
    {
        self.state = TransportState::Disconnected;
        self.has_socket = false;
        self.message_queue.clear();
        self.retry.reset();
        assert(payloads(self.message_queue@) =~= Seq::<Seq<u8>>::empty());
    }

    /// Whether a payload may be written: only with a socket.
    pub fn send(&self, data: &[u8]) -> (r: Result<(), TransportError>)
        ensures
            self@.has_socket ==> r is Ok,
            !self@.has_socket ==> (r matches Err(e) && e@ == TransportErrorView::NotConnected),
    {
        if self.has_socket {
            Ok(())
        } else {
            Err(TransportError::NotConnected)
        }
    }

    /// The oldest payload that arrived, if any.
    pub fn receive(&mut self) -> (r: Option<Vec<u8>>)
        ensures
            old(self)@.queue.len() == 0 ==> r is None && final(self)@ == old(self)@,
            old(self)@.queue.len() > 0 ==> (r matches Some(data) && data@ == old(self)@.queue[0]
                && final(self)@ == (WebSocketTransportView {
                queue: old(self)@.queue.drop_first(),
                ..old(self)@
            })),
    {
        let r = self.message_queue.pop_front();
        assert(r is Some ==> payloads(self.message_queue@) =~= payloads(
            old(self).message_queue@,
        ).drop_first());
        r
    }

    /// The socket's state.
    pub fn get_state(&self) -> (s: TransportState)
        ensures
            s == self@.state,
    {
        self.state
    }

    /// Whether the socket is open.
    pub fn is_connected(&self) -> (b: bool)
        ensures
            b == (self@.state == TransportState::Connected),
    {
        self.state == TransportState::Connected
    }

    /// How many payloads wait to be received.
    pub fn get_pending_message_count(&self) -> (n: usize)
        ensures
            n == self@.queue.len(),
    {
        self.message_queue.len()
    }

    /// How many reconnection attempts were made since the last open: in
    /// every state at most the configured maximum.
    pub fn reconnect_attempts(&self) -> (n: u32)
        ensures
            n == self@.reconnect_attempts,
            n <= self@.config.max_reconnect_attempts,
    {
        self.retry.attempts()
    }

    /// The socket opened: connected, and the attempts start again from zero.
    pub fn on_open(&mut self)
        ensures
            final(self)@ == (WebSocketTransportView {
                state: TransportState::Connected,
                reconnect_attempts: 0,
                ..old(self)@
            }),
    {
        self.state = TransportState::Connected;
        self.retry.reset();
    }

    /// A payload arrived: it joins the queue at the end.
    pub fn on_message(&mut self, data: Vec<u8>)
        ensures
            final(self)@ == (WebSocketTransportView {
                queue: old(self)@.queue.push(data@),
                ..old(self)@
            }),
    {
        let ghost bytes = data@;
        self.message_queue.push_back(data);
        assert(payloads(self.message_queue@) =~= payloads(old(self).message_queue@).push(bytes));
    }

    /// The socket failed.
    pub fn on_error(&mut self)
        ensures
            final(self)@ == (WebSocketTransportView {
                state: TransportState::Error,
                ..old(self)@
            }),
    {
        self.state = TransportState::Error;
    }

    /// The socket closed: disconnected. While the attempts made are under the
    /// maximum, one more is counted and the caller is told to try again after
    /// the configured delay; after that the caller is told to give up.
    pub fn on_close(&mut self) -> (r: Reconnect)
        ensures
            final(self)@ == (WebSocketTransportView {
                state: TransportState::Disconnected,
                reconnect_attempts: after_close(
                    old(self)@.reconnect_attempts,
                    old(self)@.config.max_reconnect_attempts,
                    old(self)@.config.reconnect_delay_ms,
                ).0,
                ..old(self)@
            }),
            r == after_close(
                old(self)@.reconnect_attempts,
                old(self)@.config.max_reconnect_attempts,
                old(self)@.config.reconnect_delay_ms,
            ).1,
            final(self)@.reconnect_attempts <= final(self)@.config.max_reconnect_attempts,
    {
        self.state = TransportState::Disconnected;
        self.retry.on_close()
    }
}

} // verus!
