//! What a listener and its connection handlers decide: admission of a new
//! connection, throttling, what to do with an inbound frame, and what is
//! owed when a connection ends. The transport performs the socket work and
//! reports each event here.

use vstd::prelude::*;
use vstd::string::*;
use crate::directory::{Directory, DirectoryView, duplicate_endpoint_text};
use crate::endpoint::{Endpoint, EndpointId, handled, replied, result_view};
use crate::error::{AppError, ErrorView};
use crate::hub::{EndpointFactorySettings, Hub, oversized_text, successor};
use crate::message::{ClientCommand, CommandView, EventView, TerminalStreamCommand};
use crate::queue::OutboundReceiver;
use crate::text::{decimal_digits, decimal_usize};

verus! {

/// Configuration for WebSocket server
#[derive(Debug)]
pub struct WebSocketServerConfig {
    /// Tokens of which a client must offer one at the handshake; `None`
    /// lets every client in.
    pub auth_tokens: Option<Vec<String>>,
    pub max_message_size: usize,
    pub max_frame_size: usize,
    pub max_connections: Option<usize>,
    pub rate_limit_per_second: Option<u32>,
}

/// Whether `token` is one of `tokens`.
pub open spec fn listed(tokens: Seq<String>, token: Seq<char>) -> bool {
    exists|i: int| 0 <= i < tokens.len() && tokens[i]@ == token
}

/// Whether one of `offered` is one of `tokens`.
pub open spec fn offers_listed(tokens: Seq<String>, offered: Seq<String>) -> bool {
    exists|j: int| 0 <= j < offered.len() && listed(tokens, offered[j]@)
}

fn is_listed(tokens: &Vec<String>, token: &String) -> (b: bool)
    ensures
        b == listed(tokens@, token@),
{
    let mut i: usize = 0;
    while i < tokens.len()
        invariant
            i <= tokens@.len(),
            forall|k: int| 0 <= k < i ==> tokens@[k]@ != token@,
        decreases tokens@.len() - i,
    {
        if tokens[i] == *token {
            return true;
        }
        i = i + 1;
    }
    false
}

impl WebSocketServerConfig {
    /// Whether a client that offers the tokens `offered` at the handshake is
    /// let in: always where no tokens are configured, else only if one of
    /// the offered tokens is configured.
    pub fn accepts(&self, offered: &Vec<String>) -> (b: bool)
        ensures
            b == match self.auth_tokens {
                Some(tokens) => offers_listed(tokens@, offered@),
                None => true,
            },
    {
        match &self.auth_tokens {
            None => true,
            Some(tokens) => {
                let mut j: usize = 0;
                while j < offered.len()
                    invariant
                        self.auth_tokens == Some(*tokens),
                        j <= offered@.len(),
                        forall|k: int| 0 <= k < j ==> !listed(tokens@, offered@[k]@),
                    decreases offered@.len() - j,
                {
                    if is_listed(tokens, &offered[j]) {
                        assert(0 <= j < offered@.len() && listed(tokens@, offered@[j as int]@));
                        return true;
                    }
                    j = j + 1;
                }
                false
            },
        }
    }
}

/// The detail of the error for a connection beyond the ceiling.
pub open spec fn limit_text(ceiling: nat) -> Seq<char> {
    "Maximum "@ + decimal_digits(ceiling) + " connections reached"@
}

/// The count after a connection arrives at a listener that holds `live`
/// connections and lets in `ceiling` at most.
pub open spec fn after_arrival(live: nat, ceiling: nat) -> nat {
    if live < ceiling {
        live + 1
    } else {
        live
    }
}

/// The count after one of `live` connections ends.
pub open spec fn after_exit(live: nat) -> nat {
    if live > 0 {
        (live - 1) as nat
    } else {
        0
    }
}

/// Admission control of a listener: counts the live connections and refuses
/// one more at the ceiling.
#[derive(Debug)]
pub struct ConnectionCounter {
    current: usize,
    max: Option<usize>,
}

impl ConnectionCounter {
    /// The number of live connections.
    pub closed spec fn live(&self) -> nat {
        self.current as nat
    }

    /// The most connections that may be live at once: the configured
    /// maximum, or the largest count that can be held.
    pub closed spec fn ceiling(&self) -> nat {
        match self.max {
            Some(m) => m as nat,
            None => usize::MAX as nat,
        }
    }

    pub fn new(max: Option<usize>) -> (c: Self)
        ensures
            c.live() == 0,
            c.ceiling() == match max {
                Some(m) => m as nat,
                None => usize::MAX as nat,
            },
    {
        ConnectionCounter { current: 0, max }
    }

    /// Takes a slot for one more connection, or refuses at the ceiling and
    /// leaves the count as it was.
    pub fn try_increment(&mut self) -> (r: Result<(), AppError>)
        ensures
            final(self).ceiling() == old(self).ceiling(),
            final(self).live() == after_arrival(old(self).live(), old(self).ceiling()),
            match r {
                Ok(()) => {
                    &&& old(self).live() < old(self).ceiling()
                    &&& final(self).live() == old(self).live() + 1
                },
                Err(e) => {
                    &&& old(self).live() >= old(self).ceiling()
                    &&& final(self).live() == old(self).live()
                    &&& e@ == ErrorView::ConnectionLimitExceeded(limit_text(old(self).ceiling()))
                },
            },
    {
        let ceiling: usize = match self.max {
            Some(m) => m,
            None => usize::MAX,
        };
        if self.current >= ceiling {
            let mut text: String = String::from_str("Maximum ");
            text.append(decimal_usize(ceiling).as_str());
            text.append(" connections reached");
            return Err(AppError::ConnectionLimitExceeded(text));
        }
        self.current = self.current + 1;
        Ok(())
    }

    /// Gives back the slot of a connection that has ended.
    pub fn decrement(&mut self)
        requires
            old(self).live() > 0,
        ensures
            final(self).ceiling() == old(self).ceiling(),
            final(self).live() == after_exit(old(self).live()),
    {
        self.current = self.current - 1;
    }

    pub fn count(&self) -> (n: usize)
        ensures
            n == self.live(),
    {
        self.current
    }
}

/// Token bucket of one connection: a direct `governor` rate limiter on the
/// default clock. It is held behind this struct because its type is bounded
/// by traits of `governor`.
#[verifier::external_body]
#[derive(Debug)]
pub struct CommandLimiter {
    inner: governor::DefaultDirectRateLimiter,
}

/// `RateLimiter::direct` on `Quota::per_second`: a bucket of `rate` tokens
/// that refills at `rate` tokens per second. Nothing is claimed of it.
#[verifier::external_body]
fn limiter_per_second(rate: u32) -> (l: CommandLimiter)
    requires
        rate > 0,
{
    CommandLimiter {
        inner: governor::RateLimiter::direct(
            governor::Quota::per_second(std::num::NonZeroU32::new(rate).unwrap()),
        ),
    }
}

/// `RateLimiter::check`: takes one token if one is there. Whether one is
/// there depends on the clock, so nothing is claimed of the answer.
#[verifier::external_body]
fn limiter_check(l: &CommandLimiter) -> (passed: bool) {
    l.inner.check().is_ok()
}

impl CommandLimiter {
    /// The limiter for a configured rate: none where no rate, or a rate of
    /// zero, is configured.
    pub fn for_rate(rate: Option<u32>) -> (l: Option<CommandLimiter>)
        ensures
            l is Some <==> (rate is Some && rate->Some_0 > 0),
    {
        match rate {
            Some(r) => if r > 0 {
                Some(limiter_per_second(r))
            } else {
                None
            },
            None => None,
        }
    }

    /// Whether one more command may pass now. Where no limiter is
    /// configured every command passes.
    pub fn permits(limiter: &Option<CommandLimiter>) -> (passed: bool)
        ensures
            limiter is None ==> passed,
    {
        match limiter {
            Some(l) => limiter_check(l),
            None => true,
        }
    }
}

/// An inbound WebSocket frame, by opcode. Only a text frame carries
/// something the broker reads.
#[derive(Debug)]
pub enum InboundFrame {
    Text(String),
    Binary,
    Ping,
    Pong,
    Close,
    Frame,
}

/// Longest text, in bytes, that is handed to the decoder: 1 MiB.
pub const MAX_TEXT_LENGTH: usize = 1048576;

/// The length of `text` in bytes, as UTF-8.
pub open spec fn byte_length(text: Seq<char>) -> nat {
    vstd::utf8::encode_utf8(text).len()
}

/// What is to be done with an inbound frame.
#[derive(Debug)]
pub enum FrameVerdict {
    /// Nothing: the frame is for the transport alone.
    Ignore,
    /// The frame is refused: the client is sent an `Error` with this text.
    Refuse(String),
    /// The text is to be decoded as a command.
    Decode,
}

/// A [`FrameVerdict`] over character sequences.
pub enum VerdictView {
    Ignore,
    Refuse(Seq<char>),
    Decode,
}

impl View for FrameVerdict {
    type V = VerdictView;

    open spec fn view(&self) -> VerdictView {
        match self {
            FrameVerdict::Ignore => VerdictView::Ignore,
            FrameVerdict::Refuse(t) => VerdictView::Refuse(t@),
            FrameVerdict::Decode => VerdictView::Decode,
        }
    }
}

impl InboundFrame {
    /// What is to be done with the frame: a text of at most
    /// [`MAX_TEXT_LENGTH`] bytes is decoded, a longer one and a binary frame
    /// are refused, everything else is ignored.
    pub open spec fn verdict(&self) -> VerdictView {
        match self {
            InboundFrame::Text(t) => if byte_length(t@) > MAX_TEXT_LENGTH {
                VerdictView::Refuse("Message too large"@)
            } else {
                VerdictView::Decode
            },
            InboundFrame::Binary => VerdictView::Refuse("Binary messages not supported"@),
            _ => VerdictView::Ignore,
        }
    }

    /// Decides what is to be done with the frame.
    pub fn inspect(&self) -> (v: FrameVerdict)
        ensures
            v@ == self.verdict(),
    {
        match self {
            InboundFrame::Text(txt) => {
                // Validate message size (additional check beyond WebSocket config)
                if txt.as_str().as_bytes().len() > MAX_TEXT_LENGTH {
                    FrameVerdict::Refuse(String::from_str("Message too large"))
                } else {
                    FrameVerdict::Decode
                }
            },
            InboundFrame::Binary => FrameVerdict::Refuse(
                String::from_str("Binary messages not supported"),
            ),
            InboundFrame::Ping => FrameVerdict::Ignore,
            InboundFrame::Pong => FrameVerdict::Ignore,
            InboundFrame::Close => FrameVerdict::Ignore,
            InboundFrame::Frame => FrameVerdict::Ignore,
        }
    }
}

/// The text of the event for a command that the rate limiter turned away.
pub open spec fn throttled_text() -> Seq<char> {
    "Rate limit exceeded"@
}

/// The detail of the error for a command that the rate limiter turned away.
pub open spec fn throttled_detail() -> Seq<char> {
    "command dropped"@
}

/// The text of the event for a text frame that is no command.
pub open spec fn undecodable_text(codec_message: Seq<char>) -> Seq<char> {
    "Invalid message format: "@ + codec_message
}

/// Whether `after` is what becomes of `before` when the endpoint `id` is sent
/// the event `ev` outside any command: the event is at the end of its queue,
/// or nothing changed because the queue refused it or the endpoint is not
/// registered.
pub open spec fn notified(
    before: DirectoryView,
    after: DirectoryView,
    id: EndpointId,
    ev: EventView,
) -> bool {
    if before.endpoints.contains_key(id) {
        replied(before, after, id, ev)
    } else {
        after == before
    }
}

/// A decoder's answer with its strings read as character sequences.
pub open spec fn decoded_view(decoded: Result<TerminalStreamCommand, String>) -> Result<
    CommandView,
    Seq<char>,
> {
    match decoded {
        Ok(cmd) => Ok(cmd@),
        Err(text) => Err(text@),
    }
}

/// Whether `after` and `result` are a possible outcome of handing the
/// decoder's answer for one text frame of the endpoint `id` to the broker,
/// where `passed` is the rate limiter's answer.
///
/// A text that is no command gets an `Error` event with the decoder's
/// message. A command that the limiter turns away gets an `Error` event and
/// is dropped. Any other command is carried out as [`handled`] says.
pub open spec fn processed(
    before: DirectoryView,
    after: DirectoryView,
    id: EndpointId,
    decoded: Result<CommandView, Seq<char>>,
    passed: bool,
    result: Result<(), ErrorView>,
) -> bool {
    match decoded {
        Err(text) => {
            &&& result == Err::<(), ErrorView>(ErrorView::Serialization(text))
            &&& notified(before, after, id, EventView::Error(undecodable_text(text)))
        },
        Ok(cmd) => if passed {
            handled(before, after, id, cmd, result)
        } else {
            &&& result == Err::<(), ErrorView>(ErrorView::RateLimitExceeded(throttled_detail()))
            &&& notified(before, after, id, EventView::Error(throttled_text()))
        },
    }
}

/// One live connection of a listener, from its admission to its end.
#[derive(Debug)]
pub struct Connection {
    endpoint_id: EndpointId,
    limiter: Option<CommandLimiter>,
}

impl Connection {
    /// The id of the connection's endpoint.
    pub closed spec fn endpoint(&self) -> EndpointId {
        self.endpoint_id
    }

    /// Whether the connection's commands go through a rate limiter.
    pub closed spec fn throttled(&self) -> bool {
        self.limiter is Some
    }

    /// Admits one accepted connection: takes a slot of the counter, then
    /// mints the connection's endpoint. At the ceiling the connection is
    /// refused and nothing changes. If the endpoint cannot be made the slot
    /// is given back.
    pub fn open(
        counter: &mut ConnectionCounter,
        hub: &mut Hub,
        settings: &EndpointFactorySettings,
        config: &WebSocketServerConfig,
    ) -> (r: Result<(Connection, OutboundReceiver), AppError>)
        requires
            old(hub).directory.wf(),
        ensures
            final(hub).directory.wf(),
            final(counter).ceiling() == old(counter).ceiling(),
            if old(counter).live() >= old(counter).ceiling() {
                &&& r is Err
                &&& r->Err_0@ == ErrorView::ConnectionLimitExceeded(
                    limit_text(old(counter).ceiling()),
                )
                &&& final(counter).live() == old(counter).live()
                &&& final(hub).directory@ == old(hub).directory@
                &&& final(hub).endpoint_id_seq.value() == old(hub).endpoint_id_seq.value()
            } else {
                let id = old(hub).endpoint_id_seq.value();
                &&& final(hub).endpoint_id_seq.value() == successor(id)
                &&& match r {
                    Ok((connection, rx)) => {
                        &&& connection.endpoint() == id
                        &&& connection.throttled() <==> (config.rate_limit_per_second is Some
                            && config.rate_limit_per_second->Some_0 > 0)
                        &&& final(counter).live() == old(counter).live() + 1
                        &&& !settings.oversized()
                        &&& !old(hub).directory@.endpoints.contains_key(id)
                        &&& final(hub).directory@ == old(hub).directory@.with_endpoint(
                            settings.fresh_endpoint(id),
                        )
                        &&& rx is Bounded <==> settings.queue_capacity() is Some
                    },
                    Err(e) => {
                        &&& final(counter).live() == old(counter).live()
                        &&& final(hub).directory@ == old(hub).directory@
                        &&& if settings.oversized() {
                            e@ == ErrorView::InvalidConfig(oversized_text())
                        } else {
                            &&& old(hub).directory@.endpoints.contains_key(id)
                            &&& e@ == ErrorView::Generic(duplicate_endpoint_text(id))
                        }
                    },
                }
            },
    {
        // Check connection limit
        match counter.try_increment() {
            Err(e) => {
                return Err(e);
            },
            Ok(()) => {},
        }
        match hub.create_endpoint(settings) {
            Ok((endpoint_id, rx)) => {
                // Create rate limiter if configured
                let limiter = CommandLimiter::for_rate(config.rate_limit_per_second);
                Ok((Connection { endpoint_id, limiter }, rx))
            },
            Err(e) => {
                counter.decrement();
                Err(e)
            },
        }
    }

    /// The id of the connection's endpoint.
    pub fn endpoint_id(&self) -> (id: EndpointId)
        ensures
            id == self.endpoint(),
    {
        self.endpoint_id
    }

    /// Takes one inbound frame. A frame that is refused is answered with an
    /// `Error` event; the result says whether the frame's text is to be
    /// decoded and handed to [`Connection::on_decoded`].
    pub fn on_frame(&self, directory: &mut Directory, frame: &InboundFrame) -> (decode: bool)
        requires
            old(directory).wf(),
        ensures
            final(directory).wf(),
            decode == (frame.verdict() is Decode),
            match frame.verdict() {
                VerdictView::Refuse(text) => notified(
                    old(directory)@,
                    final(directory)@,
                    self.endpoint(),
                    EventView::Error(text),
                ),
                _ => final(directory)@ == old(directory)@,
            },
    {
        match frame.inspect() {
            FrameVerdict::Ignore => false,
            FrameVerdict::Decode => true,
            FrameVerdict::Refuse(text) => {
                let _ = directory.send_to(self.endpoint_id, ClientCommand::Error(text));
                false
            },
        }
    }

    /// Takes the decoder's answer for one text frame. A command goes through
    /// the rate limiter first, if the connection has one; what happens then
    /// is what [`Connection::process`] does with the limiter's answer.
    pub fn on_decoded(
        &self,
        directory: &mut Directory,
        decoded: Result<TerminalStreamCommand, String>,
    ) -> (r: Result<(), AppError>)
        requires
            old(directory).wf(),
        ensures
            final(directory).wf(),
            processed(
                old(directory)@,
                final(directory)@,
                self.endpoint(),
                decoded_view(decoded),
                true,
                result_view(r),
            ) || (self.throttled() && processed(
                old(directory)@,
                final(directory)@,
                self.endpoint(),
                decoded_view(decoded),
                false,
                result_view(r),
            )),
    {
        let passed = match &decoded {
            Ok(_) => CommandLimiter::permits(&self.limiter),
            Err(_) => true,
        };
        Self::process(directory, self.endpoint_id, decoded, passed)
    }

    /// Hands the decoder's answer for one text frame of the endpoint
    /// `endpoint_id` to the broker; `passed` is the rate limiter's answer.
    pub fn process(
        directory: &mut Directory,
        endpoint_id: EndpointId,
        decoded: Result<TerminalStreamCommand, String>,
        passed: bool,
    ) -> (r: Result<(), AppError>)
        requires
            old(directory).wf(),
        ensures
            final(directory).wf(),
            processed(
                old(directory)@,
                final(directory)@,
                endpoint_id,
                decoded_view(decoded),
                passed,
                result_view(r),
            ),
    {
        match decoded {
            Err(text) => {
                let mut shown: String = String::from_str("Invalid message format: ");
                shown.append(text.as_str());
                let _ = directory.send_to(endpoint_id, ClientCommand::Error(shown));
                Err(AppError::Serialization(text))
            },
            Ok(cmd) => {
                if passed {
                    Endpoint::on_command(directory, endpoint_id, cmd)
                } else {
                    let _ = directory.send_to(
                        endpoint_id,
                        ClientCommand::Error(String::from_str("Rate limit exceeded")),
                    );
                    Err(AppError::RateLimitExceeded(String::from_str("command dropped")))
                }
            },
        }
    }

    /// Ends the connection: its endpoint leaves the directory and its slot
    /// goes back to the counter. The connection is used up, so this happens
    /// once.
    pub fn close(self, counter: &mut ConnectionCounter, hub: &mut Hub)
        requires
            old(hub).directory.wf(),
        ensures
            final(hub).directory.wf(),
            final(hub).directory@ == old(hub).directory@.without_endpoint(self.endpoint()),
            final(hub).endpoint_id_seq.value() == old(hub).endpoint_id_seq.value(),
            final(counter).ceiling() == old(counter).ceiling(),
            final(counter).live() == after_exit(old(counter).live()),
    {
        // either sending or receiving stopped so unregister the endpoint
        let _ = Endpoint::unregister(&mut hub.directory, self.endpoint_id);
        if counter.count() > 0 {
            counter.decrement();
        }
    }
}

} // verus!
