//! Connection supervisor: the state machine that owns the connection life
//! cycle. It decides, from its state and one incoming event, the next state
//! and the one action its surroundings must perform — open a socket after a
//! backoff delay, answer a ping, hand a decoded item to the sink, close the
//! socket, or give up once the retry budget is spent.
//!
//! The supervisor performs no I/O itself: the caller owns the socket, feeds
//! frames and failures in, and carries the returned actions out.

use vstd::prelude::*;
use vstd::string::StringExecFns;
use crate::decode::DecodeError;
use crate::decode::DecodeErrorModel;
use crate::decode::DecodeReason;
use crate::decode::decode_message;
use crate::decode::known_head;
use crate::decode::spec_message;
use crate::events::MarketMessage;
use crate::events::MarketMessageModel;
use crate::frame::Frame;
use crate::frame::FrameModel;

verus! {

/// The life cycle of the one connection a supervisor owns. Transitions happen
/// only inside the supervisor's methods.
#[derive(Debug, PartialEq, Eq, Structural, Clone, Copy)]
pub enum ConnectionState {
    /// No socket exists.
    Disconnected,
    /// A connection attempt is under way.
    Connecting,
    /// The read loop may run.
    Connected,
    /// The socket is being torn down.
    Closing,
}

/// The fatal error reported before any connection is attempted.
#[derive(Debug, PartialEq, Eq, Structural, Clone, Copy)]
pub enum ConfigError {
    /// The configured URL does not parse.
    InvalidUrl,
}

/// Why the supervisor gave up for good.
#[derive(Debug, PartialEq, Eq, Structural, Clone, Copy)]
pub enum TerminalError {
    /// Every allowed connection attempt failed.
    RetriesExhausted,
}

/// One item handed to the event sink: a decoded message, or the payload that
/// failed to decode. A rejected payload never tears the connection down.
pub enum SinkItem {
    /// A payload that followed the wire form.
    Message(MarketMessage),
    /// A payload that did not, kept for diagnosis.
    Rejected(DecodeError),
}

/// Mathematical model of a sink item.
pub enum SinkItemModel {
    Message(MarketMessageModel),
    Rejected(DecodeErrorModel),
}

impl View for SinkItem {
    type V = SinkItemModel;

    open spec fn view(&self) -> SinkItemModel {
        match self {
            SinkItem::Message(m) => SinkItemModel::Message(m@),
            SinkItem::Rejected(e) => SinkItemModel::Rejected(e@),
        }
    }
}

/// What the supervisor asks its surroundings to do next.
pub enum Action {
    /// Nothing.
    Idle,
    /// Wait the given delay, then attempt the connection.
    OpenSocket {
        /// Milliseconds to wait before the attempt.
        delay_ms: u64,
    },
    /// Send a pong carrying exactly these bytes.
    SendPong(Vec<u8>),
    /// Hand this item to the event sink.
    Emit(SinkItem),
    /// Close and release the socket.
    CloseSocket,
    /// Stop for good with this error.
    Fail(TerminalError),
}

/// Mathematical model of an action.
pub enum ActionModel {
    Idle,
    OpenSocket { delay_ms: u64 },
    SendPong(Seq<u8>),
    Emit(SinkItemModel),
    CloseSocket,
    Fail(TerminalError),
}

impl View for Action {
    type V = ActionModel;

    open spec fn view(&self) -> ActionModel {
        match self {
            Action::Idle => ActionModel::Idle,
            Action::OpenSocket { delay_ms } => ActionModel::OpenSocket { delay_ms: *delay_ms },
            Action::SendPong(p) => ActionModel::SendPong(p@),
            Action::Emit(i) => ActionModel::Emit(i@),
            Action::CloseSocket => ActionModel::CloseSocket,
            Action::Fail(e) => ActionModel::Fail(*e),
        }
    }
}

/// The consumer boundary: anything that takes delivery of decoded events and
/// decode failures.
pub trait EventSink {
    /// Take delivery of one item.
    fn accept(&mut self, item: SinkItem);
}

/// A sink that keeps every delivered item, in order.
pub struct RecordingSink {
    /// Everything delivered so far, oldest first.
    pub items: Vec<SinkItem>,
}

impl RecordingSink {
    /// An empty sink.
    pub fn new() -> (r: RecordingSink)
        ensures
            r.items@.len() == 0,
    {
        RecordingSink { items: Vec::new() }
    }
}

impl EventSink for RecordingSink {
    fn accept(&mut self, item: SinkItem) {
        self.items.push(item);
    }
}

/// What the supervisor is built from: the connection target and the retry
/// policy.
pub struct SupervisorConfig {
    /// Connection URL.
    pub url: String,
    /// Delay before the first retry, in milliseconds.
    pub base_delay_ms: u64,
    /// Largest delay between retries, in milliseconds.
    pub max_delay_ms: u64,
    /// How many failed attempts in a row are tolerated before giving up.
    pub max_retries: u64,
}

/// Mathematical model of a configuration.
pub struct SupervisorConfigModel {
    pub url: Seq<char>,
    pub base_delay_ms: u64,
    pub max_delay_ms: u64,
    pub max_retries: u64,
}

impl View for SupervisorConfig {
    type V = SupervisorConfigModel;

    open spec fn view(&self) -> SupervisorConfigModel {
        SupervisorConfigModel {
            url: self.url@,
            base_delay_ms: self.base_delay_ms,
            max_delay_ms: self.max_delay_ms,
            max_retries: self.max_retries,
        }
    }
}

/// Whether a string parses as an absolute URL, as `url::Url::parse` decides
/// it. The answer is a function of the characters alone.
pub uninterp spec fn url_well_formed(s: Seq<char>) -> bool;

/// Relies on `url::Url::parse` to validate the connection target: the parse
/// is deterministic, reads nothing but its input, and succeeds exactly when
/// the string is an absolute, well-formed URL.
#[verifier::external_body]
fn parse_url_ok(s: &str) -> (r: bool)
    ensures
        r == url_well_formed(s@),
{
    url::Url::parse(s).is_ok()
}

/// The documented default connection target, used when the caller supplies no
/// override: the multiplexed trade streams of three major pairs.
pub fn default_url() -> (r: String)
    ensures
        r@
            == "wss://stream.binance.com:9443/stream?streams=btcusdt@trade/ethusdt@trade/bnbusdt@trade"@,
{
    String::from_str(
        "wss://stream.binance.com:9443/stream?streams=btcusdt@trade/ethusdt@trade/bnbusdt@trade",
    )
}

/// The delay before retry number `r + 1`: the base delay doubled `r` times,
/// never above the maximum.
pub open spec fn backoff_spec(base: u64, max: u64, r: nat) -> u64
    decreases r,
{
    if r == 0 {
        if base <= max {
            base
        } else {
            max
        }
    } else {
        let p = backoff_spec(base, max, (r - 1) as nat);
        if p <= max / 2 {
            (2 * p) as u64
        } else {
            max
        }
    }
}

/// The backoff delay never exceeds the configured maximum.
pub proof fn lemma_backoff_bounded(base: u64, max: u64, r: nat)
    ensures
        backoff_spec(base, max, r) <= max,
    decreases r,
{
    if r > 0 {
        lemma_backoff_bounded(base, max, (r - 1) as nat);
    }
}

/// One more failure never shortens the backoff delay.
proof fn lemma_backoff_step(base: u64, max: u64, r: nat)
    ensures
        backoff_spec(base, max, r) <= backoff_spec(base, max, r + 1),
{
    lemma_backoff_bounded(base, max, r);
}

/// Backoff delays never decrease as failures accumulate: the supervisor
/// retries under a bounded, non-shrinking delay schedule.
pub proof fn lemma_backoff_monotone(base: u64, max: u64, r1: nat, r2: nat)
    requires
        r1 <= r2,
    ensures
        backoff_spec(base, max, r1) <= backoff_spec(base, max, r2),
    decreases r2 - r1,
{
    if r1 < r2 {
        lemma_backoff_monotone(base, max, r1, (r2 - 1) as nat);
        lemma_backoff_step(base, max, (r2 - 1) as nat);
    }
}

/// The delay, in milliseconds, before connection attempt number `r + 1`:
/// nothing before the first attempt, then the backoff schedule.
pub open spec fn attempt_delay(c: SupervisorConfigModel, r: u64) -> u64 {
    if r == 0 {
        0
    } else {
        backoff_spec(c.base_delay_ms, c.max_delay_ms, (r - 1) as nat)
    }
}

/// Computes `backoff_spec(base, max, r)`.
fn backoff_delay(base: u64, max: u64, r: u64) -> (d: u64)
    ensures
        d == backoff_spec(base, max, r as nat),
{
    let mut d: u64 = if base <= max {
        base
    } else {
        max
    };
    let mut i: u64 = 0;
    while i < r
        invariant
            0 <= i <= r,
            d == backoff_spec(base, max, i as nat),
        decreases r - i,
    {
        d = if d <= max / 2 {
            2 * d
        } else {
            max
        };
        i = i + 1;
    }
    d
}

/// Mathematical model of a supervisor.
pub struct SupervisorModel {
    pub config: SupervisorConfigModel,
    pub state: ConnectionState,
    pub retries: u64,
    pub stopping: bool,
}

/// The connection supervisor. It owns the connection state exclusively; the
/// caller performs the returned actions and reports what happened.
pub struct Supervisor {
    config: SupervisorConfig,
    state: ConnectionState,
    retries: u64,
    stopping: bool,
}

impl View for Supervisor {
    type V = SupervisorModel;

    closed spec fn view(&self) -> SupervisorModel {
        SupervisorModel {
            config: self.config@,
            state: self.state,
            retries: self.retries,
            stopping: self.stopping,
        }
    }
}

impl Supervisor {
    /// Builds a supervisor over the given configuration, disconnected and
    /// with a fresh retry budget. Fails, before any connection is attempted,
    /// exactly when the URL does not parse.
    pub fn new(config: SupervisorConfig) -> (r: Result<Supervisor, ConfigError>)
        ensures
            r is Ok <==> url_well_formed(config@.url),
            r matches Ok(s) ==> s@ == (SupervisorModel {
                config: config@,
                state: ConnectionState::Disconnected,
                retries: 0,
                stopping: false,
            }),
            r matches Err(e) ==> e == ConfigError::InvalidUrl,
    {
        if parse_url_ok(config_url_str(&config)) {
            Ok(
                Supervisor {
                    config,
                    state: ConnectionState::Disconnected,
                    retries: 0,
                    stopping: false,
                },
            )
        } else {
            Err(ConfigError::InvalidUrl)
        }
    }

    /// The configured connection target.
    pub fn url(&self) -> (r: &String)
        ensures
            r@ == self@.config.url,
    {
        &self.config.url
    }

    /// The current connection state.
    pub fn state(&self) -> (r: ConnectionState)
        ensures
            r == self@.state,
    {
        self.state
    }

    /// How many connection attempts in a row have failed.
    pub fn retries(&self) -> (r: u64)
        ensures
            r == self@.retries,
    {
        self.retries
    }

    /// Whether a stop was requested.
    pub fn is_stopping(&self) -> (r: bool)
        ensures
            r == self@.stopping,
    {
        self.stopping
    }

    /// From `Disconnected`, begins the next connection attempt: asks the
    /// caller to open the socket after the backoff delay owed to the failures
    /// so far, or reports the budget spent. In any other state, or once a
    /// stop was requested, does nothing.
    pub fn start_connect(&mut self) -> (a: Action)
        ensures
            final(self)@.config == old(self)@.config,
            final(self)@.retries == old(self)@.retries,
            final(self)@.stopping == old(self)@.stopping,
            old(self)@.state !is Disconnected || old(self)@.stopping ==> final(self)@ == old(self)@
                && a@ is Idle,
            old(self)@.state is Disconnected && !old(self)@.stopping ==> if old(self)@.retries
                > old(self)@.config.max_retries {
                final(self)@ == old(self)@ && a@ == ActionModel::Fail(
                    TerminalError::RetriesExhausted,
                )
            } else {
                final(self)@.state is Connecting && a@ == ActionModel::OpenSocket {
                    delay_ms: attempt_delay(old(self)@.config, old(self)@.retries),
                }
            },
    {
        if !(matches!(self.state, ConnectionState::Disconnected)) || self.stopping {
            return Action::Idle;
        }
        if self.retries > self.config.max_retries {
            return Action::Fail(TerminalError::RetriesExhausted);
        }
        let delay: u64 = if self.retries == 0 {
            0
        } else {
            backoff_delay(self.config.base_delay_ms, self.config.max_delay_ms, self.retries - 1)
        };
        self.state = ConnectionState::Connecting;
        Action::OpenSocket { delay_ms: delay }
    }

    /// Reports how the connection attempt ended. Success enters `Connected`
    /// and restores the retry budget; failure returns to `Disconnected` with
    /// one more failure on record.
    pub fn on_connect_result(&mut self, ok: bool) -> (a: Action)
        ensures
            final(self)@.config == old(self)@.config,
            final(self)@.stopping == old(self)@.stopping,
            a@ is Idle,
            old(self)@.state !is Connecting ==> final(self)@ == old(self)@,
            old(self)@.state is Connecting && ok ==> final(self)@.state is Connected && final(self)@.retries == 0,
            old(self)@.state is Connecting && !ok ==> final(self)@.state is Disconnected && final(self)@.retries == saturating_inc(old(self)@.retries),
    {
        if !(matches!(self.state, ConnectionState::Connecting)) {
            return Action::Idle;
        }
        if ok {
            self.state = ConnectionState::Connected;
            self.retries = 0;
        } else {
            self.state = ConnectionState::Disconnected;
            if self.retries < u64::MAX {
                self.retries = self.retries + 1;
            }
        }
        Action::Idle
    }

    /// Handles one frame of the read loop. Within `Connected`: a ping is
    /// answered at once by a pong carrying the identical payload; a text
    /// payload is decoded and the result — message or decode failure — is
    /// emitted to the sink, the connection staying up either way; a close
    /// frame enters `Closing` and asks for the socket to be released. In any
    /// other state nothing is emitted and nothing changes.
    pub fn on_frame(&mut self, f: Frame) -> (a: Action)
        ensures
            final(self)@.config == old(self)@.config,
            final(self)@.stopping == old(self)@.stopping,
            final(self)@.retries == old(self)@.retries,
            old(self)@.state !is Connected ==> final(self)@ == old(self)@ && a@ is Idle,
            old(self)@.state is Connected ==> match f@ {
                FrameModel::Ping(p) => final(self)@ == old(self)@ && a@ == ActionModel::SendPong(p),
                FrameModel::Pong(_) => final(self)@ == old(self)@ && a@ is Idle,
                FrameModel::Binary(_) => final(self)@ == old(self)@ && a@ is Idle,
                FrameModel::Text(payload) => final(self)@ == old(self)@ && (match spec_message(
                    payload,
                ) {
                    Some(m) => a@ == ActionModel::Emit(SinkItemModel::Message(m)),
                    None => a@ matches ActionModel::Emit(i) && i matches SinkItemModel::Rejected(e)
                        && e.payload == payload && (e.reason == DecodeReason::UnknownShape
                        <==> !known_head(payload)),
                }),
                FrameModel::Close(_) => final(self)@.state is Closing && a@
                    == ActionModel::CloseSocket,
            },
    {
        if !(matches!(self.state, ConnectionState::Connected)) {
            return Action::Idle;
        }
        match f {
            Frame::Ping(p) => Action::SendPong(p),
            Frame::Pong(_) => Action::Idle,
            Frame::Binary(_) => Action::Idle,
            Frame::Text(payload) => match decode_message(&payload) {
                Ok(m) => Action::Emit(SinkItem::Message(m)),
                Err(e) => Action::Emit(SinkItem::Rejected(e)),
            },
            Frame::Close(_) => {
                self.state = ConnectionState::Closing;
                Action::CloseSocket
            },
        }
    }

    /// Reports that the steady-state read failed. From `Connected` the
    /// supervisor returns to `Disconnected` with one more failure on record,
    /// so the next attempt waits one step longer on the backoff schedule.
    pub fn on_read_error(&mut self) -> (a: Action)
        ensures
            final(self)@.config == old(self)@.config,
            final(self)@.stopping == old(self)@.stopping,
            a@ is Idle,
            old(self)@.state !is Connected ==> final(self)@ == old(self)@,
            old(self)@.state is Connected ==> final(self)@.state is Disconnected && final(self)@.retries == saturating_inc(old(self)@.retries),
    {
        if !(matches!(self.state, ConnectionState::Connected)) {
            return Action::Idle;
        }
        self.state = ConnectionState::Disconnected;
        if self.retries < u64::MAX {
            self.retries = self.retries + 1;
        }
        Action::Idle
    }

    /// Requests an orderly stop. A live or pending connection is asked to
    /// close; afterwards no new attempt will be started.
    pub fn request_stop(&mut self) -> (a: Action)
        ensures
            final(self)@.config == old(self)@.config,
            final(self)@.retries == old(self)@.retries,
            final(self)@.stopping,
            old(self)@.state is Connected || old(self)@.state is Connecting ==> final(self)@.state is Closing && a@ == ActionModel::CloseSocket,
            old(self)@.state is Disconnected || old(self)@.state is Closing ==> final(self)@.state
                == old(self)@.state && a@ is Idle,
    {
        self.stopping = true;
        match self.state {
            ConnectionState::Connected | ConnectionState::Connecting => {
                self.state = ConnectionState::Closing;
                Action::CloseSocket
            },
            _ => Action::Idle,
        }
    }

    /// Runs the read loop's decisions over a sequence of already-received
    /// frames, as when a recorded or simulated socket feeds the supervisor.
    /// Every item owed — decoded message or rejected payload — reaches the
    /// sink in order, the answer to every ping is collected, and a close
    /// frame ends the session: frames after it change nothing and emit
    /// nothing, and the supervisor is left `Closing`.
    pub fn drain_frames(&mut self, frames: Vec<Frame>, sink: &mut RecordingSink) -> (pongs: Vec<
        Vec<u8>,
    >)
        requires
            old(self)@.state is Connected,
        ensures
            final(self)@.config == old(self)@.config,
            final(self)@.retries == old(self)@.retries,
            final(self)@.stopping == old(self)@.stopping,
            item_models(final(sink).items@) == item_models(old(sink).items@) + session_items(
                frame_models(frames@),
            ),
            pong_models(pongs@) == session_pongs(frame_models(frames@)),
            final(self)@.state == if session_closes(frame_models(frames@)) {
                ConnectionState::Closing
            } else {
                ConnectionState::Connected
            },
    {
        let ghost orig: Seq<FrameModel> = frame_models(frames@);
        let ghost sink0: Seq<SinkItemModel> = item_models(sink.items@);
        let mut rest = frames;
        let mut pongs: Vec<Vec<u8>> = Vec::new();
        proof {
            assert(pong_models(pongs@) =~= Seq::<Seq<u8>>::empty());
            assert(Seq::<Seq<u8>>::empty() + session_pongs(orig) =~= session_pongs(orig));
        }
        while rest.len() > 0
            invariant
                self@.config == old(self)@.config,
                self@.retries == old(self)@.retries,
                self@.stopping == old(self)@.stopping,
                self@.state is Connected || self@.state is Closing,
                self@.state is Connected ==> sink0 + session_items(orig) == item_models(
                    sink.items@,
                ) + session_items(frame_models(rest@)),
                self@.state is Connected ==> session_pongs(orig) == pong_models(pongs@)
                    + session_pongs(frame_models(rest@)),
                self@.state is Connected ==> session_closes(orig) == session_closes(
                    frame_models(rest@),
                ),
                self@.state is Closing ==> item_models(sink.items@) == sink0 + session_items(orig),
                self@.state is Closing ==> pong_models(pongs@) == session_pongs(orig),
                self@.state is Closing ==> session_closes(orig),
            decreases rest@.len(),
        {
            let ghost prev: Seq<Frame> = rest@;
            let ghost rem: Seq<FrameModel> = frame_models(prev);
            let f = rest.remove(0);
            let ghost fm = f@;
            proof {
                assert(rest@ =~= prev.drop_first());
                assert(frame_models(rest@) =~= rem.drop_first());
                assert(rem[0] == fm);
            }
            let ghost items_before: Seq<SinkItemModel> = item_models(sink.items@);
            let ghost pongs_before: Seq<Seq<u8>> = pong_models(pongs@);
            let a = self.on_frame(f);
            match a {
                Action::SendPong(p) => {
                    pongs.push(p);
                    proof {
                        assert(pong_models(pongs@) =~= pongs_before.push(p@));
                        assert(pongs_before.push(p@) =~= pongs_before + seq![p@]);
                        vstd::seq_lib::lemma_concat_associative(
                            pongs_before,
                            seq![p@],
                            session_pongs(rem.drop_first()),
                        );
                    }
                },
                Action::Emit(item) => {
                    proof {
                        let pl = fm->Text_0;
                        assert(item@ == text_item(pl));
                    }
                    let ghost im = item@;
                    sink.items.push(item);
                    proof {
                        assert(item_models(sink.items@) =~= items_before.push(im));
                        assert(items_before.push(im) =~= items_before + seq![im]);
                        vstd::seq_lib::lemma_concat_associative(
                            items_before,
                            seq![im],
                            session_items(rem.drop_first()),
                        );
                    }
                },
                _ => {},
            }
        }
        proof {
            if self@.state is Connected {
                assert(session_items(frame_models(rest@)) =~= Seq::<SinkItemModel>::empty());
                assert(item_models(sink.items@) + Seq::<SinkItemModel>::empty() =~= item_models(
                    sink.items@,
                ));
                assert(pong_models(pongs@) + Seq::<Seq<u8>>::empty() =~= pong_models(pongs@));
            }
        }
        pongs
    }

    /// Reports that the socket is released. `Closing` completes its cleanup
    /// and returns to `Disconnected`; any other state is unchanged.
    pub fn on_socket_closed(&mut self)
        ensures
            final(self)@.config == old(self)@.config,
            final(self)@.retries == old(self)@.retries,
            final(self)@.stopping == old(self)@.stopping,
            old(self)@.state is Closing ==> final(self)@.state is Disconnected,
            old(self)@.state !is Closing ==> final(self)@ == old(self)@,
    {
        if matches!(self.state, ConnectionState::Closing) {
            self.state = ConnectionState::Disconnected;
        }
    }
}

/// What the sink receives for one text payload: the decoded message, or the
/// rejected payload with its reason.
pub open spec fn text_item(p: Seq<u8>) -> SinkItemModel {
    match spec_message(p) {
        Some(m) => SinkItemModel::Message(m),
        None => SinkItemModel::Rejected(
            DecodeErrorModel {
                payload: p,
                reason: if known_head(p) {
                    DecodeReason::Malformed
                } else {
                    DecodeReason::UnknownShape
                },
            },
        ),
    }
}

/// The items a connected read loop hands the sink for `frames`, in order,
/// stopping at the first close frame.
pub open spec fn session_items(frames: Seq<FrameModel>) -> Seq<SinkItemModel>
    decreases frames.len(),
{
    if frames.len() == 0 {
        Seq::empty()
    } else {
        match frames[0] {
            FrameModel::Text(p) => seq![text_item(p)] + session_items(frames.drop_first()),
            FrameModel::Close(_) => Seq::empty(),
            _ => session_items(frames.drop_first()),
        }
    }
}

/// The pong payloads a connected read loop owes for `frames`: one for each
/// ping, in order, stopping at the first close frame.
pub open spec fn session_pongs(frames: Seq<FrameModel>) -> Seq<Seq<u8>>
    decreases frames.len(),
{
    if frames.len() == 0 {
        Seq::empty()
    } else {
        match frames[0] {
            FrameModel::Ping(p) => seq![p] + session_pongs(frames.drop_first()),
            FrameModel::Close(_) => Seq::empty(),
            _ => session_pongs(frames.drop_first()),
        }
    }
}

/// Whether `frames` holds a close frame.
pub open spec fn session_closes(frames: Seq<FrameModel>) -> bool
    decreases frames.len(),
{
    if frames.len() == 0 {
        false
    } else if frames[0] is Close {
        true
    } else {
        session_closes(frames.drop_first())
    }
}

/// The models of a sequence of frames.
pub open spec fn frame_models(v: Seq<Frame>) -> Seq<FrameModel> {
    v.map_values(|f: Frame| f@)
}

/// The models of a sequence of sink items.
pub open spec fn item_models(v: Seq<SinkItem>) -> Seq<SinkItemModel> {
    v.map_values(|i: SinkItem| i@)
}

/// The models of a sequence of pong payloads.
pub open spec fn pong_models(v: Seq<Vec<u8>>) -> Seq<Seq<u8>> {
    v.map_values(|p: Vec<u8>| p@)
}

/// `n + 1`, stopping at the largest `u64`.
pub open spec fn saturating_inc(n: u64) -> u64 {
    if n < u64::MAX {
        (n + 1) as u64
    } else {
        n
    }
}

/// Borrows the URL out of a configuration.
fn config_url_str(config: &SupervisorConfig) -> (r: &str)
    ensures
        r@ == config@.url,
{
    config.url.as_str()
}

} // verus!
