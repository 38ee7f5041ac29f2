//! Messages that the exchange sends on its own: which channels there are, how
//! one connection serves many receivers, and which messages a receiver gets.

use super::api::ApiCreds;
use super::types::api::{
    LastTradePrice, MarketUpdate, PriceChangeResponse, TickSizeChange, TradeStreamItem,
};
use crate::primitives::{self, B256, U256};
use crate::text;
use std::sync::Arc;
use vstd::prelude::*;

verus! {

/// Where the exchange sends messages from.
pub const WS_URL: &'static str = "wss://ws-subscriptions-clob.polymarket.com";

/// How many messages are kept for a slow receiver.
pub const MULTIPLEXER_CAPACITY: usize = 100;

/// How often a connection is checked, in milliseconds.
pub const PING_MILLIS: u64 = 100;

/// How long to wait before connecting again, at first, in seconds. It is
/// doubled before each time.
pub const START_DELAY_SECS: u64 = 1;

/// The wait at which connecting is given up, in seconds.
pub const MAX_DELAY_SECS: u64 = 30;

/// What can go wrong on a channel. It can be handed to many receivers.
#[derive(Debug, Clone)]
pub enum WSClientError {
    ConnectError(Arc<String>),
    SendError(Arc<String>),
    RecvError(Arc<String>),
    SerializeError(Arc<String>),
    TooManyMalformedMessages,
}

impl WSClientError {
    /// No connection was made.
    pub fn connect_error(e: String) -> (error: WSClientError)
        ensures
            error == WSClientError::ConnectError(Arc::new(e)),
    {
        WSClientError::ConnectError(Arc::new(e))
    }

    /// A message could not be sent.
    pub fn send_error(e: String) -> (error: WSClientError)
        ensures
            error == WSClientError::SendError(Arc::new(e)),
    {
        WSClientError::SendError(Arc::new(e))
    }

    /// A message could not be received.
    pub fn recv_error(e: String) -> (error: WSClientError)
        ensures
            error == WSClientError::RecvError(Arc::new(e)),
    {
        WSClientError::RecvError(Arc::new(e))
    }

    /// A message could not be read.
    pub fn serialize_error(e: String) -> (error: WSClientError)
        ensures
            error == WSClientError::SerializeError(Arc::new(e)),
    {
        WSClientError::SerializeError(Arc::new(e))
    }

    /// Too many messages made no sense.
    pub fn too_many_malformed_messages() -> (error: WSClientError)
        ensures
            error == WSClientError::TooManyMalformedMessages,
            error.words() == "Bad message from client"@,
    {
        WSClientError::TooManyMalformedMessages
    }
}

impl WSClientError {
    /// What went wrong, in words.
    pub open spec fn words(&self) -> Seq<char> {
        match self {
            WSClientError::ConnectError(e) => "Failed to connect to WS: "@ + e@,
            WSClientError::SendError(e) => "Failed to send message: "@ + e@,
            WSClientError::RecvError(e) => "Failed to receive message: "@ + e@,
            WSClientError::SerializeError(e) => "Failed to deserialize message: "@ + e@,
            WSClientError::TooManyMalformedMessages => "Bad message from client"@,
        }
    }

    /// What went wrong, in words.
    pub fn to_text(&self) -> (s: String)
        ensures
            s@ == self.words(),
    {
        match self {
            WSClientError::ConnectError(e) => text::join2("Failed to connect to WS: ", e),
            WSClientError::SendError(e) => text::join2("Failed to send message: ", e),
            WSClientError::RecvError(e) => text::join2("Failed to receive message: ", e),
            WSClientError::SerializeError(e) => text::join2("Failed to deserialize message: ", e),
            WSClientError::TooManyMalformedMessages => "Bad message from client".to_owned(),
        }
    }
}

/// What messages are about.
#[derive(Debug, Clone, Copy)]
pub enum Channel {
    /// A token.
    Market(U256),
    /// A market: both of its tokens.
    User(B256),
}

impl PartialEq for Channel {
    fn eq(&self, other: &Self) -> (same: bool) {
        match (self, other) {
            (Channel::Market(a), Channel::Market(b)) => *a == *b,
            (Channel::User(a), Channel::User(b)) => *a == *b,
            _ => false,
        }
    }
}

impl Eq for Channel {

}

impl vstd::std_specs::cmp::PartialEqSpecImpl for Channel {
    open spec fn obeys_eq_spec() -> bool {
        true
    }

    open spec fn eq_spec(&self, other: &Self) -> bool {
        *self == *other
    }
}

/// What is sent first on a connection.
#[derive(Debug)]
pub struct HandshakeMessage {
    /// The markets that messages are wanted of.
    pub markets: Option<Vec<String>>,
    /// The tokens that messages are wanted of.
    pub assets_ids: Option<Vec<String>>,
    /// The kind of the channel.
    pub sub_type: String,
    /// The credentials of the user.
    pub auth: Option<ApiCreds>,
}

/// The texts of a list of strings, if there is one.
pub open spec fn list_texts(list: Option<Vec<String>>) -> Option<Seq<Seq<char>>> {
    match list {
        Some(list) => Some(text::texts(list@)),
        None => None,
    }
}

impl Channel {
    /// The name of the channel's kind.
    pub open spec fn kind(&self) -> Seq<char> {
        match self {
            Channel::Market(_) => "market"@,
            Channel::User(_) => "user"@,
        }
    }

    /// The name of the channel's kind.
    pub fn type_of(&self) -> (s: &'static str)
        ensures
            s@ == self.kind(),
    {
        match self {
            Channel::Market(_) => "market",
            Channel::User(_) => "user",
        }
    }

    /// The URL of the channel.
    pub fn url(&self) -> (url: String)
        ensures
            url@ == WS_URL@ + "/ws/"@ + self.kind(),
    {
        text::join2(&text::join2(WS_URL, "/ws/"), self.type_of())
    }

    /// What is sent first on a connection for the channel.
    pub fn into_handshake_message(self, auth: &Option<ApiCreds>) -> (message: HandshakeMessage)
        ensures
            list_texts(message.markets) == (match self {
                Channel::Market(_) => None,
                Channel::User(market) => Some(seq![seq!['0', 'x'] + text::hex(market@)]),
            }),
            list_texts(message.assets_ids) == (match self {
                Channel::Market(asset_id) => Some(seq![text::decimal(asset_id@)]),
                Channel::User(_) => None,
            }),
            message.sub_type@ == self.kind(),
            message.auth == *auth,
    {
        let auth = match auth {
            Some(auth) => Some(auth.clone()),
            None => None,
        };
        match self {
            Channel::Market(asset_id) => {
                let mut ids: Vec<String> = Vec::new();
                ids.push(asset_id.to_decimal());
                assert(text::texts(ids@) =~= seq![text::decimal(asset_id@)]);
                HandshakeMessage {
                    markets: None,
                    assets_ids: Some(ids),
                    sub_type: self.type_of().to_owned(),
                    auth,
                }
            },
            Channel::User(market) => {
                let mut ids: Vec<String> = Vec::new();
                ids.push(market.to_hex());
                assert(text::texts(ids@) =~= seq![
                    seq!['0', 'x'] + text::hex(market@),
                ]);
                HandshakeMessage {
                    markets: Some(ids),
                    assets_ids: None,
                    sub_type: self.type_of().to_owned(),
                    auth,
                }
            },
        }
    }
}

/// A message of a channel.
pub trait PolymarketWSMessage: Sized {
    /// The name of the event that the message tells of.
    spec fn event() -> Seq<char>;

    /// Whether the message is about what the channel is about.
    spec fn about(&self, channel: Channel) -> bool;

    /// The name of the event that the message tells of.
    fn event_type() -> (s: &'static str)
        ensures
            s@ == Self::event(),
    ;

    /// Whether a receiver on the channel should get the message.
    fn contains_id(&self, channel: &Channel) -> (contains: bool)
        ensures
            contains == self.about(*channel),
    ;
}

/// A message that only authenticated users get.
pub trait PolymarketWSAuthedMessage: PolymarketWSMessage {

}

impl PolymarketWSMessage for LastTradePrice {
    open spec fn event() -> Seq<char> {
        "last_trade_price"@
    }

    open spec fn about(&self, channel: Channel) -> bool {
        channel == Channel::Market(self.asset_id)
    }

    fn event_type() -> (s: &'static str) {
        "last_trade_price"
    }

    fn contains_id(&self, channel: &Channel) -> (contains: bool) {
        match channel {
            Channel::Market(asset) => self.asset_id == *asset,
            Channel::User(_) => false,
        }
    }
}

impl PolymarketWSMessage for MarketUpdate {
    open spec fn event() -> Seq<char> {
        "book"@
    }

    open spec fn about(&self, channel: Channel) -> bool {
        channel == Channel::Market(self.asset_id)
    }

    fn event_type() -> (s: &'static str) {
        "book"
    }

    fn contains_id(&self, channel: &Channel) -> (contains: bool) {
        match channel {
            Channel::Market(asset) => self.asset_id == *asset,
            Channel::User(_) => false,
        }
    }
}

impl PolymarketWSMessage for PriceChangeResponse {
    open spec fn event() -> Seq<char> {
        "price_change"@
    }

    open spec fn about(&self, channel: Channel) -> bool {
        match channel {
            Channel::Market(asset) => self.mentions(asset),
            Channel::User(_) => false,
        }
    }

    fn event_type() -> (s: &'static str) {
        "price_change"
    }

    fn contains_id(&self, channel: &Channel) -> (contains: bool) {
        match channel {
            Channel::Market(asset) => self.for_asset(*asset).is_some(),
            Channel::User(_) => false,
        }
    }
}

impl PolymarketWSMessage for TickSizeChange {
    open spec fn event() -> Seq<char> {
        "tick_size_change"@
    }

    open spec fn about(&self, channel: Channel) -> bool {
        channel == Channel::Market(self.asset_id)
    }

    fn event_type() -> (s: &'static str) {
        "tick_size_change"
    }

    fn contains_id(&self, channel: &Channel) -> (contains: bool) {
        match channel {
            Channel::Market(asset) => self.asset_id == *asset,
            Channel::User(_) => false,
        }
    }
}

impl PolymarketWSMessage for TradeStreamItem {
    open spec fn event() -> Seq<char> {
        "trade"@
    }

    open spec fn about(&self, channel: Channel) -> bool {
        channel == Channel::User(self.market)
    }

    fn event_type() -> (s: &'static str) {
        "trade"
    }

    fn contains_id(&self, channel: &Channel) -> (contains: bool) {
        match channel {
            Channel::Market(_) => false,
            Channel::User(market) => self.market == *market,
        }
    }
}

impl PolymarketWSAuthedMessage for TradeStreamItem {

}

/// Whether the messages of an event come on the channels of tokens.
pub open spec fn market_event(event: Seq<char>) -> bool {
    event == "book"@ || event == "last_trade_price"@ || event == "price_change"@ || event
        == "tick_size_change"@
}

/// A channel that a receiver listens to, the event that it waits for there, and
/// the credentials for it.
#[derive(Debug)]
pub struct Subscription {
    pub channel: Channel,
    pub event_type: &'static str,
    pub auth: Option<ApiCreds>,
}

/// Listens to the messages of a market that only authenticated users get.
pub fn user_client<T: PolymarketWSAuthedMessage>(market: B256, auth: ApiCreds) -> (subscription:
    Subscription)
    ensures
        subscription.channel == Channel::User(market),
        subscription.event_type@ == T::event(),
        subscription.auth == Some(auth),
{
    Subscription {
        channel: Channel::User(market),
        event_type: T::event_type(),
        auth: Some(auth),
    }
}

/// Listens to the messages of a token.
pub fn market_client<T: PolymarketWSMessage>(asset_id: U256) -> (subscription: Subscription)
    requires
        market_event(T::event()),
    ensures
        subscription.channel == Channel::Market(asset_id),
        subscription.event_type@ == T::event(),
        subscription.auth is None,
{
    Subscription {
        channel: Channel::Market(asset_id),
        event_type: T::event_type(),
        auth: None,
    }
}

/// The connections, one for each channel that is listened to.
#[derive(Debug)]
pub struct Multiplexers<M> {
    pub entries: Vec<(Channel, M)>,
}

/// Whether `channel` has a connection.
pub open spec fn has_channel<M>(entries: Seq<(Channel, M)>, channel: Channel) -> bool {
    exists|i: int| 0 <= i < entries.len() && (#[trigger] entries[i]).0 == channel
}

/// The connection of `channel`, where there is one.
pub open spec fn of_channel<M>(entries: Seq<(Channel, M)>, channel: Channel) -> M {
    entries[choose|i: int| 0 <= i < entries.len() && (#[trigger] entries[i]).0 == channel].1
}

impl<M> View for Multiplexers<M> {
    type V = Map<Channel, M>;

    open spec fn view(&self) -> Map<Channel, M> {
        Map::new(
            |channel: Channel| has_channel(self.entries@, channel),
            |channel: Channel| of_channel(self.entries@, channel),
        )
    }
}

impl<M> Multiplexers<M> {
    /// No channel occurs twice.
    pub open spec fn wf(&self) -> bool {
        forall|i: int, j: int|
            0 <= i < j < self.entries@.len() ==> (#[trigger] self.entries@[i]).0 != (
            #[trigger] self.entries@[j]).0
    }

    /// No connections.
    pub fn new() -> (all: Multiplexers<M>)
        ensures
            all.wf(),
            all@ == Map::<Channel, M>::empty(),
    {
        let all = Multiplexers { entries: Vec::new() };
        assert(all@ =~= Map::<Channel, M>::empty());
        all
    }

    /// Where the connection of a channel stands.
    fn position(&self, channel: &Channel) -> (at: Option<usize>)
        ensures
            at is Some <==> self@.contains_key(*channel),
            at matches Some(i) ==> i < self.entries@.len() && self.entries@[i as int].0 == *channel,
    {
        let mut i: usize = 0;
        while i < self.entries.len()
            invariant
                i <= self.entries@.len(),
                forall|j: int| 0 <= j < i ==> (#[trigger] self.entries@[j]).0 != *channel,
            decreases self.entries@.len() - i,
        {
            if self.entries[i].0 == *channel {
                return Some(i);
            }
            i += 1;
        }
        None
    }

    /// The connection of a channel, if there is one.
    pub fn get(&self, channel: &Channel) -> (found: Option<&M>)
        requires
            self.wf(),
        ensures
            found is Some <==> self@.contains_key(*channel),
            found matches Some(m) ==> *m == self@[*channel],
    {
        match self.position(channel) {
            Some(i) => Some(&self.entries[i].1),
            None => None,
        }
    }

    /// Adds the connection of a channel that has none.
    pub fn insert(&mut self, channel: Channel, multiplexer: M)
        requires
            old(self).wf(),
            !old(self)@.contains_key(channel),
        ensures
            final(self).wf(),
            final(self)@ == old(self)@.insert(channel, multiplexer),
    {
        let ghost before = self.entries@;
        self.entries.push((channel, multiplexer));
        proof {
            let after = self.entries@;
            assert forall|c: Channel| #[trigger]
                has_channel(after, c) == (has_channel(before, c) || c == channel) by {
                if has_channel(before, c) {
                    let i = choose|i: int|
                        0 <= i < before.len() && (#[trigger] before[i]).0 == c;
                    assert(after[i].0 == c);
                }
                if c == channel {
                    assert(after[before.len() as int].0 == c);
                }
                if has_channel(after, c) && c != channel {
                    let i = choose|i: int| 0 <= i < after.len() && (#[trigger] after[i]).0 == c;
                    assert(before[i].0 == c);
                }
            }
            assert forall|i: int, j: int| 0 <= i < j < after.len() implies (#[trigger] after[i]).0
                != (#[trigger] after[j]).0 by {
                assert(after[i] == before[i]);
                if j < before.len() {
                    assert(after[j] == before[j]);
                } else {
                    assert(!has_channel(before, channel));
                }
            }
            assert(self@ =~= old(self)@.insert(channel, multiplexer));
        }
    }

    /// Drops the connection of a channel that nobody listens to any more, and
    /// says whether it did.
    pub fn release(&mut self, channel: &Channel, receivers: usize) -> (released: bool)
        requires
            old(self).wf(),
            old(self)@.contains_key(*channel),
        ensures
            final(self).wf(),
            released == (receivers == 0),
            final(self)@ == (if released {
                old(self)@.remove(*channel)
            } else {
                old(self)@
            }),
    {
        if receivers != 0 {
            return false;
        }
        if let Some(at) = self.position(channel) {
            let ghost before = self.entries@;
            self.entries.remove(at);
            proof {
                let after = self.entries@;
                let at = at as int;
                assert(after =~= before.remove(at));
                assert forall|c: Channel| #[trigger]
                    has_channel(after, c) == (has_channel(before, c) && c != *channel) by {
                    if has_channel(after, c) {
                        let i = choose|i: int|
                            0 <= i < after.len() && (#[trigger] after[i]).0 == c;
                        let k = if i < at {
                            i
                        } else {
                            i + 1
                        };
                        assert(before[k] == after[i]);
                        assert(before[at].0 == *channel);
                    }
                    if has_channel(before, c) && c != *channel {
                        let k = choose|k: int|
                            0 <= k < before.len() && (#[trigger] before[k]).0 == c;
                        let i = if k < at {
                            k
                        } else {
                            k - 1
                        };
                        assert(after[i] == before[k]);
                    }
                }
                assert forall|i: int, j: int| 0 <= i < j < after.len() implies (
                #[trigger] after[i]).0 != (#[trigger] after[j]).0 by {
                    let ki = if i < at {
                        i
                    } else {
                        i + 1
                    };
                    let kj = if j < at {
                        j
                    } else {
                        j + 1
                    };
                    assert(after[i] == before[ki] && after[j] == before[kj]);
                }
                assert forall|c: Channel| has_channel(after, c) implies #[trigger] of_channel(
                    after,
                    c,
                ) == of_channel(before, c) by {
                    let i = choose|i: int| 0 <= i < after.len() && (#[trigger] after[i]).0 == c;
                    let ki = if i < at {
                        i
                    } else {
                        i + 1
                    };
                    assert(before[ki] == after[i]);
                }
                assert(self@ =~= old(self)@.remove(*channel));
            }
        }
        true
    }
}

/// The connections after someone listens to a channel, for which `new` would be
/// a new connection: those that were there, and the new one only where the
/// channel had none.
pub open spec fn after_listening<M>(
    before: Map<Channel, M>,
    channel: Channel,
    new: M,
) -> Map<Channel, M> {
    if before.contains_key(channel) {
        before
    } else {
        before.insert(channel, new)
    }
}

/// Who listens to a channel that is listened to shares its connection: the
/// connections stay as they are, whatever new one would have been made.
pub proof fn second_listener_shares<M>(
    before: Map<Channel, M>,
    channel: Channel,
    first: M,
    second: M,
)
    ensures
        ({
            let once = after_listening(before, channel, first);
            &&& once.contains_key(channel)
            &&& after_listening(once, channel, second) == once
        }),
{
}

impl<M> Multiplexers<M> {
    /// Listens to a channel: on the connection that is there, or on one that
    /// `start` makes for the subscription, with its credentials. Says whether
    /// one was made. Where there is a connection, `start` is not called and
    /// the subscription's credentials go nowhere.
    pub fn listen<F: FnOnce(Subscription) -> M>(
        &mut self,
        subscription: Subscription,
        start: F,
    ) -> (started: bool)
        requires
            old(self).wf(),
            !old(self)@.contains_key(subscription.channel) ==> start.requires((subscription,)),
        ensures
            final(self).wf(),
            started == !old(self)@.contains_key(subscription.channel),
            final(self)@.contains_key(subscription.channel),
            !started ==> *final(self) == *old(self),
            started ==> exists|new: M| #[trigger]
                start.ensures((subscription,), new) && final(self)@ == after_listening(
                    old(self)@,
                    subscription.channel,
                    new,
                ),
    {
        let channel = subscription.channel;
        if self.get(&channel).is_some() {
            return false;
        }
        let multiplexer = start(subscription);
        self.insert(channel, multiplexer);
        true
    }
}

/// How far the keeper of a connection has come.
#[derive(Debug, Clone, Copy, PartialEq, Eq, Structural)]
pub enum Phase {
    /// The first connection is being made.
    Connecting,
    /// There is a connection.
    Running,
    /// The connection was lost and is being made again.
    Reconnecting,
    /// Nothing happens any more.
    Stopped,
}

/// What happens to the keeper of a connection.
#[derive(Debug)]
pub enum Event<X> {
    /// A connection was made, and the first message sent.
    Connected,
    /// No connection could be made.
    ConnectFailed(WSClientError),
    /// A text has come.
    Text(X),
    /// The answer to a check has come.
    Pong,
    /// Something else has come.
    OtherMessage,
    /// Something that has come could not be read.
    ReadFailed,
    /// The connection was lost.
    Ended,
    /// It is time for a check.
    Tick,
    /// Nobody listened any more; now there are this many receivers.
    Closed { receivers: usize },
}

/// What the keeper of a connection does.
#[derive(Debug)]
pub enum Action<X> {
    /// Nothing.
    Wait,
    /// Hands a text or an error to all receivers.
    Broadcast(Result<X, WSClientError>),
    /// Makes a connection.
    Connect,
    /// Checks the connection.
    Ping,
    /// Drops the connection, which then can be made anew.
    Release,
}

/// What the keeper of a connection does, and how far it has come then.
pub open spec fn mux_step<X>(phase: Phase, event: Event<X>) -> (Phase, Action<X>) {
    match phase {
        Phase::Connecting => match event {
            Event::Connected => (Phase::Running, Action::Wait),
            Event::ConnectFailed(e) => (Phase::Stopped, Action::Broadcast(Err(e))),
            _ => (phase, Action::Wait),
        },
        Phase::Running => match event {
            Event::Text(text) => (phase, Action::Broadcast(Ok(text))),
            Event::Ended => (Phase::Reconnecting, Action::Connect),
            Event::Tick => (phase, Action::Ping),
            Event::Closed { receivers } => if receivers == 0 {
                (Phase::Stopped, Action::Release)
            } else {
                (phase, Action::Wait)
            },
            _ => (phase, Action::Wait),
        },
        Phase::Reconnecting => match event {
            Event::Connected => (Phase::Running, Action::Wait),
            Event::ConnectFailed(e) => (Phase::Running, Action::Broadcast(Err(e))),
            _ => (phase, Action::Wait),
        },
        Phase::Stopped => (phase, Action::Wait),
    }
}

/// Takes an event into account: what the keeper of a connection does then.
pub fn multiplexer_step<X>(phase: &mut Phase, event: Event<X>) -> (action: Action<X>)
    ensures
        (*final(phase), action) == mux_step(*old(phase), event),
        action matches Action::Broadcast(Ok(text)) ==> event == Event::Text(text),
        *old(phase) == Phase::Running ==> (event matches Event::Text(text) ==> action
            == Action::Broadcast(Ok::<X, WSClientError>(text))),
        *old(phase) == Phase::Stopped ==> *final(phase) == Phase::Stopped && action is Wait,
{
    match *phase {
        Phase::Connecting => match event {
            Event::Connected => {
                *phase = Phase::Running;
                Action::Wait
            },
            Event::ConnectFailed(e) => {
                *phase = Phase::Stopped;
                Action::Broadcast(Err(e))
            },
            _ => Action::Wait,
        },
        Phase::Running => match event {
            Event::Text(text) => Action::Broadcast(Ok(text)),
            Event::Ended => {
                *phase = Phase::Reconnecting;
                Action::Connect
            },
            Event::Tick => Action::Ping,
            Event::Closed { receivers } => if receivers == 0 {
                *phase = Phase::Stopped;
                Action::Release
            } else {
                Action::Wait
            },
            _ => Action::Wait,
        },
        Phase::Reconnecting => match event {
            Event::Connected => {
                *phase = Phase::Running;
                Action::Wait
            },
            Event::ConnectFailed(e) => {
                *phase = Phase::Running;
                Action::Broadcast(Err(e))
            },
            _ => Action::Wait,
        },
        Phase::Stopped => Action::Wait,
    }
}

/// The keeper of a connection stops in two cases alone: where the first
/// connection could not be made, which all receivers are told, and where
/// nobody listens any more, upon which the connection is dropped. It never
/// starts again.
pub proof fn keeper_stops<X>(phase: Phase, event: Event<X>)
    ensures
        ({
            let (after, action) = mux_step(phase, event);
            &&& phase == Phase::Stopped ==> after == Phase::Stopped && action is Wait
            &&& after == Phase::Stopped && phase != Phase::Stopped ==> {
                ||| phase == Phase::Connecting && event is ConnectFailed && action
                    == Action::<X>::Broadcast(Err(event->ConnectFailed_0))
                ||| event == (Event::<X>::Closed { receivers: 0 }) && action is Release
            }
            &&& action is Release ==> event == (Event::<X>::Closed { receivers: 0 })
        }),
{
}

/// How far the keeper of a connection has come after some events.
pub open spec fn phase_after<X>(phase: Phase, events: Seq<Event<X>>) -> Phase
    decreases events.len(),
{
    if events.len() == 0 {
        phase
    } else {
        mux_step(phase_after(phase, events.drop_last()), events.last()).0
    }
}

/// All that the keeper of a connection hands to the receivers over some events.
pub open spec fn broadcasts<X>(phase: Phase, events: Seq<Event<X>>) -> Seq<
    Result<X, WSClientError>,
>
    decreases events.len(),
{
    if events.len() == 0 {
        seq![]
    } else {
        let before = events.drop_last();
        match mux_step(phase_after(phase, before), events.last()).1 {
            Action::Broadcast(outcome) => broadcasts(phase, before).push(outcome),
            _ => broadcasts(phase, before),
        }
    }
}

/// The texts among some events that come while there is a connection.
pub open spec fn texts_heard<X>(phase: Phase, events: Seq<Event<X>>) -> Seq<X>
    decreases events.len(),
{
    if events.len() == 0 {
        seq![]
    } else {
        let before = events.drop_last();
        match events.last() {
            Event::Text(text) => if phase_after(phase, before) == Phase::Running {
                texts_heard(phase, before).push(text)
            } else {
                texts_heard(phase, before)
            },
            _ => texts_heard(phase, before),
        }
    }
}

/// The texts among what is handed to receivers.
pub open spec fn texts_among<X>(outcomes: Seq<Result<X, WSClientError>>) -> Seq<X>
    decreases outcomes.len(),
{
    if outcomes.len() == 0 {
        seq![]
    } else {
        match outcomes.last() {
            Ok(text) => texts_among(outcomes.drop_last()).push(text),
            Err(_) => texts_among(outcomes.drop_last()),
        }
    }
}

/// The texts that a keeper hands to the receivers are those that come while
/// there is a connection: unchanged, in order, and each once.
pub proof fn broadcast_texts_are_those_heard<X>(phase: Phase, events: Seq<Event<X>>)
    ensures
        texts_among(broadcasts(phase, events)) == texts_heard(phase, events),
    decreases events.len(),
{
    if events.len() > 0 {
        let before = events.drop_last();
        broadcast_texts_are_those_heard(phase, before);
        if let Action::Broadcast(outcome) = mux_step(
            phase_after(phase, before),
            events.last(),
        ).1 {
            assert(broadcasts(phase, before).push(outcome).drop_last() =~= broadcasts(
                phase,
                before,
            ));
        }
    }
}

/// The texts among some events, as they are handed to receivers.
pub open spec fn texts_in<X>(events: Seq<Event<X>>) -> Seq<Result<X, WSClientError>>
    decreases events.len(),
{
    if events.len() == 0 {
        seq![]
    } else {
        match events.last() {
            Event::Text(text) => texts_in(events.drop_last()).push(Ok(text)),
            _ => texts_in(events.drop_last()),
        }
    }
}

/// While a connection lasts and is listened to, what the keeper hands to the
/// receivers is exactly the texts: unchanged, in order, and nothing else.
pub proof fn running_keeper_broadcasts_texts<X>(events: Seq<Event<X>>)
    requires
        forall|i: int|
            0 <= i < events.len() ==> !((#[trigger] events[i]) is Ended) && events[i] != (
            Event::<X>::Closed { receivers: 0 }),
    ensures
        broadcasts(Phase::Running, events) == texts_in(events),
        phase_after(Phase::Running, events) == Phase::Running,
    decreases events.len(),
{
    if events.len() > 0 {
        let before = events.drop_last();
        assert forall|i: int| 0 <= i < before.len() implies !((#[trigger] before[i]) is Ended)
            && before[i] != (Event::<X>::Closed { receivers: 0 }) by {
            assert(before[i] == events[i]);
        }
        running_keeper_broadcasts_texts(before);
        assert(events[events.len() - 1] == events.last());
    }
}

/// Once a connection was dropped, its keeper does nothing more: a connection
/// is dropped at most once, and after that nothing is handed to receivers.
pub proof fn release_is_final<X>(phase: Phase, events: Seq<Event<X>>, i: int, j: int)
    requires
        0 <= i < j < events.len(),
        mux_step(phase_after(phase, events.take(i)), events[i]).1 is Release,
    ensures
        mux_step(phase_after(phase, events.take(j)), events[j]).1 is Wait,
        phase_after(phase, events.take(j)) == Phase::Stopped,
    decreases j,
{
    assert(events.take(j).drop_last() =~= events.take(j - 1));
    assert(events.take(j).last() == events[j - 1]);
    if j - 1 > i {
        release_is_final(phase, events, i, j - 1);
    }
}

/// The texts that come while there is a connection are handed to the receivers
/// as they are, and no others.
pub proof fn texts_are_passed_on<X>(phase: Phase, event: Event<X>, text: X)
    ensures
        mux_step(phase, event).1 == Action::Broadcast(Ok::<X, WSClientError>(text)) <==> phase
            == Phase::Running && event == Event::Text(text),
{
}

/// How long to wait before connecting again.
#[derive(Debug, Clone, Copy, PartialEq, Eq, Structural)]
pub struct Backoff {
    pub delay_secs: u64,
}

/// The wait that follows on a wait: twice as long, up to the limit.
pub open spec fn next_delay(delay_secs: u64) -> u64 {
    if 2 * delay_secs < MAX_DELAY_SECS {
        (2 * delay_secs) as u64
    } else {
        MAX_DELAY_SECS
    }
}

impl Backoff {
    /// The wait lies within the limit.
    pub open spec fn wf(&self) -> bool {
        1 <= self.delay_secs <= MAX_DELAY_SECS
    }

    /// Before the first failure.
    pub fn new() -> (backoff: Backoff)
        ensures
            backoff.wf(),
            backoff.delay_secs == START_DELAY_SECS,
    {
        Backoff { delay_secs: START_DELAY_SECS }
    }

    /// Takes a failure into account: how many seconds to wait before
    /// connecting again, or `None` where connecting is given up.
    pub fn failed(&mut self) -> (wait_secs: Option<u64>)
        requires
            old(self).wf(),
        ensures
            final(self).wf(),
            final(self).delay_secs == next_delay(old(self).delay_secs),
            wait_secs == (if final(self).delay_secs == MAX_DELAY_SECS {
                None
            } else {
                Some(final(self).delay_secs)
            }),
            wait_secs is None <==> 2 * old(self).delay_secs >= 30,
            wait_secs matches Some(wait) ==> wait == 2 * old(self).delay_secs,
    {
        let doubled: u64 = 2 * self.delay_secs;
        self.delay_secs = if doubled < MAX_DELAY_SECS {
            doubled
        } else {
            MAX_DELAY_SECS
        };
        if self.delay_secs == MAX_DELAY_SECS {
            None
        } else {
            Some(self.delay_secs)
        }
    }
}

/// The wait after `n` failures.
pub open spec fn delay_after(n: nat) -> u64
    decreases n,
{
    if n == 0 {
        START_DELAY_SECS
    } else {
        next_delay(delay_after((n - 1) as nat))
    }
}

/// Connecting is given up at the fifth failure, and not before: after waits of
/// two, four, eight and sixteen seconds.
pub proof fn connecting_is_given_up(n: nat)
    ensures
        delay_after(1) == 2,
        delay_after(2) == 4,
        delay_after(3) == 8,
        delay_after(4) == 16,
        delay_after(n) == MAX_DELAY_SECS <==> n >= 5,
    decreases n,
{
    reveal_with_fuel(delay_after, 6);
    if n > 5 {
        connecting_is_given_up((n - 1) as nat);
    }
}

/// What a receiver does with what has come.
#[derive(Debug)]
pub enum RecvStep<T> {
    /// Waits for what comes next.
    Skip,
    /// Hands it out.
    Ready(Result<T, WSClientError>),
}

/// What comes to a receiver.
#[derive(Debug)]
pub enum Received<X> {
    /// The receiver was too slow and has missed some messages.
    Lagged,
    /// A text.
    Text(X),
    /// An error.
    Failed(WSClientError),
}

/// What a receiver does with what has come, as far as that does not depend on
/// what a text says: texts are read, and errors handed out.
pub open spec fn received_outcome<X, T>(received: Received<X>) -> Result<X, RecvStep<T>> {
    match received {
        Received::Lagged => Err(RecvStep::Skip),
        Received::Text(text) => Ok(text),
        Received::Failed(e) => Err(RecvStep::Ready(Err(e))),
    }
}

/// What a receiver does with what has come, as far as that does not depend on
/// what a text says: texts are read, and errors handed out.
pub fn receive<X, T>(received: Received<X>) -> (step: Result<X, RecvStep<T>>)
    ensures
        step == received_outcome::<X, T>(received),
{
    match received {
        Received::Lagged => Err(RecvStep::Skip),
        Received::Text(text) => Ok(text),
        Received::Failed(e) => Err(RecvStep::Ready(Err(e))),
    }
}

/// The text of a name, if there is one.
pub open spec fn name_text(name: Option<&str>) -> Option<Seq<char>> {
    match name {
        Some(name) => Some(name@),
        None => None,
    }
}

/// Whether a receiver reads a text whose event has this name. A text in which
/// no event is named is not read.
pub fn is_expected<T: PolymarketWSMessage>(event_type: Option<&str>) -> (expected: bool)
    ensures
        expected == (name_text(event_type) == Some(T::event())),
{
    match event_type {
        Some(name) => text::same_text(name, T::event_type()),
        None => false,
    }
}

/// What a receiver on `channel` does with a message that it has read, or with
/// the explanation of why it could not be read.
pub open spec fn message_outcome<T: PolymarketWSMessage>(
    channel: Channel,
    message: Result<T, String>,
) -> RecvStep<T> {
    match message {
        Ok(message) => if message.about(channel) {
            RecvStep::Ready(Ok(message))
        } else {
            RecvStep::Skip
        },
        Err(e) => RecvStep::Ready(Err(WSClientError::SerializeError(Arc::new(e)))),
    }
}

/// What a receiver on `channel` does with a message that it has read, or with
/// the explanation of why it could not be read.
pub fn message_step<T: PolymarketWSMessage>(channel: &Channel, message: Result<T, String>) -> (step:
    RecvStep<T>)
    ensures
        step == message_outcome(*channel, message),
{
    match message {
        Ok(message) => if message.contains_id(channel) {
            RecvStep::Ready(Ok(message))
        } else {
            RecvStep::Skip
        },
        Err(e) => RecvStep::Ready(Err(WSClientError::serialize_error(e))),
    }
}

/// What a receiver on `channel` does with a text, by the event that it names
/// and what it says.
pub open spec fn text_outcome<T: PolymarketWSMessage>(
    channel: Channel,
    event: Option<Seq<char>>,
    message: Result<T, String>,
) -> RecvStep<T> {
    if event == Some(T::event()) {
        message_outcome(channel, message)
    } else {
        RecvStep::Skip
    }
}

/// What a receiver on `channel` does with a text, by the event that it names;
/// `read` reads the text, which is done only where the event is the one that
/// the receiver waits for.
pub fn text_step<T: PolymarketWSMessage, F: FnOnce() -> Result<T, String>>(
    channel: &Channel,
    event_type: Option<&str>,
    read: F,
) -> (step: RecvStep<T>)
    requires
        name_text(event_type) == Some(T::event()) ==> read.requires(()),
    ensures
        name_text(event_type) != Some(T::event()) ==> step is Skip,
        name_text(event_type) == Some(T::event()) ==> exists|message: Result<T, String>| #[trigger]
            read.ensures((), message) && step == text_outcome(
                *channel,
                name_text(event_type),
                message,
            ),
{
    if is_expected::<T>(event_type) {
        let message = read();
        message_step(channel, message)
    } else {
        RecvStep::Skip
    }
}

/// A receiver hands out a message if and only if it is of the event that the
/// receiver waits for and about what the channel is about.
pub proof fn handed_out_messages<T: PolymarketWSMessage>(
    channel: Channel,
    event: Option<Seq<char>>,
    message: T,
)
    ensures
        text_outcome(channel, event, Ok(message)) == RecvStep::Ready(
            Ok::<T, WSClientError>(message),
        ) <==> event == Some(T::event()) && message.about(channel),
        text_outcome(channel, event, Ok(message)) is Skip <==> !(event == Some(T::event())
            && message.about(channel)),
{
}

/// A text, over the event that it names and what it says.
pub ghost struct TextView<T> {
    pub event: Option<Seq<char>>,
    pub message: Result<T, String>,
}

/// What a receiver on `channel` does with what has come.
pub open spec fn item_outcome<T: PolymarketWSMessage>(
    channel: Channel,
    item: Received<TextView<T>>,
) -> RecvStep<T> {
    match received_outcome::<TextView<T>, T>(item) {
        Ok(text) => text_outcome(channel, text.event, text.message),
        Err(step) => step,
    }
}

/// What a receiver on `channel` hands out of what comes one after the other,
/// and how much it takes for that; `None` where it is still waiting in the end.
pub open spec fn recv_outcome<T: PolymarketWSMessage>(
    channel: Channel,
    items: Seq<Received<TextView<T>>>,
) -> Option<(nat, Result<T, WSClientError>)>
    decreases items.len(),
{
    if items.len() == 0 {
        None
    } else {
        match item_outcome(channel, items[0]) {
            RecvStep::Ready(outcome) => Some((1, outcome)),
            RecvStep::Skip => match recv_outcome(channel, items.skip(1)) {
                Some((taken, outcome)) => Some((taken + 1, outcome)),
                None => None,
            },
        }
    }
}

/// A receiver hands out what comes of the first item that is not skipped, and
/// takes the items up to that one and no more. Where all are skipped it waits.
pub proof fn first_item_is_handed_out<T: PolymarketWSMessage>(
    channel: Channel,
    items: Seq<Received<TextView<T>>>,
)
    ensures
        match recv_outcome(channel, items) {
            Some((taken, outcome)) => {
                &&& 1 <= taken <= items.len()
                &&& item_outcome(channel, items[taken - 1]) == RecvStep::Ready(outcome)
                &&& forall|i: int|
                    0 <= i < taken - 1 ==> item_outcome(channel, #[trigger] items[i]) is Skip
            },
            None => forall|i: int|
                0 <= i < items.len() ==> item_outcome(channel, #[trigger] items[i]) is Skip,
        },
    decreases items.len(),
{
    if items.len() > 0 && item_outcome(channel, items[0]) is Skip {
        let rest = items.skip(1);
        first_item_is_handed_out(channel, rest);
        let bound = match recv_outcome(channel, rest) {
            Some((taken, _)) => taken - 1,
            None => rest.len() as int,
        };
        assert forall|i: int| 0 <= i < bound + 1 implies item_outcome(
            channel,
            #[trigger] items[i],
        ) is Skip by {
            if i > 0 {
                assert(rest[i - 1] == items[i]);
            }
        }
    }
}

/// Messages about tokens come on no user's channel, and trades of a user on no
/// token's.
pub proof fn messages_keep_to_their_channels(
    price: LastTradePrice,
    book: MarketUpdate,
    change: PriceChangeResponse,
    tick: TickSizeChange,
    trade: TradeStreamItem,
    asset: U256,
    market: B256,
)
    ensures
        !price.about(Channel::User(market)),
        !book.about(Channel::User(market)),
        !change.about(Channel::User(market)),
        !tick.about(Channel::User(market)),
        !trade.about(Channel::Market(asset)),
{
}

/// The messages about tokens are those that a token's channel is for, and the
/// trades of a user are not among them. No two kinds of messages tell of the
/// same event.
pub proof fn market_messages()
    ensures
        LastTradePrice::event() != MarketUpdate::event(),
        LastTradePrice::event() != PriceChangeResponse::event(),
        LastTradePrice::event() != TickSizeChange::event(),
        MarketUpdate::event() != PriceChangeResponse::event(),
        MarketUpdate::event() != TickSizeChange::event(),
        PriceChangeResponse::event() != TickSizeChange::event(),
        market_event(LastTradePrice::event()),
        market_event(MarketUpdate::event()),
        market_event(PriceChangeResponse::event()),
        market_event(TickSizeChange::event()),
        !market_event(TradeStreamItem::event()),
{
    reveal_strlit("book");
    reveal_strlit("last_trade_price");
    reveal_strlit("price_change");
    reveal_strlit("tick_size_change");
    reveal_strlit("trade");
    assert("trade"@.len() == 5);
    assert("book"@.len() == 4);
    assert("last_trade_price"@.len() == 16);
    assert("price_change"@.len() == 12);
    assert("tick_size_change"@.len() == 16);
    assert("last_trade_price"@[0] == 'l' && "tick_size_change"@[0] == 't');
}

/// The price of a trade is for a receiver if and only if the receiver listens to
/// the token that it is about; what else it says has no part in that.
pub proof fn prices_are_for_their_token(price: LastTradePrice, channel: Channel, contains: bool)
    requires
        call_ensures(<LastTradePrice as PolymarketWSMessage>::contains_id, (&price, &channel), contains),
    ensures
        contains <==> (channel matches Channel::Market(asset) && asset@ == price.asset_id@),
{
    if let Channel::Market(asset) = channel {
        if asset@ == price.asset_id@ {
            primitives::u256_value_determines(asset, price.asset_id);
        }
    }
}

/// A book is for a receiver if and only if the receiver listens to
/// the token that it is about; what else it says has no part in that.
pub proof fn books_are_for_their_token(book: MarketUpdate, channel: Channel, contains: bool)
    requires
        call_ensures(<MarketUpdate as PolymarketWSMessage>::contains_id, (&book, &channel), contains),
    ensures
        contains <==> (channel matches Channel::Market(asset) && asset@ == book.asset_id@),
{
    if let Channel::Market(asset) = channel {
        if asset@ == book.asset_id@ {
            primitives::u256_value_determines(asset, book.asset_id);
        }
    }
}

/// A change of the tick is for a receiver if and only if the receiver listens to
/// the token that it is about; what else it says has no part in that.
pub proof fn ticks_are_for_their_token(tick: TickSizeChange, channel: Channel, contains: bool)
    requires
        call_ensures(<TickSizeChange as PolymarketWSMessage>::contains_id, (&tick, &channel), contains),
    ensures
        contains <==> (channel matches Channel::Market(asset) && asset@ == tick.asset_id@),
{
    if let Channel::Market(asset) = channel {
        if asset@ == tick.asset_id@ {
            primitives::u256_value_determines(asset, tick.asset_id);
        }
    }
}

/// A change of prices is for a receiver if and only if it tells of a change of
/// the token that the receiver listens to.
pub proof fn price_changes_are_for_their_tokens(
    change: PriceChangeResponse,
    channel: Channel,
    contains: bool,
)
    requires
        call_ensures(
            <PriceChangeResponse as PolymarketWSMessage>::contains_id,
            (&change, &channel),
            contains,
        ),
    ensures
        contains <==> (channel matches Channel::Market(asset) && exists|i: int|
            0 <= i < change.price_changes@.len() && (#[trigger] change.price_changes@[i]).asset_id
                == asset),
{
}

/// A trade is for a receiver if and only if the receiver listens to the market
/// that it is of; what else it says has no part in that.
pub proof fn trades_are_for_their_market(trade: TradeStreamItem, channel: Channel, contains: bool)
    requires
        call_ensures(
            <TradeStreamItem as PolymarketWSMessage>::contains_id,
            (&trade, &channel),
            contains,
        ),
    ensures
        contains <==> (channel matches Channel::User(market) && market@ == trade.market@),
{
    if let Channel::User(market) = channel {
        if market@ == trade.market@ {
            primitives::b256_bytes_determine(market, trade.market);
        }
    }
}

/// The events by the names that the exchange gives them.
pub proof fn events_by_name(
    price: &'static str,
    book: &'static str,
    change: &'static str,
    tick: &'static str,
    trade: &'static str,
)
    requires
        call_ensures(<LastTradePrice as PolymarketWSMessage>::event_type, (), price),
        call_ensures(<MarketUpdate as PolymarketWSMessage>::event_type, (), book),
        call_ensures(<PriceChangeResponse as PolymarketWSMessage>::event_type, (), change),
        call_ensures(<TickSizeChange as PolymarketWSMessage>::event_type, (), tick),
        call_ensures(<TradeStreamItem as PolymarketWSMessage>::event_type, (), trade),
    ensures
        price@ == "last_trade_price"@,
        book@ == "book"@,
        change@ == "price_change"@,
        tick@ == "tick_size_change"@,
        trade@ == "trade"@,
{
}

/// A receiver hands out a message that it has read if and only if the message
/// is for its channel, and then as it is. It hands out the explanation of why
/// something could not be read.
pub proof fn read_messages_are_handed_out<T: PolymarketWSMessage>(
    channel: Channel,
    message: Result<T, String>,
    contains: bool,
    step: RecvStep<T>,
)
    requires
        message matches Ok(m) ==> call_ensures(T::contains_id, (&m, &channel), contains),
        call_ensures(message_step::<T>, (&channel, message), step),
    ensures
        message matches Ok(m) ==> {
            &&& contains ==> step == RecvStep::Ready(Ok::<T, WSClientError>(m))
            &&& !contains ==> step is Skip
        },
        message matches Err(e) ==> step == RecvStep::Ready(
            Err::<T, WSClientError>(WSClientError::SerializeError(Arc::new(e))),
        ),
{
}

/// A receiver hands out what a text says if and only if the text names the
/// event that the receiver waits for and what it says is for the receiver's
/// channel. Of a text that names another event, or none, nothing is read.
pub proof fn texts_of_the_event_are_handed_out<T: PolymarketWSMessage, F: FnOnce() -> Result<T, String>>(
    channel: Channel,
    name: Option<&str>,
    event: &'static str,
    read: F,
    step: RecvStep<T>,
)
    requires
        call_ensures(T::event_type, (), event),
        call_ensures(text_step::<T, F>, (&channel, name, read), step),
        forall|message: Result<T, String>| #[trigger] read.ensures((), message) ==> message is Ok,
    ensures
        step matches RecvStep::Ready(outcome) ==> {
            &&& name is Some && name->0@ == event@
            &&& outcome matches Ok(m) && read.ensures((), Ok(m)) && m.about(channel)
        },
        step is Skip && name is Some && name->0@ == event@ ==> exists|m: T| #[trigger]
            read.ensures((), Ok(m)) && !m.about(channel),
{
    if name is Some && name->0@ == event@ {
        let message = choose|message: Result<T, String>| #[trigger]
            read.ensures((), message) && step == text_outcome(channel, name_text(name), message);
        assert(read.ensures((), Ok(message->Ok_0)));
    }
}

/// A receiver of books on a token hands out a book that it has read if and only
/// if the book is of that token.
pub proof fn books_reach_their_receivers(channel: Channel, book: MarketUpdate, step: RecvStep<MarketUpdate>)
    requires
        call_ensures(message_step::<MarketUpdate>, (&channel, Ok(book)), step),
    ensures
        channel == Channel::Market(book.asset_id) ==> step == RecvStep::Ready(
            Ok::<MarketUpdate, WSClientError>(book),
        ),
        channel != Channel::Market(book.asset_id) ==> step is Skip,
{
}

/// A receiver of trade prices on a token hands out a price that it has read if
/// and only if the price is of that token.
pub proof fn prices_reach_their_receivers(
    channel: Channel,
    price: LastTradePrice,
    step: RecvStep<LastTradePrice>,
)
    requires
        call_ensures(message_step::<LastTradePrice>, (&channel, Ok(price)), step),
    ensures
        channel == Channel::Market(price.asset_id) ==> step == RecvStep::Ready(
            Ok::<LastTradePrice, WSClientError>(price),
        ),
        channel != Channel::Market(price.asset_id) ==> step is Skip,
{
}

/// A receiver of ticks on a token hands out a change that it has read if and
/// only if the change is of that token.
pub proof fn ticks_reach_their_receivers(
    channel: Channel,
    tick: TickSizeChange,
    step: RecvStep<TickSizeChange>,
)
    requires
        call_ensures(message_step::<TickSizeChange>, (&channel, Ok(tick)), step),
    ensures
        channel == Channel::Market(tick.asset_id) ==> step == RecvStep::Ready(
            Ok::<TickSizeChange, WSClientError>(tick),
        ),
        channel != Channel::Market(tick.asset_id) ==> step is Skip,
{
}

/// A receiver of trades in a market hands out a trade that it has read if and
/// only if the trade is of that market.
pub proof fn trades_reach_their_receivers(
    channel: Channel,
    trade: TradeStreamItem,
    step: RecvStep<TradeStreamItem>,
)
    requires
        call_ensures(message_step::<TradeStreamItem>, (&channel, Ok(trade)), step),
    ensures
        channel == Channel::User(trade.market) ==> step == RecvStep::Ready(
            Ok::<TradeStreamItem, WSClientError>(trade),
        ),
        channel != Channel::User(trade.market) ==> step is Skip,
{
}

/// A receiver reads the texts whose event has the name that it waits for, and
/// no others.
pub proof fn expected_texts_are_of_the_event<T: PolymarketWSMessage>(
    name: Option<&str>,
    event: &'static str,
    expected: bool,
)
    requires
        call_ensures(T::event_type, (), event),
        call_ensures(is_expected::<T>, (name,), expected),
    ensures
        expected <==> (name matches Some(name) && name@ == event@),
{
}

/// A slow receiver goes on after what it has missed, errors are handed out as
/// they are, and texts are read as they are.
pub proof fn what_comes_is_not_changed<X, T>(received: Received<X>, step: Result<X, RecvStep<T>>)
    requires
        call_ensures(receive::<X, T>, (received,), step),
    ensures
        received is Lagged ==> step == Err::<X, RecvStep<T>>(RecvStep::Skip),
        received matches Received::Text(text) ==> step == Ok::<X, RecvStep<T>>(text),
        received matches Received::Failed(e) ==> step == Err::<X, RecvStep<T>>(
            RecvStep::Ready(Err(e)),
        ),
{
}

/// A receiver listens where it is told to, for the event of its messages, and
/// hands on credentials only where they are needed.
pub proof fn subscriptions_are_as_asked<T: PolymarketWSMessage, U: PolymarketWSAuthedMessage>(
    asset_id: U256,
    market: B256,
    auth: ApiCreds,
    event: &'static str,
    user_event: &'static str,
    public: Subscription,
    private: Subscription,
)
    requires
        call_ensures(T::event_type, (), event),
        call_ensures(U::event_type, (), user_event),
        call_ensures(market_client::<T>, (asset_id,), public),
        call_ensures(user_client::<U>, (market, auth), private),
    ensures
        public.channel == Channel::Market(asset_id),
        public.event_type@ == event@,
        public.auth is None,
        private.channel == Channel::User(market),
        private.event_type@ == user_event@,
        private.auth == Some(auth),
{
}

/// Where the channels are, and what is sent first there: the token or the
/// market that messages are wanted of, and whatever credentials there are.
pub proof fn channels_open(
    channel: Channel,
    auth: Option<ApiCreds>,
    url: String,
    message: HandshakeMessage,
)
    requires
        call_ensures(Channel::url, (&channel,), url),
        call_ensures(Channel::into_handshake_message, (channel, &auth), message),
    ensures
        message.auth == auth,
        channel matches Channel::Market(asset) ==> {
            &&& url@ == "wss://ws-subscriptions-clob.polymarket.com/ws/market"@
            &&& message.sub_type@ == "market"@
            &&& message.markets is None
            &&& message.assets_ids matches Some(ids) && ids@.len() == 1 && ids@[0]@
                == text::decimal(asset@)
        },
        channel matches Channel::User(market) ==> {
            &&& url@ == "wss://ws-subscriptions-clob.polymarket.com/ws/user"@
            &&& message.sub_type@ == "user"@
            &&& message.assets_ids is None
            &&& message.markets matches Some(ids) && ids@.len() == 1 && ids@[0]@ == seq!['0', 'x']
                + text::hex(market@)
        },
{
    reveal_strlit("wss://ws-subscriptions-clob.polymarket.com");
    reveal_strlit("/ws/");
    reveal_strlit("market");
    reveal_strlit("user");
    reveal_strlit("wss://ws-subscriptions-clob.polymarket.com/ws/market");
    reveal_strlit("wss://ws-subscriptions-clob.polymarket.com/ws/user");
    match channel {
        Channel::Market(asset) => {
            assert(url@ =~= "wss://ws-subscriptions-clob.polymarket.com/ws/market"@);
            let ids = message.assets_ids->0@;
            assert(message.assets_ids is Some && message.markets is None);
            assert(text::texts(ids) == seq![text::decimal(asset@)]);
            assert(text::texts(ids).len() == ids.len());
            assert(seq![text::decimal(asset@)].len() == 1);
            assert(text::texts(ids)[0] == ids[0]@);
        },
        Channel::User(market) => {
            assert(url@ =~= "wss://ws-subscriptions-clob.polymarket.com/ws/user"@);
            let ids = message.markets->0@;
            assert(message.markets is Some && message.assets_ids is None);
            assert(text::texts(ids) == seq![seq!['0', 'x'] + text::hex(market@)]);
            assert(text::texts(ids).len() == ids.len() && text::texts(ids)[0] == ids[0]@);
        },
    }
}

/// What the keeper of a connection does while there is a connection: it hands
/// on texts, checks the connection when it is time, connects again when it was
/// lost, and drops the connection when nobody listens.
pub proof fn keeper_with_a_connection<X>(event: Event<X>)
    ensures
        ({
            let (phase, action) = mux_step(Phase::Running, event);
            &&& event matches Event::Text(text) ==> action == Action::Broadcast(
                Ok::<X, WSClientError>(text),
            )
            &&& action is Ping <==> event is Tick
            &&& action is Connect <==> event is Ended
            &&& action is Release <==> (event matches Event::Closed { receivers } && receivers == 0)
            &&& action is Broadcast <==> event is Text
            &&& phase == Phase::Reconnecting <==> action is Connect
            &&& phase == Phase::Stopped <==> action is Release
            &&& phase == Phase::Running <==> !(action is Connect) && !(action is Release)
        }),
{
}

/// What the keeper of a connection does while it connects: it waits for a
/// connection, and tells all receivers why none could be made. The first time
/// that is the end; later on it goes on as if there were a connection.
pub proof fn keeper_without_a_connection<X>(phase: Phase, event: Event<X>)
    requires
        phase == Phase::Connecting || phase == Phase::Reconnecting,
    ensures
        ({
            let (after, action) = mux_step(phase, event);
            &&& event matches Event::ConnectFailed(e) ==> action == Action::Broadcast(
                Err::<X, WSClientError>(e),
            )
            &&& !(event is ConnectFailed) ==> action is Wait
            &&& after == Phase::Running <==> event is Connected || (event is ConnectFailed && phase
                == Phase::Reconnecting)
            &&& after == Phase::Stopped <==> event is ConnectFailed && phase == Phase::Connecting
            &&& after == phase <==> !(event is Connected) && !(event is ConnectFailed)
        }),
{
}

/// Listening to a channel leaves the connections of all others as they are, and
/// gives the channel a new one only where it has none.
pub proof fn listening_disturbs_nobody<M>(
    before: Map<Channel, M>,
    channel: Channel,
    new: M,
    other: Channel,
)
    ensures
        ({
            let after = after_listening(before, channel, new);
            &&& after.contains_key(channel)
            &&& after[channel] == (if before.contains_key(channel) {
                before[channel]
            } else {
                new
            })
            &&& other != channel ==> (after.contains_key(other) <==> before.contains_key(other))
                && after[other] == before[other]
        }),
{
}

/// A connection is found under its channel, wherever it stands, and none is
/// found under a channel that has none.
pub proof fn connections_are_found<M>(all: Multiplexers<M>, channel: Channel, found: Option<&M>)
    requires
        all.wf(),
        call_ensures(Multiplexers::<M>::get, (&all, &channel), found),
    ensures
        found is Some <==> exists|i: int|
            0 <= i < all.entries@.len() && (#[trigger] all.entries@[i]).0 == channel,
        forall|i: int|
            0 <= i < all.entries@.len() && (#[trigger] all.entries@[i]).0 == channel ==> found
                == Some(&all.entries@[i].1),
{
    assert forall|i: int|
        0 <= i < all.entries@.len() && (#[trigger] all.entries@[i]).0 == channel implies found
        == Some(&all.entries@[i].1) by {
        let k = choose|k: int|
            0 <= k < all.entries@.len() && (#[trigger] all.entries@[k]).0 == channel;
        assert(has_channel(all.entries@, channel));
        assert(k == i);
    }
}

/// The errors of a channel in words.
pub proof fn errors_by_their_words(error: WSClientError, s: String)
    requires
        call_ensures(WSClientError::to_text, (&error,), s),
    ensures
        match error {
            WSClientError::ConnectError(e) => s@ == "Failed to connect to WS: "@ + e@,
            WSClientError::SendError(e) => s@ == "Failed to send message: "@ + e@,
            WSClientError::RecvError(e) => s@ == "Failed to receive message: "@ + e@,
            WSClientError::SerializeError(e) => s@ == "Failed to deserialize message: "@ + e@,
            WSClientError::TooManyMalformedMessages => s@ == "Bad message from client"@,
        },
{
}

/// Two channels compare as equal if and only if they are of the same kind and
/// about the same token or market.
pub proof fn channels_are_equal_where_the_same(a: Channel, b: Channel, same: bool)
    requires
        call_ensures(Channel::eq, (&a, &b), same),
    ensures
        same <==> match (a, b) {
            (Channel::Market(x), Channel::Market(y)) => x@ == y@,
            (Channel::User(x), Channel::User(y)) => x@ == y@,
            _ => false,
        },
{
    match (a, b) {
        (Channel::Market(x), Channel::Market(y)) => {
            if x@ == y@ {
                primitives::u256_value_determines(x, y);
            }
        },
        (Channel::User(x), Channel::User(y)) => {
            if x@ == y@ {
                primitives::b256_bytes_determine(x, y);
            }
        },
        _ => {},
    }
}

} // verus!
