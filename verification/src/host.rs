//! The values that pass between the application and the host runtime, as far
//! as the application reads or writes them.
use vstd::prelude::*;
use crate::ack::Ack;
use crate::msg::IbcExecuteMsg;

verus! {

/// The delivery mode of a channel.
#[derive(Debug, Clone, Copy, PartialEq, Eq, Structural)]
pub enum IbcOrder {
    Unordered,
    Ordered,
}

/// One end of a channel during the handshake and after it.
#[derive(Debug, Clone, PartialEq, Eq)]
pub struct IbcChannel {
    /// The local identifier of the channel.
    pub channel_id: String,
    pub order: IbcOrder,
    /// The version that this end proposes or has agreed to.
    pub version: String,
}

/// A height on the peer's chain.
#[derive(Debug, Clone, Copy, PartialEq, Eq, Structural)]
pub struct IbcTimeoutBlock {
    pub revision: u64,
    pub height: u64,
}

/// When an outbound packet is given up: at a height on the peer's chain, at a
/// time in nanoseconds since the epoch, or at whichever of the two comes first.
#[derive(Debug, Clone, Copy, PartialEq, Eq, Structural)]
pub enum IbcTimeout {
    Block(IbcTimeoutBlock),
    Timestamp(u64),
    Both(IbcTimeoutBlock, u64),
}

/// An amount of one denomination.
#[derive(Debug, Clone, PartialEq, Eq)]
pub struct Coin {
    pub denom: String,
    pub amount: u128,
}

/// An instruction that the host carries out after the event.
#[derive(Debug, Clone, PartialEq, Eq)]
pub enum IbcMsg {
    /// Move `amount` to `to_address` on the peer's chain.
    Transfer { channel_id: String, to_address: String, amount: Coin, timeout: IbcTimeout },
    /// Send the application packet `data` over `channel_id`.
    SendPacket { channel_id: String, data: IbcExecuteMsg, timeout: IbcTimeout },
}

/// A key and a value that the host logs and indexes.
#[derive(Debug, Clone, PartialEq, Eq)]
pub struct Attribute {
    pub key: String,
    pub value: String,
}

impl View for Attribute {
    type V = (Seq<char>, Seq<char>);

    open spec fn view(&self) -> (Seq<char>, Seq<char>) {
        (self.key@, self.value@)
    }
}

/// The attributes of a response as pairs of texts, in their order.
pub open spec fn pairs(attributes: Seq<Attribute>) -> Seq<(Seq<char>, Seq<char>)> {
    Seq::new(attributes.len(), |i: int| attributes[i]@)
}

/// Appends the attribute `key`, `value`.
fn push_attribute(attributes: &mut Vec<Attribute>, key: &str, value: String)
    ensures
        pairs(final(attributes)@) == pairs(old(attributes)@).push((key@, value@)),
{
    attributes.push(Attribute { key: key.to_owned(), value });
    assert(pairs(attributes@) =~= pairs(old(attributes)@).push((key@, value@)));
}

/// The answer to a command: what is logged and what the host is to send.
#[derive(Debug, Clone, PartialEq, Eq)]
pub struct Response {
    pub messages: Vec<IbcMsg>,
    pub attributes: Vec<Attribute>,
}

impl Response {
    /// A response that logs nothing and sends nothing.
    pub fn new() -> (response: Self)
        ensures
            response.messages@ == Seq::<IbcMsg>::empty(),
            pairs(response.attributes@) == Seq::<(Seq<char>, Seq<char>)>::empty(),
    {
        let response = Response { messages: Vec::new(), attributes: Vec::new() };
        assert(pairs(response.attributes@) =~= Seq::<(Seq<char>, Seq<char>)>::empty());
        response
    }

    /// The same response with one more attribute.
    pub fn add_attribute(self, key: &str, value: String) -> (response: Self)
        ensures
            response.messages@ == self.messages@,
            pairs(response.attributes@) == pairs(self.attributes@).push((key@, value@)),
    {
        let mut response = self;
        push_attribute(&mut response.attributes, key, value);
        response
    }

    /// The same response with one more instruction.
    pub fn add_message(self, msg: IbcMsg) -> (response: Self)
        ensures
            response.messages@ == self.messages@.push(msg),
            response.attributes@ == self.attributes@,
    {
        let mut response = self;
        response.messages.push(msg);
        response
    }
}

/// The answer to a channel or packet event that needs no acknowledgment.
#[derive(Debug, Clone, PartialEq, Eq)]
pub struct IbcBasicResponse {
    pub attributes: Vec<Attribute>,
}

impl IbcBasicResponse {
    /// A response that logs nothing.
    pub fn new() -> (response: Self)
        ensures
            pairs(response.attributes@) == Seq::<(Seq<char>, Seq<char>)>::empty(),
    {
        let response = IbcBasicResponse { attributes: Vec::new() };
        assert(pairs(response.attributes@) =~= Seq::<(Seq<char>, Seq<char>)>::empty());
        response
    }

    /// The same response with one more attribute.
    pub fn add_attribute(self, key: &str, value: String) -> (response: Self)
        ensures
            pairs(response.attributes@) == pairs(self.attributes@).push((key@, value@)),
    {
        let mut response = self;
        push_attribute(&mut response.attributes, key, value);
        response
    }
}

/// The answer to a received packet. It cannot be made without an acknowledgment.
#[derive(Debug, Clone, PartialEq, Eq)]
pub struct IbcReceiveResponse {
    pub acknowledgement: Ack,
    pub attributes: Vec<Attribute>,
}

impl IbcReceiveResponse {
    /// A response that acknowledges with `ack` and logs nothing.
    pub fn new(ack: Ack) -> (response: Self)
        ensures
            response.acknowledgement == ack,
            pairs(response.attributes@) == Seq::<(Seq<char>, Seq<char>)>::empty(),
    {
        let response = IbcReceiveResponse { acknowledgement: ack, attributes: Vec::new() };
        assert(pairs(response.attributes@) =~= Seq::<(Seq<char>, Seq<char>)>::empty());
        response
    }

    /// The same response with one more attribute.
    pub fn add_attribute(self, key: &str, value: String) -> (response: Self)
        ensures
            response.acknowledgement == self.acknowledgement,
            pairs(response.attributes@) == pairs(self.attributes@).push((key@, value@)),
    {
        let mut response = self;
        push_attribute(&mut response.attributes, key, value);
        response
    }
}

/// The version that the application answers a proposal with, where it names one.
#[derive(Debug, Clone, PartialEq, Eq)]
pub struct Ibc3ChannelOpenResponse {
    pub version: String,
}

/// A step of the opening handshake that carries a proposal.
#[derive(Debug, Clone, PartialEq, Eq)]
pub struct IbcChannelOpenMsg {
    pub channel: IbcChannel,
    /// The peer's version, on the leg of the handshake that knows it.
    pub counterparty_version: Option<String>,
}

/// The step that completes the handshake.
#[derive(Debug, Clone, PartialEq, Eq)]
pub struct IbcChannelConnectMsg {
    pub channel: IbcChannel,
    /// The peer's version, on the leg of the handshake that knows it.
    pub counterparty_version: Option<String>,
}

/// The closing of a channel, from either side.
#[derive(Debug, Clone, PartialEq, Eq)]
pub struct IbcChannelCloseMsg {
    pub channel: IbcChannel,
}

/// An inbound packet, after the host's codec has read its payload.
#[derive(Debug, PartialEq, Eq)]
pub struct IbcPacketReceiveMsg {
    /// The local channel that the packet arrived on.
    pub channel_id: String,
    /// The action that the payload holds, or the codec's complaint where it holds none.
    pub data: Result<IbcExecuteMsg, String>,
}

/// The peer's acknowledgment of a packet sent earlier.
#[derive(Debug, Clone, PartialEq, Eq)]
pub struct IbcPacketAckMsg {
    pub acknowledgement: Vec<u8>,
}

/// The transport's report that a packet sent earlier was not delivered in time.
#[derive(Debug, Clone, PartialEq, Eq)]
pub struct IbcPacketTimeoutMsg {
    /// The local channel that the packet was sent on.
    pub channel_id: String,
}

} // verus!
