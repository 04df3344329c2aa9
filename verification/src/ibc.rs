//! The handlers of channel and packet events.
use vstd::prelude::*;
use crate::ack::{make_ack_fail, make_ack_success, AckModel};
use crate::contract::try_increment;
use crate::error::{ContractError, ErrorModel};
use crate::host::{
    pairs, Ibc3ChannelOpenResponse, IbcBasicResponse, IbcChannel, IbcChannelCloseMsg,
    IbcChannelConnectMsg, IbcChannelOpenMsg, IbcOrder, IbcPacketAckMsg, IbcPacketReceiveMsg,
    IbcPacketTimeoutMsg, IbcReceiveResponse,
};
use crate::msg::IbcExecuteMsg;
use crate::state::ChannelState;
use crate::text::{decimal, same_text, to_decimal};

verus! {

/// The one version of the protocol.
pub const IBC_VERSION: &'static str = "counter-1";

/// A version that may be missing, as a mathematical value.
pub open spec fn version_text(version: Option<&str>) -> Option<Seq<char>> {
    match version {
        Some(text) => Some(text@),
        None => None,
    }
}

/// Why a handshake step with these parameters is refused, or `None` where it
/// is accepted. The order is judged first, then the local version, then the
/// peer's version where the step carries one.
pub open spec fn rejection(
    order: IbcOrder,
    version: Seq<char>,
    counterparty_version: Option<Seq<char>>,
) -> Option<ErrorModel> {
    if order != IbcOrder::Unordered {
        Some(ErrorModel::OrderedChannel)
    } else if version != IBC_VERSION@ {
        Some(ErrorModel::InvalidVersion { actual: version, expected: IBC_VERSION@ })
    } else if counterparty_version is Some && counterparty_version->0 != IBC_VERSION@ {
        Some(
            ErrorModel::InvalidVersion {
                actual: counterparty_version->0,
                expected: IBC_VERSION@,
            },
        )
    } else {
        None
    }
}

/// A handshake step is accepted exactly when the channel is unordered, the
/// local version is "counter-1", and the peer's version, where the step
/// carries one, is "counter-1" too.
pub proof fn lemma_accepted_exactly(
    order: IbcOrder,
    version: Seq<char>,
    counterparty_version: Option<Seq<char>>,
)
    ensures
        rejection(order, version, counterparty_version) is None <==> (order == IbcOrder::Unordered
            && version == "counter-1"@ && (counterparty_version is None
            || counterparty_version->0 == "counter-1"@)),
{
}

/// Checks the order and the versions of a handshake step.
pub fn validate_order_and_version(
    channel: &IbcChannel,
    counterparty_version: Option<&str>,
) -> (verdict: Result<(), ContractError>)
    ensures
        match verdict {
            Ok(_) => rejection(channel.order, channel.version@, version_text(counterparty_version))
                is None,
            Err(error) => rejection(
                channel.order,
                channel.version@,
                version_text(counterparty_version),
            ) == Some(error@),
        },
{
    if channel.order != IbcOrder::Unordered {
        return Err(ContractError::OrderedChannel {  });
    }
    if !same_text(channel.version.as_str(), IBC_VERSION) {
        return Err(
            ContractError::InvalidVersion {
                actual: channel.version.clone(),
                expected: IBC_VERSION.to_owned(),
            },
        );
    }
    if let Some(counterparty_version) = counterparty_version {
        if !same_text(counterparty_version, IBC_VERSION) {
            return Err(
                ContractError::InvalidVersion {
                    actual: counterparty_version.to_owned(),
                    expected: IBC_VERSION.to_owned(),
                },
            );
        }
    }
    Ok(())
}

/// The peer's version of a handshake message, as a mathematical value.
pub open spec fn proposed(version: Option<String>) -> Option<Seq<char>> {
    match version {
        Some(text) => Some(text@),
        None => None,
    }
}

/// The peer's version of a handshake message, borrowed.
fn borrowed_version(version: &Option<String>) -> (borrowed: Option<&str>)
    ensures
        version_text(borrowed) == proposed(*version),
{
    match version {
        Some(text) => Some(text.as_str()),
        None => None,
    }
}

/// A step of the opening handshake: accepts the proposal as it stands, naming
/// no version of its own, or refuses it. The counters are not touched.
pub fn ibc_channel_open(msg: IbcChannelOpenMsg) -> (answer: Result<
    Option<Ibc3ChannelOpenResponse>,
    ContractError,
>)
    ensures
        match answer {
            Ok(version) => version is None && rejection(
                msg.channel.order,
                msg.channel.version@,
                proposed(msg.counterparty_version),
            ) is None,
            Err(error) => rejection(
                msg.channel.order,
                msg.channel.version@,
                proposed(msg.counterparty_version),
            ) == Some(error@),
        },
{
    match validate_order_and_version(&msg.channel, borrowed_version(&msg.counterparty_version)) {
        Ok(_) => Ok(None),
        Err(error) => Err(error),
    }
}

/// The completion of the handshake: checks the parameters once more and, where
/// they are accepted, starts the channel's packet counter at zero.
pub fn ibc_channel_connect(state: &mut ChannelState, msg: IbcChannelConnectMsg) -> (answer: Result<
    IbcBasicResponse,
    ContractError,
>)
    ensures
        match answer {
            Ok(response) => {
                &&& rejection(
                    msg.channel.order,
                    msg.channel.version@,
                    proposed(msg.counterparty_version),
                ) is None
                &&& final(state)@ == old(state)@.connect(msg.channel.channel_id@)
                &&& pairs(response.attributes@) == seq![
                    ("method"@, "ibc_channel_connect"@),
                    ("channel_id"@, msg.channel.channel_id@),
                ]
            },
            Err(error) => {
                &&& rejection(
                    msg.channel.order,
                    msg.channel.version@,
                    proposed(msg.counterparty_version),
                ) == Some(error@)
                &&& *final(state) == *old(state)
            },
        },
{
    match validate_order_and_version(&msg.channel, borrowed_version(&msg.counterparty_version)) {
        Ok(_) => {},
        Err(error) => {
            return Err(error);
        },
    }
    let channel = msg.channel.channel_id.clone();
    state.connection_counts.save(channel.clone(), 0);
    Ok(
        IbcBasicResponse::new().add_attribute(
            "method",
            "ibc_channel_connect".to_owned(),
        ).add_attribute("channel_id", channel),
    )
}

/// The closing of a channel: forgets its packet counter, if it has one, and
/// leaves its timeouts as they are.
pub fn ibc_channel_close(state: &mut ChannelState, msg: IbcChannelCloseMsg) -> (response:
    IbcBasicResponse)
    ensures
        final(state)@ == old(state)@.close(msg.channel.channel_id@),
        pairs(response.attributes@) == seq![
            ("method"@, "ibc_channel_close"@),
            ("channel"@, msg.channel.channel_id@),
        ],
{
    let channel = msg.channel.channel_id.clone();
    state.connection_counts.remove(channel.as_str());
    IbcBasicResponse::new().add_attribute("method", "ibc_channel_close".to_owned()).add_attribute(
        "channel",
        channel,
    )
}

/// Receives a packet. Whatever the payload holds, the answer carries an
/// acknowledgment: of success where the action was carried out, and of
/// failure, with the counters unchanged, where the payload held none.
pub fn ibc_packet_receive(state: &mut ChannelState, msg: IbcPacketReceiveMsg) -> (response:
    IbcReceiveResponse)
    requires
        msg.data is Ok ==> old(state)@.connection_count(msg.channel_id@) < u32::MAX,
    ensures
        match msg.data {
            Ok(IbcExecuteMsg::Increment {  }) => {
                &&& final(state)@ == old(state)@.receive(msg.channel_id@)
                &&& response.acknowledgement@ == AckModel::Success
                &&& pairs(response.attributes@) == seq![
                    ("method"@, "execute_increment"@),
                    ("count"@, decimal(old(state)@.connection_count(msg.channel_id@) + 1)),
                ]
            },
            Err(complaint) => {
                &&& *final(state) == *old(state)
                &&& response.acknowledgement@ == AckModel::Failure(complaint@)
                &&& pairs(response.attributes@) == seq![
                    ("method"@, "ibc_packet_receive"@),
                    ("error"@, complaint@),
                ]
            },
        },
{
    match do_ibc_packet_receive(state, msg) {
        Ok(response) => response,
        Err(error) => IbcReceiveResponse::new(make_ack_fail(error.to_string())).add_attribute(
            "method",
            "ibc_packet_receive".to_owned(),
        ).add_attribute("error", error.to_string()),
    }
}

/// Carries out the action of a packet, or fails where its payload held none.
pub fn do_ibc_packet_receive(state: &mut ChannelState, msg: IbcPacketReceiveMsg) -> (answer: Result<
    IbcReceiveResponse,
    ContractError,
>)
    requires
        msg.data is Ok ==> old(state)@.connection_count(msg.channel_id@) < u32::MAX,
    ensures
        match msg.data {
            Ok(IbcExecuteMsg::Increment {  }) => {
                &&& answer is Ok
                &&& final(state)@ == old(state)@.receive(msg.channel_id@)
                &&& answer->Ok_0.acknowledgement@ == AckModel::Success
                &&& pairs(answer->Ok_0.attributes@) == seq![
                    ("method"@, "execute_increment"@),
                    ("count"@, decimal(old(state)@.connection_count(msg.channel_id@) + 1)),
                ]
            },
            Err(complaint) => {
                &&& answer is Err
                &&& answer->Err_0@ == ErrorModel::Std(complaint@)
                &&& *final(state) == *old(state)
            },
        },
{
    let channel = msg.channel_id;
    match msg.data {
        Ok(IbcExecuteMsg::Increment {  }) => Ok(execute_increment(state, channel)),
        Err(complaint) => Err(ContractError::Std(complaint)),
    }
}

/// Counts a processed packet on `channel` and acknowledges it.
pub fn execute_increment(state: &mut ChannelState, channel: String) -> (response:
    IbcReceiveResponse)
    requires
        old(state)@.connection_count(channel@) < u32::MAX,
    ensures
        final(state)@ == old(state)@.receive(channel@),
        response.acknowledgement@ == AckModel::Success,
        pairs(response.attributes@) == seq![
            ("method"@, "execute_increment"@),
            ("count"@, decimal(old(state)@.connection_count(channel@) + 1)),
        ],
{
    let count = try_increment(state, channel);
    IbcReceiveResponse::new(make_ack_success()).add_attribute(
        "method",
        "execute_increment".to_owned(),
    ).add_attribute("count", to_decimal(count))
}

/// The peer's acknowledgment of a packet: logged, and nothing else.
pub fn ibc_packet_ack(_ack: IbcPacketAckMsg) -> (response: IbcBasicResponse)
    ensures
        pairs(response.attributes@) == seq![("method"@, "ibc_packet_ack"@)],
{
    IbcBasicResponse::new().add_attribute("method", "ibc_packet_ack".to_owned())
}

/// A timeout of a packet sent earlier: counted on the channel it was sent on,
/// whether or not that channel is connected.
pub fn ibc_packet_timeout(state: &mut ChannelState, msg: IbcPacketTimeoutMsg) -> (response:
    IbcBasicResponse)
    requires
        old(state)@.timeout_count(msg.channel_id@) < u32::MAX,
    ensures
        final(state)@ == old(state)@.time_out(msg.channel_id@),
        pairs(response.attributes@) == seq![("method"@, "ibc_packet_timeout"@)],
{
    state.timeout_counts.increment(msg.channel_id);
    IbcBasicResponse::new().add_attribute("method", "ibc_packet_timeout".to_owned())
}

} // verus!
