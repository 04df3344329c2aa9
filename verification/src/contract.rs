//! The commands and the questions that the application answers.
use vstd::prelude::*;
use crate::host::{pairs, Coin, IbcMsg, IbcTimeout, Response};
use crate::msg::{ExecuteMsg, GetCountResponse, IbcExecuteMsg, InstantiateMsg, QueryMsg};
use crate::state::ChannelState;

verus! {

/// Sets the application up: nothing to do but to log it.
pub fn instantiate(_msg: InstantiateMsg) -> (response: Response)
    ensures
        response.messages@ == Seq::<IbcMsg>::empty(),
        pairs(response.attributes@) == seq![("method"@, "instantiate"@)],
{
    Response::new().add_attribute("method", "instantiate".to_owned())
}

/// How long a packet may travel where its sender names no timeout, in seconds.
pub const DEFAULT_TIMEOUT_SECONDS: u64 = 120;

/// The time `seconds` after `nanos`, both counted from the epoch, the first
/// in nanoseconds.
pub open spec fn seconds_later(nanos: u64, seconds: u64) -> int {
    nanos + seconds * 1_000_000_000
}

/// The timeout of a packet sent at `now`: the one that the command names,
/// and two minutes after `now` where it names none.
pub open spec fn timeout_of(now: u64, named: Option<IbcTimeout>) -> IbcTimeout {
    match named {
        Some(timeout) => timeout,
        None => IbcTimeout::Timestamp(seconds_later(now, DEFAULT_TIMEOUT_SECONDS) as u64),
    }
}

/// Calls `Timestamp::plus_seconds` of cosmwasm_std on the time `nanos`. That
/// function multiplies the seconds by a billion and adds them to the
/// nanoseconds, and panics where the sum passes the range of `u64`: such
/// inputs are left out, and for the others the sum is claimed as the result.
#[verifier::external_body]
fn plus_seconds(nanos: u64, seconds: u64) -> (later: u64)
    requires
        seconds_later(nanos, seconds) <= u64::MAX,
    ensures
        later == seconds_later(nanos, seconds),
{
    cosmwasm_std::Timestamp::from_nanos(nanos).plus_seconds(seconds).nanos()
}

/// The timeout of a packet that is sent at `now` and names none of its own:
/// two minutes later.
pub fn default_timeout(now: u64) -> (timeout: IbcTimeout)
    requires
        seconds_later(now, DEFAULT_TIMEOUT_SECONDS) <= u64::MAX,
    ensures
        timeout == timeout_of(now, None),
        timeout == IbcTimeout::Timestamp((now + 120_000_000_000) as u64),
{
    IbcTimeout::Timestamp(plus_seconds(now, DEFAULT_TIMEOUT_SECONDS))
}

/// Carries out a command at the time `now`, in nanoseconds since the epoch.
/// Either kind becomes one instruction to the host; no counter changes on
/// this side.
pub fn execute(now: u64, msg: ExecuteMsg) -> (response: Response)
    requires
        msg matches ExecuteMsg::Increment { timeout: None, .. } ==> seconds_later(
            now,
            DEFAULT_TIMEOUT_SECONDS,
        ) <= u64::MAX,
    ensures
        match msg {
            ExecuteMsg::Transfer { channel_id, to_address, amount, timeout } => {
                &&& response.messages@ == seq![
                    (IbcMsg::Transfer { channel_id, to_address, amount, timeout }),
                ]
                &&& pairs(response.attributes@) == seq![("method"@, "transfer"@)]
            },
            ExecuteMsg::Increment { channel, timeout } => {
                &&& response.messages@ == seq![
                    (IbcMsg::SendPacket {
                        channel_id: channel,
                        data: IbcExecuteMsg::Increment {  },
                        timeout: timeout_of(now, timeout),
                    }),
                ]
                &&& pairs(response.attributes@) == seq![
                    ("method"@, "execute_increment"@),
                    ("channel"@, channel@),
                ]
            },
        },
{
    match msg {
        ExecuteMsg::Transfer { channel_id, to_address, amount, timeout } => transfer(
            channel_id,
            to_address,
            amount,
            timeout,
        ),
        ExecuteMsg::Increment { channel, timeout } => {
            let timeout = match timeout {
                Some(timeout) => timeout,
                None => default_timeout(now),
            };
            Response::new().add_attribute("method", "execute_increment".to_owned()).add_attribute(
                "channel",
                channel.clone(),
            ).add_message(
                IbcMsg::SendPacket {
                    channel_id: channel,
                    data: IbcExecuteMsg::Increment {  },
                    timeout,
                },
            )
        },
    }
}

/// Turns the fields of a transfer command into the one instruction that moves the amount.
pub fn transfer(channel_id: String, to_address: String, amount: Coin, timeout: IbcTimeout) -> (response:
    Response)
    ensures
        response.messages@ == seq![(IbcMsg::Transfer { channel_id, to_address, amount, timeout })],
        pairs(response.attributes@) == seq![("method"@, "transfer"@)],
{
    let ibc_transfer_msg = IbcMsg::Transfer { channel_id, to_address, amount, timeout };
    Response::new().add_attribute("method", "transfer".to_owned()).add_message(ibc_transfer_msg)
}

/// Counts a processed packet on `channel`, from zero where the channel has no
/// counter, and returns the new count.
pub fn try_increment(state: &mut ChannelState, channel: String) -> (count: u32)
    requires
        old(state)@.connection_count(channel@) < u32::MAX,
    ensures
        count as nat == old(state)@.connection_count(channel@) + 1,
        final(state)@ == old(state)@.receive(channel@),
{
    state.connection_counts.increment(channel)
}

/// Answers a question about a channel.
pub fn query(state: &ChannelState, msg: QueryMsg) -> (response: GetCountResponse)
    ensures
        response.count as nat == match msg {
            QueryMsg::GetCount { channel } => state@.connection_count(channel@),
            QueryMsg::GetTimeoutCount { channel } => state@.timeout_count(channel@),
        },
{
    match msg {
        QueryMsg::GetCount { channel } => query_count(state, channel),
        QueryMsg::GetTimeoutCount { channel } => query_timeout_count(state, channel),
    }
}

/// The number of packets processed on `channel`: zero where it has no counter.
pub fn query_count(state: &ChannelState, channel: String) -> (response: GetCountResponse)
    ensures
        response.count as nat == state@.connection_count(channel@),
{
    let count = state.connection_counts.read(channel.as_str());
    GetCountResponse { count }
}

/// The number of timeouts on `channel`: zero where none was counted.
pub fn query_timeout_count(state: &ChannelState, channel: String) -> (response: GetCountResponse)
    ensures
        response.count as nat == state@.timeout_count(channel@),
{
    let count = state.timeout_counts.read(channel.as_str());
    GetCountResponse { count }
}

} // verus!
