use ibc_counter::ack::{make_ack_fail, make_ack_success, Ack};
use ibc_counter::contract::{query, query_count, query_timeout_count};
use ibc_counter::host::{
    Attribute, IbcBasicResponse, IbcChannel, IbcChannelCloseMsg, IbcChannelConnectMsg,
    IbcChannelOpenMsg, IbcOrder, IbcPacketAckMsg, IbcPacketReceiveMsg, IbcPacketTimeoutMsg,
    IbcReceiveResponse,
};
use ibc_counter::ibc::{
    do_ibc_packet_receive, execute_increment, ibc_channel_close, ibc_channel_connect,
    ibc_channel_open, ibc_packet_ack, ibc_packet_receive, ibc_packet_timeout,
    validate_order_and_version, IBC_VERSION,
};
use ibc_counter::msg::{GetCountResponse, IbcExecuteMsg, QueryMsg};
use ibc_counter::state::ChannelState;
use ibc_counter::ContractError;

fn channel(id: &str, order: IbcOrder, version: &str) -> IbcChannel {
    IbcChannel { channel_id: id.to_string(), order, version: version.to_string() }
}

fn good_channel(id: &str) -> IbcChannel {
    channel(id, IbcOrder::Unordered, "counter-1")
}

fn connect(state: &mut ChannelState, id: &str) -> IbcBasicResponse {
    ibc_channel_connect(
        state,
        IbcChannelConnectMsg { channel: good_channel(id), counterparty_version: None },
    )
    .unwrap()
}

fn close(state: &mut ChannelState, id: &str) -> IbcBasicResponse {
    ibc_channel_close(state, IbcChannelCloseMsg { channel: good_channel(id) })
}

fn receive_increment(state: &mut ChannelState, id: &str) -> IbcReceiveResponse {
    ibc_packet_receive(
        state,
        IbcPacketReceiveMsg { channel_id: id.to_string(), data: Ok(IbcExecuteMsg::Increment {}) },
    )
}

fn receive_unreadable(state: &mut ChannelState, id: &str, complaint: &str) -> IbcReceiveResponse {
    ibc_packet_receive(
        state,
        IbcPacketReceiveMsg { channel_id: id.to_string(), data: Err(complaint.to_string()) },
    )
}

fn time_out(state: &mut ChannelState, id: &str) -> IbcBasicResponse {
    ibc_packet_timeout(state, IbcPacketTimeoutMsg { channel_id: id.to_string() })
}

fn attribute(key: &str, value: &str) -> Attribute {
    Attribute { key: key.to_string(), value: value.to_string() }
}

fn invalid_version(actual: &str) -> ContractError {
    ContractError::InvalidVersion { actual: actual.to_string(), expected: "counter-1".to_string() }
}

#[test]
fn the_version_is_counter_1() {
    assert_eq!(IBC_VERSION, "counter-1");
}

#[test]
fn validate_accepts_the_one_version_on_an_unordered_channel() {
    let channel = good_channel("channel-0");
    assert_eq!(validate_order_and_version(&channel, None), Ok(()));
    assert_eq!(validate_order_and_version(&channel, Some("counter-1")), Ok(()));
}

#[test]
fn validate_rejects_an_ordered_channel() {
    let channel = channel("channel-0", IbcOrder::Ordered, "counter-1");
    assert_eq!(validate_order_and_version(&channel, None), Err(ContractError::OrderedChannel {}));
    assert_eq!(
        validate_order_and_version(&channel, Some("counter-1")),
        Err(ContractError::OrderedChannel {})
    );
}

#[test]
fn validate_rejects_another_local_version() {
    for version in ["counter-2", "counter-", "counter-10", "Counter-1", "", " counter-1", "ics20-1"] {
        let channel = channel("channel-0", IbcOrder::Unordered, version);
        assert_eq!(validate_order_and_version(&channel, None), Err(invalid_version(version)));
        assert_eq!(
            validate_order_and_version(&channel, Some("counter-1")),
            Err(invalid_version(version))
        );
    }
}

#[test]
fn validate_rejects_another_counterparty_version() {
    let channel = good_channel("channel-0");
    for version in ["counter-2", "counter-", "counter-10", "Counter-1", "", "counter-1 "] {
        assert_eq!(
            validate_order_and_version(&channel, Some(version)),
            Err(invalid_version(version))
        );
    }
}

#[test]
fn validate_judges_the_order_before_the_versions() {
    let channel = channel("channel-0", IbcOrder::Ordered, "counter-2");
    assert_eq!(
        validate_order_and_version(&channel, Some("counter-3")),
        Err(ContractError::OrderedChannel {})
    );
}

#[test]
fn validate_judges_the_local_version_before_the_counterparty_version() {
    let channel = channel("channel-0", IbcOrder::Unordered, "counter-2");
    assert_eq!(
        validate_order_and_version(&channel, Some("counter-3")),
        Err(invalid_version("counter-2"))
    );
}

#[test]
fn error_messages() {
    assert_eq!(
        ContractError::OrderedChannel {}.to_string(),
        "only unordered channels are supported"
    );
    assert_eq!(
        invalid_version("counter-2").to_string(),
        "invalid IBC channel version. Got (counter-2), expected (counter-1)"
    );
    assert_eq!(
        ContractError::InvalidVersion { actual: String::new(), expected: String::new() }
            .to_string(),
        "invalid IBC channel version. Got (), expected ()"
    );
    assert_eq!(ContractError::Std("Error parsing".to_string()).to_string(), "Error parsing");
    assert_eq!(ContractError::Std(String::new()).to_string(), "");
}

#[test]
fn acknowledgments() {
    assert_eq!(make_ack_success(), Ack::Success);
    assert_eq!(make_ack_fail("no".to_string()), Ack::Failure("no".to_string()));
    assert_eq!(make_ack_fail(String::new()), Ack::Failure(String::new()));
}

#[test]
fn open_accepts_the_proposal_and_names_no_version() {
    let msg = IbcChannelOpenMsg { channel: good_channel("channel-0"), counterparty_version: None };
    assert_eq!(ibc_channel_open(msg), Ok(None));
    let msg = IbcChannelOpenMsg {
        channel: good_channel("channel-0"),
        counterparty_version: Some("counter-1".to_string()),
    };
    assert_eq!(ibc_channel_open(msg), Ok(None));
}

#[test]
fn open_rejects_what_validate_rejects() {
    let msg = IbcChannelOpenMsg {
        channel: channel("channel-0", IbcOrder::Ordered, "counter-1"),
        counterparty_version: None,
    };
    assert_eq!(ibc_channel_open(msg), Err(ContractError::OrderedChannel {}));
    let msg = IbcChannelOpenMsg {
        channel: channel("channel-0", IbcOrder::Unordered, "counter-2"),
        counterparty_version: None,
    };
    assert_eq!(ibc_channel_open(msg), Err(invalid_version("counter-2")));
    let msg = IbcChannelOpenMsg {
        channel: good_channel("channel-0"),
        counterparty_version: Some("counter-0".to_string()),
    };
    assert_eq!(ibc_channel_open(msg), Err(invalid_version("counter-0")));
}

#[test]
fn connect_starts_the_counter_at_zero() {
    let mut state = ChannelState::new();
    assert_eq!(state.connection_counts.may_load("channel-0"), None);
    let response = connect(&mut state, "channel-0");
    assert_eq!(state.connection_counts.may_load("channel-0"), Some(0));
    assert_eq!(query_count(&state, "channel-0".to_string()), GetCountResponse { count: 0 });
    assert_eq!(
        response.attributes,
        vec![attribute("method", "ibc_channel_connect"), attribute("channel_id", "channel-0")]
    );
}

#[test]
fn connect_with_the_counterparty_version() {
    let mut state = ChannelState::new();
    let answer = ibc_channel_connect(
        &mut state,
        IbcChannelConnectMsg {
            channel: good_channel("channel-4"),
            counterparty_version: Some("counter-1".to_string()),
        },
    );
    assert!(answer.is_ok());
    assert_eq!(state.connection_counts.may_load("channel-4"), Some(0));
}

#[test]
fn connect_anew_starts_from_zero_again() {
    let mut state = ChannelState::new();
    connect(&mut state, "channel-0");
    receive_increment(&mut state, "channel-0");
    receive_increment(&mut state, "channel-0");
    assert_eq!(state.connection_counts.read("channel-0"), 2);
    connect(&mut state, "channel-0");
    assert_eq!(state.connection_counts.may_load("channel-0"), Some(0));
}

#[test]
fn rejected_connect_creates_no_counter() {
    let mut state = ChannelState::new();
    let answer = ibc_channel_connect(
        &mut state,
        IbcChannelConnectMsg {
            channel: channel("channel-0", IbcOrder::Ordered, "counter-1"),
            counterparty_version: None,
        },
    );
    assert_eq!(answer, Err(ContractError::OrderedChannel {}));
    assert_eq!(state.connection_counts.may_load("channel-0"), None);
    assert_eq!(query_count(&state, "channel-0".to_string()).count, 0);

    let answer = ibc_channel_connect(
        &mut state,
        IbcChannelConnectMsg {
            channel: good_channel("channel-0"),
            counterparty_version: Some("counter-9".to_string()),
        },
    );
    assert_eq!(answer, Err(invalid_version("counter-9")));
    assert_eq!(state.connection_counts.may_load("channel-0"), None);
}

#[test]
fn rejected_connect_leaves_an_existing_counter() {
    let mut state = ChannelState::new();
    connect(&mut state, "channel-0");
    receive_increment(&mut state, "channel-0");
    let answer = ibc_channel_connect(
        &mut state,
        IbcChannelConnectMsg {
            channel: channel("channel-0", IbcOrder::Unordered, "counter-2"),
            counterparty_version: None,
        },
    );
    assert_eq!(answer, Err(invalid_version("counter-2")));
    assert_eq!(state.connection_counts.may_load("channel-0"), Some(1));
}

#[test]
fn close_removes_the_counter() {
    let mut state = ChannelState::new();
    connect(&mut state, "channel-0");
    receive_increment(&mut state, "channel-0");
    let response = close(&mut state, "channel-0");
    assert_eq!(state.connection_counts.may_load("channel-0"), None);
    assert_eq!(query_count(&state, "channel-0".to_string()).count, 0);
    assert_eq!(query_count(&state, "channel-0".to_string()).count, 0);
    assert_eq!(
        response.attributes,
        vec![attribute("method", "ibc_channel_close"), attribute("channel", "channel-0")]
    );
}

#[test]
fn close_twice_is_close_once() {
    let mut once = ChannelState::new();
    connect(&mut once, "channel-0");
    connect(&mut once, "channel-1");
    time_out(&mut once, "channel-0");
    close(&mut once, "channel-0");

    let mut twice = ChannelState::new();
    connect(&mut twice, "channel-0");
    connect(&mut twice, "channel-1");
    time_out(&mut twice, "channel-0");
    let first = close(&mut twice, "channel-0");
    let second = close(&mut twice, "channel-0");
    assert_eq!(first, second);

    for id in ["channel-0", "channel-1", "channel-2"] {
        assert_eq!(once.connection_counts.may_load(id), twice.connection_counts.may_load(id));
        assert_eq!(once.timeout_counts.may_load(id), twice.timeout_counts.may_load(id));
    }
}

#[test]
fn close_of_a_channel_that_never_connected() {
    let mut state = ChannelState::new();
    connect(&mut state, "channel-1");
    close(&mut state, "channel-0");
    assert_eq!(state.connection_counts.may_load("channel-0"), None);
    assert_eq!(state.connection_counts.may_load("channel-1"), Some(0));
}

#[test]
fn close_keeps_the_timeouts() {
    let mut state = ChannelState::new();
    connect(&mut state, "channel-0");
    time_out(&mut state, "channel-0");
    time_out(&mut state, "channel-0");
    close(&mut state, "channel-0");
    assert_eq!(query_timeout_count(&state, "channel-0".to_string()).count, 2);
    assert_eq!(query_count(&state, "channel-0".to_string()).count, 0);
}

#[test]
fn receive_counts_and_acknowledges() {
    let mut state = ChannelState::new();
    connect(&mut state, "channel-0");
    let response = receive_increment(&mut state, "channel-0");
    assert_eq!(response.acknowledgement, Ack::Success);
    assert_eq!(
        response.attributes,
        vec![attribute("method", "execute_increment"), attribute("count", "1")]
    );
    assert_eq!(state.connection_counts.read("channel-0"), 1);
}

#[test]
fn receive_n_times_counts_n() {
    let mut state = ChannelState::new();
    connect(&mut state, "channel-0");
    connect(&mut state, "channel-1");
    let mut n: u32 = 0;
    while n < 25 {
        assert_eq!(query_count(&state, "channel-0".to_string()).count, n);
        let response = receive_increment(&mut state, "channel-0");
        n += 1;
        assert_eq!(response.acknowledgement, Ack::Success);
        assert_eq!(response.attributes[1], attribute("count", &n.to_string()));
    }
    assert_eq!(query_count(&state, "channel-0".to_string()).count, 25);
    assert_eq!(query_count(&state, "channel-1".to_string()).count, 0);
}

#[test]
fn receive_of_an_unreadable_payload_fails_and_counts_nothing() {
    let mut state = ChannelState::new();
    connect(&mut state, "channel-0");
    receive_increment(&mut state, "channel-0");
    let complaint = "Error parsing into type IbcExecuteMsg: unknown variant `decrement`";
    let response = receive_unreadable(&mut state, "channel-0", complaint);
    assert_eq!(response.acknowledgement, Ack::Failure(complaint.to_string()));
    assert_eq!(
        response.attributes,
        vec![attribute("method", "ibc_packet_receive"), attribute("error", complaint)]
    );
    assert_eq!(state.connection_counts.may_load("channel-0"), Some(1));
    assert_eq!(state.timeout_counts.may_load("channel-0"), None);
}

#[test]
fn receive_of_an_unreadable_payload_creates_no_counter() {
    let mut state = ChannelState::new();
    let response = receive_unreadable(&mut state, "channel-0", "");
    assert_eq!(response.acknowledgement, Ack::Failure(String::new()));
    assert_eq!(state.connection_counts.may_load("channel-0"), None);
}

#[test]
fn unreadable_payload_at_the_largest_count() {
    let mut state = ChannelState::new();
    state.connection_counts.save("channel-0".to_string(), u32::MAX);
    let response = receive_unreadable(&mut state, "channel-0", "bad");
    assert_eq!(response.acknowledgement, Ack::Failure("bad".to_string()));
    assert_eq!(state.connection_counts.read("channel-0"), u32::MAX);
}

#[test]
fn receive_up_to_the_largest_count() {
    let mut state = ChannelState::new();
    state.connection_counts.save("channel-0".to_string(), u32::MAX - 1);
    let response = receive_increment(&mut state, "channel-0");
    assert_eq!(response.acknowledgement, Ack::Success);
    assert_eq!(response.attributes[1], attribute("count", "4294967295"));
}

#[test]
fn receive_on_a_channel_without_counter_counts_from_zero() {
    let mut state = ChannelState::new();
    let response = receive_increment(&mut state, "channel-5");
    assert_eq!(response.acknowledgement, Ack::Success);
    assert_eq!(state.connection_counts.may_load("channel-5"), Some(1));
}

#[test]
fn do_receive_returns_the_error_that_receive_acknowledges() {
    let mut state = ChannelState::new();
    let answer = do_ibc_packet_receive(
        &mut state,
        IbcPacketReceiveMsg { channel_id: "channel-0".to_string(), data: Err("nope".to_string()) },
    );
    assert_eq!(answer, Err(ContractError::Std("nope".to_string())));
    assert_eq!(state.connection_counts.may_load("channel-0"), None);

    let answer = do_ibc_packet_receive(
        &mut state,
        IbcPacketReceiveMsg {
            channel_id: "channel-0".to_string(),
            data: Ok(IbcExecuteMsg::Increment {}),
        },
    );
    let response = answer.unwrap();
    assert_eq!(response.acknowledgement, Ack::Success);
    assert_eq!(state.connection_counts.may_load("channel-0"), Some(1));
}

#[test]
fn execute_increment_logs_the_new_count() {
    let mut state = ChannelState::new();
    state.connection_counts.save("channel-0".to_string(), 41);
    let response = execute_increment(&mut state, "channel-0".to_string());
    assert_eq!(response.acknowledgement, Ack::Success);
    assert_eq!(
        response.attributes,
        vec![attribute("method", "execute_increment"), attribute("count", "42")]
    );
    assert_eq!(state.connection_counts.read("channel-0"), 42);
}

#[test]
fn ack_is_logged_and_nothing_else() {
    let response = ibc_packet_ack(IbcPacketAckMsg { acknowledgement: vec![1, 2, 3] });
    assert_eq!(response.attributes, vec![attribute("method", "ibc_packet_ack")]);
    let response = ibc_packet_ack(IbcPacketAckMsg { acknowledgement: vec![] });
    assert_eq!(response.attributes, vec![attribute("method", "ibc_packet_ack")]);
}

#[test]
fn timeout_k_times_counts_k() {
    let mut state = ChannelState::new();
    let mut k: u32 = 0;
    while k < 17 {
        assert_eq!(query_timeout_count(&state, "channel-0".to_string()).count, k);
        let response = time_out(&mut state, "channel-0");
        assert_eq!(response.attributes, vec![attribute("method", "ibc_packet_timeout")]);
        k += 1;
    }
    assert_eq!(query_timeout_count(&state, "channel-0".to_string()).count, 17);
    assert_eq!(query_timeout_count(&state, "channel-1".to_string()).count, 0);
    assert_eq!(query_count(&state, "channel-0".to_string()).count, 0);
}

#[test]
fn timeouts_are_counted_whatever_happens_to_the_channel() {
    let mut state = ChannelState::new();
    time_out(&mut state, "channel-0");
    connect(&mut state, "channel-0");
    time_out(&mut state, "channel-0");
    receive_increment(&mut state, "channel-0");
    receive_unreadable(&mut state, "channel-0", "bad");
    time_out(&mut state, "channel-0");
    close(&mut state, "channel-0");
    time_out(&mut state, "channel-0");
    connect(&mut state, "channel-0");
    close(&mut state, "channel-0");
    close(&mut state, "channel-0");
    time_out(&mut state, "channel-0");
    assert_eq!(query_timeout_count(&state, "channel-0".to_string()).count, 5);
    assert_eq!(query_count(&state, "channel-0".to_string()).count, 0);
}

#[test]
fn timeout_up_to_the_largest_count() {
    let mut state = ChannelState::new();
    state.timeout_counts.save("channel-0".to_string(), u32::MAX - 1);
    time_out(&mut state, "channel-0");
    assert_eq!(state.timeout_counts.read("channel-0"), u32::MAX);
}

#[test]
fn one_packet_then_one_timeout_on_channel_0() {
    let mut state = ChannelState::new();
    let open = ibc_channel_open(IbcChannelOpenMsg {
        channel: good_channel("channel-0"),
        counterparty_version: None,
    });
    assert_eq!(open, Ok(None));
    connect(&mut state, "channel-0");
    receive_increment(&mut state, "channel-0");
    assert_eq!(
        query(&state, QueryMsg::GetCount { channel: "channel-0".to_string() }),
        GetCountResponse { count: 1 }
    );
    time_out(&mut state, "channel-0");
    assert_eq!(
        query(&state, QueryMsg::GetTimeoutCount { channel: "channel-0".to_string() }),
        GetCountResponse { count: 1 }
    );
    assert_eq!(
        query(&state, QueryMsg::GetCount { channel: "channel-0".to_string() }),
        GetCountResponse { count: 1 }
    );
}

#[test]
fn an_ordered_channel_never_gets_a_counter() {
    let mut state = ChannelState::new();
    let ordered = channel("channel-0", IbcOrder::Ordered, "counter-1");
    let open = ibc_channel_open(IbcChannelOpenMsg {
        channel: ordered.clone(),
        counterparty_version: None,
    });
    assert_eq!(open, Err(ContractError::OrderedChannel {}));
    let connected = ibc_channel_connect(
        &mut state,
        IbcChannelConnectMsg { channel: ordered, counterparty_version: None },
    );
    assert_eq!(connected, Err(ContractError::OrderedChannel {}));
    assert_eq!(state.connection_counts.may_load("channel-0"), None);
    assert_eq!(query_count(&state, "channel-0".to_string()), GetCountResponse { count: 0 });
    assert_eq!(query_timeout_count(&state, "channel-0".to_string()), GetCountResponse { count: 0 });
}
