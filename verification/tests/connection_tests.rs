use edp::connection::ConnectionConfig;
use edp::state_machine::ConnectionState;
use edp::types::Creation;

#[test]
fn test_connection_config_builder() {
    let config = ConnectionConfig::new("node1@localhost", "node2@localhost", "secret")
        .with_epmd_host("127.0.0.1")
        .with_creation(42)
        .with_timeout(std::time::Duration::from_secs(5));

    assert_eq!(config.local_node_name, "node1@localhost");
    assert_eq!(config.remote_node_name, "node2@localhost");
    assert_eq!(config.cookie, "secret");
    assert_eq!(config.epmd_host, "127.0.0.1");
    assert_eq!(config.creation, Creation::new(42));
    assert_eq!(config.timeout, std::time::Duration::from_secs(5));
}

#[test]
fn connection_tests_test_connection_state_as_str() {
    assert_eq!(ConnectionState::Disconnected.as_str(), "disconnected");
    assert_eq!(ConnectionState::Connecting.as_str(), "connecting");
    assert_eq!(ConnectionState::SendingName.as_str(), "sending_name");
    assert_eq!(ConnectionState::AwaitingStatus.as_str(), "awaiting_status");
    assert_eq!(
        ConnectionState::AwaitingChallenge.as_str(),
        "awaiting_challenge"
    );
    assert_eq!(
        ConnectionState::SendingChallengeReply.as_str(),
        "sending_challenge_reply"
    );
    assert_eq!(
        ConnectionState::AwaitingChallengeAck.as_str(),
        "awaiting_challenge_ack"
    );
    assert_eq!(ConnectionState::Connected.as_str(), "connected");
    assert_eq!(ConnectionState::Failed.as_str(), "failed");
}

#[test]
fn test_config_defaults() {
    let config = ConnectionConfig::new("a@h", "b@h", "c");
    assert_eq!(config.epmd_host, "localhost");
    assert_eq!(config.creation, Creation::new(0));
    assert_eq!(config.timeout, std::time::Duration::from_secs(10));
    assert_eq!(config.flags.bits(), edp::flags::DistributionFlags::DEFAULT);
    let hidden = ConnectionConfig::new_hidden("a@h", "b@h", "c");
    assert_eq!(hidden.flags.bits(), edp::flags::DistributionFlags::DEFAULT_HIDDEN);
}
