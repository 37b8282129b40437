use snp::config::{
    default_ipv4, default_max_reconnect_attempts, default_reconnect_interval, default_transport,
    Transport,
};

#[test]
fn settings_left_out_have_their_values() {
    assert_eq!(default_transport(), "quic");
    assert_eq!(default_ipv4(), "ipv4");
    assert_eq!(default_reconnect_interval(), 5);
    assert_eq!(default_max_reconnect_attempts(), 0);
}

#[test]
fn only_tcp_is_not_quic() {
    assert_eq!(Transport::from_name(&"tcp".to_string()), Transport::Tcp);
    assert_eq!(Transport::from_name(&"quic".to_string()), Transport::Quic);
    assert_eq!(Transport::from_name(&"TCP".to_string()), Transport::Quic);
    assert_eq!(Transport::from_name(&"".to_string()), Transport::Quic);
    assert_eq!(Transport::from_name(&default_transport()), Transport::Quic);
}
