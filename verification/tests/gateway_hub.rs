use sagiton::hub::GatewayHub;

fn sorted(mut v: Vec<u128>) -> Vec<u128> {
    v.sort();
    v
}

#[test]
fn first_and_last_connection_of_a_user() {
    let mut hub: GatewayHub<u32> = GatewayHub::new();
    let a = hub.register_connection(7, 100, 1);
    assert!(a.first_connection);
    let b = hub.register_connection(7, 101, 2);
    assert!(!b.first_connection);
    assert_eq!(hub.connection_count(), 2);

    let first_gone = hub.unregister(100).unwrap();
    assert_eq!(first_gone.user_id, 7);
    assert!(!first_gone.became_offline);
    let last_gone = hub.unregister(101).unwrap();
    assert!(last_gone.became_offline);
    assert!(hub.unregister(101).is_none());
    assert_eq!(hub.connection_count(), 0);
}

#[test]
fn a_taken_connection_id_is_replaced() {
    let mut hub: GatewayHub<u32> = GatewayHub::new();
    assert!(hub.register_connection(1, 5, 10).first_connection);
    hub.subscribe_channel(5, 500);
    let again = hub.register_connection(2, 5, 20);
    assert!(again.first_connection);
    assert_eq!(hub.send_to_connection(5), Some(&20));
    assert_eq!(hub.broadcast_to_user(2), vec![5]);
    // the old entries of the id stay in the indexes
    assert_eq!(hub.broadcast_to_user(1), vec![5]);
    assert_eq!(hub.broadcast_to_channel(500), vec![5]);
    assert_eq!(hub.connection_count(), 1);
}

#[test]
fn registering_the_same_id_again_counts_as_first() {
    let mut hub: GatewayHub<u32> = GatewayHub::new();
    assert!(hub.register_connection(1, 5, 10).first_connection);
    assert!(hub.register_connection(1, 5, 11).first_connection);
    assert!(!hub.register_connection(1, 6, 12).first_connection);
}

#[test]
fn random_registration_gets_a_fresh_id() {
    let mut hub: GatewayHub<u32> = GatewayHub::new();
    let r = hub.register(3, 9);
    assert!(r.first_connection);
    assert_eq!(hub.send_to_connection(r.connection_id), Some(&9));
    assert_eq!(hub.broadcast_to_user(3), vec![r.connection_id]);
}

#[test]
fn channel_and_thread_subscriptions_route_events() {
    let mut hub: GatewayHub<&'static str> = GatewayHub::new();
    hub.register_connection(1, 10, "a");
    hub.register_connection(2, 20, "b");
    hub.register_connection(2, 21, "c");
    hub.subscribe_channel(10, 500);
    hub.subscribe_channel(20, 500);
    hub.subscribe_thread(21, 900);
    assert_eq!(sorted(hub.broadcast_to_channel(500)), vec![10, 20]);
    assert_eq!(hub.broadcast_to_thread(900), vec![21]);
    assert_eq!(sorted(hub.broadcast_to_user(2)), vec![20, 21]);
    assert_eq!(sorted(hub.broadcast_global()), vec![10, 20, 21]);

    hub.unsubscribe_channel(20, 500);
    assert_eq!(hub.broadcast_to_channel(500), vec![10]);
    hub.unsubscribe_thread(21, 900);
    assert!(hub.broadcast_to_thread(900).is_empty());
}

#[test]
fn unregistering_clears_subscriptions() {
    let mut hub: GatewayHub<u8> = GatewayHub::new();
    hub.register_connection(1, 10, 0);
    hub.subscribe_channel(10, 500);
    hub.subscribe_thread(10, 900);
    hub.touch_heartbeat(10);
    hub.unregister(10);
    assert!(hub.broadcast_to_channel(500).is_empty());
    assert!(hub.broadcast_to_thread(900).is_empty());
    assert!(hub.send_to_connection(10).is_none());
}

#[test]
fn subscribing_an_unknown_connection_records_its_id() {
    let mut hub: GatewayHub<u8> = GatewayHub::new();
    hub.subscribe_channel(42, 500);
    hub.subscribe_thread(42, 900);
    assert!(hub.broadcast_to_channel(500).is_empty());
    assert!(hub.broadcast_to_thread(900).is_empty());
    hub.register_connection(1, 42, 0);
    assert_eq!(hub.broadcast_to_channel(500), vec![42]);
    assert_eq!(hub.broadcast_to_thread(900), vec![42]);
}

#[test]
fn shutdown_drops_everything() {
    let mut hub: GatewayHub<u8> = GatewayHub::new();
    hub.register_connection(1, 10, 0);
    hub.subscribe_channel(10, 500);
    hub.shutdown_all();
    assert_eq!(hub.connection_count(), 0);
    assert!(hub.broadcast_global().is_empty());
    assert!(hub.broadcast_to_channel(500).is_empty());
}
