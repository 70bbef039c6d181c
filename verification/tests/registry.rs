use quicktick::websocket::ConnectionRegistry;

#[test]
fn add_returns_position_and_remove_shifts() {
    let mut reg: ConnectionRegistry<u32> = ConnectionRegistry::new();
    assert_eq!(reg.len(), 0);
    assert_eq!(reg.add_connection("a".to_string(), 10), 0);
    assert_eq!(reg.add_connection("b".to_string(), 20), 1);
    assert_eq!(reg.add_connection("c".to_string(), 30), 2);
    reg.remove_connection(0);
    assert_eq!(reg.len(), 2);
    assert_eq!(reg.add_connection("d".to_string(), 40), 2);
}

#[test]
fn add_then_remove_leaves_registry_as_it_was() {
    let mut reg: ConnectionRegistry<u32> = ConnectionRegistry::new();
    reg.add_connection("a".to_string(), 1);
    let i = reg.add_connection("b".to_string(), 2);
    reg.remove_connection(i);
    assert_eq!(reg.len(), 1);
    assert_eq!(reg.add_connection("c".to_string(), 3), 1);
}
