use serial_relay::broadcast::delivered_ids;
use serial_relay::messages::Connect;
use serial_relay::messages::Disconnect;
use serial_relay::messages::SerialMessage;
use serial_relay::registry::Registry;

#[test]
fn connect_broadcast_disconnect_scenario() {
    let mut r: Registry<&str> = Registry::new();
    assert_eq!(r.len(), 0);

    let id_a = r.connect(Connect { addr: "A" });
    assert_eq!(id_a, 1);
    let id_b = r.connect(Connect { addr: "B" });
    assert_eq!(id_b, 2);
    assert_ne!(id_b, id_a);

    let ping = SerialMessage { data: b"ping".to_vec() };
    let plan = r.plan_broadcast(&ping);
    assert_eq!(plan.len(), 2);
    assert!(plan.iter().any(|d| d.id == id_a && d.message.data == b"ping".to_vec()));
    assert!(plan.iter().any(|d| d.id == id_b && d.message.data == b"ping".to_vec()));
    assert_eq!(delivered_ids(&plan, &vec![true, true]), vec![id_a, id_b]);

    r.disconnect(Disconnect { id: id_a });

    let pong = SerialMessage { data: b"pong".to_vec() };
    let plan = r.plan_broadcast(&pong);
    assert_eq!(plan.len(), 1);
    assert_eq!(plan[0].id, id_b);
    assert_eq!(plan[0].message.data, b"pong".to_vec());
    assert!(plan.iter().all(|d| d.id != id_a));
    assert_eq!(delivered_ids(&plan, &vec![true]), vec![id_b]);
}
