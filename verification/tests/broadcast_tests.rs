use serial_relay::broadcast::delivered_ids;
use serial_relay::broadcast::failed_ids;
use serial_relay::messages::Connect;
use serial_relay::messages::SerialMessage;
use serial_relay::registry::Registry;

#[test]
fn plan_covers_every_registered_subscriber() {
    let mut r: Registry<&str> = Registry::new();
    let a = r.connect(Connect { addr: "a" });
    let b = r.connect(Connect { addr: "b" });
    let c = r.connect(Connect { addr: "c" });
    let payload = SerialMessage { data: vec![1, 2, 3] };
    let plan = r.plan_broadcast(&payload);
    assert_eq!(plan.len(), 3);
    assert_eq!(plan[0].id, a);
    assert_eq!(plan[1].id, b);
    assert_eq!(plan[2].id, c);
    for d in &plan {
        assert_eq!(d.message.data, vec![1, 2, 3]);
    }
}

#[test]
fn plan_of_empty_registry_is_empty() {
    let r: Registry<&str> = Registry::new();
    let payload = SerialMessage { data: vec![7] };
    assert_eq!(r.plan_broadcast(&payload).len(), 0);
}

#[test]
fn late_joiner_is_not_in_earlier_plan() {
    let mut r: Registry<&str> = Registry::new();
    r.connect(Connect { addr: "a" });
    r.connect(Connect { addr: "b" });
    let payload = SerialMessage { data: vec![9, 9] };
    let plan = r.plan_broadcast(&payload);
    let late = r.connect(Connect { addr: "late" });
    for d in &plan {
        assert_ne!(d.id, late);
    }
}

#[test]
fn one_failed_delivery_leaves_the_others_delivered() {
    let mut r: Registry<&str> = Registry::new();
    let a = r.connect(Connect { addr: "a" });
    let b = r.connect(Connect { addr: "b" });
    let c = r.connect(Connect { addr: "c" });
    let payload = SerialMessage { data: vec![5] };
    let plan = r.plan_broadcast(&payload);
    let ok = vec![true, false, true];
    let delivered = delivered_ids(&plan, &ok);
    let failed = failed_ids(&plan, &ok);
    assert_eq!(delivered, vec![a, c]);
    assert_eq!(failed, vec![b]);
}

#[test]
fn all_outcomes_accounted_for() {
    let mut r: Registry<&str> = Registry::new();
    r.connect(Connect { addr: "a" });
    r.connect(Connect { addr: "b" });
    let payload = SerialMessage { data: vec![] };
    let plan = r.plan_broadcast(&payload);
    let ok = vec![false, false];
    assert_eq!(delivered_ids(&plan, &ok).len(), 0);
    assert_eq!(failed_ids(&plan, &ok), vec![1, 2]);
}
