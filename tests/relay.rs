use iot_relay::{Device, Notifier, NotifyError, Received, Registry, DEFAULT_CAPACITY};

fn received_text(r: Received) -> Option<String> {
    match r {
        Received::Message(m) => Some(m),
        _ => None,
    }
}

#[test]
fn registry_lookup_finds_registered_device() {
    let mut reg = Registry::new();
    reg.register(Device::new("dev1", "Temperature Sensor"));
    let d = reg.lookup("dev1").expect("registered");
    assert_eq!(d.id, "dev1");
    assert_eq!(d.name, "Temperature Sensor");
    assert!(reg.lookup("dev2").is_none());
    assert_eq!(reg.len(), 1);
}

#[test]
fn registry_last_registration_wins() {
    let mut reg = Registry::new();
    reg.register(Device::new("dev1", "Temperature Sensor"));
    reg.register(Device::new("dev1", "Pressure Sensor"));
    assert_eq!(reg.lookup("dev1").unwrap().name, "Pressure Sensor");
    assert_eq!(reg.len(), 1);
}

#[test]
fn registry_accepts_empty_identifier_and_name() {
    let mut reg = Registry::new();
    reg.register(Device::new("", ""));
    assert_eq!(reg.lookup("").unwrap().name, "");
}

#[test]
fn notifier_lookup_after_register() {
    let mut n = Notifier::new();
    n.register(Device::new("dev1", "Temperature Sensor"));
    n.register(Device::new("dev2", "Humidity Sensor"));
    assert_eq!(n.lookup("dev1").unwrap().name, "Temperature Sensor");
    assert_eq!(n.lookup("dev2").unwrap().name, "Humidity Sensor");
    n.register(Device::new("dev2", "Dew Point Sensor"));
    assert_eq!(n.lookup("dev2").unwrap().name, "Dew Point Sensor");
    assert_eq!(n.lookup("dev1").unwrap().name, "Temperature Sensor");
    assert!(n.lookup("dev3").is_none());
}

#[test]
fn sample_scenario() {
    let mut n = Notifier::new();
    n.register(Device::new("dev1", "Temperature Sensor"));
    n.register(Device::new("dev2", "Humidity Sensor"));
    assert!(n.notify("dev1", "25C").is_ok());
    match n.notify("dev3", "x") {
        Err(NotifyError::DeviceNotFound(id)) => assert_eq!(id, "dev3"),
        _ => panic!("expected DeviceNotFound"),
    }
    assert_eq!(received_text(n.receive()), Some("25C".to_string()));
    assert!(matches!(n.receive(), Received::Empty));
}

#[test]
fn unregistered_device_queues_nothing() {
    let mut n = Notifier::new();
    n.register(Device::new("dev1", "Temperature Sensor"));
    assert!(matches!(n.notify("ghost", "hello"), Err(NotifyError::DeviceNotFound(_))));
    assert!(matches!(n.receive(), Received::Empty));
    assert!(n.notify("dev1", "first").is_ok());
    assert!(matches!(n.notify("ghost", "hello"), Err(NotifyError::DeviceNotFound(_))));
    assert_eq!(received_text(n.receive()), Some("first".to_string()));
    assert!(matches!(n.receive(), Received::Empty));
}

#[test]
fn notifications_arrive_in_order() {
    let mut n = Notifier::new();
    n.register(Device::new("dev1", "Temperature Sensor"));
    for m in ["m1", "m2", "m3", "m4"] {
        assert!(n.notify("dev1", m).is_ok());
    }
    for m in ["m1", "m2", "m3", "m4"] {
        assert_eq!(received_text(n.receive()), Some(m.to_string()));
    }
    assert!(matches!(n.receive(), Received::Empty));
}

#[test]
fn interleaved_notify_and_receive_keep_order() {
    let mut n = Notifier::with_capacity(2);
    n.register(Device::new("a", "A"));
    n.register(Device::new("b", "B"));
    assert!(n.notify("a", "1").is_ok());
    assert!(n.notify("b", "2").is_ok());
    assert_eq!(received_text(n.receive()), Some("1".to_string()));
    assert!(n.notify("a", "3").is_ok());
    assert_eq!(received_text(n.receive()), Some("2".to_string()));
    assert_eq!(received_text(n.receive()), Some("3".to_string()));
    assert!(matches!(n.receive(), Received::Empty));
}

#[test]
fn empty_message_is_delivered() {
    let mut n = Notifier::new();
    n.register(Device::new("dev1", "Temperature Sensor"));
    assert!(n.notify("dev1", "").is_ok());
    assert_eq!(received_text(n.receive()), Some(String::new()));
}

#[test]
fn full_channel_refuses_until_drained() {
    let mut n = Notifier::new();
    n.register(Device::new("dev1", "Temperature Sensor"));
    for i in 0..DEFAULT_CAPACITY {
        assert!(n.notify("dev1", &format!("reading {}", i)).is_ok());
    }
    assert!(matches!(n.notify("dev1", "overflow"), Err(NotifyError::ChannelUnavailable)));
    assert_eq!(received_text(n.receive()), Some("reading 0".to_string()));
    assert!(n.notify("dev1", "retry").is_ok());
    assert!(matches!(n.notify("dev1", "again"), Err(NotifyError::ChannelUnavailable)));
    for i in 1..DEFAULT_CAPACITY {
        assert_eq!(received_text(n.receive()), Some(format!("reading {}", i)));
    }
    assert_eq!(received_text(n.receive()), Some("retry".to_string()));
    assert!(matches!(n.receive(), Received::Empty));
}

#[test]
fn capacity_of_one() {
    let mut n = Notifier::with_capacity(1);
    n.register(Device::new("dev1", "Temperature Sensor"));
    assert!(n.notify("dev1", "a").is_ok());
    assert!(matches!(n.notify("dev1", "b"), Err(NotifyError::ChannelUnavailable)));
    assert_eq!(received_text(n.receive()), Some("a".to_string()));
    assert!(n.notify("dev1", "b").is_ok());
}

#[test]
fn unknown_device_is_reported_before_full_channel() {
    let mut n = Notifier::with_capacity(1);
    n.register(Device::new("dev1", "Temperature Sensor"));
    assert!(n.notify("dev1", "a").is_ok());
    assert!(matches!(n.notify("dev9", "b"), Err(NotifyError::DeviceNotFound(_))));
}

#[test]
fn closing_empty_channel_ends_receiving() {
    let mut n = Notifier::new();
    n.register(Device::new("dev1", "Temperature Sensor"));
    n.close();
    assert!(matches!(n.receive(), Received::Closed));
    assert!(matches!(n.receive(), Received::Closed));
}

#[test]
fn closing_keeps_queued_notifications() {
    let mut n = Notifier::new();
    n.register(Device::new("dev1", "Temperature Sensor"));
    assert!(n.notify("dev1", "one").is_ok());
    assert!(n.notify("dev1", "two").is_ok());
    n.close();
    assert!(matches!(n.notify("dev1", "three"), Err(NotifyError::ChannelUnavailable)));
    assert_eq!(received_text(n.receive()), Some("one".to_string()));
    assert_eq!(received_text(n.receive()), Some("two".to_string()));
    assert!(matches!(n.receive(), Received::Closed));
}

#[test]
fn closed_channel_still_reports_unknown_device() {
    let mut n = Notifier::new();
    n.close();
    assert!(matches!(n.notify("dev1", "x"), Err(NotifyError::DeviceNotFound(_))));
}
