use monitor::description::{truncate_description, MAX_DESCRIPTION_BYTES};
use monitor::id::{monitor_id, new_monitor_id};
use monitor::notification::MonitorNotification;

#[test]
fn short_description_is_kept_whole() {
    assert_eq!(truncate_description(String::new()), "");
    assert_eq!(truncate_description("errors in app.log".to_string()), "errors in app.log");
    let full = "x".repeat(256);
    assert_eq!(truncate_description(full.clone()), full);
    let wide = "\u{e9}".repeat(128);
    assert_eq!(truncate_description(wide.clone()), wide);
}

#[test]
fn long_description_is_cut_at_the_limit() {
    assert_eq!(MAX_DESCRIPTION_BYTES, 256);
    assert_eq!(truncate_description("x".repeat(257)), "x".repeat(256));
    assert_eq!(truncate_description("x".repeat(5000)), "x".repeat(256));
}

#[test]
fn long_description_is_cut_between_characters() {
    // The limit falls after the first byte of a two-byte character.
    let two = format!("a{}", "\u{e9}".repeat(200));
    assert_eq!(truncate_description(two), format!("a{}", "\u{e9}".repeat(127)));
    // After the first and the second byte of a three-byte character.
    let three = "\u{20ac}".repeat(100);
    assert_eq!(truncate_description(three), "\u{20ac}".repeat(85));
    let shifted = format!("aa{}", "\u{20ac}".repeat(100));
    assert_eq!(truncate_description(shifted), format!("aa{}", "\u{20ac}".repeat(84)));
    // After the third byte of a four-byte character.
    let four = format!("a{}", "\u{1f600}".repeat(100));
    assert_eq!(truncate_description(four), format!("a{}", "\u{1f600}".repeat(63)));
}

#[test]
fn label_cut_twice_is_the_label() {
    let label = truncate_description("\u{20ac}".repeat(100));
    assert!(label.len() <= 256);
    assert_eq!(truncate_description(label.clone()), label);
}

#[test]
fn label_adds_little_to_a_notification() {
    let label = truncate_description("<monitor_notification>".repeat(1000));
    let body = MonitorNotification::new(&label, "out").body();
    assert!(body.chars().count() <= 3 + 284);
}

#[test]
fn id_is_prefixed_uuid() {
    assert_eq!(
        monitor_id("67e55044-10b1-426f-9247-bb680e5fe0c8"),
        "mon_67e55044-10b1-426f-9247-bb680e5fe0c8"
    );
}

#[test]
fn new_id_has_the_form_of_a_random_uuid() {
    for _ in 0..50 {
        let id = new_monitor_id();
        assert_eq!(id.len(), 40);
        assert!(id.starts_with("mon_"));
        for (i, c) in id[4..].chars().enumerate() {
            match i {
                8 | 13 | 18 | 23 => assert_eq!(c, '-'),
                14 => assert_eq!(c, '4'),
                19 => assert!("89ab".contains(c)),
                _ => assert!("0123456789abcdef".contains(c)),
            }
        }
        assert!(uuid::Uuid::parse_str(&id[4..]).is_ok());
    }
    assert_ne!(new_monitor_id(), new_monitor_id());
}
