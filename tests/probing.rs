use dyfi_ddns::ipv4::Ipv4Address;
use dyfi_ddns::probe::{Probe, ProbeOutcome};

fn sent(observations: &[Option<Ipv4Address>]) -> Vec<Ipv4Address> {
    let mut probe = Probe::new();
    let mut out = Vec::new();
    for seen in observations {
        if let ProbeOutcome::Changed(ip) = probe.observe(*seen) {
            out.push(ip);
        }
    }
    out
}

#[test]
fn repeated_addresses_are_sent_once() {
    let a = Ipv4Address::new(1, 2, 3, 4);
    let b = Ipv4Address::new(5, 6, 7, 8);
    let seq = [Some(a), Some(a), Some(b), Some(b), Some(b), Some(a)];
    assert_eq!(sent(&seq), vec![b, a]);
}

#[test]
fn first_observation_is_recorded_not_sent() {
    let a = Ipv4Address::new(1, 2, 3, 4);
    let mut probe = Probe::new();
    assert_eq!(probe.observe(Some(a)), ProbeOutcome::Recorded(a));
    assert_eq!(probe.last, Some(a));
    assert_eq!(probe.observe(Some(a)), ProbeOutcome::Unchanged(a));
}

#[test]
fn unreadable_bodies_keep_the_last_address() {
    let mut probe = Probe::new();
    for _ in 0..3 {
        assert_eq!(probe.observe_body("not-an-ip"), ProbeOutcome::Unreadable);
        assert_eq!(probe.last, None);
    }
    let a = Ipv4Address::new(1, 2, 3, 4);
    assert_eq!(probe.observe_body("1.2.3.4"), ProbeOutcome::Recorded(a));
    assert_eq!(probe.observe_body("garbage"), ProbeOutcome::Unreadable);
    assert_eq!(probe.last, Some(a));
    assert_eq!(probe.observe_body("5.6.7.8"), ProbeOutcome::Changed(Ipv4Address::new(5, 6, 7, 8)));
}

#[test]
fn surrounding_whitespace_is_trimmed() {
    let mut probe = Probe::new();
    assert_eq!(probe.observe_body("  1.2.3.4\r\n"), ProbeOutcome::Recorded(Ipv4Address::new(1, 2, 3, 4)));
    assert_eq!(probe.observe_body("\t5.6.7.8 \n"), ProbeOutcome::Changed(Ipv4Address::new(5, 6, 7, 8)));
    assert_eq!(probe.observe_body("   "), ProbeOutcome::Unreadable);
    assert_eq!(probe.observe_body("5.6. 7.8"), ProbeOutcome::Unreadable);
}

#[test]
fn address_change_reaches_the_update_worker() {
    let mut probe = Probe::new();
    for _ in 0..3 {
        let r = probe.observe_body("1.2.3.4");
        assert!(r != ProbeOutcome::Changed(Ipv4Address::new(1, 2, 3, 4)));
    }
    assert_eq!(probe.observe_body("5.6.7.8\n"), ProbeOutcome::Changed(Ipv4Address::new(5, 6, 7, 8)));
    assert_eq!(probe.observe_body("5.6.7.8\n"), ProbeOutcome::Unchanged(Ipv4Address::new(5, 6, 7, 8)));
}

#[test]
fn unicode_whitespace_is_trimmed() {
    let ip = Ipv4Address::new(1, 2, 3, 4);
    for body in ["1.2.3.4\u{0B}", "1.2.3.4\u{85}", "\u{A0}1.2.3.4\u{A0}", "\u{3000}1.2.3.4\u{2029}", "\u{2000}\u{200A}1.2.3.4\u{1680}\u{202F}\u{205F}\u{2028}"] {
        let mut probe = Probe::new();
        assert_eq!(probe.observe_body(body), ProbeOutcome::Recorded(ip), "{:?}", body);
    }
    let mut probe = Probe::new();
    assert_eq!(probe.observe_body("1.2.3.4\u{200B}"), ProbeOutcome::Unreadable);
}

#[test]
fn trimming_agrees_with_str_trim() {
    let ws: Vec<char> = (0u32..0x3100).filter_map(char::from_u32).filter(|c| c.is_whitespace()).collect();
    for c in ws.iter().copied().chain(['\u{200B}', 'x', '\u{FEFF}']) {
        let body = format!("{}1.2.3.4{}", c, c);
        let expected = if body.trim() == "1.2.3.4" {
            ProbeOutcome::Recorded(Ipv4Address::new(1, 2, 3, 4))
        } else {
            ProbeOutcome::Unreadable
        };
        let mut probe = Probe::new();
        assert_eq!(probe.observe_body(&body), expected, "{:?}", c);
    }
}
