use rackbox::dashboard::{
    append_card, append_client, cards_html, clients_html, clients_list_html, interfaces_html,
    status_class,
};
use rackbox::network::{ByteUnit, NetworkData};
use rackbox::registry::{accept_command, count_status, Client, CommandReply};
use rackbox::text::{append_decimal, eq_ignoring_ascii_case};
use std::collections::HashMap;

fn client(id: u32, ip: &str, status: &str, port: u16) -> Client {
    Client { id, ip: ip.to_string(), status: status.to_string(), port, cid: id }
}

fn expected_item(id: u32, ip: &str, class: &str, status: &str, port: u16) -> String {
    format!(
        r#"
            <div class="client-item">
                <div>#{}</div>
                <div class="ip-status-group">
                    <div class="ip-cell">{}</div>
                    <div class="status-cell {}">{}</div>
                </div>
                <div>{}</div>
            </div>"#,
        id, ip, class, status, port
    )
}

fn expected_interface(name: &str, state: &str, class: &str) -> String {
    format!(
        r#"
            <div class="interface-item">
                <span>{}</span>
                <div style="display: flex; align-items: center;">
                    <span class="data-unit">{}</span>
                    <div class="interface-status {}"></div>
                </div>
            </div>"#,
        name, state, class
    )
}

fn decimal(number: u64) -> String {
    let mut out = String::new();
    append_decimal(&mut out, number);
    out
}

#[test]
fn numbers_are_written_in_decimal() {
    assert_eq!(decimal(0), "0");
    assert_eq!(decimal(7), "7");
    assert_eq!(decimal(10), "10");
    assert_eq!(decimal(1001), "1001");
    assert_eq!(decimal(15847), "15847");
    assert_eq!(decimal(u64::MAX), "18446744073709551615");
    let mut out = String::from("port ");
    append_decimal(&mut out, 8080);
    assert_eq!(out, "port 8080");
}

#[test]
fn status_classes() {
    assert_eq!(status_class("active"), "status-active");
    assert_eq!(status_class("inactive"), "status-inactive");
    assert_eq!(status_class("pending"), "status-pending");
    assert_eq!(status_class(""), "status-pending");
    assert_eq!(status_class("Active"), "status-pending");
    assert_eq!(status_class("active "), "status-pending");
}

#[test]
fn one_client_item() {
    let mut out = String::new();
    append_client(&mut out, &client(1001, "192.168.1.101", "inactive", 15847));
    assert_eq!(out, expected_item(1001, "192.168.1.101", "status-inactive", "inactive", 15847));
}

#[test]
fn status_class_ignores_case_but_the_status_is_shown_as_given() {
    let html = clients_list_html(&[client(7, "10.0.0.7", "ACTIVE", 80)]);
    assert_eq!(html, expected_item(7, "10.0.0.7", "status-active", "ACTIVE", 80));
    let html = clients_list_html(&[client(8, "10.0.0.8", "InActive", 81)]);
    assert_eq!(html, expected_item(8, "10.0.0.8", "status-inactive", "InActive", 81));
    let html = clients_list_html(&[client(9, "10.0.0.9", "Pending", 82)]);
    assert_eq!(html, expected_item(9, "10.0.0.9", "status-pending", "Pending", 82));
}

#[test]
fn a_list_is_rendered_in_its_order() {
    let list = [
        client(2, "10.0.0.2", "active", 2000),
        client(1, "10.0.0.1", "pending", 1000),
        client(3, "10.0.0.3", "inactive", 3000),
    ];
    let expected = expected_item(2, "10.0.0.2", "status-active", "active", 2000)
        + &expected_item(1, "10.0.0.1", "status-pending", "pending", 1000)
        + &expected_item(3, "10.0.0.3", "status-inactive", "inactive", 3000);
    assert_eq!(clients_list_html(&list), expected);
    assert_eq!(clients_list_html(&[]), "");
}

#[test]
fn text_is_not_escaped() {
    let html = clients_list_html(&[client(0, "<b>", "a&b", 0)]);
    assert_eq!(html, expected_item(0, "<b>", "status-pending", "a&b", 0));
}

#[test]
fn registry_is_rendered_in_some_order() {
    let mut registry = HashMap::new();
    assert_eq!(clients_html(&registry), "");
    registry.insert(1001, client(1001, "192.168.1.101", "inactive", 15847));
    assert_eq!(
        clients_html(&registry),
        expected_item(1001, "192.168.1.101", "status-inactive", "inactive", 15847)
    );
    registry.insert(1002, client(1002, "192.168.1.102", "Active", 15848));
    let first = expected_item(1001, "192.168.1.101", "status-inactive", "inactive", 15847);
    let second = expected_item(1002, "192.168.1.102", "status-active", "Active", 15848);
    let html = clients_html(&registry);
    assert!(html == format!("{}{}", first, second) || html == format!("{}{}", second, first));
}

#[test]
fn interfaces_are_rendered_in_order() {
    let html = interfaces_html(vec![
        ("eth0".to_string(), "UP".to_string()),
        ("wlan0".to_string(), "DOWN".to_string()),
        ("lo".to_string(), "up".to_string()),
    ]);
    let expected = expected_interface("eth0", "UP", "status-up")
        + &expected_interface("wlan0", "DOWN", "status-down")
        + &expected_interface("lo", "up", "status-down");
    assert_eq!(html, expected);
    assert_eq!(interfaces_html(Vec::new()), "");
}

#[test]
fn network_data_starts_empty() {
    let data = NetworkData::default();
    assert_eq!(data.bytes_sent(), 0);
    assert_eq!(data.bytes_recv(), 0);
    assert!(data.interfaces().is_empty());
}

#[test]
fn recording_interfaces_adds_up_and_lists_them() {
    let mut data = NetworkData::default();
    data.record("eth0".to_string(), 23_456_789, 14_567_890);
    data.record("wlan0".to_string(), 0, 0);
    data.record("tun0".to_string(), 0, 1);
    data.record("tun1".to_string(), 1, 0);
    assert_eq!(data.bytes_recv(), 23_456_790);
    assert_eq!(data.bytes_sent(), 14_567_891);
    assert_eq!(
        data.interfaces(),
        &vec![
            ("eth0".to_string(), "UP".to_string()),
            ("wlan0".to_string(), "DOWN".to_string()),
            ("tun0".to_string(), "UP".to_string()),
            ("tun1".to_string(), "UP".to_string()),
        ]
    );
    let html = interfaces_html(data.into_interfaces());
    assert!(html.starts_with(&expected_interface("eth0", "UP", "status-up")));
    assert!(html.ends_with(&expected_interface("tun1", "UP", "status-up")));
}

#[test]
fn totals_that_would_overflow_are_refused() {
    let mut data = NetworkData::default();
    assert!(data.try_record("a".to_string(), u64::MAX, 5));
    assert!(data.fits(0, u64::MAX - 5));
    assert!(!data.fits(1, 0));
    assert!(!data.fits(0, u64::MAX - 4));
    assert!(!data.try_record("b".to_string(), 1, 0));
    assert_eq!(data.bytes_recv(), u64::MAX);
    assert_eq!(data.bytes_sent(), 5);
    assert_eq!(data.interfaces().len(), 1);
    assert!(data.try_record("c".to_string(), 0, u64::MAX - 5));
    assert_eq!(data.bytes_sent(), u64::MAX);
    assert_eq!(data.interfaces().len(), 2);
}

#[test]
fn byte_units() {
    assert_eq!(ByteUnit::of(0), ByteUnit::Kilobytes);
    assert_eq!(ByteUnit::of(999_999), ByteUnit::Kilobytes);
    assert_eq!(ByteUnit::of(1_000_000), ByteUnit::Megabytes);
    assert_eq!(ByteUnit::of(u64::MAX), ByteUnit::Megabytes);
    assert_eq!(ByteUnit::Kilobytes.divisor(), 1_000);
    assert_eq!(ByteUnit::Megabytes.divisor(), 1_000_000);
    assert_eq!(ByteUnit::Kilobytes.suffix(), "KB");
    assert_eq!(ByteUnit::Megabytes.suffix(), "MB");
}

fn expected_card(client: &Client, class: &str) -> String {
    format!(
        r#"
            <div class="client-card status-{}">
                <h2>Client ID: {}</h2>
                <p>IP: {}</p>
                <p>Porta: {}</p>
                <p>Status: {}</p>
                <p>CID: {}</p>
            </div>
        "#,
        class, client.id, client.ip, client.port, client.status, client.cid
    )
}

#[test]
fn a_card_carries_the_status_in_lower_case_as_its_class() {
    let mut shown = client(1001, "192.168.1.101", "Active", 15847);
    shown.cid = 77;
    let mut out = String::new();
    append_card(&mut out, &shown);
    assert_eq!(out, expected_card(&shown, "active"));
    let odd = client(5, "::1", "ÄRGER", 1);
    let mut out = String::from("x");
    append_card(&mut out, &odd);
    assert_eq!(out, format!("x{}", expected_card(&odd, "ärger")));
}

#[test]
fn cards_of_the_registry() {
    let mut registry = HashMap::new();
    assert_eq!(cards_html(&registry), "");
    let first = client(1, "10.0.0.1", "ACTIVE", 10);
    let second = client(2, "10.0.0.2", "pending", 20);
    registry.insert(1, first.clone());
    assert_eq!(cards_html(&registry), expected_card(&first, "active"));
    registry.insert(2, second.clone());
    let html = cards_html(&registry);
    let one = expected_card(&first, "active");
    let two = expected_card(&second, "pending");
    assert!(html == format!("{}{}", one, two) || html == format!("{}{}", two, one));
}

#[test]
fn comparison_ignores_the_case_of_ascii_letters_only() {
    assert!(eq_ignoring_ascii_case("active", "ACTIVE"));
    assert!(eq_ignoring_ascii_case("AcTiVe", "aCtIvE"));
    assert!(eq_ignoring_ascii_case("", ""));
    assert!(eq_ignoring_ascii_case("a-1 z", "A-1 Z"));
    assert!(!eq_ignoring_ascii_case("active", "activ"));
    assert!(!eq_ignoring_ascii_case("active", "inactive"));
    assert!(!eq_ignoring_ascii_case("@", "`"));
    assert!(!eq_ignoring_ascii_case("[", "{"));
    assert!(!eq_ignoring_ascii_case("ä", "Ä"));
    assert!(eq_ignoring_ascii_case("äB", "äb"));
    assert!(!eq_ignoring_ascii_case("K", "\u{212a}"));
}

#[test]
fn statuses_are_counted_without_regard_to_case() {
    let mut registry = HashMap::new();
    assert_eq!(count_status(&registry, "active"), 0);
    registry.insert(1, client(1, "a", "active", 1));
    registry.insert(2, client(2, "b", "ACTIVE", 2));
    registry.insert(3, client(3, "c", "inactive", 3));
    registry.insert(4, client(4, "d", "Inactive", 4));
    registry.insert(5, client(5, "e", "pending", 5));
    registry.insert(6, client(6, "f", "Active", 6));
    registry.insert(7, client(7, "g", "active ", 7));
    assert_eq!(count_status(&registry, "active"), 3);
    assert_eq!(count_status(&registry, "inactive"), 2);
    assert_eq!(count_status(&registry, "PENDING"), 1);
    assert_eq!(count_status(&registry, "gone"), 0);
}

#[test]
fn a_submitted_client_is_stored_under_its_identifier() {
    let mut registry = HashMap::new();
    let reply = accept_command(&mut registry, Some(client(1001, "192.168.1.101", "inactive", 15847)));
    assert_eq!(reply, CommandReply::Stored);
    assert_eq!(reply.status(), 200);
    assert_eq!(registry.len(), 1);
    assert_eq!(registry[&1001].ip, "192.168.1.101");
    let reply = accept_command(&mut registry, Some(client(1001, "192.168.1.7", "active", 1)));
    assert_eq!(reply, CommandReply::Stored);
    assert_eq!(registry.len(), 1);
    assert_eq!(registry[&1001].ip, "192.168.1.7");
    assert_eq!(registry[&1001].status, "active");
    let reply = accept_command(&mut registry, None);
    assert_eq!(reply, CommandReply::Invalid);
    assert_eq!(reply.status(), 400);
    assert_eq!(registry.len(), 1);
}
