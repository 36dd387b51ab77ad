use gcpdyndns::error::Error;
use gcpdyndns::external::{AddressFamily, ExternalIp};
use gcpdyndns::providers::google_cloud::{DnsPatch, GcpArgs, DNS_API_URL};
use gcpdyndns::providers::{normalize_record_name, outcome, ProviderReply, RecordType, RecordUpdate};

fn args() -> GcpArgs {
    GcpArgs {
        auth_file: "/etc/gcpdyndns/key.json".to_string(),
        project: "my-project".to_string(),
        zone: "home-zone".to_string(),
        hostname: "home.example.org".to_string(),
    }
}

#[test]
fn v4_address_goes_into_an_a_record() {
    assert_eq!(RecordType::for_family(AddressFamily::V4), RecordType::A);
    assert_eq!(RecordType::A.as_text(), "A");
    let ip = ExternalIp::new("203.0.113.5".to_string(), AddressFamily::V4);
    assert_eq!(RecordUpdate::new("home.example.org", &ip).record_type(), RecordType::A);
}

#[test]
fn v6_address_goes_into_an_aaaa_record() {
    assert_eq!(RecordType::for_family(AddressFamily::V6), RecordType::Aaaa);
    assert_eq!(RecordType::Aaaa.as_text(), "AAAA");
    let ip = ExternalIp::new("2001:db8::1".to_string(), AddressFamily::V6);
    assert_eq!(RecordUpdate::new("home.example.org", &ip).record_type(), RecordType::Aaaa);
}

#[test]
fn name_without_a_dot_gets_one() {
    assert_eq!(normalize_record_name("home.example.org"), "home.example.org.");
    assert_eq!(normalize_record_name("localhost"), "localhost.");
    assert_eq!(normalize_record_name(""), ".");
}

#[test]
fn name_with_a_dot_is_kept() {
    assert_eq!(normalize_record_name("home.example.org."), "home.example.org.");
    assert_eq!(normalize_record_name("."), ".");
    assert_eq!(normalize_record_name("home.example.org.."), "home.example.org..");
}

#[test]
fn normalising_twice_changes_nothing() {
    for name in ["home.example.org", "home.example.org.", "", ".", "caf\u{e9}"] {
        let once = normalize_record_name(name);
        assert_eq!(normalize_record_name(&once), once);
    }
}

#[test]
fn name_that_ends_in_a_wide_character_gets_a_dot() {
    assert_eq!(normalize_record_name("caf\u{e9}"), "caf\u{e9}.");
    assert_eq!(normalize_record_name("caf\u{e9}."), "caf\u{e9}.");
}

#[test]
fn update_carries_name_type_and_address() {
    let ip = ExternalIp::new("203.0.113.5".to_string(), AddressFamily::V4);
    let update = RecordUpdate::new("home.example.org", &ip);
    assert_eq!(update.name(), "home.example.org.");
    assert_eq!(update.record_type(), RecordType::A);
    assert_eq!(update.address(), "203.0.113.5");
    assert_eq!(update, RecordUpdate::new("home.example.org.", &ip));
    assert_eq!(update.clone(), update);
}

#[test]
fn update_has_a_canonical_name_whatever_it_is_made_of() {
    let ip = ExternalIp::new("2001:db8::1".to_string(), AddressFamily::V6);
    for name in ["", ".", "home", "home.", "home.example.org", "caf\u{e9}"] {
        let update = RecordUpdate::new(name, &ip);
        assert!(update.name().ends_with('.'));
        assert!(update.name().starts_with(name));
        assert_eq!(update.clone().name(), update.name());
    }
}

#[test]
fn status_of_success_is_accepted() {
    assert_eq!(outcome(ProviderReply::Status(200)), Ok(()));
    assert_eq!(outcome(ProviderReply::Status(204)), Ok(()));
    assert_eq!(outcome(ProviderReply::Status(299)), Ok(()));
}

#[test]
fn other_status_is_a_provider_failure() {
    for status in [0u16, 100, 199, 300, 301, 400, 403, 404, 500, 503, 999, u16::MAX] {
        assert_eq!(
            outcome(ProviderReply::Status(status)),
            Err(Error::Provider { status: Some(status) })
        );
    }
}

#[test]
fn missing_credentials_are_an_auth_failure() {
    assert_eq!(outcome(ProviderReply::AuthFailed), Err(Error::Auth));
}

#[test]
fn missing_answer_is_a_provider_failure_without_status() {
    assert_eq!(
        outcome(ProviderReply::Unreachable),
        Err(Error::Provider { status: None })
    );
}

#[test]
fn request_for_a_v4_address() {
    let ip = ExternalIp::new("203.0.113.5".to_string(), AddressFamily::V4);
    let update = RecordUpdate::new("home.example.org", &ip);
    assert_eq!(
        args().edit_dns_record(&update),
        DnsPatch {
            url: "https://dns.googleapis.com/dns/v1beta2/projects/my-project/managedZones/home-zone/rrsets/home.example.org./A".to_string(),
            body: "{\"rrdatas\":[\"203.0.113.5\"]}".to_string(),
        }
    );
}

#[test]
fn request_is_made_of_its_parts() {
    let ip = ExternalIp::new("203.0.113.5".to_string(), AddressFamily::V4);
    let update = RecordUpdate::new("home.example.org", &ip);
    assert_eq!(
        args().record_url(&update),
        "https://dns.googleapis.com/dns/v1beta2/projects/my-project/managedZones/home-zone/rrsets/home.example.org./A"
    );
    assert_eq!(
        args().patch(&update, "\"203.0.113.5\""),
        args().edit_dns_record(&update)
    );
    assert_eq!(args().patch(&update, "null").body, "{\"rrdatas\":[null]}");
    assert_eq!(args().clone(), args());
}

#[test]
fn update_of_the_client_s_own_record() {
    let ip = ExternalIp::new("2001:db8::1".to_string(), AddressFamily::V6);
    assert_eq!(
        args().update(&ip),
        DnsPatch {
            url: "https://dns.googleapis.com/dns/v1beta2/projects/my-project/managedZones/home-zone/rrsets/home.example.org./AAAA".to_string(),
            body: "{\"rrdatas\":[\"2001:db8::1\"]}".to_string(),
        }
    );
    assert_eq!(
        args().update(&ip),
        args().edit_dns_record(&RecordUpdate::new("home.example.org", &ip))
    );
}

#[test]
fn request_for_a_v6_address() {
    let ip = ExternalIp::new("2001:db8::1".to_string(), AddressFamily::V6);
    let update = RecordUpdate::new("home.example.org.", &ip);
    let patch = args().edit_dns_record(&update);
    assert_eq!(
        patch.url,
        format!("{}/my-project/managedZones/home-zone/rrsets/home.example.org./AAAA", DNS_API_URL)
    );
    assert_eq!(patch.body, "{\"rrdatas\":[\"2001:db8::1\"]}");
}

#[test]
fn request_body_escapes_the_address() {
    let ip = ExternalIp::new("a\"b".to_string(), AddressFamily::V4);
    let update = RecordUpdate::new("home.example.org.", &ip);
    let patch = args().edit_dns_record(&update);
    assert_eq!(patch.body, "{\"rrdatas\":[\"a\\\"b\"]}");
    let read: serde_json::Value = serde_json::from_str(&patch.body).unwrap();
    assert_eq!(read["rrdatas"][0], serde_json::Value::String("a\"b".to_string()));
}
