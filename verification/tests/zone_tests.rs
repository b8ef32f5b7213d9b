use pkarr::zone::{PkarrZone, RecordData, ZoneError};

fn simplified_zone() -> String {
    String::from(
        "
@	IN	NS	dns1.example.com.
@	IN	NS	dns2.example.com.


@	IN	MX	10	mail.example.com.
@	IN	MX	20	mail2.example.com.

@   IN  A 127.0.0.1
test    IN  A 127.0.0.1


dns1	IN	A	10.0.1.1
dns2	IN	A	10.0.1.2

yolo    IN  TXT  testsev
",
    )
}

#[test]
fn test_create_entries() {
    let simplified_zone = simplified_zone();
    let zone = PkarrZone::read(simplified_zone, "123456");
    let zone = zone.unwrap();
    assert_eq!(zone.packet().answers.len(), 9);

    println!("{zone:#?}");
}

#[test]
fn test_transform() {
    let simplified_zone = simplified_zone();
    let zone = PkarrZone::read(simplified_zone, "123456").unwrap();
    let packet = zone.packet();

    println!("{:#?}", packet.answers);
}

#[test]
fn encoded_packet_parses_with_all_records() {
    let zone = PkarrZone::read(simplified_zone(), "123456").unwrap();
    let parsed = simple_dns::Packet::parse(&zone.paket_bytes).unwrap();
    assert_eq!(parsed.answers.len(), 9);

    let mut a_records = 0;
    let mut loopback = 0;
    for answer in &parsed.answers {
        if let simple_dns::rdata::RData::A(a) = &answer.rdata {
            a_records += 1;
            if a.address == 0x7f000001 {
                loopback += 1;
            }
        }
    }
    assert_eq!(a_records, 4);
    assert_eq!(loopback, 2);
}

#[test]
fn records_carry_parsed_values() {
    let zone = PkarrZone::read(String::from("@ IN A 127.0.0.1\nweb IN TXT hello\n"), "123456")
        .unwrap();
    assert_eq!(zone.records.len(), 2);
    assert!(matches!(zone.records[0].data, RecordData::A(0x7f000001)));
    assert_eq!(zone.records[0].owner, "123456");
    assert!(matches!(zone.records[1].data, RecordData::Txt(_)));
}

#[test]
fn generate_soa_embeds_the_key() {
    let soa = PkarrZone::generate_soa("123456");
    assert!(soa.starts_with("$ORIGIN 123456. "));
    assert!(soa.contains("SOA"));
    assert!(soa.contains("86400"));
}

#[test]
fn unsupported_record_type_is_rejected() {
    let r = PkarrZone::read(String::from("www IN CNAME host.example.com.\n"), "123456");
    assert!(matches!(r, Err(ZoneError::Unsupported)));
}

#[test]
fn malformed_zone_is_rejected() {
    let r = PkarrZone::read(String::from("@ IN A (\n"), "123456");
    assert!(matches!(r, Err(ZoneError::Parse)));
}
