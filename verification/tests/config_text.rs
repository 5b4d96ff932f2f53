//! The configuration text: parsing, printing, and the accepted grammar.
use opaque_bridge::config::CipherConfiguration;
use opaque_bridge::config::KeyExchange;
use opaque_bridge::config::Ksf;

fn default_text() -> String {
    CipherConfiguration::default().to_string()
}

#[test]
fn default_prints_canonically() {
    assert_eq!(
        default_text(),
        "{\"opaqueVersion\":3,\"oprfCs\":\"ristretto255\",\"keGroup\":\"ristretto255\",\
         \"keyExchange\":\"tripleDh\",\"ksf\":{\"algorithm\":\"argon2id\",\
         \"parameters\":{\"memory\":65536,\"iterations\":4,\"parallelism\":4}}}"
    );
}

#[test]
fn default_round_trips() {
    let c = CipherConfiguration::from_str(&default_text()).unwrap();
    assert_eq!(c.opaque_version, 3);
    assert!(matches!(
        c.ksf,
        Ksf::Argon2id(p) if p.memory == 65536 && p.iterations == 4 && p.parallelism == 4
    ));
    assert_eq!(c.to_string(), default_text());
}

#[test]
fn fields_in_any_order_with_whitespace() {
    let text = " {\n\t\"ksf\": {\"parameters\": {\"parallelism\": 1, \"memory\": 1024,\
                 \"iterations\": 2}, \"algorithm\": \"argon2id\"},\r\n\
                 \"keyExchange\": \"triple-dh\",\
                 \"keGroup\": \"ristretto255\",\
                 \"oprfCS\": \"ristretto255\",\
                 \"opaqueVersion\": 3 } ";
    let c = CipherConfiguration::from_str(text).unwrap();
    assert_eq!(c.opaque_version, 3);
    assert!(matches!(c.key_exchange, KeyExchange::TripleDh));
    assert!(matches!(
        c.ksf,
        Ksf::Argon2id(p) if p.memory == 1024 && p.iterations == 2 && p.parallelism == 1
    ));
}

#[test]
fn key_exchange_spellings() {
    for spelling in ["tripleDh", "tripleDH", "triple-dh"] {
        let text = format!(
            "{{\"opaqueVersion\":3,\"oprfCs\":\"ristretto255\",\"keGroup\":\"ristretto255\",\
             \"keyExchange\":\"{spelling}\",\"ksf\":{{\"algorithm\":\"identity\"}}}}"
        );
        let c = CipherConfiguration::from_str(&text).unwrap();
        assert!(matches!(c.key_exchange, KeyExchange::TripleDh));
        assert!(matches!(c.ksf, Ksf::Identity));
    }
}

#[test]
fn identity_ksf_prints_and_parses() {
    let text = "{\"opaqueVersion\":3,\"oprfCs\":\"ristretto255\",\"keGroup\":\"ristretto255\",\
                \"keyExchange\":\"tripleDh\",\"ksf\":{\"algorithm\":\"identity\"}}";
    let c = CipherConfiguration::from_str(text).unwrap();
    assert!(matches!(c.ksf, Ksf::Identity));
    assert_eq!(c.to_string(), text);
}

#[test]
fn malformed_documents_are_rejected() {
    let bad = [
        // not an object
        "",
        "42",
        "\"opaqueVersion\"",
        // missing field
        "{\"opaqueVersion\":3,\"oprfCs\":\"ristretto255\",\"keGroup\":\"ristretto255\",\
         \"keyExchange\":\"tripleDh\"}",
        // duplicate field
        "{\"opaqueVersion\":3,\"opaqueVersion\":3,\"oprfCs\":\"ristretto255\",\
         \"keGroup\":\"ristretto255\",\"keyExchange\":\"tripleDh\",\
         \"ksf\":{\"algorithm\":\"identity\"}}",
        // unknown field
        "{\"opaqueVersion\":3,\"oprfCs\":\"ristretto255\",\"keGroup\":\"ristretto255\",\
         \"keyExchange\":\"tripleDh\",\"ksf\":{\"algorithm\":\"identity\"},\"extra\":1}",
        // unknown key exchange value
        "{\"opaqueVersion\":3,\"oprfCs\":\"ristretto255\",\"keGroup\":\"ristretto255\",\
         \"keyExchange\":\"dh\",\"ksf\":{\"algorithm\":\"identity\"}}",
        // unknown ksf algorithm
        "{\"opaqueVersion\":3,\"oprfCs\":\"ristretto255\",\"keGroup\":\"ristretto255\",\
         \"keyExchange\":\"tripleDh\",\"ksf\":{\"algorithm\":\"scrypt\"}}",
        // missing argon2id parameters
        "{\"opaqueVersion\":3,\"oprfCs\":\"ristretto255\",\"keGroup\":\"ristretto255\",\
         \"keyExchange\":\"tripleDh\",\"ksf\":{\"algorithm\":\"argon2id\"}}",
        // version out of the 32-bit range
        "{\"opaqueVersion\":4294967296,\"oprfCs\":\"ristretto255\",\"keGroup\":\"ristretto255\",\
         \"keyExchange\":\"tripleDh\",\"ksf\":{\"algorithm\":\"identity\"}}",
        // leading zero
        "{\"opaqueVersion\":03,\"oprfCs\":\"ristretto255\",\"keGroup\":\"ristretto255\",\
         \"keyExchange\":\"tripleDh\",\"ksf\":{\"algorithm\":\"identity\"}}",
        // string escape
        "{\"opaqueVersion\":3,\"oprfCs\":\"ristretto\\u0032\\u0035\\u0035\",\
         \"keGroup\":\"ristretto255\",\"keyExchange\":\"tripleDh\",\
         \"ksf\":{\"algorithm\":\"identity\"}}",
        // trailing garbage
        "{\"opaqueVersion\":3,\"oprfCs\":\"ristretto255\",\"keGroup\":\"ristretto255\",\
         \"keyExchange\":\"tripleDh\",\"ksf\":{\"algorithm\":\"identity\"}} x",
    ];
    for text in bad {
        assert!(CipherConfiguration::from_str(text).is_err(), "accepted: {text}");
    }
}

#[test]
fn number_at_u32_boundary() {
    let ok = "{\"opaqueVersion\":4294967295,\"oprfCs\":\"ristretto255\",\
              \"keGroup\":\"ristretto255\",\"keyExchange\":\"tripleDh\",\
              \"ksf\":{\"algorithm\":\"identity\"}}";
    let c = CipherConfiguration::from_str(ok).unwrap();
    assert_eq!(c.opaque_version, 4294967295);
}
