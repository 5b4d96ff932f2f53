//! The exported operations and the response envelope.
use opaque_bridge::Error;
use opaque_bridge::api;
use opaque_bridge::config::CipherConfiguration;
use opaque_bridge::marshal::Buffer;
use opaque_bridge::marshal::Response;

fn cfg() -> String {
    CipherConfiguration::default().to_string()
}

fn taken(r: &Response, i: usize) -> Vec<u8> {
    r.data[i].as_slice_optional().unwrap().to_vec()
}

fn absent(r: &Response, i: usize) -> bool {
    r.data[i].as_slice_optional().is_none()
}

/// Every entry point rejects a malformed configuration string, and one that
/// parses to an unsupported combination, with the invalid-configuration
/// code, before any cryptographic work.
#[test]
fn every_entry_point_rejects_bad_config() {
    // "version 2" parses but no cipher suite supports it.
    let unsupported = "{\"opaqueVersion\":2,\"oprfCs\":\"ristretto255\",\
                       \"keGroup\":\"ristretto255\",\"keyExchange\":\"tripleDh\",\
                       \"ksf\":{\"algorithm\":\"identity\"}}";
    for config in ["{\"keyExchange\":\"quadrupleDh\"}", "not json at all", unsupported] {
        let buf = vec![0u8; 32];
        let responses = [
            api::start_client_registration(config, "pw"),
            api::start_server_registration(config, None, &buf, "user"),
            api::finish_client_registration(config, &buf, &buf, "pw"),
            api::finish_server_registration(config, &buf),
            api::start_client_login(config, "pw"),
            api::start_server_login(config, &buf, &buf, &buf, "user"),
            api::finish_client_login(config, &buf, &buf, "pw"),
            api::finish_server_login(config, &buf, &buf),
        ];
        for r in responses {
            assert_eq!(r.error, 2, "config: {config}");
            for i in 0..4 {
                assert!(absent(&r, i));
            }
        }
    }

    // An unparsable document is echoed back as the error message; an
    // unsupported one is carried in its canonical serialization.
    let r = api::start_client_login("not json at all", "pw");
    assert_eq!(r.error_message.as_slice_optional().unwrap(), b"not json at all");
    let r = api::start_client_login(unsupported, "pw");
    assert_eq!(
        r.error_message.as_slice_optional().unwrap(),
        "{\"opaqueVersion\":2,\"oprfCs\":\"ristretto255\",\"keGroup\":\"ristretto255\",\
         \"keyExchange\":\"tripleDh\",\"ksf\":{\"algorithm\":\"identity\"}}"
            .as_bytes()
    );
}

/// A full registration and login driven through the exported operations,
/// with every byte string carried by response slots.
#[test]
fn full_flow_through_entry_points() {
    let config = cfg();
    let password = "hunter2!";
    let username = "dave";

    let r = api::start_client_registration(&config, password);
    assert_eq!(r.error, 0);
    let registration_request = taken(&r, 0);
    let client_state = taken(&r, 1);
    assert_eq!(registration_request.len(), 32);
    assert_eq!(client_state.len(), 64);

    let r = api::start_server_registration(&config, None, &registration_request, username);
    assert_eq!(r.error, 0);
    let registration_response = taken(&r, 0);
    let server_setup = taken(&r, 1);
    assert_eq!(registration_response.len(), 64);
    assert_eq!(server_setup.len(), 128);

    // A supplied server setup is validated and handed back unchanged.
    let r = api::start_server_registration(
        &config,
        Some(&server_setup),
        &registration_request,
        username,
    );
    assert_eq!(r.error, 0);
    assert_eq!(taken(&r, 1), server_setup);

    let r = api::finish_client_registration(&config, &client_state, &registration_response, password);
    assert_eq!(r.error, 0);
    let registration_upload = taken(&r, 0);
    let export_key = taken(&r, 1);
    let server_s_pk = taken(&r, 2);
    assert_eq!(registration_upload.len(), 192);
    assert_eq!(export_key.len(), 64);
    assert_eq!(server_s_pk.len(), 32);

    let r = api::finish_server_registration(&config, &registration_upload);
    assert_eq!(r.error, 0);
    let record = taken(&r, 0);
    assert_eq!(record.len(), 192);
    assert!(absent(&r, 1));

    let r = api::start_client_login(&config, password);
    assert_eq!(r.error, 0);
    let credential_request = taken(&r, 0);
    let login_state = taken(&r, 1);
    assert_eq!(credential_request.len(), 96);
    assert_eq!(login_state.len(), 192);

    let r = api::start_server_login(&config, &server_setup, &record, &credential_request, username);
    assert_eq!(r.error, 0);
    let credential_response = taken(&r, 0);
    let server_login_state = taken(&r, 1);
    assert_eq!(credential_response.len(), 320);
    assert_eq!(server_login_state.len(), 192);

    let r = api::finish_client_login(&config, &login_state, &credential_response, password);
    assert_eq!(r.error, 0);
    let finalization = taken(&r, 0);
    let client_session_key = taken(&r, 1);
    assert_eq!(finalization.len(), 64);
    assert_eq!(taken(&r, 2), export_key);
    assert_eq!(taken(&r, 3), server_s_pk);

    let r = api::finish_server_login(&config, &server_login_state, &finalization);
    assert_eq!(r.error, 0);
    assert_eq!(taken(&r, 0), client_session_key);
}

/// The no-op key-stretching suite carries a registration and login end to
/// end, like the Argon2id suite.
#[test]
fn identity_suite_flow() {
    let config = "{\"opaqueVersion\":3,\"oprfCs\":\"ristretto255\",\"keGroup\":\"ristretto255\",\
                  \"keyExchange\":\"tripleDh\",\"ksf\":{\"algorithm\":\"identity\"}}";
    let password = "pw";
    let username = "erin";

    let r = api::start_client_registration(config, password);
    assert_eq!(r.error, 0);
    let request = taken(&r, 0);
    let state = taken(&r, 1);

    let r = api::start_server_registration(config, None, &request, username);
    assert_eq!(r.error, 0);
    let response = taken(&r, 0);
    let setup = taken(&r, 1);

    let r = api::finish_client_registration(config, &state, &response, password);
    assert_eq!(r.error, 0);
    let upload = taken(&r, 0);

    let r = api::finish_server_registration(config, &upload);
    assert_eq!(r.error, 0);
    let record = taken(&r, 0);

    let r = api::start_client_login(config, password);
    assert_eq!(r.error, 0);
    let credential_request = taken(&r, 0);
    let login_state = taken(&r, 1);

    let r = api::start_server_login(config, &setup, &record, &credential_request, username);
    assert_eq!(r.error, 0);
    let credential_response = taken(&r, 0);
    let server_state = taken(&r, 1);

    let r = api::finish_client_login(config, &login_state, &credential_response, password);
    assert_eq!(r.error, 0);
    let finalization = taken(&r, 0);
    let client_session_key = taken(&r, 1);

    let r = api::finish_server_login(config, &server_state, &finalization);
    assert_eq!(r.error, 0);
    assert_eq!(taken(&r, 0), client_session_key);
}

/// Argon2id cost parameters below the algorithm's minimum are rejected as an
/// invalid configuration by the key-stretching steps.
#[test]
fn argon_parameters_out_of_range() {
    let config = "{\"opaqueVersion\":3,\"oprfCs\":\"ristretto255\",\"keGroup\":\"ristretto255\",\
                  \"keyExchange\":\"tripleDh\",\"ksf\":{\"algorithm\":\"argon2id\",\
                  \"parameters\":{\"memory\":1,\"iterations\":1,\"parallelism\":1}}}";
    let password = "pw";

    // The start steps never stretch, so they accept the configuration.
    let r = api::start_client_registration(config, password);
    assert_eq!(r.error, 0);
    let state = taken(&r, 1);

    let r = api::finish_client_registration(config, &state, &[0u8; 64], password);
    assert_eq!(r.error, 2);
    assert_eq!(
        r.error_message.as_slice_optional().unwrap(),
        b"Invalid Argon2 parameters"
    );
}

/// Garbage state bytes surface as a protocol error, never as a crash.
#[test]
fn garbage_bytes_give_protocol_error() {
    let config = cfg();
    let garbage = vec![0xA5u8; 64];
    let r = api::finish_server_registration(&config, &garbage);
    assert_eq!(r.error, 3);
    let message = r.error_message.as_slice_optional().unwrap();
    assert!(!message.is_empty());
}

#[test]
fn seeded_fixture_through_entry_point() {
    let r = api::register_seeded_fake_config(&[0u8; 32]);
    assert_eq!(r.error, 0);
    assert_eq!(taken(&r, 0).len(), 128);
    assert_eq!(taken(&r, 1).len(), 192);
    assert!(absent(&r, 2));
    assert!(absent(&r, 3));

    let r = api::register_seeded_fake_config(&[0u8; 31]);
    assert_eq!(r.error, 1);
}

#[test]
fn buffer_round_trip() {
    let b = Buffer::from_vec(vec![1u8, 2, 3]);
    assert_eq!(b.as_slice().unwrap(), &[1u8, 2, 3]);
    let d = b.duplicate();
    assert_eq!(d.as_slice().unwrap(), &[1u8, 2, 3]);

    let empty = Buffer::from_vec(Vec::new());
    assert_eq!(empty.as_slice().unwrap(), &[] as &[u8]);

    let null = Buffer::null();
    assert!(null.as_slice_optional().is_none());
    assert!(null.as_slice().is_err());
    assert!(null.duplicate().as_slice_optional().is_none());
    null.free();
    Buffer::from_vec(vec![9u8]).free();
}

#[test]
fn response_envelope_shape() {
    let r = Response::ok(vec![vec![1u8], vec![2u8, 2]]);
    assert_eq!(r.error, 0);
    assert!(r.error_message.as_slice_optional().is_none());
    assert_eq!(r.data.len(), 4);
    assert_eq!(taken(&r, 0), vec![1u8]);
    assert_eq!(taken(&r, 1), vec![2u8, 2]);
    assert!(absent(&r, 2));
    assert!(absent(&r, 3));

    let cases = [
        (Error::InvalidInput("a".to_string()), 1),
        (Error::InvalidConfig("b".to_string()), 2),
        (Error::Protocol("c".to_string()), 3),
        (Error::InternalError("d".to_string()), 4),
    ];
    for (e, code) in cases {
        let r = Response::error(e);
        assert_eq!(r.error, code);
        assert_eq!(r.error_message.as_slice_optional().unwrap().len(), 1);
        for i in 0..4 {
            assert!(absent(&r, i));
        }
    }
}
