//! End-to-end protocol runs through the library's configuration methods.
use opaque_bridge::config::CipherConfiguration;
use opaque_bridge::protocol::register_seeded_fake_config;

#[test]
fn lib_test() {
    let password = "password";
    let username = "username";

    let mut config = CipherConfiguration::default();

    // Registration

    let registration_request = config.start_client_registration(password).unwrap();

    let server_start_result = config
        .start_server_registration(None, &registration_request.registration_request, username)
        .unwrap();

    let client_finish_result = config
        .finish_client_registration(
            &registration_request.state,
            &server_start_result.registration_response,
            password,
        )
        .unwrap();

    let server_finish_result = config
        .finish_server_registration(&client_finish_result.registration_upload)
        .unwrap();

    // Login

    let login_request = config.start_client_login(password).unwrap();

    let server_login_result = config
        .start_server_login(
            &server_start_result.server_setup,
            &server_finish_result.server_registration,
            &login_request.credential_request,
            username,
        )
        .unwrap();

    let client_login_result = config
        .finish_client_login(
            &login_request.state,
            &server_login_result.credential_response,
            password,
        )
        .unwrap();

    let server_login_finish_result = config
        .finish_server_login(
            &server_login_result.state,
            &client_login_result.credential_finalization,
        )
        .unwrap();

    let _ = server_login_finish_result.session_key;
}

#[test]
fn test_seeded() {
    let seed = [0u8; 32];
    let (server_setup, password_file) = register_seeded_fake_config(seed).unwrap();
    assert_eq!(server_setup.len(), 128);
    assert_eq!(password_file.len(), 192);

    let password = "password";
    let username = "username";
    let mut config = CipherConfiguration::default();
    let res = config.start_client_login(password).unwrap();
    let server_res = config
        .start_server_login(
            &server_setup,
            &password_file,
            &res.credential_request,
            username,
        )
        .unwrap();
    let res = config.finish_client_login(&res.state, &server_res.credential_response, password);
    assert!(res.is_err());
}

/// A full registration and login with one password yields byte-identical
/// session keys on both sides, and the login returns the registration's
/// export key.
#[test]
fn session_keys_match() {
    let password = "correct horse battery staple";
    let username = "alice";
    let mut config = CipherConfiguration::default();

    let reg_start = config.start_client_registration(password).unwrap();
    let srv_start = config
        .start_server_registration(None, &reg_start.registration_request, username)
        .unwrap();
    let reg_finish = config
        .finish_client_registration(&reg_start.state, &srv_start.registration_response, password)
        .unwrap();
    let record = config
        .finish_server_registration(&reg_finish.registration_upload)
        .unwrap();

    let login_start = config.start_client_login(password).unwrap();
    let srv_login = config
        .start_server_login(
            &srv_start.server_setup,
            &record.server_registration,
            &login_start.credential_request,
            username,
        )
        .unwrap();
    let client_login = config
        .finish_client_login(&login_start.state, &srv_login.credential_response, password)
        .unwrap();
    let server_login = config
        .finish_server_login(&srv_login.state, &client_login.credential_finalization)
        .unwrap();

    assert_eq!(client_login.session_key, server_login.session_key);
    assert_eq!(client_login.export_key, reg_finish.export_key);
    assert_ne!(client_login.session_key, client_login.export_key);
}

/// Registering with one password and logging in with another fails at the
/// client's login finish, and no session key is produced.
#[test]
fn wrong_password_fails() {
    let username = "bob";
    let mut config = CipherConfiguration::default();

    let reg_start = config.start_client_registration("first password").unwrap();
    let srv_start = config
        .start_server_registration(None, &reg_start.registration_request, username)
        .unwrap();
    let reg_finish = config
        .finish_client_registration(
            &reg_start.state,
            &srv_start.registration_response,
            "first password",
        )
        .unwrap();
    let record = config
        .finish_server_registration(&reg_finish.registration_upload)
        .unwrap();

    let login_start = config.start_client_login("second password").unwrap();
    let srv_login = config
        .start_server_login(
            &srv_start.server_setup,
            &record.server_registration,
            &login_start.credential_request,
            username,
        )
        .unwrap();
    let res = config.finish_client_login(
        &login_start.state,
        &srv_login.credential_response,
        "second password",
    );
    assert!(res.is_err());
}

/// Turning an upload into the persisted record is a pure re-serialization:
/// the same upload always yields the byte-identical record.
#[test]
fn record_is_deterministic() {
    let password = "pw";
    let username = "frank";
    let mut config = CipherConfiguration::default();

    let reg_start = config.start_client_registration(password).unwrap();
    let srv_start = config
        .start_server_registration(None, &reg_start.registration_request, username)
        .unwrap();
    let reg_finish = config
        .finish_client_registration(&reg_start.state, &srv_start.registration_response, password)
        .unwrap();

    let record1 = config
        .finish_server_registration(&reg_finish.registration_upload)
        .unwrap();
    let record2 = config
        .finish_server_registration(&reg_finish.registration_upload)
        .unwrap();
    assert_eq!(record1.server_registration, record2.server_registration);
    assert_eq!(record1.server_registration.len(), 192);
}

/// The export key established at registration is recovered identically by
/// every later login with the same password, stays independent of the
/// session key, and differs between registrations made with different
/// passwords.
#[test]
fn export_key_stable() {
    let username = "carol";
    let password = "a password";
    let mut config = CipherConfiguration::default();

    let register = |config: &mut CipherConfiguration, password: &str| {
        let reg_start = config.start_client_registration(password).unwrap();
        let srv_start = config
            .start_server_registration(None, &reg_start.registration_request, username)
            .unwrap();
        let reg_finish = config
            .finish_client_registration(
                &reg_start.state,
                &srv_start.registration_response,
                password,
            )
            .unwrap();
        let record = config
            .finish_server_registration(&reg_finish.registration_upload)
            .unwrap();
        (
            srv_start.server_setup,
            record.server_registration,
            reg_finish.export_key,
        )
    };

    let (setup, record, export_reg) = register(&mut config, password);

    let login = |config: &mut CipherConfiguration| {
        let start = config.start_client_login(password).unwrap();
        let srv = config
            .start_server_login(&setup, &record, &start.credential_request, username)
            .unwrap();
        config
            .finish_client_login(&start.state, &srv.credential_response, password)
            .unwrap()
    };

    let login1 = login(&mut config);
    let login2 = login(&mut config);

    assert_eq!(login1.export_key, export_reg);
    assert_eq!(login2.export_key, export_reg);
    assert_ne!(login1.session_key, login2.session_key);
    assert_ne!(login1.session_key, login1.export_key);

    let (_, _, export_other) = register(&mut config, "another password");
    assert_ne!(export_other, export_reg);
}
