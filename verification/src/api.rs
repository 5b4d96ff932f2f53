//! The exported operations, one per protocol step.
//!
//! Each operation parses the caller's configuration string, fails fast with
//! an invalid-configuration response before any cryptographic work when it
//! is rejected, runs the protocol step otherwise, and packs the outputs into
//! the response envelope.  The embedding layer is responsible only for
//! converting raw boundary values to the plain arguments taken here and for
//! containing panics; everything it hands over is checked again by these
//! contracts.
use vstd::prelude::*;

use crate::Error;
use crate::config::CipherConfiguration;
use crate::config::Ksf;
use crate::config::config_chars;
use crate::config::suite_of;
use crate::marshal::Response;
use crate::marshal::response_wf;
use crate::marshal::slot;
use crate::parse::parse_config_bytes;
use crate::protocol::register_seeded_fake_config as register_seeded_fake_config_core;
use crate::rng::seed_array;
use crate::suite::CLIENT_LOGIN_STATE_LEN;
use crate::suite::CLIENT_REGISTRATION_STATE_LEN;
use crate::suite::CREDENTIAL_FINALIZATION_LEN;
use crate::suite::CREDENTIAL_REQUEST_LEN;
use crate::suite::CREDENTIAL_RESPONSE_LEN;
use crate::suite::EXPORT_KEY_LEN;
use crate::suite::REGISTRATION_REQUEST_LEN;
use crate::suite::REGISTRATION_RESPONSE_LEN;
use crate::suite::REGISTRATION_UPLOAD_LEN;
use crate::suite::SERVER_LOGIN_STATE_LEN;
use crate::suite::SERVER_PUBLIC_KEY_LEN;
use crate::suite::SERVER_REGISTRATION_LEN;
use crate::suite::SERVER_SETUP_LEN;
use crate::suite::SESSION_KEY_LEN;
use crate::suite::argon_params_ok;
use crate::suite::login_finish_argon_of;
use crate::suite::login_finish_identity_of;
use crate::suite::registration_finish_argon_ok;
use crate::suite::registration_finish_identity_ok;
use crate::suite::registration_response_pk_of;
use crate::suite::server_login_accepts;
use crate::suite::server_record_of;
use crate::suite::server_registration_response_of;
use crate::suite::session_key_of;
use vstd::string::StringSliceAdditionalSpecFns;
use vstd::utf8::encode_utf8;

verus! {

/// A configuration string the operations reject: one that does not parse,
/// or one that parses to a combination no cipher suite supports.
pub open spec fn config_rejected(s: Seq<u8>) -> bool {
    match parse_config_bytes(s) {
        None => true,
        Some(d) => suite_of(d) is None,
    }
}

/// A configuration that parses and selects Argon2id with costs outside the
/// algorithm's range; only then can a key-stretching step reject the costs.
pub open spec fn config_argon_bad(s: Seq<u8>) -> bool {
    match parse_config_bytes(s) {
        None => false,
        Some(d) => match suite_of(d) {
            Some(Ksf::Argon2id(p)) => !argon_params_ok(p.memory, p.iterations, p.parallelism),
            _ => false,
        },
    }
}

/// What the client's login finish yields for a configuration string and the
/// given inputs: the named collaborator outcome under the selected
/// stretching treatment, or nothing when the configuration is rejected or
/// its costs are out of range.
pub open spec fn login_finish_for_config(
    s: Seq<u8>,
    state: Seq<u8>,
    credential_response: Seq<u8>,
    password: Seq<u8>,
) -> Option<(Seq<u8>, Seq<u8>, Seq<u8>, Seq<u8>)> {
    match parse_config_bytes(s) {
        None => None,
        Some(d) => match suite_of(d) {
            Some(Ksf::Argon2id(p)) => if argon_params_ok(p.memory, p.iterations, p.parallelism) {
                login_finish_argon_of(
                    state,
                    credential_response,
                    password,
                    p.memory,
                    p.iterations,
                    p.parallelism,
                )
            } else {
                None
            },
            Some(Ksf::Identity) => login_finish_identity_of(state, credential_response, password),
            None => None,
        },
    }
}

/// Whether the client's registration finish is sure to succeed for a
/// configuration string and the given inputs, whatever the generator
/// yields for the envelope nonce.
pub open spec fn registration_finish_sure(
    s: Seq<u8>,
    state: Seq<u8>,
    registration_response: Seq<u8>,
    password: Seq<u8>,
) -> bool {
    match parse_config_bytes(s) {
        None => false,
        Some(d) => match suite_of(d) {
            Some(Ksf::Argon2id(p)) => argon_params_ok(p.memory, p.iterations, p.parallelism)
                && registration_finish_argon_ok(
                state,
                registration_response,
                password,
                p.memory,
                p.iterations,
                p.parallelism,
            ),
            Some(Ksf::Identity) => registration_finish_identity_ok(
                state,
                registration_response,
                password,
            ),
            None => false,
        },
    }
}

/// The message carried by an invalid-configuration response: the offending
/// text itself when the configuration does not parse, its canonical
/// serialization when it parses to an unsupported combination.
pub open spec fn rejected_message(config: &str) -> Seq<u8> {
    match parse_config_bytes(config.spec_bytes()) {
        None => config.spec_bytes(),
        Some(d) => encode_utf8(config_chars(d)),
    }
}

/// Registration, client side, start.  On success, slot 0 carries the
/// registration request and slot 1 the client state.
pub fn start_client_registration(config: &str, password: &str) -> (r: Response)
    ensures
        response_wf(r),
        r.error == 0 || r.error == 2,
        r.error == 2 <==> config_rejected(config.spec_bytes()),
        config_rejected(config.spec_bytes()) ==> r.error_message@ == Some(
            rejected_message(config),
        ),
        r.error != 0 ==> forall|i: int| 0 <= i < 4 ==> slot(r, i) is None,
        r.error == 0 ==> (slot(r, 0) matches Some(b) && b.len() == REGISTRATION_REQUEST_LEN) && (
        slot(r, 1) matches Some(b) && b.len() == CLIENT_REGISTRATION_STATE_LEN) && slot(r, 2)
            is None && slot(r, 3) is None,
{
    let mut cfg = match CipherConfiguration::from_str(config) {
        Ok(c) => c,
        Err(e) => {
            return Response::error(e);
        },
    };
    match cfg.start_client_registration(password) {
        Ok(res) => {
            let mut data: Vec<Vec<u8>> = Vec::new();
            data.push(res.registration_request);
            data.push(res.state);
            Response::ok(data)
        },
        Err(e) => Response::error(e),
    }
}

/// Registration, server side, start.  On success, slot 0 carries the
/// registration response and slot 1 the server setup: the supplied one
/// unchanged, or a fresh one when none was supplied.
pub fn start_server_registration(
    config: &str,
    server_setup: Option<&[u8]>,
    registration_request: &[u8],
    username: &str,
) -> (r: Response)
    ensures
        response_wf(r),
        r.error == 0 || r.error == 2 || r.error == 3,
        r.error == 2 <==> config_rejected(config.spec_bytes()),
        config_rejected(config.spec_bytes()) ==> r.error_message@ == Some(
            rejected_message(config),
        ),
        r.error != 0 ==> forall|i: int| 0 <= i < 4 ==> slot(r, i) is None,
        match server_setup {
            Some(s) => !config_rejected(config.spec_bytes()) ==> (r.error == 0
                <==> server_registration_response_of(
                s@,
                registration_request@,
                username.spec_bytes(),
            ) is Some),
            None => true,
        },
        r.error == 0 ==> (slot(r, 0) matches Some(b) && b.len() == REGISTRATION_RESPONSE_LEN) && (
        match server_setup {
            Some(s) => slot(r, 1) == Some(s@),
            None => slot(r, 1) matches Some(b) && b.len() == SERVER_SETUP_LEN,
        }) && (slot(r, 1) matches Some(su) && server_registration_response_of(
            su,
            registration_request@,
            username.spec_bytes(),
        ) == slot(r, 0)) && slot(r, 2) is None && slot(r, 3) is None,
{
    let mut cfg = match CipherConfiguration::from_str(config) {
        Ok(c) => c,
        Err(e) => {
            return Response::error(e);
        },
    };
    match cfg.start_server_registration(server_setup, registration_request, username) {
        Ok(res) => {
            let mut data: Vec<Vec<u8>> = Vec::new();
            data.push(res.registration_response);
            data.push(res.server_setup);
            Response::ok(data)
        },
        Err(e) => Response::error(e),
    }
}

/// Registration, client side, finish.  On success, slot 0 carries the
/// registration upload, slot 1 the export key, slot 2 the server's static
/// public key.
pub fn finish_client_registration(
    config: &str,
    state: &[u8],
    registration_response: &[u8],
    password: &str,
) -> (r: Response)
    ensures
        response_wf(r),
        r.error == 0 || r.error == 2 || r.error == 3,
        config_rejected(config.spec_bytes()) ==> r.error == 2,
        config_rejected(config.spec_bytes()) ==> r.error_message@ == Some(
            rejected_message(config),
        ),
        r.error == 2 <==> config_rejected(config.spec_bytes()) || config_argon_bad(
            config.spec_bytes(),
        ),
        registration_finish_sure(
            config.spec_bytes(),
            state@,
            registration_response@,
            password.spec_bytes(),
        ) ==> r.error == 0,
        r.error != 0 ==> forall|i: int| 0 <= i < 4 ==> slot(r, i) is None,
        r.error == 0 ==> (slot(r, 0) matches Some(b) && b.len() == REGISTRATION_UPLOAD_LEN) && (
        slot(r, 1) matches Some(b) && b.len() == EXPORT_KEY_LEN) && (slot(r, 2) matches Some(b)
            && b.len() == SERVER_PUBLIC_KEY_LEN) && registration_response_pk_of(
            registration_response@,
        ) == slot(r, 2) && slot(r, 3) is None,
{
    let mut cfg = match CipherConfiguration::from_str(config) {
        Ok(c) => c,
        Err(e) => {
            return Response::error(e);
        },
    };
    match cfg.finish_client_registration(state, registration_response, password) {
        Ok(res) => {
            let mut data: Vec<Vec<u8>> = Vec::new();
            data.push(res.registration_upload);
            data.push(res.export_key);
            data.push(res.server_s_pk);
            Response::ok(data)
        },
        Err(e) => Response::error(e),
    }
}

/// Registration, server side, finish.  On success, slot 0 carries the
/// registration record to persist for this user.
pub fn finish_server_registration(config: &str, registration_upload: &[u8]) -> (r: Response)
    ensures
        response_wf(r),
        r.error == 0 || r.error == 2 || r.error == 3,
        r.error == 2 <==> config_rejected(config.spec_bytes()),
        config_rejected(config.spec_bytes()) ==> r.error_message@ == Some(
            rejected_message(config),
        ),
        r.error == 0 <==> !config_rejected(config.spec_bytes()) && server_record_of(
            registration_upload@,
        ) is Some,
        r.error != 0 ==> forall|i: int| 0 <= i < 4 ==> slot(r, i) is None,
        r.error == 0 ==> (slot(r, 0) matches Some(b) && b.len() == SERVER_REGISTRATION_LEN)
            && server_record_of(registration_upload@) == slot(r, 0) && slot(r, 1) is None && slot(
            r,
            2,
        ) is None && slot(r, 3) is None,
{
    let mut cfg = match CipherConfiguration::from_str(config) {
        Ok(c) => c,
        Err(e) => {
            return Response::error(e);
        },
    };
    match cfg.finish_server_registration(registration_upload) {
        Ok(res) => {
            let mut data: Vec<Vec<u8>> = Vec::new();
            data.push(res.server_registration);
            Response::ok(data)
        },
        Err(e) => Response::error(e),
    }
}

/// Login, client side, start.  On success, slot 0 carries the credential
/// request and slot 1 the client login state.
pub fn start_client_login(config: &str, password: &str) -> (r: Response)
    ensures
        response_wf(r),
        r.error == 0 || r.error == 2,
        r.error == 2 <==> config_rejected(config.spec_bytes()),
        config_rejected(config.spec_bytes()) ==> r.error_message@ == Some(
            rejected_message(config),
        ),
        r.error != 0 ==> forall|i: int| 0 <= i < 4 ==> slot(r, i) is None,
        r.error == 0 ==> (slot(r, 0) matches Some(b) && b.len() == CREDENTIAL_REQUEST_LEN) && (
        slot(r, 1) matches Some(b) && b.len() == CLIENT_LOGIN_STATE_LEN) && slot(r, 2) is None
            && slot(r, 3) is None,
{
    let mut cfg = match CipherConfiguration::from_str(config) {
        Ok(c) => c,
        Err(e) => {
            return Response::error(e);
        },
    };
    match cfg.start_client_login(password) {
        Ok(res) => {
            let mut data: Vec<Vec<u8>> = Vec::new();
            data.push(res.credential_request);
            data.push(res.state);
            Response::ok(data)
        },
        Err(e) => Response::error(e),
    }
}

/// Login, server side, start.  Both the persisted server setup and the
/// user's registration record are required.  On success, slot 0 carries the
/// credential response and slot 1 the server login state.
pub fn start_server_login(
    config: &str,
    server_setup: &[u8],
    server_registration: &[u8],
    credential_request: &[u8],
    username: &str,
) -> (r: Response)
    ensures
        response_wf(r),
        r.error == 0 || r.error == 2 || r.error == 3,
        r.error == 2 <==> config_rejected(config.spec_bytes()),
        config_rejected(config.spec_bytes()) ==> r.error_message@ == Some(
            rejected_message(config),
        ),
        r.error != 0 ==> forall|i: int| 0 <= i < 4 ==> slot(r, i) is None,
        !config_rejected(config.spec_bytes()) && server_login_accepts(
            server_setup@,
            server_registration@,
            credential_request@,
            username.spec_bytes(),
        ) ==> r.error == 0,
        r.error == 0 ==> (slot(r, 0) matches Some(b) && b.len() == CREDENTIAL_RESPONSE_LEN) && (
        slot(r, 1) matches Some(b) && b.len() == SERVER_LOGIN_STATE_LEN) && slot(r, 2) is None
            && slot(r, 3) is None,
{
    let mut cfg = match CipherConfiguration::from_str(config) {
        Ok(c) => c,
        Err(e) => {
            return Response::error(e);
        },
    };
    match cfg.start_server_login(server_setup, server_registration, credential_request, username) {
        Ok(res) => {
            let mut data: Vec<Vec<u8>> = Vec::new();
            data.push(res.credential_response);
            data.push(res.state);
            Response::ok(data)
        },
        Err(e) => Response::error(e),
    }
}

/// Login, client side, finish.  On success, slot 0 carries the credential
/// finalization, slot 1 the session key, slot 2 the export key, slot 3 the
/// server's static public key.  A wrong password fails here, indistinguishable
/// from any other protocol failure.
pub fn finish_client_login(
    config: &str,
    state: &[u8],
    credential_response: &[u8],
    password: &str,
) -> (r: Response)
    ensures
        response_wf(r),
        r.error == 0 || r.error == 2 || r.error == 3,
        config_rejected(config.spec_bytes()) ==> r.error == 2,
        config_rejected(config.spec_bytes()) ==> r.error_message@ == Some(
            rejected_message(config),
        ),
        r.error == 2 <==> config_rejected(config.spec_bytes()) || config_argon_bad(
            config.spec_bytes(),
        ),
        r.error == 0 <==> login_finish_for_config(
            config.spec_bytes(),
            state@,
            credential_response@,
            password.spec_bytes(),
        ) is Some,
        r.error != 0 ==> forall|i: int| 0 <= i < 4 ==> slot(r, i) is None,
        r.error == 0 ==> (slot(r, 0) matches Some(b) && b.len() == CREDENTIAL_FINALIZATION_LEN)
            && (slot(r, 1) matches Some(b) && b.len() == SESSION_KEY_LEN) && (slot(r, 2) matches
        Some(b) && b.len() == EXPORT_KEY_LEN) && (slot(r, 3) matches Some(b) && b.len()
            == SERVER_PUBLIC_KEY_LEN) && (login_finish_for_config(
            config.spec_bytes(),
            state@,
            credential_response@,
            password.spec_bytes(),
        ) matches Some(t) && slot(r, 0) == Some(t.0) && slot(r, 1) == Some(t.1) && slot(r, 2)
            == Some(t.2) && slot(r, 3) == Some(t.3)),
{
    let mut cfg = match CipherConfiguration::from_str(config) {
        Ok(c) => c,
        Err(e) => {
            return Response::error(e);
        },
    };
    match cfg.finish_client_login(state, credential_response, password) {
        Ok(res) => {
            let mut data: Vec<Vec<u8>> = Vec::new();
            data.push(res.credential_finalization);
            data.push(res.session_key);
            data.push(res.export_key);
            data.push(res.server_s_pk);
            Response::ok(data)
        },
        Err(e) => Response::error(e),
    }
}

/// Login, server side, finish.  On success, slot 0 carries the session key,
/// now shared with the client.
pub fn finish_server_login(config: &str, state: &[u8], credential_finalization: &[u8]) -> (r:
    Response)
    ensures
        response_wf(r),
        r.error == 0 || r.error == 2 || r.error == 3,
        r.error == 2 <==> config_rejected(config.spec_bytes()),
        config_rejected(config.spec_bytes()) ==> r.error_message@ == Some(
            rejected_message(config),
        ),
        r.error == 0 <==> !config_rejected(config.spec_bytes()) && session_key_of(
            state@,
            credential_finalization@,
        ) is Some,
        r.error != 0 ==> forall|i: int| 0 <= i < 4 ==> slot(r, i) is None,
        r.error == 0 ==> (slot(r, 0) matches Some(b) && b.len() == SESSION_KEY_LEN)
            && session_key_of(state@, credential_finalization@) == slot(r, 0) && slot(r, 1)
            is None && slot(r, 2) is None && slot(r, 3) is None,
{
    let mut cfg = match CipherConfiguration::from_str(config) {
        Ok(c) => c,
        Err(e) => {
            return Response::error(e);
        },
    };
    match cfg.finish_server_login(state, credential_finalization) {
        Ok(res) => {
            let mut data: Vec<Vec<u8>> = Vec::new();
            data.push(res.session_key);
            Response::ok(data)
        },
        Err(e) => Response::error(e),
    }
}

/// The deterministic self-test fixture over a caller-supplied 32-byte seed.
/// On success, slot 0 carries the server setup and slot 1 the registration
/// record.
pub fn register_seeded_fake_config(seed: &[u8]) -> (r: Response)
    ensures
        response_wf(r),
        r.error == 0 || r.error == 1 || r.error == 2 || r.error == 3,
        r.error == 1 <==> seed@.len() != 32,
        r.error == 1 ==> r.error_message@ == Some(encode_utf8("Seed must be 32 bytes"@)),
        r.error != 0 ==> forall|i: int| 0 <= i < 4 ==> slot(r, i) is None,
        r.error == 0 ==> seed@.len() == 32 && (slot(r, 0) matches Some(b) && b.len()
            == SERVER_SETUP_LEN) && (slot(r, 1) matches Some(b) && b.len()
            == SERVER_REGISTRATION_LEN) && slot(r, 2) is None && slot(r, 3) is None,
{
    if seed.len() != 32 {
        return Response::error(
            Error::InvalidInput(String::from_str("Seed must be 32 bytes")),
        );
    }
    let seed = seed_array(seed);
    match register_seeded_fake_config_core(seed) {
        Ok((server_setup, server_registration)) => {
            let mut data: Vec<Vec<u8>> = Vec::new();
            data.push(server_setup);
            data.push(server_registration);
            Response::ok(data)
        },
        Err(e) => Response::error(e),
    }
}

} // verus!

