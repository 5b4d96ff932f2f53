//! Protocol orchestration: the four registration steps and the four login
//! steps, driven from a parsed configuration.
//!
//! Each operation resolves the configuration to a cipher suite, hands the
//! caller's serialized state and messages to the cryptographic collaborator,
//! and returns the serialized results.  State blobs are single-use: a state
//! returned by a start step must be consumed by exactly one matching finish
//! step, and the collaborator's failure on a reused or tampered blob
//! surfaces as a protocol error.
use vstd::prelude::*;

use crate::Error;
use crate::config::CipherConfiguration;
use crate::config::ConfigData;
use crate::config::Ksf;
use crate::config::config_chars;
use crate::config::default_config;
use crate::config::invalid_config;
use crate::config::suite_of;
use crate::rng::hex_encode;
use crate::rng::rng_fill_32;
use crate::suite::CLIENT_LOGIN_STATE_LEN;
use crate::suite::CLIENT_REGISTRATION_STATE_LEN;
use crate::suite::CREDENTIAL_FINALIZATION_LEN;
use crate::suite::CREDENTIAL_REQUEST_LEN;
use crate::suite::CREDENTIAL_RESPONSE_LEN;
use crate::suite::EXPORT_KEY_LEN;
use crate::suite::REGISTRATION_REQUEST_LEN;
use crate::suite::REGISTRATION_RESPONSE_LEN;
use crate::suite::REGISTRATION_UPLOAD_LEN;
use crate::suite::SERVER_LOGIN_STATE_LEN;
use crate::suite::SERVER_PUBLIC_KEY_LEN;
use crate::suite::SERVER_REGISTRATION_LEN;
use crate::suite::SERVER_SETUP_LEN;
use crate::suite::SESSION_KEY_LEN;
use crate::suite::argon_params_ok;
use crate::suite::argon_params_valid;
use crate::suite::client_login_finish_argon;
use crate::suite::client_login_finish_identity;
use crate::suite::client_login_start;
use crate::suite::client_registration_finish_argon;
use crate::suite::client_registration_finish_identity;
use crate::suite::client_registration_start;
use crate::suite::login_finish_argon_of;
use crate::suite::login_finish_identity_of;
use crate::suite::registration_finish_argon_ok;
use crate::suite::registration_finish_identity_ok;
use crate::suite::registration_response_pk_of;
use crate::suite::server_login_accepts;
use crate::suite::server_login_finish;
use crate::suite::server_login_start;
use crate::suite::server_record_of;
use crate::suite::server_registration_finish;
use crate::suite::server_registration_response_of;
use crate::suite::server_registration_start;
use crate::suite::server_setup_new;
use crate::suite::session_key_of;
use vstd::slice::slice_to_vec;
use vstd::string::StringSliceAdditionalSpecFns;

verus! {

broadcast use crate::config::lemma_config_view;

/// What a client registration start step hands back: the request for the
/// server, and the state the client must keep for its finish step.
pub struct ClientRegistrationStartResult {
    pub registration_request: Vec<u8>,
    pub state: Vec<u8>,
}

/// What a server registration start step hands back: the response for the
/// client, and the long-lived server setup the caller must persist.
pub struct ServerRegistrationStartResult {
    pub registration_response: Vec<u8>,
    pub server_setup: Vec<u8>,
}

/// What a client registration finish step hands back.
pub struct ClientRegistrationFinishResult {
    pub registration_upload: Vec<u8>,
    pub export_key: Vec<u8>,
    pub server_s_pk: Vec<u8>,
}

/// What a server registration finish step hands back: the per-user record
/// the caller persists.
pub struct ServerRegistrationFinishResult {
    pub server_registration: Vec<u8>,
}

/// What a client login start step hands back.
pub struct ClientLoginStartResult {
    pub credential_request: Vec<u8>,
    pub state: Vec<u8>,
}

/// What a server login start step hands back.
pub struct ServerLoginStartResult {
    pub credential_response: Vec<u8>,
    pub state: Vec<u8>,
}

/// What a client login finish step hands back.
pub struct ClientLoginFinishResult {
    pub credential_finalization: Vec<u8>,
    pub session_key: Vec<u8>,
    pub export_key: Vec<u8>,
    pub server_s_pk: Vec<u8>,
}

/// What a server login finish step hands back.
pub struct ServerLoginFinishResult {
    pub session_key: Vec<u8>,
}

/// The errors an operation without a key-stretching step can fail with: the
/// unsupported-configuration error carrying the serialized configuration, or
/// a protocol failure from the collaborator.
pub open spec fn plain_op_error(c: ConfigData, e: Error) -> bool {
    match suite_of(c) {
        None => e matches Error::InvalidConfig(m) && m@ == config_chars(c),
        Some(_) => e matches Error::Protocol(_),
    }
}

/// The errors an operation with a key-stretching step can fail with: the
/// unsupported-configuration error carrying the serialized configuration;
/// the rejected-cost error, exactly when the configuration selects Argon2id
/// with costs outside the algorithm's range; else a protocol failure from
/// the collaborator.
pub open spec fn ksf_op_error(c: ConfigData, e: Error) -> bool {
    match suite_of(c) {
        None => e matches Error::InvalidConfig(m) && m@ == config_chars(c),
        Some(Ksf::Argon2id(p)) => if argon_params_ok(p.memory, p.iterations, p.parallelism) {
            e matches Error::Protocol(_)
        } else {
            e matches Error::InvalidConfig(m) && m@ == "Invalid Argon2 parameters"@
        },
        Some(Ksf::Identity) => e matches Error::Protocol(_),
    }
}

impl CipherConfiguration {
    /// Registration, client side, start: blind the password.  No prior state
    /// is required, and on a supported configuration the step always
    /// succeeds, whatever the password.
    pub fn start_client_registration(&mut self, password: &str) -> (r: Result<
        ClientRegistrationStartResult,
        Error,
    >)
        ensures
            final(self)@ == old(self)@,
            r is Ok <==> suite_of(old(self)@) is Some,
            match r {
                Ok(res) => res.registration_request@.len() == REGISTRATION_REQUEST_LEN
                    && res.state@.len() == CLIENT_REGISTRATION_STATE_LEN,
                Err(e) => e matches Error::InvalidConfig(m) && m@ == config_chars(old(self)@),
            },
    {
        if self.select_suite().is_none() {
            return Err(invalid_config(self));
        }
        match client_registration_start(&mut self.rng, password.as_bytes()) {
            Ok((registration_request, state)) => Ok(
                ClientRegistrationStartResult { registration_request, state },
            ),
            Err(m) => Err(Error::Protocol(m)),
        }
    }

    /// Registration, server side, start: answer a registration request.  If
    /// no server setup is supplied, fresh long-lived keying material is
    /// generated; a supplied setup is validated and handed back unchanged,
    /// so that every registration for one server identity shares one key.
    /// The response is a function of the setup, request and username alone:
    /// with a supplied setup the step succeeds exactly where that function
    /// is defined, and on success it returns its value.
    pub fn start_server_registration(
        &mut self,
        server_setup: Option<&[u8]>,
        registration_request: &[u8],
        username: &str,
    ) -> (r: Result<ServerRegistrationStartResult, Error>)
        ensures
            final(self)@ == old(self)@,
            match r {
                Ok(res) => suite_of(old(self)@) is Some && res.registration_response@.len()
                    == REGISTRATION_RESPONSE_LEN && server_registration_response_of(
                    res.server_setup@,
                    registration_request@,
                    username.spec_bytes(),
                ) == Some(res.registration_response@) && (match server_setup {
                    Some(s) => res.server_setup@ == s@,
                    None => res.server_setup@.len() == SERVER_SETUP_LEN,
                }),
                Err(e) => plain_op_error(old(self)@, e) && (match server_setup {
                    Some(s) => suite_of(old(self)@) is Some
                        ==> server_registration_response_of(
                        s@,
                        registration_request@,
                        username.spec_bytes(),
                    ) is None,
                    None => true,
                }),
            },
    {
        if self.select_suite().is_none() {
            return Err(invalid_config(self));
        }
        let setup: Vec<u8> = match server_setup {
            Some(s) => slice_to_vec(s),
            None => server_setup_new(&mut self.rng),
        };
        match server_registration_start(
            setup.as_slice(),
            registration_request,
            username.as_bytes(),
        ) {
            Ok(registration_response) => Ok(
                ServerRegistrationStartResult { registration_response, server_setup: setup },
            ),
            Err(m) => Err(Error::Protocol(m)),
        }
    }

    /// Registration, client side, finish: open the server's response,
    /// stretch the password with the configured treatment, and produce the
    /// upload.  Registration holds no server-side secret, so a wrong
    /// password cannot fail here; only malformed inputs can.  The returned
    /// server public key is the one carried by the response; the upload and
    /// export key also depend on the freshly drawn envelope nonce.  Under
    /// Argon2id the stretching step is deliberately expensive and dominates
    /// the latency of this call.
    pub fn finish_client_registration(
        &mut self,
        state: &[u8],
        registration_response: &[u8],
        password: &str,
    ) -> (r: Result<ClientRegistrationFinishResult, Error>)
        ensures
            final(self)@ == old(self)@,
            match r {
                Ok(res) => suite_of(old(self)@) is Some && res.registration_upload@.len()
                    == REGISTRATION_UPLOAD_LEN && res.export_key@.len() == EXPORT_KEY_LEN
                    && registration_response_pk_of(registration_response@) == Some(
                    res.server_s_pk@,
                ) && res.server_s_pk@.len() == SERVER_PUBLIC_KEY_LEN && (match suite_of(
                    old(self)@,
                ) {
                    Some(Ksf::Argon2id(p)) => argon_params_ok(p.memory, p.iterations, p.parallelism),
                    _ => true,
                }),
                Err(e) => ksf_op_error(old(self)@, e),
            },
            match suite_of(old(self)@) {
                Some(Ksf::Argon2id(p)) => argon_params_ok(p.memory, p.iterations, p.parallelism)
                    && registration_finish_argon_ok(
                    state@,
                    registration_response@,
                    password.spec_bytes(),
                    p.memory,
                    p.iterations,
                    p.parallelism,
                ) ==> r is Ok,
                Some(Ksf::Identity) => registration_finish_identity_ok(
                    state@,
                    registration_response@,
                    password.spec_bytes(),
                ) ==> r is Ok,
                None => true,
            },
    {
        let ksf = match self.select_suite() {
            None => {
                return Err(invalid_config(self));
            },
            Some(k) => k,
        };
        let out = match ksf {
            Ksf::Argon2id(p) => {
                if !argon_params_valid(p.memory, p.iterations, p.parallelism) {
                    return Err(
                        Error::InvalidConfig(String::from_str("Invalid Argon2 parameters")),
                    );
                }
                client_registration_finish_argon(
                    &mut self.rng,
                    state,
                    registration_response,
                    password.as_bytes(),
                    p.memory,
                    p.iterations,
                    p.parallelism,
                )
            },
            Ksf::Identity => client_registration_finish_identity(
                &mut self.rng,
                state,
                registration_response,
                password.as_bytes(),
            ),
        };
        match out {
            Ok((registration_upload, export_key, server_s_pk)) => Ok(
                ClientRegistrationFinishResult { registration_upload, export_key, server_s_pk },
            ),
            Err(m) => Err(Error::Protocol(m)),
        }
    }

    /// Registration, server side, finish: turn the client's upload into the
    /// record the caller persists for this user.  The record is a function
    /// of the upload alone — equal uploads give byte-identical records —
    /// and the step succeeds exactly where that function is defined.
    pub fn finish_server_registration(&mut self, registration_upload: &[u8]) -> (r: Result<
        ServerRegistrationFinishResult,
        Error,
    >)
        ensures
            final(self)@ == old(self)@,
            match r {
                Ok(res) => suite_of(old(self)@) is Some && server_record_of(registration_upload@)
                    == Some(res.server_registration@) && res.server_registration@.len()
                    == SERVER_REGISTRATION_LEN,
                Err(e) => plain_op_error(old(self)@, e) && (suite_of(old(self)@) is Some
                    ==> server_record_of(registration_upload@) is None),
            },
    {
        if self.select_suite().is_none() {
            return Err(invalid_config(self));
        }
        match server_registration_finish(registration_upload) {
            Ok(server_registration) => Ok(ServerRegistrationFinishResult { server_registration }),
            Err(m) => Err(Error::Protocol(m)),
        }
    }

    /// Login, client side, start: blind the password and open the key
    /// exchange.  On a supported configuration the step always succeeds,
    /// whatever the password.
    pub fn start_client_login(&mut self, password: &str) -> (r: Result<
        ClientLoginStartResult,
        Error,
    >)
        ensures
            final(self)@ == old(self)@,
            r is Ok <==> suite_of(old(self)@) is Some,
            match r {
                Ok(res) => res.credential_request@.len() == CREDENTIAL_REQUEST_LEN
                    && res.state@.len() == CLIENT_LOGIN_STATE_LEN,
                Err(e) => e matches Error::InvalidConfig(m) && m@ == config_chars(old(self)@),
            },
    {
        if self.select_suite().is_none() {
            return Err(invalid_config(self));
        }
        match client_login_start(&mut self.rng, password.as_bytes()) {
            Ok((credential_request, state)) => Ok(
                ClientLoginStartResult { credential_request, state },
            ),
            Err(m) => Err(Error::Protocol(m)),
        }
    }

    /// Login, server side, start: answer a credential request from the
    /// persisted setup and registration record.  Unlike registration, both
    /// must be supplied: a login can only follow a completed registration.
    /// Whether the inputs are accepted is decided by the four byte strings
    /// alone; acceptance guarantees success.
    pub fn start_server_login(
        &mut self,
        server_setup: &[u8],
        server_registration: &[u8],
        credential_request: &[u8],
        username: &str,
    ) -> (r: Result<ServerLoginStartResult, Error>)
        ensures
            final(self)@ == old(self)@,
            match r {
                Ok(res) => suite_of(old(self)@) is Some && res.credential_response@.len()
                    == CREDENTIAL_RESPONSE_LEN && res.state@.len() == SERVER_LOGIN_STATE_LEN,
                Err(e) => plain_op_error(old(self)@, e) && (suite_of(old(self)@) is Some
                    ==> !server_login_accepts(
                    server_setup@,
                    server_registration@,
                    credential_request@,
                    username.spec_bytes(),
                )),
            },
    {
        if self.select_suite().is_none() {
            return Err(invalid_config(self));
        }
        match server_login_start(
            &mut self.rng,
            server_setup,
            server_registration,
            credential_request,
            username.as_bytes(),
        ) {
            Ok((credential_response, state)) => Ok(
                ServerLoginStartResult { credential_response, state },
            ),
            Err(m) => Err(Error::Protocol(m)),
        }
    }

    /// Login, client side, finish: open the server's credential response
    /// with the stretched password.  This is the one step that fails
    /// precisely when the password is wrong, and that failure is surfaced
    /// uniformly with every other cryptographic failure, so no caller — and
    /// no observer — can tell them apart.  The step draws no randomness:
    /// its whole outcome is a function of the state, response, password and
    /// stretching costs, and the contract pins it to that function.  Under
    /// Argon2id the stretching step is deliberately expensive and dominates
    /// the latency of this call.
    pub fn finish_client_login(
        &mut self,
        state: &[u8],
        credential_response: &[u8],
        password: &str,
    ) -> (r: Result<ClientLoginFinishResult, Error>)
        ensures
            final(self)@ == old(self)@,
            match r {
                Ok(res) => suite_of(old(self)@) is Some && res.credential_finalization@.len()
                    == CREDENTIAL_FINALIZATION_LEN && res.session_key@.len() == SESSION_KEY_LEN
                    && res.export_key@.len() == EXPORT_KEY_LEN && res.server_s_pk@.len()
                    == SERVER_PUBLIC_KEY_LEN && (match suite_of(old(self)@) {
                    Some(Ksf::Argon2id(p)) => argon_params_ok(p.memory, p.iterations, p.parallelism)
                        && login_finish_argon_of(
                        state@,
                        credential_response@,
                        password.spec_bytes(),
                        p.memory,
                        p.iterations,
                        p.parallelism,
                    ) == Some(
                        (
                            res.credential_finalization@,
                            res.session_key@,
                            res.export_key@,
                            res.server_s_pk@,
                        ),
                    ),
                    Some(Ksf::Identity) => login_finish_identity_of(
                        state@,
                        credential_response@,
                        password.spec_bytes(),
                    ) == Some(
                        (
                            res.credential_finalization@,
                            res.session_key@,
                            res.export_key@,
                            res.server_s_pk@,
                        ),
                    ),
                    None => false,
                }),
                Err(e) => ksf_op_error(old(self)@, e) && (match suite_of(old(self)@) {
                    Some(Ksf::Argon2id(p)) => argon_params_ok(p.memory, p.iterations, p.parallelism)
                        ==> login_finish_argon_of(
                        state@,
                        credential_response@,
                        password.spec_bytes(),
                        p.memory,
                        p.iterations,
                        p.parallelism,
                    ) is None,
                    Some(Ksf::Identity) => login_finish_identity_of(
                        state@,
                        credential_response@,
                        password.spec_bytes(),
                    ) is None,
                    None => true,
                }),
            },
    {
        let ksf = match self.select_suite() {
            None => {
                return Err(invalid_config(self));
            },
            Some(k) => k,
        };
        let out = match ksf {
            Ksf::Argon2id(p) => {
                if !argon_params_valid(p.memory, p.iterations, p.parallelism) {
                    return Err(
                        Error::InvalidConfig(String::from_str("Invalid Argon2 parameters")),
                    );
                }
                client_login_finish_argon(
                    state,
                    credential_response,
                    password.as_bytes(),
                    p.memory,
                    p.iterations,
                    p.parallelism,
                )
            },
            Ksf::Identity => client_login_finish_identity(
                state,
                credential_response,
                password.as_bytes(),
            ),
        };
        match out {
            Ok((credential_finalization, session_key, export_key, server_s_pk)) => Ok(
                ClientLoginFinishResult {
                    credential_finalization,
                    session_key,
                    export_key,
                    server_s_pk,
                },
            ),
            Err(m) => Err(Error::Protocol(m)),
        }
    }

    /// Login, server side, finish: verify the client's finalization against
    /// the transcript.  A wrong password, tampering, and replayed state all
    /// surface as the same protocol error.  The session key is a function
    /// of the state and finalization bytes alone, and the step succeeds
    /// exactly where that function is defined.
    pub fn finish_server_login(&mut self, state: &[u8], credential_finalization: &[u8]) -> (r:
        Result<ServerLoginFinishResult, Error>)
        ensures
            final(self)@ == old(self)@,
            match r {
                Ok(res) => suite_of(old(self)@) is Some && session_key_of(
                    state@,
                    credential_finalization@,
                ) == Some(res.session_key@) && res.session_key@.len() == SESSION_KEY_LEN,
                Err(e) => plain_op_error(old(self)@, e) && (suite_of(old(self)@) is Some
                    ==> session_key_of(state@, credential_finalization@) is None),
            },
    {
        if self.select_suite().is_none() {
            return Err(invalid_config(self));
        }
        match server_login_finish(state, credential_finalization) {
            Ok(session_key) => Ok(ServerLoginFinishResult { session_key }),
            Err(m) => Err(Error::Protocol(m)),
        }
    }
}

/// A deterministic self-test fixture: seeds the default configuration from
/// the given bytes, derives a throwaway username and password from the
/// seeded generator, and runs a full registration.  Returns the serialized
/// server setup and registration record for use as test fixtures.
pub fn register_seeded_fake_config(seed: [u8; 32]) -> (r: Result<(Vec<u8>, Vec<u8>), Error>)
    ensures
        match r {
            Ok(p) => p.0@.len() == SERVER_SETUP_LEN && p.1@.len() == SERVER_REGISTRATION_LEN,
            Err(e) => ksf_op_error(default_config(), e),
        },
{
    let mut config = CipherConfiguration::fake_from_seed(seed);
    let password_bytes = rng_fill_32(&mut config.rng);
    let username_bytes = rng_fill_32(&mut config.rng);
    let password = hex_encode(password_bytes.as_slice());
    let username = hex_encode(username_bytes.as_slice());

    let start = match config.start_client_registration(password.as_str()) {
        Ok(v) => v,
        Err(e) => {
            return Err(e);
        },
    };
    let server_start = match config.start_server_registration(
        None,
        start.registration_request.as_slice(),
        username.as_str(),
    ) {
        Ok(v) => v,
        Err(e) => {
            return Err(e);
        },
    };
    let client_finish = match config.finish_client_registration(
        start.state.as_slice(),
        server_start.registration_response.as_slice(),
        password.as_str(),
    ) {
        Ok(v) => v,
        Err(e) => {
            return Err(e);
        },
    };
    let server_finish = match config.finish_server_registration(
        client_finish.registration_upload.as_slice(),
    ) {
        Ok(v) => v,
        Err(e) => {
            return Err(e);
        },
    };
    Ok((server_start.server_setup, server_finish.server_registration))
}

} // verus!
