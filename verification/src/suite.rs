//! The concrete cipher suites and the trusted calls into the cryptographic
//! collaborator.
//!
//! The `opaque_ke` crate fixes its primitives through compile-time type
//! parameters.  The two suite types below bind the one supported primitive
//! combination — ristretto255 for OPRF and key exchange, triple
//! Diffie-Hellman — once with Argon2id key stretching and once with the no-op
//! treatment.  Every call into the collaborator goes through one of the
//! wrappers here, each taking and returning plain byte strings.
//!
//! A call that takes no randomness is a function of its byte arguments
//! alone; its whole outcome is given a name (an uninterpreted spec
//! function), and the wrapper pins success, failure and the result bytes to
//! that name.  A call that draws from the generator is pinned only as far
//! as every outcome allows: the serialized lengths of a success, a success
//! promise on the inputs where the collaborator cannot fail at all, and the
//! deterministic parts of the result.
use vstd::prelude::*;

verus! {

#[verifier::external_type_specification]
#[verifier::external_body]
pub struct ExRistretto255(opaque_ke::Ristretto255);

#[verifier::external_type_specification]
#[verifier::external_body]
pub struct ExTripleDh(opaque_ke::key_exchange::tripledh::TripleDh);

#[verifier::external_type_specification]
#[verifier::external_body]
pub struct ExArgon2<'key>(argon2::Argon2<'key>);

#[verifier::external_type_specification]
#[verifier::external_body]
pub struct ExIdentity(opaque_ke::ksf::Identity);

/// The supported cipher suite with Argon2id key stretching.
pub struct DefaultCipherSuite;

impl opaque_ke::CipherSuite for DefaultCipherSuite {
    type OprfCs = opaque_ke::Ristretto255;
    type KeGroup = opaque_ke::Ristretto255;
    type KeyExchange = opaque_ke::key_exchange::tripledh::TripleDh;
    type Ksf = argon2::Argon2<'static>;
}

/// The supported cipher suite with no-op key stretching, for deployments
/// that need deterministic test vectors on one side.
pub struct IdentityCipherSuite;

impl opaque_ke::CipherSuite for IdentityCipherSuite {
    type OprfCs = opaque_ke::Ristretto255;
    type KeGroup = opaque_ke::Ristretto255;
    type KeyExchange = opaque_ke::key_exchange::tripledh::TripleDh;
    type Ksf = opaque_ke::ksf::Identity;
}

// Serialized sizes fixed by the supported suite: ristretto255 scalars and
// elements are 32 bytes, the suite hash (SHA-512) is 64 bytes, nonces are 32
// bytes.
pub const REGISTRATION_REQUEST_LEN: usize = 32;

pub const CLIENT_REGISTRATION_STATE_LEN: usize = 64;

pub const REGISTRATION_RESPONSE_LEN: usize = 64;

pub const SERVER_SETUP_LEN: usize = 128;

pub const REGISTRATION_UPLOAD_LEN: usize = 192;

pub const SERVER_REGISTRATION_LEN: usize = 192;

pub const EXPORT_KEY_LEN: usize = 64;

pub const SESSION_KEY_LEN: usize = 64;

pub const SERVER_PUBLIC_KEY_LEN: usize = 32;

pub const CREDENTIAL_REQUEST_LEN: usize = 96;

pub const CLIENT_LOGIN_STATE_LEN: usize = 192;

pub const CREDENTIAL_RESPONSE_LEN: usize = 320;

pub const SERVER_LOGIN_STATE_LEN: usize = 192;

pub const CREDENTIAL_FINALIZATION_LEN: usize = 64;

/// The Argon2id cost triples that `argon2::Params::new` accepts: at least
/// 8 KiB of memory and 8 KiB per lane, at least one iteration, and between
/// 1 and 2^24 - 1 lanes.
pub open spec fn argon_params_ok(memory: u32, iterations: u32, parallelism: u32) -> bool {
    memory >= 8 && memory >= parallelism * 8 && iterations >= 1 && 1 <= parallelism <= 0xFFFFFF
}

/// Decides [`argon_params_ok`].
pub(crate) fn argon_params_valid(memory: u32, iterations: u32, parallelism: u32) -> (r: bool)
    ensures
        r == argon_params_ok(memory, iterations, parallelism),
{
    memory >= 8 && 1 <= parallelism && parallelism <= 0xFFFFFF && memory >= parallelism * 8
        && iterations >= 1
}

/// Relies on `opaque_ke::ClientRegistration::start`: blinds the password and
/// returns the serialized registration request and client state.  For this
/// suite the call cannot fail: blinding is hash-to-ristretto255 (an
/// infallible expand-message for SHA-512 with a fixed 64-byte output) times
/// an unchecked random scalar, with no other failure path.
#[verifier::external_body]
pub(crate) fn client_registration_start(rng: &mut rand_chacha::ChaCha20Rng, password: &[u8]) -> (r:
    Result<(Vec<u8>, Vec<u8>), String>)
    ensures
        r is Ok,
        r matches Ok(p) ==> p.0@.len() == REGISTRATION_REQUEST_LEN && p.1@.len()
            == CLIENT_REGISTRATION_STATE_LEN,
{
    let r = opaque_ke::ClientRegistration::<DefaultCipherSuite>::start(rng, password).map_err(|e| format!("{e:?}"))?;
    Ok((r.message.serialize().to_vec(), r.state.serialize().to_vec()))
}

/// Relies on `opaque_ke::ServerSetup::new`: fresh long-lived server keying
/// material, serialized.  The call draws the material from the generator and
/// cannot fail; only the serialized length holds of every outcome.
#[verifier::external_body]
pub(crate) fn server_setup_new(rng: &mut rand_chacha::ChaCha20Rng) -> (r: Vec<u8>)
    ensures
        r@.len() == SERVER_SETUP_LEN,
{
    opaque_ke::ServerSetup::<DefaultCipherSuite>::new(rng).serialize().to_vec()
}

/// What answering a registration request returns: the serialized
/// registration response, or nothing where the setup or request fails to
/// deserialize or the per-credential OPRF key cannot be derived.  The call
/// takes no randomness, so this is a function of the three byte strings
/// alone.
pub uninterp spec fn server_registration_response_of(
    server_setup: Seq<u8>,
    registration_request: Seq<u8>,
    username: Seq<u8>,
) -> Option<Seq<u8>>;

/// Relies on `opaque_ke::ServerRegistration::start` (with
/// `ServerSetup::deserialize` and `RegistrationRequest::deserialize`):
/// evaluates the OPRF over the blinded request under the setup's
/// per-credential key.  The composite takes no randomness; its outcome is
/// [`server_registration_response_of`].
#[verifier::external_body]
pub(crate) fn server_registration_start(
    server_setup: &[u8],
    registration_request: &[u8],
    username: &[u8],
) -> (r: Result<Vec<u8>, String>)
    ensures
        match r {
            Ok(m) => server_registration_response_of(server_setup@, registration_request@, username@)
                == Some(m@) && m@.len() == REGISTRATION_RESPONSE_LEN,
            Err(_) => server_registration_response_of(
                server_setup@,
                registration_request@,
                username@,
            ) is None,
        },
{
    let setup = opaque_ke::ServerSetup::<DefaultCipherSuite>::deserialize(server_setup).map_err(|e| format!("{e:?}"))?;
    let request = opaque_ke::RegistrationRequest::deserialize(registration_request).map_err(|e| format!("{e:?}"))?;
    let r = opaque_ke::ServerRegistration::start(&setup, request, username).map_err(|e| format!("{e:?}"))?;
    Ok(r.message.serialize().to_vec())
}

/// The server static public key carried by a registration response, or
/// nothing where the response fails to deserialize: a function of the
/// response bytes alone, returned unchanged by the client's registration
/// finish under either key-stretching treatment (the treatment never enters
/// the response format).
pub uninterp spec fn registration_response_pk_of(registration_response: Seq<u8>) -> Option<
    Seq<u8>,
>;

/// The inputs on which the client's registration finish under Argon2id
/// succeeds whatever the generator yields for the envelope nonce.  Success
/// is otherwise not promised: the collaborator keeps an error path that
/// depends on the drawn nonce (the repeated zero-scalar rejection in its
/// key derivation), so failure is not plainly a function of the arguments.
pub uninterp spec fn registration_finish_argon_ok(
    state: Seq<u8>,
    registration_response: Seq<u8>,
    password: Seq<u8>,
    memory: u32,
    iterations: u32,
    parallelism: u32,
) -> bool;

/// Relies on `opaque_ke::ClientRegistration::finish` under the Argon2id
/// suite (with the deserializers and `argon2::Params::new`, whose
/// acceptance the `requires` guarantees): opens the response, stretches the
/// password, and returns the serialized registration upload, export key,
/// and server public key.  The upload and export key depend on the drawn
/// envelope nonce; the returned server public key is the response's,
/// [`registration_response_pk_of`].
#[verifier::external_body]
pub(crate) fn client_registration_finish_argon(
    rng: &mut rand_chacha::ChaCha20Rng,
    state: &[u8],
    registration_response: &[u8],
    password: &[u8],
    memory: u32,
    iterations: u32,
    parallelism: u32,
) -> (r: Result<(Vec<u8>, Vec<u8>, Vec<u8>), String>)
    requires
        argon_params_ok(memory, iterations, parallelism),
    ensures
        registration_finish_argon_ok(
            state@,
            registration_response@,
            password@,
            memory,
            iterations,
            parallelism,
        ) ==> r is Ok,
        r matches Ok(p) ==> p.0@.len() == REGISTRATION_UPLOAD_LEN && p.1@.len() == EXPORT_KEY_LEN
            && registration_response_pk_of(registration_response@) == Some(p.2@) && p.2@.len()
            == SERVER_PUBLIC_KEY_LEN,
{
    let params = argon2::Params::new(memory, iterations, parallelism, None).unwrap();
    let ksf = argon2::Argon2::new(argon2::Algorithm::Argon2id, argon2::Version::V0x13, params);
    let st = opaque_ke::ClientRegistration::<DefaultCipherSuite>::deserialize(state).map_err(|e| format!("{e:?}"))?;
    let resp = opaque_ke::RegistrationResponse::deserialize(registration_response).map_err(|e| format!("{e:?}"))?;
    let opts = opaque_ke::ClientRegistrationFinishParameters::new(opaque_ke::Identifiers::default(), Some(&ksf));
    let r = st.finish(rng, password, resp, opts).map_err(|e| format!("{e:?}"))?;
    Ok((r.message.serialize().to_vec(), r.export_key.to_vec(), r.server_s_pk.serialize().to_vec()))
}

/// As [`registration_finish_argon_ok`], under the no-op key stretcher.
pub uninterp spec fn registration_finish_identity_ok(
    state: Seq<u8>,
    registration_response: Seq<u8>,
    password: Seq<u8>,
) -> bool;

/// Relies on `opaque_ke::ClientRegistration::finish` under the no-op
/// key-stretching suite; otherwise as the Argon2id variant.
#[verifier::external_body]
pub(crate) fn client_registration_finish_identity(
    rng: &mut rand_chacha::ChaCha20Rng,
    state: &[u8],
    registration_response: &[u8],
    password: &[u8],
) -> (r: Result<(Vec<u8>, Vec<u8>, Vec<u8>), String>)
    ensures
        registration_finish_identity_ok(state@, registration_response@, password@) ==> r is Ok,
        r matches Ok(p) ==> p.0@.len() == REGISTRATION_UPLOAD_LEN && p.1@.len() == EXPORT_KEY_LEN
            && registration_response_pk_of(registration_response@) == Some(p.2@) && p.2@.len()
            == SERVER_PUBLIC_KEY_LEN,
{
    let st = opaque_ke::ClientRegistration::<IdentityCipherSuite>::deserialize(state).map_err(|e| format!("{e:?}"))?;
    let resp = opaque_ke::RegistrationResponse::deserialize(registration_response).map_err(|e| format!("{e:?}"))?;
    let params = opaque_ke::ClientRegistrationFinishParameters::new(opaque_ke::Identifiers::default(), Some(&opaque_ke::ksf::Identity));
    let r = st.finish(rng, password, resp, params).map_err(|e| format!("{e:?}"))?;
    Ok((r.message.serialize().to_vec(), r.export_key.to_vec(), r.server_s_pk.serialize().to_vec()))
}

/// The record the server persists for an upload, or nothing where the
/// upload fails to deserialize: a function of the upload bytes alone, so
/// equal uploads yield byte-identical records.
pub uninterp spec fn server_record_of(registration_upload: Seq<u8>) -> Option<Seq<u8>>;

/// Relies on `opaque_ke::ServerRegistration::finish` (with
/// `RegistrationUpload::deserialize`): re-serializes the client's upload as
/// the record the server persists.  The composite takes no randomness; its
/// outcome is [`server_record_of`].
#[verifier::external_body]
pub(crate) fn server_registration_finish(registration_upload: &[u8]) -> (r: Result<
    Vec<u8>,
    String,
>)
    ensures
        match r {
            Ok(m) => server_record_of(registration_upload@) == Some(m@) && m@.len()
                == SERVER_REGISTRATION_LEN,
            Err(_) => server_record_of(registration_upload@) is None,
        },
{
    let upload = opaque_ke::RegistrationUpload::<DefaultCipherSuite>::deserialize(registration_upload).map_err(|e| format!("{e:?}"))?;
    Ok(opaque_ke::ServerRegistration::finish(upload).serialize().to_vec())
}

/// Relies on `opaque_ke::ClientLogin::start`: blinds the password, draws the
/// key-exchange opening, and returns the serialized credential request and
/// client login state.  For this suite the call cannot fail: blinding is
/// infallible as for registration start, and the key-exchange opening has no
/// failure path.
#[verifier::external_body]
pub(crate) fn client_login_start(rng: &mut rand_chacha::ChaCha20Rng, password: &[u8]) -> (r: Result<
    (Vec<u8>, Vec<u8>),
    String,
>)
    ensures
        r is Ok,
        r matches Ok(p) ==> p.0@.len() == CREDENTIAL_REQUEST_LEN && p.1@.len()
            == CLIENT_LOGIN_STATE_LEN,
{
    let r = opaque_ke::ClientLogin::<DefaultCipherSuite>::start(rng, password).map_err(|e| format!("{e:?}"))?;
    Ok((r.message.serialize().to_vec(), r.state.serialize().to_vec()))
}

/// The inputs a server login start accepts: those on which the call
/// succeeds whatever the generator yields for the masking nonce, ephemeral
/// key and server nonce.  A function of the four byte strings alone.
pub uninterp spec fn server_login_accepts(
    server_setup: Seq<u8>,
    server_registration: Seq<u8>,
    credential_request: Seq<u8>,
    username: Seq<u8>,
) -> bool;

/// Relies on `opaque_ke::ServerLogin::start` (with the three
/// deserializers): answers a credential request from the setup and the
/// persisted record.  The response and state depend on the drawn values;
/// acceptance on [`server_login_accepts`] is promised, and only the
/// serialized lengths hold of every successful outcome.
#[verifier::external_body]
pub(crate) fn server_login_start(
    rng: &mut rand_chacha::ChaCha20Rng,
    server_setup: &[u8],
    server_registration: &[u8],
    credential_request: &[u8],
    username: &[u8],
) -> (r: Result<(Vec<u8>, Vec<u8>), String>)
    ensures
        server_login_accepts(server_setup@, server_registration@, credential_request@, username@)
            ==> r is Ok,
        r matches Ok(p) ==> p.0@.len() == CREDENTIAL_RESPONSE_LEN && p.1@.len()
            == SERVER_LOGIN_STATE_LEN,
{
    let setup = opaque_ke::ServerSetup::<DefaultCipherSuite>::deserialize(server_setup).map_err(|e| format!("{e:?}"))?;
    let record = opaque_ke::ServerRegistration::<DefaultCipherSuite>::deserialize(server_registration).map_err(|e| format!("{e:?}"))?;
    let request = opaque_ke::CredentialRequest::deserialize(credential_request).map_err(|e| format!("{e:?}"))?;
    let r = opaque_ke::ServerLogin::start(rng, &setup, Some(record), request, username, opaque_ke::ServerLoginStartParameters::default()).map_err(|e| format!("{e:?}"))?;
    Ok((r.message.serialize().to_vec(), r.state.serialize().to_vec()))
}

/// What the client's login finish under Argon2id returns: the serialized
/// credential finalization, session key, export key and server public key,
/// or nothing where the collaborator rejects the inputs — a malformed or
/// reflected message, or a password that does not match the record behind
/// the response.  The call takes no randomness, so this is a function of
/// its arguments alone.
pub uninterp spec fn login_finish_argon_of(
    state: Seq<u8>,
    credential_response: Seq<u8>,
    password: Seq<u8>,
    memory: u32,
    iterations: u32,
    parallelism: u32,
) -> Option<(Seq<u8>, Seq<u8>, Seq<u8>, Seq<u8>)>;

/// Relies on `opaque_ke::ClientLogin::finish` under the Argon2id suite
/// (with the deserializers and `argon2::Params::new`, whose acceptance the
/// `requires` guarantees): opens the credential response with the stretched
/// password.  The composite takes no randomness; its outcome is
/// [`login_finish_argon_of`].
#[verifier::external_body]
pub(crate) fn client_login_finish_argon(
    state: &[u8],
    credential_response: &[u8],
    password: &[u8],
    memory: u32,
    iterations: u32,
    parallelism: u32,
) -> (r: Result<(Vec<u8>, Vec<u8>, Vec<u8>, Vec<u8>), String>)
    requires
        argon_params_ok(memory, iterations, parallelism),
    ensures
        match r {
            Ok(p) => login_finish_argon_of(
                state@,
                credential_response@,
                password@,
                memory,
                iterations,
                parallelism,
            ) == Some((p.0@, p.1@, p.2@, p.3@)) && p.0@.len() == CREDENTIAL_FINALIZATION_LEN
                && p.1@.len() == SESSION_KEY_LEN && p.2@.len() == EXPORT_KEY_LEN && p.3@.len()
                == SERVER_PUBLIC_KEY_LEN,
            Err(_) => login_finish_argon_of(
                state@,
                credential_response@,
                password@,
                memory,
                iterations,
                parallelism,
            ) is None,
        },
{
    let params = argon2::Params::new(memory, iterations, parallelism, None).unwrap();
    let ksf = argon2::Argon2::new(argon2::Algorithm::Argon2id, argon2::Version::V0x13, params);
    let st = opaque_ke::ClientLogin::<DefaultCipherSuite>::deserialize(state).map_err(|e| format!("{e:?}"))?;
    let resp = opaque_ke::CredentialResponse::deserialize(credential_response).map_err(|e| format!("{e:?}"))?;
    let opts = opaque_ke::ClientLoginFinishParameters::new(None, opaque_ke::Identifiers::default(), Some(&ksf));
    let r = st.finish(password, resp, opts).map_err(|e| format!("{e:?}"))?;
    Ok((r.message.serialize().to_vec(), r.session_key.to_vec(), r.export_key.to_vec(), r.server_s_pk.serialize().to_vec()))
}

/// As [`login_finish_argon_of`], under the no-op key stretcher.
pub uninterp spec fn login_finish_identity_of(
    state: Seq<u8>,
    credential_response: Seq<u8>,
    password: Seq<u8>,
) -> Option<(Seq<u8>, Seq<u8>, Seq<u8>, Seq<u8>)>;

/// Relies on `opaque_ke::ClientLogin::finish` under the no-op
/// key-stretching suite; otherwise as the Argon2id variant.
#[verifier::external_body]
pub(crate) fn client_login_finish_identity(
    state: &[u8],
    credential_response: &[u8],
    password: &[u8],
) -> (r: Result<(Vec<u8>, Vec<u8>, Vec<u8>, Vec<u8>), String>)
    ensures
        match r {
            Ok(p) => login_finish_identity_of(state@, credential_response@, password@) == Some(
                (p.0@, p.1@, p.2@, p.3@),
            ) && p.0@.len() == CREDENTIAL_FINALIZATION_LEN && p.1@.len() == SESSION_KEY_LEN
                && p.2@.len() == EXPORT_KEY_LEN && p.3@.len() == SERVER_PUBLIC_KEY_LEN,
            Err(_) => login_finish_identity_of(state@, credential_response@, password@) is None,
        },
{
    let st = opaque_ke::ClientLogin::<IdentityCipherSuite>::deserialize(state).map_err(|e| format!("{e:?}"))?;
    let resp = opaque_ke::CredentialResponse::deserialize(credential_response).map_err(|e| format!("{e:?}"))?;
    let params = opaque_ke::ClientLoginFinishParameters::new(None, opaque_ke::Identifiers::default(), Some(&opaque_ke::ksf::Identity));
    let r = st.finish(password, resp, params).map_err(|e| format!("{e:?}"))?;
    Ok((r.message.serialize().to_vec(), r.session_key.to_vec(), r.export_key.to_vec(), r.server_s_pk.serialize().to_vec()))
}

/// The session key a server login finish yields, or nothing — exactly on a
/// malformed state, a finalization that does not verify against the
/// transcript (a wrong password or tampering), or replayed state.  The call
/// takes no randomness, so this is a function of the two byte strings
/// alone.
pub uninterp spec fn session_key_of(state: Seq<u8>, credential_finalization: Seq<u8>) -> Option<
    Seq<u8>,
>;

/// Relies on `opaque_ke::ServerLogin::finish` (with the two
/// deserializers): verifies the client's finalization against the
/// transcript.  The composite takes no randomness; its outcome is
/// [`session_key_of`].
#[verifier::external_body]
pub(crate) fn server_login_finish(state: &[u8], credential_finalization: &[u8]) -> (r: Result<
    Vec<u8>,
    String,
>)
    ensures
        match r {
            Ok(k) => session_key_of(state@, credential_finalization@) == Some(k@) && k@.len()
                == SESSION_KEY_LEN,
            Err(_) => session_key_of(state@, credential_finalization@) is None,
        },
{
    let st = opaque_ke::ServerLogin::<DefaultCipherSuite>::deserialize(state).map_err(|e| format!("{e:?}"))?;
    let fin = opaque_ke::CredentialFinalization::deserialize(credential_finalization).map_err(|e| format!("{e:?}"))?;
    let r = st.finish(fin).map_err(|e| format!("{e:?}"))?;
    Ok(r.session_key.to_vec())
}

} // verus!
