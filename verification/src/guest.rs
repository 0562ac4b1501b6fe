//! The guest module itself: its configuration, lifecycle handlers, response
//! producers and named exports.
//!
//! Handler logic encodes priority by execution order: the first matching
//! branch forges, and forging consumes the event token, so a later branch of
//! the same event can never forge again.  Token-layer failures follow one
//! uniform graceful policy: every failure maps to a client-visible error
//! response (or the null sentinel of the export surface), never an abort.

use crate::sysalloc::{bytes_eq, contains_bytes, spec_contains_seq};
use crate::tokens::{
    decode_base64, b64_decoded, b64_encode, b64_encoded, cat_sign, cat_signed_token, check_token,
    current_unix_time, spec_sig_accepted,
};
use crate::varnish::{
    add_req_header, add_resp_header, backend_response, forge, forge_with_post, get_req_header,
    get_url, BackendResponse, CachingDecision, CallbackTable, EventToken, Forged, HeaderScope,
    HeaderStore, spec_has_name, spec_header_line, spec_slot_lookup, spec_named_lookup,
    MAIN_HANDLER_SLOT, NOT_FOUND, ON_DELIVER_SLOT, URL_INDEX,
};
use vstd::pervasive::unreached;
use vstd::prelude::*;
use vstd::string::StringSliceAdditionalSpecFns;

verus! {

/// The secret the claim sets are signed and verified with; set once at
/// startup, read-only thereafter.
pub open spec fn spec_secret() -> Seq<u8> {
    "my-secret-key-for-varnish-CDN".spec_bytes()
}

/// The issuer every accepted claim set must carry.
pub open spec fn spec_issuer() -> Seq<char> {
    "example-issuer"@
}

/// The key identifier written into the protected header of minted tokens.
pub open spec fn spec_key_id() -> Seq<char> {
    "example-key-id"@
}

/// The subject claim of minted tokens.
pub open spec fn spec_subject() -> Seq<char> {
    "example-subject"@
}

/// The audience claim of minted tokens.
pub open spec fn spec_audience() -> Seq<char> {
    "example-audience"@
}

/// The custom claim key of minted tokens.
pub open spec fn spec_custom_key() -> i32 {
    100
}

/// The custom claim value of minted tokens.
pub open spec fn spec_custom_value() -> Seq<char> {
    "custom-value"@
}

/// The process-wide configuration: the shared secret and the fixed claim
/// fields, set once at startup and read-only thereafter.
pub struct GuestConfig {
    pub secret: &'static str,
    pub issuer: &'static str,
    pub key_id: &'static str,
    pub subject: &'static str,
    pub audience: &'static str,
    pub custom_key: i32,
    pub custom_value: &'static str,
}

/// The one configuration this module runs with.
pub fn default_config() -> (c: GuestConfig)
    ensures
        c.secret.spec_bytes() == spec_secret(),
        c.issuer@ == spec_issuer(),
        c.key_id@ == spec_key_id(),
        c.subject@ == spec_subject(),
        c.audience@ == spec_audience(),
        c.custom_key == spec_custom_key(),
        c.custom_value@ == spec_custom_value(),
{
    GuestConfig {
        secret: "my-secret-key-for-varnish-CDN",
        issuer: "example-issuer",
        key_id: "example-key-id",
        subject: "example-subject",
        audience: "example-audience",
        custom_key: 100,
        custom_value: "custom-value",
    }
}

/// The client-error response for an authorization request with an empty
/// body; no signature check lies behind it.
pub open spec fn is_no_token_reply(s: u16, c: Seq<u8>, b: Seq<u8>) -> bool {
    s == 400 && c == "text/plain".spec_bytes() && b == "No token provided".spec_bytes()
}

/// The success response for a fully verified token.
pub open spec fn is_valid_token_reply(s: u16, c: Seq<u8>, b: Seq<u8>) -> bool {
    s == 200 && c == "text/plain".spec_bytes() && b == "Token is valid".spec_bytes()
}

/// The graceful failure response for a token that did not verify.
pub open spec fn is_denied_reply(s: u16, c: Seq<u8>, b: Seq<u8>) -> bool {
    s == 401 && c == "text/plain".spec_bytes() && b == "Token verification failed".spec_bytes()
}

/// The graceful failure response of the content-generation path.
pub open spec fn is_content_failed_reply(s: u16, c: Seq<u8>, b: Seq<u8>) -> bool {
    s == 500 && c == "text/plain".spec_bytes() && b == "Token creation failed".spec_bytes()
}

/// The fall-through response for any unmatched path.
pub open spec fn is_default_reply(s: u16, c: Seq<u8>, b: Seq<u8>) -> bool {
    s == 200 && c == "text/plain".spec_bytes() && b == "Default response from Rust".spec_bytes()
}

/// What the authorization producer answers for a request body: an empty body
/// gets the client error with no signature check; a body whose bytes are not
/// a bounded, parsable, correctly signed token is always denied; the success
/// response comes only for a correctly signed token, and is withheld from
/// one only by the clock-dependent claim check.
pub open spec fn spec_auth_reply(body: Seq<u8>, s: u16, c: Seq<u8>, b: Seq<u8>) -> bool {
    &&& (body.len() == 0 ==> is_no_token_reply(s, c, b))
    &&& (body.len() > 0 ==> (is_valid_token_reply(s, c, b) || is_denied_reply(s, c, b)))
    &&& (is_valid_token_reply(s, c, b) ==> body.len() > 0 && spec_sig_accepted(
        body,
        spec_secret(),
    ))
    &&& ((body.len() > 0 && !spec_sig_accepted(body, spec_secret())) ==> is_denied_reply(s, c, b))
}

/// What the content producer answers: on success the fixed media type and a
/// body that is a token this module signed (for some expiration drawn from
/// the clock), whose signature round-tripped through the verification
/// pipeline; otherwise the graceful failure response, which only the
/// clock-dependent claim re-check can force, since signing itself cannot
/// fail.
pub open spec fn spec_content_reply(s: u16, c: Seq<u8>, b: Seq<u8>) -> bool {
    &&& (s == 200 ==> c == "application/cbor".spec_bytes() && spec_sig_accepted(b, spec_secret())
        && (exists|e: u64|
        b == cat_signed_token(
            spec_key_id(),
            spec_issuer(),
            spec_subject(),
            spec_audience(),
            e,
            spec_custom_key(),
            spec_custom_value(),
            spec_secret(),
        )))
    &&& (s != 200 ==> is_content_failed_reply(s, c, b))
}

/// The authorization producer: answers for the buffered request body.
pub fn verify_producer(_bereq: u32, _beresp: u32, data: &[u8]) -> (r: BackendResponse)
    ensures
        spec_auth_reply(data@, r.status, r.content_type.spec_bytes(), r.body@),
{
    if data.len() == 0 {
        return backend_response(400, "text/plain", "No token provided".as_bytes());
    }
    let cfg = default_config();
    match check_token(data, cfg.secret.as_bytes(), cfg.issuer) {
        Ok(()) => backend_response(200, "text/plain", "Token is valid".as_bytes()),
        Err(_) => backend_response(401, "text/plain", "Token verification failed".as_bytes()),
    }
}

/// The content producer: mints a fresh signed token, re-verifies it through
/// the same pipeline, and serves its bytes under the fixed media type.
pub fn content_producer(_bereq: u32, _beresp: u32) -> (r: BackendResponse)
    ensures
        spec_content_reply(r.status, r.content_type.spec_bytes(), r.body@),
{
    let cfg = default_config();
    let now = current_unix_time();
    let exp = if now <= u64::MAX - 3600 {
        now + 3600
    } else {
        u64::MAX
    };
    let bytes = match cat_sign(
        cfg.key_id,
        cfg.issuer,
        cfg.subject,
        cfg.audience,
        exp,
        cfg.custom_key,
        cfg.custom_value,
        cfg.secret.as_bytes(),
    ) {
        Ok(b) => b,
        Err(_) => {
            return backend_response(500, "text/plain", "Token creation failed".as_bytes());
        },
    };
    match check_token(bytes.as_slice(), cfg.secret.as_bytes(), cfg.issuer) {
        Ok(()) => {
            let r = backend_response(200, "application/cbor", bytes.as_slice());
            proof {
                let e = exp;
                assert(r.body@ == cat_signed_token(
                    spec_key_id(),
                    spec_issuer(),
                    spec_subject(),
                    spec_audience(),
                    e,
                    spec_custom_key(),
                    spec_custom_value(),
                    spec_secret(),
                ));
            }
            r
        },
        Err(_) => backend_response(500, "text/plain", "Token creation failed".as_bytes()),
    }
}

/// The fall-through producer for any unmatched path.
pub fn default_producer(_bereq: u32, _beresp: u32) -> (r: BackendResponse)
    ensures
        is_default_reply(r.status, r.content_type.spec_bytes(), r.body@),
{
    backend_response(200, "text/plain", "Default response from Rust".as_bytes())
}

/// Whether the URL names the authorization path.
pub open spec fn is_verify_url(url: Seq<u8>) -> bool {
    url == "/verify".spec_bytes()
}

/// Whether the URL names the content-generation path (and not the
/// authorization path, which is matched first).
pub open spec fn is_cat_url(url: Seq<u8>) -> bool {
    !is_verify_url(url) && spec_contains_seq(url, "/cat".spec_bytes())
}

/// The primary request handler.  It tags the request with an X-Hello header
/// carrying the URL, then takes exactly one forge decision: the
/// authorization path is answered from the buffered body (uncached), a
/// content-generation path from a freshly minted token (uncached), and
/// everything else with the fixed default response, cached for equivalent
/// future requests.  The embedder mints exactly one `EventToken` per
/// delivered event; forging consumes it, so no branch after the first
/// matching one can take a second decision for the same event.
pub fn on_client_request(store: &mut HeaderStore, body: &[u8], token: EventToken) -> (f: Forged)
    requires
        old(store).wf(),
        URL_INDEX < old(store).lines(HeaderScope::Request).len(),
        old(store).lines(HeaderScope::Request).len() + 1 < NOT_FOUND,
        "X-Hello".spec_bytes().len() + 2 + old(store).lines(
            HeaderScope::Request,
        )[URL_INDEX as int].len() < NOT_FOUND,
    ensures
        final(store).wf(),
        ({
            let url = old(store).lines(HeaderScope::Request)[URL_INDEX as int];
            &&& final(store).lines(HeaderScope::Request) =~= old(store).lines(
                HeaderScope::Request,
            ).push(spec_header_line("X-Hello".spec_bytes(), url))
            &&& (forall|sc: HeaderScope|
                sc != HeaderScope::Request ==> #[trigger] final(store).lines(sc) == old(
                    store,
                ).lines(sc))
            &&& (is_verify_url(url) ==> f.spec_cached() is Uncached && spec_auth_reply(
                body@,
                f.spec_status(),
                f.spec_content_type().spec_bytes(),
                f.spec_body(),
            ))
            &&& (is_cat_url(url) ==> f.spec_cached() is Uncached && spec_content_reply(
                f.spec_status(),
                f.spec_content_type().spec_bytes(),
                f.spec_body(),
            ))
            &&& (!is_verify_url(url) && !is_cat_url(url) ==> f.spec_cached() is Cached
                && is_default_reply(
                f.spec_status(),
                f.spec_content_type().spec_bytes(),
                f.spec_body(),
            ))
        }),
{
    let url = get_url(store);
    add_req_header(store, "X-Hello", url.as_slice());
    if bytes_eq(url.as_slice(), "/verify".as_bytes()) {
        forge_with_post(token, CachingDecision::Uncached, verify_producer, body)
    } else if contains_bytes(url.as_slice(), "/cat".as_bytes()) {
        forge(token, CachingDecision::Uncached, content_producer)
    } else {
        forge(token, CachingDecision::Cached, default_producer)
    }
}

/// The pre-delivery hook: appends a tag header and echoes the request's
/// X-Hello line into the response scope.  It forges nothing.
pub fn on_deliver(store: &mut HeaderStore)
    requires
        old(store).wf(),
        old(store).lines(HeaderScope::Response).len() + 2 < NOT_FOUND,
        "X-Delivered-By".spec_bytes().len() + 2 + "Rust".spec_bytes().len() < NOT_FOUND,
    ensures
        final(store).wf(),
        final(store).lines(HeaderScope::Response).len() == old(store).lines(
            HeaderScope::Response,
        ).len() + 2,
        final(store).lines(HeaderScope::Response).subrange(
            0,
            old(store).lines(HeaderScope::Response).len() as int,
        ) =~= old(store).lines(HeaderScope::Response),
        final(store).lines(HeaderScope::Response)[old(store).lines(
            HeaderScope::Response,
        ).len() as int] == spec_header_line("X-Delivered-By".spec_bytes(), "Rust".spec_bytes()),
        (forall|k: int|
            0 <= k < old(store).lines(HeaderScope::Request).len() ==> !spec_has_name(
                #[trigger] old(store).lines(HeaderScope::Request)[k],
                "X-Hello".spec_bytes(),
            )) ==> final(store).lines(HeaderScope::Response).last() == Seq::<u8>::empty(),
        (exists|k: int|
            0 <= k < old(store).lines(HeaderScope::Request).len() && spec_has_name(
                #[trigger] old(store).lines(HeaderScope::Request)[k],
                "X-Hello".spec_bytes(),
            )) ==> exists|k: int|
            {
                &&& 0 <= k < old(store).lines(HeaderScope::Request).len()
                &&& spec_has_name(
                    #[trigger] old(store).lines(HeaderScope::Request)[k],
                    "X-Hello".spec_bytes(),
                )
                &&& final(store).lines(HeaderScope::Response).last() == old(store).lines(
                    HeaderScope::Request,
                )[k]
                &&& forall|j: int|
                    0 <= j < k ==> !spec_has_name(
                        #[trigger] old(store).lines(HeaderScope::Request)[j],
                        "X-Hello".spec_bytes(),
                    )
            },
        forall|sc: HeaderScope|
            sc != HeaderScope::Response ==> #[trigger] final(store).lines(sc) == old(store).lines(
                sc,
            ),
{
    add_resp_header(store, "X-Delivered-By", "Rust".as_bytes());
    let hello = get_req_header(store, "X-Hello");
    crate::varnish::add_full_resp_header(store, hello.as_slice());
}

/// The named-export reply for an authorization check: `Some` of the fixed
/// success text, or the null sentinel.  Input that does not base64-decode,
/// or whose decoded bytes are not a bounded, parsable, correctly signed
/// token, is always refused; the success text stands only for a correctly
/// signed token, which then only the clock-dependent claim check can refuse.
pub open spec fn spec_verify_export_reply(payload: Seq<u8>, r: Option<String>) -> bool {
    &&& (r matches Some(s) ==> s@ == "Signature is valid"@)
    &&& (match b64_decoded(payload) {
        None => r is None,
        Some(bytes) => (!spec_sig_accepted(bytes, spec_secret()) ==> r is None) && (r is Some
            ==> spec_sig_accepted(bytes, spec_secret())),
    })
}

/// The named export that verifies a base64-encoded token and answers with
/// the fixed success text or the null sentinel, uniformly gracefully.
pub fn verify_signature(payload: &[u8]) -> (r: Option<String>)
    ensures
        spec_verify_export_reply(payload@, r),
{
    let cfg = default_config();
    let bytes = match decode_base64(payload) {
        Some(b) => b,
        None => {
            return None;
        },
    };
    match check_token(bytes.as_slice(), cfg.secret.as_bytes(), cfg.issuer) {
        Ok(()) => Some("Signature is valid".to_owned()),
        Err(_) => None,
    }
}

/// The named-export reply for token minting: `Some` exactly of the base64
/// text of a token this module signed with the given expiration.
pub open spec fn spec_create_export_reply(expiration: u64, r: Option<String>) -> bool {
    r matches Some(s) ==> s@ == b64_encoded(
        cat_signed_token(
            spec_key_id(),
            spec_issuer(),
            spec_subject(),
            spec_audience(),
            expiration,
            spec_custom_key(),
            spec_custom_value(),
            spec_secret(),
        ),
    )
}

/// Mints a token that expires at the given time and hands back its base64
/// text.  It always succeeds: signing with the fixed algorithm cannot fail.
pub fn create_token_at(expiration: u64) -> (r: Option<String>)
    ensures
        r is Some,
        spec_create_export_reply(expiration, r),
{
    let cfg = default_config();
    match cat_sign(
        cfg.key_id,
        cfg.issuer,
        cfg.subject,
        cfg.audience,
        expiration,
        cfg.custom_key,
        cfg.custom_value,
        cfg.secret.as_bytes(),
    ) {
        Ok(bytes) => Some(b64_encode(bytes.as_slice())),
        Err(_) => None,
    }
}

/// The named export that mints a token valid for an hour from now; it
/// always answers with the token's base64 text.
pub fn create_token() -> (r: Option<String>)
    ensures
        r is Some,
        exists|e: u64| spec_create_export_reply(e, r),
{
    let now = current_unix_time();
    let exp = if now <= u64::MAX - 3600 {
        now + 3600
    } else {
        u64::MAX
    };
    let r = create_token_at(exp);
    proof {
        assert(spec_create_export_reply(exp, r));
    }
    r
}

/// The guest function index of the primary request handler.
pub const FN_CLIENT_REQUEST: u32 = 1;

/// The guest function index of the pre-delivery hook.
pub const FN_ON_DELIVER: u32 = 2;

/// The guest function index of the signature-verifying export.
pub const FN_VERIFY_SIGNATURE: u32 = 3;

/// The guest function index of the token-minting export.
pub const FN_CREATE_TOKEN: u32 = 4;

/// Startup: registers the two named exports and the two lifecycle handlers,
/// then the guest parks awaiting events.
pub fn init_guest(table: &mut CallbackTable)
    ensures
        spec_named_lookup(final(table).named@, "verify_signature".spec_bytes()) == Some(
            FN_VERIFY_SIGNATURE,
        ),
        spec_named_lookup(final(table).named@, "create_token".spec_bytes()) == Some(
            FN_CREATE_TOKEN,
        ),
        spec_slot_lookup(final(table).slots@, ON_DELIVER_SLOT) == Some(FN_ON_DELIVER),
        spec_slot_lookup(final(table).slots@, MAIN_HANDLER_SLOT) == Some(FN_CLIENT_REQUEST),
{
    proof {
        broadcast use vstd::string::is_ascii_spec_bytes;

        reveal_strlit("verify_signature");
        reveal_strlit("create_token");
        assert(vstd::string::is_ascii("verify_signature"));
        assert(vstd::string::is_ascii("create_token"));
        assert("verify_signature".spec_bytes().len() == 16);
        assert("create_token".spec_bytes().len() == 12);
    }
    table.register_function("verify_signature", FN_VERIFY_SIGNATURE);
    table.register_function("create_token", FN_CREATE_TOKEN);
    table.set_on_deliver(FN_ON_DELIVER);
    table.wait_for_requests(FN_CLIENT_REQUEST);
}

/// Delivers a request event to the registered primary handler, as the host
/// does when the guest is parked.
pub fn dispatch_request(
    table: &CallbackTable,
    store: &mut HeaderStore,
    body: &[u8],
    token: EventToken,
) -> (f: Forged)
    requires
        spec_slot_lookup(table.slots@, MAIN_HANDLER_SLOT) == Some(FN_CLIENT_REQUEST),
        old(store).wf(),
        URL_INDEX < old(store).lines(HeaderScope::Request).len(),
        old(store).lines(HeaderScope::Request).len() + 1 < NOT_FOUND,
        "X-Hello".spec_bytes().len() + 2 + old(store).lines(
            HeaderScope::Request,
        )[URL_INDEX as int].len() < NOT_FOUND,
    ensures
        final(store).wf(),
        ({
            let url = old(store).lines(HeaderScope::Request)[URL_INDEX as int];
            &&& final(store).lines(HeaderScope::Request) =~= old(store).lines(
                HeaderScope::Request,
            ).push(spec_header_line("X-Hello".spec_bytes(), url))
            &&& (forall|sc: HeaderScope|
                sc != HeaderScope::Request ==> #[trigger] final(store).lines(sc) == old(
                    store,
                ).lines(sc))
            &&& (is_verify_url(url) ==> f.spec_cached() is Uncached && spec_auth_reply(
                body@,
                f.spec_status(),
                f.spec_content_type().spec_bytes(),
                f.spec_body(),
            ))
            &&& (is_cat_url(url) ==> f.spec_cached() is Uncached && spec_content_reply(
                f.spec_status(),
                f.spec_content_type().spec_bytes(),
                f.spec_body(),
            ))
            &&& (!is_verify_url(url) && !is_cat_url(url) ==> f.spec_cached() is Cached
                && is_default_reply(
                f.spec_status(),
                f.spec_content_type().spec_bytes(),
                f.spec_body(),
            ))
        }),
{
    match table.slot_lookup(MAIN_HANDLER_SLOT) {
        Some(id) => {
            if id == FN_CLIENT_REQUEST {
                on_client_request(store, body, token)
            } else {
                unreached()
            }
        },
        None => unreached(),
    }
}

/// Delivers a pre-delivery event to the registered hook.
pub fn dispatch_deliver(table: &CallbackTable, store: &mut HeaderStore)
    requires
        spec_slot_lookup(table.slots@, ON_DELIVER_SLOT) == Some(FN_ON_DELIVER),
        old(store).wf(),
        old(store).lines(HeaderScope::Response).len() + 2 < NOT_FOUND,
        "X-Delivered-By".spec_bytes().len() + 2 + "Rust".spec_bytes().len() < NOT_FOUND,
    ensures
        final(store).wf(),
        final(store).lines(HeaderScope::Response).len() == old(store).lines(
            HeaderScope::Response,
        ).len() + 2,
        final(store).lines(HeaderScope::Response).subrange(
            0,
            old(store).lines(HeaderScope::Response).len() as int,
        ) =~= old(store).lines(HeaderScope::Response),
        final(store).lines(HeaderScope::Response)[old(store).lines(
            HeaderScope::Response,
        ).len() as int] == spec_header_line("X-Delivered-By".spec_bytes(), "Rust".spec_bytes()),
        (forall|k: int|
            0 <= k < old(store).lines(HeaderScope::Request).len() ==> !spec_has_name(
                #[trigger] old(store).lines(HeaderScope::Request)[k],
                "X-Hello".spec_bytes(),
            )) ==> final(store).lines(HeaderScope::Response).last() == Seq::<u8>::empty(),
        (exists|k: int|
            0 <= k < old(store).lines(HeaderScope::Request).len() && spec_has_name(
                #[trigger] old(store).lines(HeaderScope::Request)[k],
                "X-Hello".spec_bytes(),
            )) ==> exists|k: int|
            {
                &&& 0 <= k < old(store).lines(HeaderScope::Request).len()
                &&& spec_has_name(
                    #[trigger] old(store).lines(HeaderScope::Request)[k],
                    "X-Hello".spec_bytes(),
                )
                &&& final(store).lines(HeaderScope::Response).last() == old(store).lines(
                    HeaderScope::Request,
                )[k]
                &&& forall|j: int|
                    0 <= j < k ==> !spec_has_name(
                        #[trigger] old(store).lines(HeaderScope::Request)[j],
                        "X-Hello".spec_bytes(),
                    )
            },
        forall|sc: HeaderScope|
            sc != HeaderScope::Response ==> #[trigger] final(store).lines(sc) == old(store).lines(
                sc,
            ),
{
    match table.slot_lookup(ON_DELIVER_SLOT) {
        Some(id) => {
            if id == FN_ON_DELIVER {
                on_deliver(store)
            } else {
                unreached()
            }
        },
        None => unreached(),
    }
}

/// Invokes a named export with one input buffer: the module's ad hoc RPC
/// surface.  An unknown name gives the null sentinel.
pub fn invoke_named(table: &CallbackTable, name: &[u8], payload: &[u8]) -> (r: Option<String>)
    ensures
        spec_named_lookup(table.named@, name@) is None ==> r is None,
        spec_named_lookup(table.named@, name@) == Some(FN_VERIFY_SIGNATURE)
            ==> spec_verify_export_reply(payload@, r),
        spec_named_lookup(table.named@, name@) == Some(FN_CREATE_TOKEN) ==> (r is Some && (exists|
            e: u64,
        | spec_create_export_reply(e, r))),
{
    match table.named_lookup(name) {
        Some(id) => {
            if id == FN_VERIFY_SIGNATURE {
                verify_signature(payload)
            } else if id == FN_CREATE_TOKEN {
                create_token()
            } else {
                None
            }
        },
        None => None,
    }
}

} // verus!

