use std::cell::Cell;
use varnish_guest::guest::{
    create_token, create_token_at, default_config, dispatch_deliver, dispatch_request, init_guest,
    invoke_named, on_client_request, on_deliver, verify_signature, FN_CLIENT_REQUEST,
    FN_CREATE_TOKEN, FN_ON_DELIVER, FN_VERIFY_SIGNATURE,
};
use varnish_guest::tokens::{check_token, decode_base64, TokenError};
use varnish_guest::varnish::{
    backend_response, forge, forge_response, forge_with_post, trampoline, BackendResponse,
    CachingDecision, CallbackTable, EventToken, HeaderStore,
};

fn store_with_url(url: &str) -> HeaderStore {
    let mut s = HeaderStore::new();
    s.req.push(b"GET".to_vec());
    s.req.push(url.as_bytes().to_vec());
    s
}

fn fresh_token_bytes(expiration: u64, issuer: &str, secret: &[u8]) -> Vec<u8> {
    // Built directly with the token crate, mirroring what the library mints.
    common_access_token::TokenBuilder::new()
        .algorithm(common_access_token::Algorithm::HmacSha256)
        .protected_key_id(common_access_token::KeyId::string("example-key-id"))
        .registered_claims(
            common_access_token::RegisteredClaims::new()
                .with_issuer(issuer)
                .with_subject("example-subject")
                .with_audience("example-audience")
                .with_expiration(expiration),
        )
        .custom_string(100, "custom-value")
        .sign(secret)
        .expect("signing with a fixed algorithm cannot fail")
        .to_bytes()
        .expect("token serialization cannot fail")
}

fn now() -> u64 {
    common_access_token::current_timestamp()
}

const SECRET: &[u8] = b"my-secret-key-for-varnish-CDN";

#[test]
fn sign_then_verify_round_trip_succeeds() {
    let bytes = fresh_token_bytes(now() + 3600, "example-issuer", SECRET);
    assert_eq!(check_token(&bytes, SECRET, "example-issuer"), Ok(()));
}

#[test]
fn expired_token_fails_with_expired() {
    let bytes = fresh_token_bytes(now() - 10, "example-issuer", SECRET);
    assert_eq!(
        check_token(&bytes, SECRET, "example-issuer"),
        Err(TokenError::Expired)
    );
}

#[test]
fn wrong_issuer_fails_with_issuer_mismatch() {
    let bytes = fresh_token_bytes(now() + 3600, "other-issuer", SECRET);
    assert_eq!(
        check_token(&bytes, SECRET, "example-issuer"),
        Err(TokenError::IssuerMismatch)
    );
}

#[test]
fn wrong_secret_fails_with_signature_mismatch() {
    let bytes = fresh_token_bytes(now() + 3600, "example-issuer", b"another-secret");
    assert_eq!(
        check_token(&bytes, SECRET, "example-issuer"),
        Err(TokenError::SignatureMismatch)
    );
}

#[test]
fn junk_bytes_fail_with_malformed_encoding() {
    assert_eq!(
        check_token(b"not a token", SECRET, "example-issuer"),
        Err(TokenError::MalformedEncoding)
    );
}

#[test]
fn base64_decoding_round_trips_and_refuses_junk() {
    let encoded = base64::encode(b"bridge bytes");
    let decoded = decode_base64(encoded.as_bytes()).unwrap();
    assert_eq!(decoded, b"bridge bytes".to_vec());
    assert_eq!(decode_base64(b"!!!not base64!!!"), None);
}

#[test]
fn named_export_round_trip_verifies_a_minted_token() {
    let token_b64 = create_token().expect("minting must succeed with the fixed configuration");
    let reply = verify_signature(token_b64.as_bytes());
    assert_eq!(reply, Some("Signature is valid".to_string()));
}

#[test]
fn named_export_refuses_bad_base64_and_expired_tokens() {
    assert_eq!(verify_signature(b"%%%"), None);
    let expired = create_token_at(now() - 10).unwrap();
    assert_eq!(verify_signature(expired.as_bytes()), None);
}

#[test]
fn empty_body_on_authorization_path_gives_client_error() {
    let mut s = store_with_url("/verify");
    let f = on_client_request(&mut s, b"", EventToken::new());
    assert_eq!(f.status(), 400);
    assert_eq!(f.content_type(), "text/plain");
    assert_eq!(f.body().as_slice(), b"No token provided");
    assert_eq!(f.cached(), CachingDecision::Uncached);
}

#[test]
fn valid_token_on_authorization_path_gives_success() {
    let body = fresh_token_bytes(now() + 3600, "example-issuer", SECRET);
    let mut s = store_with_url("/verify");
    let f = on_client_request(&mut s, &body, EventToken::new());
    assert_eq!(f.status(), 200);
    assert_eq!(f.body().as_slice(), b"Token is valid");
}

#[test]
fn expired_token_on_authorization_path_is_denied() {
    let body = fresh_token_bytes(now() - 10, "example-issuer", SECRET);
    let mut s = store_with_url("/verify");
    let f = on_client_request(&mut s, &body, EventToken::new());
    assert_eq!(f.status(), 401);
    assert_eq!(f.body().as_slice(), b"Token verification failed");
}

#[test]
fn content_path_serves_a_verifiable_token_under_fixed_media_type() {
    let mut s = store_with_url("/cat/photo");
    let f = on_client_request(&mut s, b"", EventToken::new());
    assert_eq!(f.status(), 200);
    assert_eq!(f.content_type(), "application/cbor");
    assert_eq!(check_token(f.body().as_slice(), SECRET, "example-issuer"), Ok(()));
}

#[test]
fn unmatched_path_falls_through_to_cached_default() {
    let mut s = store_with_url("/elsewhere");
    let f = on_client_request(&mut s, b"", EventToken::new());
    assert_eq!(f.status(), 200);
    assert_eq!(f.content_type(), "text/plain");
    assert_eq!(f.body().as_slice(), b"Default response from Rust");
    assert_eq!(f.cached(), CachingDecision::Cached);
}

#[test]
fn request_handler_tags_the_request_with_the_url() {
    let mut s = store_with_url("/elsewhere");
    let _ = on_client_request(&mut s, b"", EventToken::new());
    assert_eq!(s.req.last().unwrap(), &b"X-Hello: /elsewhere".to_vec());
}

#[test]
fn deliver_hook_appends_tag_and_echoes_hello() {
    let mut s = store_with_url("/p");
    let _ = on_client_request(&mut s, b"", EventToken::new());
    on_deliver(&mut s);
    assert_eq!(s.resp[0], b"X-Delivered-By: Rust".to_vec());
    assert_eq!(s.resp[1], b"X-Hello: /p".to_vec());
}

#[test]
fn deliver_hook_echoes_empty_line_without_hello() {
    let mut s = HeaderStore::new();
    on_deliver(&mut s);
    assert_eq!(s.resp[0], b"X-Delivered-By: Rust".to_vec());
    assert_eq!(s.resp[1], Vec::<u8>::new());
}

#[test]
fn producers_run_exactly_once_per_forge() {
    let count = Cell::new(0u32);
    let f = forge(EventToken::new(), CachingDecision::Uncached, |_a, _b| {
        count.set(count.get() + 1);
        backend_response(204, "text/plain", b"")
    });
    assert_eq!(count.get(), 1);
    assert_eq!(f.status(), 204);

    let post_count = Cell::new(0u32);
    let f2 = forge_with_post(
        EventToken::new(),
        CachingDecision::Uncached,
        |_a, _b, data: &[u8]| {
            post_count.set(post_count.get() + 1);
            backend_response(200, "text/plain", data)
        },
        b"payload",
    );
    assert_eq!(post_count.get(), 1);
    assert_eq!(f2.body().as_slice(), b"payload");
}

#[test]
fn trampoline_passes_the_backend_scope_codes() {
    let seen = Cell::new((0u32, 0u32));
    let r = trampoline(|a, b| {
        seen.set((a, b));
        backend_response(200, "text/plain", b"ok")
    });
    assert_eq!(seen.get(), (4, 5));
    assert_eq!(r.status, 200);
}

#[test]
fn forge_response_hands_fields_through() {
    let resp = BackendResponse {
        status: 418,
        content_type: "text/plain",
        body: b"teapot".to_vec(),
    };
    let f = forge_response(EventToken::new(), CachingDecision::Cached, resp);
    assert_eq!(f.status(), 418);
    assert_eq!(f.cached(), CachingDecision::Cached);
    assert_eq!(f.body().as_slice(), b"teapot");
}

#[test]
fn cached_default_is_not_recomputed_for_an_identical_request() {
    // A double of the host's cache: a forged result marked Cached is reused
    // for an equivalent future request without re-entering the guest.
    let mut table = CallbackTable::new();
    init_guest(&mut table);
    let mut handler_calls = 0u32;
    let mut cache: Vec<(Vec<u8>, (u16, Vec<u8>))> = Vec::new();
    for _ in 0..2 {
        let url = b"/same-path".to_vec();
        let hit = cache.iter().find(|(u, _)| *u == url).cloned();
        let (status, body) = match hit {
            Some((_, result)) => result,
            None => {
                let mut s = store_with_url("/same-path");
                handler_calls += 1;
                let f = dispatch_request(&table, &mut s, b"", EventToken::new());
                let result = (f.status(), f.body().clone());
                if f.cached() == CachingDecision::Cached {
                    cache.push((url, result.clone()));
                }
                result
            }
        };
        assert_eq!(status, 200);
        assert_eq!(body.as_slice(), b"Default response from Rust");
    }
    assert_eq!(handler_calls, 1);
}

#[test]
fn startup_registers_handlers_and_exports() {
    let mut table = CallbackTable::new();
    init_guest(&mut table);
    assert_eq!(table.slot_lookup(0), Some(FN_CLIENT_REQUEST));
    assert_eq!(table.slot_lookup(7), Some(FN_ON_DELIVER));
    assert_eq!(table.named_lookup(b"verify_signature"), Some(FN_VERIFY_SIGNATURE));
    assert_eq!(table.named_lookup(b"create_token"), Some(FN_CREATE_TOKEN));

    let minted = invoke_named(&table, b"create_token", b"").unwrap();
    let verdict = invoke_named(&table, b"verify_signature", minted.as_bytes());
    assert_eq!(verdict, Some("Signature is valid".to_string()));
    assert_eq!(invoke_named(&table, b"unknown", b""), None);

    let mut s = store_with_url("/via-dispatch");
    dispatch_deliver(&table, &mut s);
    assert_eq!(s.resp[0], b"X-Delivered-By: Rust".to_vec());
}

#[test]
fn configuration_is_the_fixed_one() {
    let cfg = default_config();
    assert_eq!(cfg.secret.as_bytes(), SECRET);
    assert_eq!(cfg.issuer, "example-issuer");
    assert_eq!(cfg.custom_key, 100);
}

#[test]
fn not_yet_valid_token_fails_with_not_yet_valid() {
    // Built directly with the token crate: the library's own minting never
    // sets a not-before claim.
    let token = common_access_token::TokenBuilder::new()
        .algorithm(common_access_token::Algorithm::HmacSha256)
        .protected_key_id(common_access_token::KeyId::string("example-key-id"))
        .registered_claims(
            common_access_token::RegisteredClaims::new()
                .with_issuer("example-issuer")
                .with_expiration(now() + 3600)
                .with_not_before(now() + 1800),
        )
        .sign(SECRET)
        .unwrap();
    let bytes = token.to_bytes().unwrap();
    assert_eq!(
        check_token(&bytes, SECRET, "example-issuer"),
        Err(TokenError::NotYetValid)
    );
}

#[test]
fn crafted_huge_array_declaration_is_refused_not_fatal() {
    // A protected header whose single map value declares a 2^63-element
    // array in eleven bytes; the structure scan must refuse it before the
    // decoder would try to reserve that capacity.
    let mut evil = vec![0x84u8, 0x4B, 0xA1, 0x01, 0x9B];
    evil.extend_from_slice(&[0x7F, 0xFF, 0xFF, 0xFF, 0xFF, 0xFF, 0xFF, 0xFF]);
    evil.extend_from_slice(&[0xA0, 0x41, 0x00, 0x40]);
    assert_eq!(
        check_token(&evil, SECRET, "example-issuer"),
        Err(TokenError::MalformedEncoding)
    );
}

#[test]
fn deeply_nested_input_is_refused_not_fatal() {
    // A protected header nesting a thousand arrays; the structure scan's
    // depth bound must refuse it before the decoder would recurse that far.
    let mut inner = vec![0xA1u8, 0x01];
    for _ in 0..1000 {
        inner.push(0x81);
    }
    inner.push(0x01);
    let mut evil = vec![0x84u8, 0x59];
    evil.extend_from_slice(&(inner.len() as u16).to_be_bytes());
    evil.extend_from_slice(&inner);
    evil.extend_from_slice(&[0xA0, 0x41, 0x00, 0x40]);
    assert_eq!(
        check_token(&evil, SECRET, "example-issuer"),
        Err(TokenError::MalformedEncoding)
    );
}

#[test]
fn named_export_refuses_a_wrongly_signed_token() {
    let bytes = fresh_token_bytes(now() + 3600, "example-issuer", b"another-secret");
    let text = base64::encode(&bytes);
    assert_eq!(verify_signature(text.as_bytes()), None);
}
