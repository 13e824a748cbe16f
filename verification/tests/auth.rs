use cis_client::auth::{
    access_token_from, expiry_from, get_expiration, get_raw_access_token, token_request,
    BearerBearer,
};
use cis_client::cache::Credential;
use cis_client::error::{RefreshError, TokenFormatError};
use cis_client::settings::ClientConfig;

fn base64url(input: &[u8]) -> String {
    let alphabet = b"ABCDEFGHIJKLMNOPQRSTUVWXYZabcdefghijklmnopqrstuvwxyz0123456789-_";
    let mut out = String::new();
    for chunk in input.chunks(3) {
        let b0 = chunk[0] as u32;
        let b1 = if chunk.len() > 1 { chunk[1] as u32 } else { 0 };
        let b2 = if chunk.len() > 2 { chunk[2] as u32 } else { 0 };
        let n = (b0 << 16) | (b1 << 8) | b2;
        out.push(alphabet[((n >> 18) & 63) as usize] as char);
        out.push(alphabet[((n >> 12) & 63) as usize] as char);
        if chunk.len() > 1 {
            out.push(alphabet[((n >> 6) & 63) as usize] as char);
        }
        if chunk.len() > 2 {
            out.push(alphabet[(n & 63) as usize] as char);
        }
    }
    out
}

fn token_with_claims(claims: &str) -> String {
    format!(
        "{}.{}.{}",
        base64url(b"{\"alg\":\"HS256\",\"typ\":\"JWT\"}"),
        base64url(claims.as_bytes()),
        "c2lnbmF0dXJl"
    )
}

fn config() -> ClientConfig {
    ClientConfig {
        client_id: String::from("id-1"),
        client_secret: String::from("SECRET-REDACTED"),
        audience: String::from("api.example.org"),
        token_endpoint: String::from("https://auth.example.org/oauth/token"),
        scopes: String::from("read:profile write:profile"),
    }
}

#[test]
fn token_request_carries_the_configuration() {
    let request = token_request(&config());
    assert_eq!(request.endpoint, "https://auth.example.org/oauth/token");
    assert_eq!(request.client_id, "id-1");
    assert_eq!(request.client_secret, "SECRET-REDACTED");
    assert_eq!(request.audience, "api.example.org");
    assert_eq!(request.grant_type, "client_credentials");
    assert_eq!(request.scopes, "read:profile write:profile");
}

#[test]
fn access_token_is_read_from_a_successful_answer() {
    let body = b"{\"access_token\": \"H.E.S\", \"token_type\": \"Bearer\"}";
    assert_eq!(get_raw_access_token(200, body), Ok(String::from("H.E.S")));
    assert_eq!(get_raw_access_token(201, body), Ok(String::from("H.E.S")));
    assert_eq!(get_raw_access_token(299, body), Ok(String::from("H.E.S")));
}

#[test]
fn access_token_is_not_the_body_itself() {
    let body = b"{\"access_token\": \"abc\"}";
    let token = get_raw_access_token(200, body).unwrap();
    assert_eq!(token, "abc");
    assert_ne!(token.as_bytes(), &body[..]);
}

#[test]
fn answer_outside_2xx_is_refused_unread() {
    let body = b"{\"access_token\": \"H.E.S\"}";
    assert_eq!(get_raw_access_token(500, body), Err(RefreshError::Status(500)));
    assert_eq!(get_raw_access_token(199, body), Err(RefreshError::Status(199)));
    assert_eq!(get_raw_access_token(300, body), Err(RefreshError::Status(300)));
    assert_eq!(get_raw_access_token(404, b"not json"), Err(RefreshError::Status(404)));
    assert_eq!(get_raw_access_token(0, body), Err(RefreshError::Status(0)));
}

#[test]
fn answer_that_is_not_json_is_refused() {
    assert_eq!(get_raw_access_token(200, b"<html>"), Err(RefreshError::Body));
    assert_eq!(get_raw_access_token(200, b""), Err(RefreshError::Body));
    assert_eq!(get_raw_access_token(200, b"{\"access_token\": "), Err(RefreshError::Body));
}

#[test]
fn answer_without_access_token_is_refused() {
    assert_eq!(get_raw_access_token(200, b"{}"), Err(RefreshError::NoAccessToken));
    assert_eq!(
        get_raw_access_token(200, b"{\"token\": \"abc\"}"),
        Err(RefreshError::NoAccessToken)
    );
    assert_eq!(
        get_raw_access_token(200, b"{\"access_token\": 17}"),
        Err(RefreshError::NoAccessToken)
    );
    assert_eq!(
        get_raw_access_token(200, b"{\"access_token\": null}"),
        Err(RefreshError::NoAccessToken)
    );
    assert_eq!(get_raw_access_token(200, b"[\"access_token\"]"), Err(RefreshError::NoAccessToken));
    assert_eq!(get_raw_access_token(200, b"\"access_token\""), Err(RefreshError::NoAccessToken));
}

#[test]
fn access_token_decision_by_cases() {
    assert_eq!(
        access_token_from(200, Some(Some(String::from("t")))),
        Ok(String::from("t"))
    );
    assert_eq!(access_token_from(200, Some(None)), Err(RefreshError::NoAccessToken));
    assert_eq!(access_token_from(200, None), Err(RefreshError::Body));
    assert_eq!(
        access_token_from(503, Some(Some(String::from("t")))),
        Err(RefreshError::Status(503))
    );
    assert_eq!(access_token_from(503, None), Err(RefreshError::Status(503)));
}

#[test]
fn expiry_is_read_back() {
    assert_eq!(get_expiration(&token_with_claims("{\"exp\": 9999999999}")), Ok(9999999999));
    assert_eq!(get_expiration(&token_with_claims("{\"exp\":0}")), Ok(0));
    assert_eq!(get_expiration(&token_with_claims("{\"exp\": 1}")), Ok(1));
    assert_eq!(get_expiration(&token_with_claims("{\"exp\": -5}")), Ok(-5));
    assert_eq!(
        get_expiration(&token_with_claims("{\"iss\":\"issuer\",\"exp\":1554194047,\"sub\":\"x\"}")),
        Ok(1554194047)
    );
}

#[test]
fn expiry_round_trip_over_many_instants() {
    let mut t: i64 = 1;
    while t < 4_000_000_000_000 {
        let claims = format!("{{\"exp\": {}}}", t);
        assert_eq!(get_expiration(&token_with_claims(&claims)), Ok(t));
        t = t * 7 + 3;
    }
}

#[test]
fn expiry_beyond_any_calendar_is_still_an_integer() {
    let claims = format!("{{\"exp\": {}}}", i64::MAX);
    assert_eq!(get_expiration(&token_with_claims(&claims)), Ok(i64::MAX));
    let claims = format!("{{\"exp\": {}}}", i64::MIN);
    assert_eq!(get_expiration(&token_with_claims(&claims)), Ok(i64::MIN));
}

#[test]
fn header_and_signature_are_not_looked_at() {
    let claims = base64url(b"{\"exp\": 9999999999}");
    assert_eq!(get_expiration(&format!("H.{}.S", claims)), Ok(9999999999));
    assert_eq!(get_expiration(&format!(".{}.", claims)), Ok(9999999999));
    assert_eq!(get_expiration(&format!("!!!.{}.???", claims)), Ok(9999999999));
}

#[test]
fn token_of_wrong_segment_count_is_refused() {
    let claims = base64url(b"{\"exp\": 9999999999}");
    assert_eq!(get_expiration(""), Err(TokenFormatError::SegmentCount));
    assert_eq!(get_expiration("header"), Err(TokenFormatError::SegmentCount));
    assert_eq!(get_expiration("header.signature"), Err(TokenFormatError::SegmentCount));
    assert_eq!(
        get_expiration(&format!("H.{}", claims)),
        Err(TokenFormatError::SegmentCount)
    );
    assert_eq!(
        get_expiration(&format!("H.{}.S.extra", claims)),
        Err(TokenFormatError::SegmentCount)
    );
    assert_eq!(get_expiration("...."), Err(TokenFormatError::SegmentCount));
    assert_eq!(get_expiration("\u{e9}.\u{e9}"), Err(TokenFormatError::SegmentCount));
}

#[test]
fn claims_that_do_not_decode_are_refused() {
    assert_eq!(get_expiration("H.!!!.S"), Err(TokenFormatError::Encoding));
    assert_eq!(get_expiration("H.a.S"), Err(TokenFormatError::Encoding));
    assert_eq!(get_expiration("H.e30=.S"), Err(TokenFormatError::Encoding));
    assert_eq!(get_expiration("H.\u{e9}\u{e9}.S"), Err(TokenFormatError::Encoding));
}

#[test]
fn claims_that_are_not_json_are_refused() {
    assert_eq!(get_expiration(&token_with_claims("not json")), Err(TokenFormatError::Claims));
    assert_eq!(get_expiration(&token_with_claims("{\"exp\": ")), Err(TokenFormatError::Claims));
    assert_eq!(get_expiration("H..S"), Err(TokenFormatError::Claims));
}

#[test]
fn claims_without_integer_expiry_are_refused() {
    assert_eq!(get_expiration(&token_with_claims("{}")), Err(TokenFormatError::NoExpiry));
    assert_eq!(
        get_expiration(&token_with_claims("{\"iat\": 1554194047}")),
        Err(TokenFormatError::NoExpiry)
    );
    assert_eq!(
        get_expiration(&token_with_claims("{\"exp\": \"1554194047\"}")),
        Err(TokenFormatError::NoExpiry)
    );
    assert_eq!(
        get_expiration(&token_with_claims("{\"exp\": 1.5}")),
        Err(TokenFormatError::NoExpiry)
    );
    assert_eq!(
        get_expiration(&token_with_claims("{\"exp\": null}")),
        Err(TokenFormatError::NoExpiry)
    );
    assert_eq!(
        get_expiration(&token_with_claims("{\"exp\": 18446744073709551615}")),
        Err(TokenFormatError::NoExpiry)
    );
    assert_eq!(get_expiration(&token_with_claims("[1, 2]")), Err(TokenFormatError::NoExpiry));
}

#[test]
fn expiry_decision_by_cases() {
    assert_eq!(expiry_from(true, true, Some(Some(12))), Ok(12));
    assert_eq!(expiry_from(true, true, Some(None)), Err(TokenFormatError::NoExpiry));
    assert_eq!(expiry_from(true, true, None), Err(TokenFormatError::Claims));
    assert_eq!(expiry_from(true, false, Some(Some(12))), Err(TokenFormatError::Encoding));
    assert_eq!(expiry_from(false, true, Some(Some(12))), Err(TokenFormatError::SegmentCount));
    assert_eq!(expiry_from(false, false, None), Err(TokenFormatError::SegmentCount));
}

#[test]
fn new_bearer_holds_no_token() {
    let bearer = BearerBearer::new(config());
    assert_eq!(bearer.bearer_token_str, "");
    assert_eq!(bearer.exp, 0);
    assert_eq!(bearer.expiry(), 0);
    assert_eq!(bearer.config.client_id, "id-1");
    assert_eq!(bearer.config.token_endpoint, "https://auth.example.org/oauth/token");
}

#[test]
fn refreshed_bearer_takes_token_and_expiry_together() {
    let seed = BearerBearer::new(config());
    let token = token_with_claims("{\"exp\": 1700000000}");
    let body = format!("{{\"access_token\": \"{}\"}}", token);
    let bearer = seed.refreshed(200, body.as_bytes()).ok().unwrap();
    assert_eq!(bearer.bearer_token_str, token);
    assert_eq!(bearer.exp, 1700000000);
    assert_eq!(bearer.expiry(), 1700000000);
    assert_eq!(bearer.config.client_id, "id-1");
    assert_eq!(bearer.config.scopes, "read:profile write:profile");
    assert_eq!(seed.bearer_token_str, "");
    assert_eq!(seed.exp, 0);
}

#[test]
fn refresh_fails_as_a_whole() {
    let seed = BearerBearer::new(config());
    assert_eq!(seed.refreshed(500, b"{}").err(), Some(RefreshError::Status(500)));
    assert_eq!(seed.refreshed(200, b"oops").err(), Some(RefreshError::Body));
    assert_eq!(seed.refreshed(200, b"{}").err(), Some(RefreshError::NoAccessToken));
    assert_eq!(
        seed.refreshed(200, b"{\"access_token\": \"opaque\"}").err(),
        Some(RefreshError::Token(TokenFormatError::SegmentCount))
    );
    assert_eq!(
        seed.refreshed(200, b"{\"access_token\": \"a.!.c\"}").err(),
        Some(RefreshError::Token(TokenFormatError::Encoding))
    );
    let no_exp = format!("{{\"access_token\": \"{}\"}}", token_with_claims("{\"sub\": \"x\"}"));
    assert_eq!(
        seed.refreshed(200, no_exp.as_bytes()).err(),
        Some(RefreshError::Token(TokenFormatError::NoExpiry))
    );
}

#[test]
fn duplicate_is_an_equal_bearer() {
    let seed = BearerBearer::new(config());
    let token = token_with_claims("{\"exp\": 42}");
    let body = format!("{{\"access_token\": \"{}\"}}", token);
    let bearer = seed.refreshed(200, body.as_bytes()).ok().unwrap();
    let copy = bearer.duplicate();
    assert_eq!(copy.bearer_token_str, bearer.bearer_token_str);
    assert_eq!(copy.exp, 42);
    assert_eq!(copy.config.client_secret, bearer.config.client_secret);
    assert_eq!(copy.config.audience, "api.example.org");
}
