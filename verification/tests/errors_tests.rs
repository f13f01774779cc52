use nodegaze::errors::{HttpError, LightningError, ServiceError};
use nodegaze::price::{cache_is_fresh, price_after_fetch, CACHE_DURATION_NANOS};

#[test]
fn service_error_constructors_and_text() {
    assert_eq!(ServiceError::validation("bad").message(), "Validation error: bad");
    assert_eq!(ServiceError::not_found("User", "u1").message(), "User not found: u1");
    assert_eq!(ServiceError::already_exists("Account", "Acme").message(), "Account already exists: Acme");
    assert_eq!(ServiceError::invalid_operation("nope").message(), "Invalid operation: nope");
    assert_eq!(ServiceError::Database { message: "locked".to_string() }.message(), "Database error: locked");
    assert_eq!(
        ServiceError::ExternalService { message: "down".to_string() }.message(),
        "External service error: down"
    );
    assert_eq!(ServiceError::InternalError { message: "oops".to_string() }.message(), "Internal error: oops");
    assert_eq!(
        ServiceError::not_found("User", "u1"),
        ServiceError::NotFound { entity: "User".to_string(), identifier: "u1".to_string() }
    );
}

#[test]
fn lightning_error_text() {
    assert_eq!(LightningError::NotFound("chan".to_string()).message(), "Not found: chan");
    assert_eq!(LightningError::Parse("x".to_string()).message(), "Parse error: x");
    assert_eq!(LightningError::NetworkError("y".to_string()).message(), "Network error: y");
    assert_eq!(LightningError::ChannelError("z".to_string()).message(), "Channel error: z");
}

#[test]
fn http_error_parts() {
    let e = HttpError::new(404, "missing", "not_found");
    assert_eq!(e, HttpError { status: 404, message: "missing".to_string(), code: "not_found".to_string() });
}

#[test]
fn price_cache_freshness() {
    assert!(cache_is_fresh(Some(0)));
    assert!(cache_is_fresh(Some(CACHE_DURATION_NANOS - 1)));
    assert!(!cache_is_fresh(Some(CACHE_DURATION_NANOS)));
    assert!(!cache_is_fresh(None));
    assert_eq!(CACHE_DURATION_NANOS, 120_000_000_000);
}

#[test]
fn failed_fetch_falls_back_to_stale_price() {
    assert_eq!(price_after_fetch::<f64>(Ok(65_000.5), Some(60_000.0)), Ok(65_000.5));
    assert_eq!(
        price_after_fetch::<f64>(Err(LightningError::NetworkError("timeout".to_string())), Some(60_000.0)),
        Ok(60_000.0)
    );
    assert_eq!(
        price_after_fetch::<f64>(Err(LightningError::Parse("bad json".to_string())), None),
        Err(LightningError::Parse("bad json".to_string()))
    );
}
