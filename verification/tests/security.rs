//! Credentials, tokens, limits and the audit log.
use seidrum::gateway::audit::{AuditEntryBuilder, AuditLog};
use seidrum::gateway::auth::{hash_password, validate_api_key, verify_password, AuthHandler};
use seidrum::gateway::jwt::{JwtService, TokenError};
use seidrum::gateway::rate_limiter::{RateLimitConfig, RateLimiter};
use std::time::{Duration, Instant};

fn wait(d: Duration) {
    let start = Instant::now();
    while start.elapsed() < d {}
}

#[test]
fn valid_api_key() {
    assert!(validate_api_key("secret123", "secret123"));
}

#[test]
fn invalid_api_key() {
    assert!(!validate_api_key("wrong", "secret123"));
}

#[test]
fn empty_api_key() {
    assert!(!validate_api_key("", "secret123"));
}

#[test]
fn both_empty_api_key() {
    assert!(validate_api_key("", ""));
}

#[test]
fn test_auth_handler_with_api_key() {
    let handler = AuthHandler::new("test-key".to_string(), None, 3600);
    let result = handler.authenticate("", Some("test-key".to_string()));
    assert!(result.is_some());
    let auth = result.unwrap();
    assert_eq!(auth.role, "admin");
    assert!(auth.user_id.is_none());
}

#[test]
fn test_auth_handler_invalid_api_key() {
    let handler = AuthHandler::new("test-key".to_string(), None, 3600);
    let result = handler.authenticate("", Some("wrong-key".to_string()));
    assert!(result.is_none());
}

#[test]
fn test_auth_handler_with_jwt() {
    let jwt_secret = "test-secret";
    let handler = AuthHandler::new("api-key".to_string(), Some(jwt_secret.to_string()), 3600);
    let jwt_service = handler.jwt_service.as_ref().unwrap();
    let token = jwt_service
        .generate_token("user1", "admin", vec!["scope_root".to_string()], None)
        .unwrap();
    let result = handler.authenticate(&format!("Bearer {}", token), None);
    assert!(result.is_some());
    let auth = result.unwrap();
    assert_eq!(auth.subject, "user1");
    assert_eq!(auth.role, "admin");
}

#[test]
fn test_auth_handler_with_user_jwt() {
    let jwt_secret = "test-secret";
    let handler = AuthHandler::new("api-key".to_string(), Some(jwt_secret.to_string()), 3600);
    let jwt_service = handler.jwt_service.as_ref().unwrap();
    let token = jwt_service
        .generate_token(
            "alice",
            "user",
            vec!["scope_root".to_string()],
            Some("user_alice".to_string()),
        )
        .unwrap();
    let result = handler.authenticate(&format!("Bearer {}", token), None);
    assert!(result.is_some());
    let auth = result.unwrap();
    assert_eq!(auth.subject, "alice");
    assert_eq!(auth.role, "user");
    assert_eq!(auth.user_id, Some("user_alice".to_string()));
}

#[test]
fn the_api_key_serves_as_a_token() {
    let handler = AuthHandler::new("my-secret".to_string(), Some("s".to_string()), 3600);
    let auth = handler.authenticate("Bearer my-secret", None).unwrap();
    assert_eq!(auth.subject, "api-key");
    assert_eq!(auth.role, "admin");
    assert!(handler.authenticate("Bearer other", None).is_none());
    assert!(handler.authenticate("ApiKey my-secret", None).is_some());
    assert!(AuthHandler::new(String::new(), None, 1).authenticate("Bearer ", None).is_none());
}

#[test]
fn test_password_hashing() {
    let password = "my-secure-password";
    let hash = match hash_password(password) {
        Ok(h) => h,
        Err(e) => panic!("{}", e.message),
    };
    assert!(verify_password(password, &hash));
    assert!(!verify_password("wrong-password", &hash));
}

#[test]
fn a_hash_is_no_password() {
    let hash = match hash_password("pw") {
        Ok(h) => h,
        Err(e) => panic!("{}", e.message),
    };
    assert!(hash.starts_with("$argon2id$v=19$m=65536,t=3,p=4$"));
    assert!(!verify_password(&hash, &hash));
    assert!(!verify_password("pw", "no hash"));
    assert!(!verify_password("pw", &hash.replace("p=4", "p=4000000000")));
}

#[test]
fn test_generate_and_validate_token() {
    let service = JwtService::new("test-secret-key", 3600);
    let token = service
        .generate_token("user1", "admin", vec!["scope_root".to_string()], None)
        .unwrap();
    let claims = match service.validate_token(&token) {
        Ok(c) => c,
        Err(e) => panic!("{}", e.message()),
    };
    assert_eq!(claims.sub, "user1");
    assert_eq!(claims.role, "admin");
    assert_eq!(claims.scopes, vec!["scope_root"]);
    assert!(!claims.jti.is_empty());
    assert_eq!(claims.exp, claims.iat + 3600);
}

#[test]
fn test_generate_token_with_user_id() {
    let service = JwtService::new("test-secret-key", 3600);
    let token = service
        .generate_token(
            "user1",
            "user",
            vec!["scope_root".to_string()],
            Some("user_abc123".to_string()),
        )
        .unwrap();
    let claims = match service.validate_token(&token) {
        Ok(c) => c,
        Err(e) => panic!("{}", e.message()),
    };
    assert_eq!(claims.user_id, Some("user_abc123".to_string()));
}

#[test]
fn test_expired_token() {
    let service = JwtService::new("test-secret-key", 0);
    let token = service.generate_token("user1", "admin", vec![], None).unwrap();
    wait(Duration::from_secs(1));
    assert!(service.validate_token(&token).is_err());
}

#[test]
fn test_invalid_signature() {
    let service1 = JwtService::new("secret1", 3600);
    let service2 = JwtService::new("secret2", 3600);
    let token = service1.generate_token("user1", "admin", vec![], None).unwrap();
    assert!(service2.validate_token(&token).is_err());
}

#[test]
fn test_token_revocation() {
    let mut service = JwtService::new("test-secret-key", 3600);
    let token = service.generate_token("user1", "admin", vec![], None).unwrap();

    let claims = match service.validate_token(&token) {
        Ok(c) => c,
        Err(e) => panic!("{}", e.message()),
    };
    let jti = claims.jti.clone();

    service.revoke_token(&jti);

    assert!(service.validate_token(&token).is_err());
    assert!(service.is_revoked(&jti));
}

#[test]
fn revoked_and_broken_tokens_say_so() {
    let mut service = JwtService::new("k", 60);
    let token = service.generate_token("u", "user", vec![], None).unwrap();
    let claims = match service.validate_token(&token) {
        Ok(c) => c,
        Err(e) => panic!("{}", e.message()),
    };
    service.revoke_token(&claims.jti);
    match service.validate_token(&token) {
        Err(TokenError::Revoked) => {}
        _ => panic!("not revoked"),
    }
    match service.validate_token("a.b") {
        Err(TokenError::Invalid(e)) => assert_eq!(e, "InvalidToken"),
        _ => panic!("not invalid"),
    }
    service.revoke_token("older");
    service.revoke_token("newer");
    service.cleanup_revocations(1);
    assert_eq!(service.list_revocations(), vec!["newer"]);
}

#[test]
fn test_rate_limit_allows_requests() {
    let config = RateLimitConfig {
        regular_rpm: 2,
        admin_rpm: 2,
        cleanup_interval_secs: 300,
    };
    let mut limiter = RateLimiter::new(config);

    let (allowed, remaining, retry) = limiter.check_rate_limit("user1", false);
    assert!(allowed);
    assert_eq!(remaining, 1);
    assert_eq!(retry, None);

    let (allowed, remaining, retry) = limiter.check_rate_limit("user1", false);
    assert!(allowed);
    assert_eq!(remaining, 0);
    assert_eq!(retry, None);

    let (allowed, remaining, retry) = limiter.check_rate_limit("user1", false);
    assert!(!allowed);
    assert_eq!(remaining, 0);
    assert!(retry.is_some());
}

#[test]
fn test_admin_higher_limit() {
    let config = RateLimitConfig {
        regular_rpm: 1,
        admin_rpm: 2,
        cleanup_interval_secs: 300,
    };
    let mut limiter = RateLimiter::new(config);

    let (allowed1, _, _) = limiter.check_rate_limit("admin", true);
    let (allowed2, _, _) = limiter.check_rate_limit("admin", true);
    assert!(allowed1);
    assert!(allowed2);

    let (allowed1, _, _) = limiter.check_rate_limit("user", false);
    let (allowed2, _, _) = limiter.check_rate_limit("user", false);
    assert!(allowed1);
    assert!(!allowed2);
}

#[test]
fn test_per_user_rpm_override() {
    let config = RateLimitConfig {
        regular_rpm: 1,
        admin_rpm: 10,
        cleanup_interval_secs: 300,
    };
    let mut limiter = RateLimiter::new(config);
    limiter.set_user_rpm("special_user", 3);

    let (a1, _, _) = limiter.check_rate_limit("special_user", false);
    let (a2, _, _) = limiter.check_rate_limit("special_user", false);
    let (a3, _, _) = limiter.check_rate_limit("special_user", false);
    let (a4, _, _) = limiter.check_rate_limit("special_user", false);
    assert!(a1);
    assert!(a2);
    assert!(a3);
    assert!(!a4);
}

#[test]
fn tokens_come_back_with_time() {
    let config = RateLimitConfig {
        regular_rpm: 2,
        admin_rpm: 2,
        cleanup_interval_secs: 300,
    };
    let mut limiter = RateLimiter::new(config);
    assert_eq!(limiter.check_at("u", false, 1000), (true, 1, None));
    assert_eq!(limiter.check_at("u", false, 1000), (true, 0, None));
    let (allowed, _, retry) = limiter.check_at("u", false, 1000);
    assert!(!allowed);
    assert_eq!(retry, Some(30));
    assert!(!limiter.check_at("u", false, 1029).0);
    assert!(limiter.check_at("u", false, 1030).0);

    let saved = limiter.save_state();
    let mut again = RateLimiter::new(config);
    again.restore_state(&saved, 1030);
    assert!(!again.check_at("u", false, 1031).0);
    limiter.cleanup_at(10, 2000);
    assert!(limiter.save_state().is_empty());
}

#[test]
fn test_auth_handler_api_key() {
    let handler = AuthHandler::new("test-secret".to_string(), None, 3600);
    let result = handler.authenticate("", Some("test-secret".to_string()));
    assert!(result.is_some());
    let auth = result.unwrap();
    assert_eq!(auth.role, "admin");
}

#[test]
fn test_auth_handler_jwt() {
    let jwt_secret = "jwt-secret";
    let handler = AuthHandler::new("api-key".to_string(), Some(jwt_secret.to_string()), 3600);
    let jwt_svc = handler.jwt_service.as_ref().unwrap();
    let token = jwt_svc
        .generate_token("testuser", "user", vec!["read".to_string()], None)
        .unwrap();
    let result = handler.authenticate(&format!("Bearer {}", token), None);
    assert!(result.is_some());
    let auth = result.unwrap();
    assert_eq!(auth.subject, "testuser");
    assert_eq!(auth.role, "user");
}

#[test]
fn test_jwt_generation_and_validation() {
    let jwt = JwtService::new("secret123", 3600);
    let token = jwt
        .generate_token("user1", "admin", vec!["scope_root".to_string()], None)
        .unwrap();
    let claims = match jwt.validate_token(&token) {
        Ok(c) => c,
        Err(e) => panic!("{}", e.message()),
    };
    assert_eq!(claims.sub, "user1");
    assert_eq!(claims.role, "admin");
    assert_eq!(claims.scopes, vec!["scope_root"]);
}

#[test]
fn test_jwt_expiration() {
    let jwt = JwtService::new("secret123", 0);
    let token = jwt.generate_token("user1", "admin", vec![], None).unwrap();
    wait(Duration::from_secs(1));
    let result = jwt.validate_token(&token);
    assert!(result.is_err());
}

#[test]
fn test_jwt_with_user_id() {
    let jwt = JwtService::new("secret123", 3600);
    let token = jwt
        .generate_token(
            "alice",
            "user",
            vec!["scope_root".to_string()],
            Some("user_alice123".to_string()),
        )
        .unwrap();
    let claims = match jwt.validate_token(&token) {
        Ok(c) => c,
        Err(e) => panic!("{}", e.message()),
    };
    assert_eq!(claims.sub, "alice");
    assert_eq!(claims.role, "user");
    assert_eq!(claims.user_id, Some("user_alice123".to_string()));
}

#[test]
fn test_rate_limiter_basic() {
    let config = RateLimitConfig {
        regular_rpm: 3,
        admin_rpm: 10,
        cleanup_interval_secs: 300,
    };
    let mut limiter = RateLimiter::new(config);
    for i in 0..3 {
        let (allowed, _, _) = limiter.check_rate_limit("user1", false);
        assert!(allowed, "Request {} should be allowed", i + 1);
    }
    let (allowed, _, retry) = limiter.check_rate_limit("user1", false);
    assert!(!allowed);
    assert!(retry.is_some());
}

#[test]
fn test_rate_limiter_admin_higher() {
    let config = RateLimitConfig {
        regular_rpm: 1,
        admin_rpm: 5,
        cleanup_interval_secs: 300,
    };
    let mut limiter = RateLimiter::new(config);

    let (allowed1, _, _) = limiter.check_rate_limit("admin", true);
    let (allowed2, _, _) = limiter.check_rate_limit("admin", true);
    assert!(allowed1);
    assert!(allowed2);

    let (allowed1, _, _) = limiter.check_rate_limit("user", false);
    let (allowed2, _, _) = limiter.check_rate_limit("user", false);
    assert!(allowed1);
    assert!(!allowed2);
}

#[test]
fn test_rate_limiter_per_user_override() {
    let config = RateLimitConfig {
        regular_rpm: 1,
        admin_rpm: 10,
        cleanup_interval_secs: 300,
    };
    let mut limiter = RateLimiter::new(config);
    limiter.set_user_rpm("special", 3);

    let (a1, _, _) = limiter.check_rate_limit("special", false);
    let (a2, _, _) = limiter.check_rate_limit("special", false);
    let (a3, _, _) = limiter.check_rate_limit("special", false);
    let (a4, _, _) = limiter.check_rate_limit("special", false);
    assert!(a1);
    assert!(a2);
    assert!(a3);
    assert!(!a4);
}

#[test]
fn test_audit_log_basic() {
    let mut log = AuditLog::new(10);
    let entry = AuditEntryBuilder::new("test.action", "user1", "resource1")
        .method("POST")
        .path("/api/test")
        .status(200)
        .build();
    log.log(entry);
    assert_eq!(log.count(), 1);

    let results = log.query(10, None);
    assert_eq!(results.len(), 1);
    assert_eq!(results[0].action, "test.action");
    assert_eq!(results[0].method, "POST");
    assert_eq!(results[0].path, "/api/test");
    assert_eq!(results[0].status, 200);
    assert_eq!(results[0].resource, "resource1");
}

#[test]
fn audit_test_audit_log_max_entries() {
    let mut log = AuditLog::new(3);
    for i in 0..5 {
        let entry = AuditEntryBuilder::new("action", &format!("user{}", i), "resource")
            .method("POST")
            .build();
        log.log(entry);
    }
    assert_eq!(log.count(), 3);
}

#[test]
fn test_audit_log_query_ordering() {
    let mut log = AuditLog::new(10);
    for i in 0..3 {
        let entry = AuditEntryBuilder::new("action", &format!("user{}", i), "resource").build();
        log.log(entry);
    }
    let results = log.query(10, None);
    assert_eq!(results[0].subject, "user2");
    assert_eq!(results[1].subject, "user1");
    assert_eq!(results[2].subject, "user0");
}

#[test]
fn test_audit_log_logging() {
    let mut log = AuditLog::new(100);
    let entry = AuditEntryBuilder::new("test.action", "user1", "resource1")
        .method("POST")
        .path("/api/v1/test")
        .status(200)
        .build();
    log.log(entry);
    assert_eq!(log.count(), 1);

    let results = log.query(10, None);
    assert_eq!(results.len(), 1);
    assert_eq!(results[0].action, "test.action");
    assert_eq!(results[0].subject, "user1");
}

#[test]
fn integration_tests_test_audit_log_max_entries() {
    let mut log = AuditLog::new(5);
    for i in 0..10 {
        let entry = AuditEntryBuilder::new("action", &format!("user{}", i), "resource").build();
        log.log(entry);
    }
    assert_eq!(log.count(), 5);
}

#[test]
fn test_audit_log_ordering() {
    let mut log = AuditLog::new(100);
    for i in 0..3 {
        let entry = AuditEntryBuilder::new("action", &format!("user{}", i), "resource").build();
        log.log(entry);
    }
    let results = log.query(10, None);
    assert_eq!(results[0].subject, "user2");
    assert_eq!(results[1].subject, "user1");
    assert_eq!(results[2].subject, "user0");
}

#[test]
fn test_audit_log_with_user_id() {
    let mut log = AuditLog::new(100);
    let entry = AuditEntryBuilder::new("test.action", "user1", "resource1")
        .user_id(Some("user_abc123".to_string()))
        .build();
    log.log(entry);
    let results = log.query(10, None);
    assert_eq!(results[0].user_id, Some("user_abc123".to_string()));
}

#[test]
fn test_auth_handler_invalid_credentials() {
    let handler = AuthHandler::new("correct-key".to_string(), None, 3600);
    let result = handler.authenticate("", Some("wrong-key".to_string()));
    assert!(result.is_none());
}

#[test]
fn test_jwt_token_revocation() {
    let mut jwt = JwtService::new("secret123", 3600);
    let token = jwt.generate_token("user1", "admin", vec![], None).unwrap();

    let claims = match jwt.validate_token(&token) {
        Ok(c) => c,
        Err(e) => panic!("{}", e.message()),
    };
    let jti = claims.jti.clone();

    jwt.revoke_token(&jti);

    assert!(jwt.validate_token(&token).is_err());
    assert!(jwt.is_revoked(&jti));
}

#[test]
fn tokens_are_issued_under_their_id() {
    let mut jwt = JwtService::new("secret", 60);
    let now: u64 = 8_000_000_000;
    let issue = |jwt: &JwtService, id: &str| {
        jwt.issue_token(id.to_string(), now, "u", "user", vec![], None).ok().unwrap()
    };
    let (a, b) = (issue(&jwt, "a"), issue(&jwt, "b"));
    let claims = match jwt.validate_token(&a) {
        Ok(c) => c,
        Err(e) => panic!("{}", e.message()),
    };
    assert_eq!((claims.jti.as_str(), claims.iat, claims.exp), ("a", now, now + 60));
    jwt.revoke_token("a");
    assert!(jwt.validate_token(&a).is_err());
    assert!(jwt.validate_token(&b).is_ok());
}
