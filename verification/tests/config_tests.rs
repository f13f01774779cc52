use nodegaze::config::{Config, EmailConfig, EnvVars};
use nodegaze::email::{build_invite_text, check_mailboxes, from_mailbox, invite_email};
use nodegaze::errors::ServiceError;

fn vars() -> EnvVars {
    EnvVars {
        database_url: Some("sqlite://nodegaze.db".to_string()),
        db_max_connections: None,
        db_acquire_timeout_seconds: None,
        jwt_secret: Some("secret".to_string()),
        jwt_expires_in_seconds: None,
        server_port: None,
        smtp_host: None,
        smtp_port: None,
        smtp_username: None,
        smtp_password: None,
        from_email: None,
        from_name: None,
        base_url: None,
    }
}

#[test]
fn defaults_apply_when_variables_are_unset() {
    let c = Config::from_vars(vars()).unwrap();
    assert_eq!(c.database_url, "sqlite://nodegaze.db");
    assert_eq!(c.max_connections, 5);
    assert_eq!(c.acquire_timeout_seconds, 3);
    assert_eq!(c.jwt_secret, "secret");
    assert_eq!(c.jwt_expires_in_seconds, 86400);
    assert_eq!(c.server_port, 3030);
    assert_eq!(c.base_url, "http://localhost:3000");
    assert_eq!(c.smtp_port, Some(587));
    assert_eq!(c.email_config(), None);
}

#[test]
fn database_url_defaults_to_local_file() {
    let c = Config::from_vars(EnvVars { database_url: None, ..vars() }).unwrap();
    assert_eq!(c.database_url, "sqlite:nodegaze.db");
}

#[test]
fn numbers_follow_the_standard_parse_rules() {
    let v = EnvVars {
        db_max_connections: Some("+12".to_string()),
        server_port: Some("8080".to_string()),
        jwt_expires_in_seconds: Some("3600".to_string()),
        smtp_port: Some("99999".to_string()),
        ..vars()
    };
    let c = Config::from_vars(v).unwrap();
    assert_eq!(c.max_connections, 12);
    assert_eq!(c.server_port, 8080);
    assert_eq!(c.jwt_expires_in_seconds, 3600);
    assert_eq!(c.smtp_port, None);
}

#[test]
fn each_configuration_error_in_order() {
    assert_eq!(
        Config::from_vars(EnvVars { db_max_connections: Some("many".to_string()), ..vars() }),
        Err("DB_MAX_CONNECTIONS must be a valid number".to_string())
    );
    assert_eq!(
        Config::from_vars(EnvVars { db_acquire_timeout_seconds: Some("-1".to_string()), ..vars() }),
        Err("DB_ACQUIRE_TIMEOUT_SECONDS must be a valid number".to_string())
    );
    assert_eq!(Config::from_vars(EnvVars { jwt_secret: None, ..vars() }), Err("JWT_SECRET not set".to_string()));
    assert_eq!(
        Config::from_vars(EnvVars { jwt_expires_in_seconds: Some("".to_string()), ..vars() }),
        Err("JWT_EXPIRES_IN_SECONDS must be a valid number".to_string())
    );
    assert_eq!(
        Config::from_vars(EnvVars { server_port: Some("65536".to_string()), ..vars() }),
        Err("SERVER_PORT must be a valid number".to_string())
    );
    assert_eq!(
        Config::from_vars(EnvVars { db_max_connections: Some("x".to_string()), jwt_secret: None, ..vars() }),
        Err("DB_MAX_CONNECTIONS must be a valid number".to_string())
    );
}

fn smtp_vars() -> EnvVars {
    EnvVars {
        smtp_host: Some("smtp.example.com".to_string()),
        smtp_port: Some("2525".to_string()),
        smtp_username: Some("mailer@example.com".to_string()),
        smtp_password: Some("pw".to_string()),
        base_url: Some("https://gaze.example.com".to_string()),
        ..vars()
    }
}

#[test]
fn email_config_needs_all_smtp_settings() {
    let c = Config::from_vars(smtp_vars()).unwrap();
    let e = c.email_config().unwrap();
    assert_eq!(
        e,
        EmailConfig {
            smtp_host: "smtp.example.com".to_string(),
            smtp_port: 2525,
            smtp_username: "mailer@example.com".to_string(),
            smtp_password: "pw".to_string(),
            from_email: "mailer@example.com".to_string(),
            from_name: "Your App".to_string(),
            base_url: "https://gaze.example.com".to_string(),
        }
    );
    let named = Config::from_vars(EnvVars {
        from_email: Some("noreply@example.com".to_string()),
        from_name: Some("NodeGaze".to_string()),
        ..smtp_vars()
    })
    .unwrap();
    let e2 = named.email_config().unwrap();
    assert_eq!(e2.from_email, "noreply@example.com");
    assert_eq!(e2.from_name, "NodeGaze");
    let missing = Config::from_vars(EnvVars { smtp_password: None, ..smtp_vars() }).unwrap();
    assert_eq!(missing.email_config(), None);
    let default_port = Config::from_vars(EnvVars { smtp_port: None, ..smtp_vars() }).unwrap();
    assert_eq!(default_port.email_config().map(|e| e.smtp_port), Some(587));
}

fn email_config() -> EmailConfig {
    EmailConfig {
        smtp_host: "smtp.example.com".to_string(),
        smtp_port: 587,
        smtp_username: "mailer@example.com".to_string(),
        smtp_password: "pw".to_string(),
        from_email: "noreply@example.com".to_string(),
        from_name: "NodeGaze".to_string(),
        base_url: "https://gaze.example.com".to_string(),
    }
}

#[test]
fn invite_email_subject_link_and_greeting() {
    let m = invite_email(&email_config(), "erin@example.com", None, "tok123", "alice", "Acme");
    assert_eq!(m.to, "erin@example.com");
    assert_eq!(m.subject, "You've been invited to join Acme");
    let expected_text = "You've been invited!\n\nHi there,\n\nalice has invited you to join Acme.\n\nClick the link below to accept your invitation:\nhttps://gaze.example.com/accept-invite?token=tok123\n\nThis invitation will expire in 72 hours. If you didn't expect this invitation, you can safely ignore this email.\n            ";
    assert_eq!(m.text, expected_text);
    assert!(m.html.contains("<title>Invitation to join Acme</title>"));
    assert!(m.html.contains("<p>Hi there,</p>"));
    assert!(m.html.contains("<p><strong>alice</strong> has invited you to join <strong>Acme organization</strong>.</p>"));
    assert_eq!(m.html.matches("https://gaze.example.com/accept-invite?token=tok123").count(), 2);
    let named = invite_email(&email_config(), "erin@example.com", Some("Erin"), "t", "alice", "Acme");
    assert!(named.text.starts_with("You've been invited!\n\nHi Erin,\n"));
    assert_eq!(build_invite_text("Erin", "alice", "Acme", "u"), named.text.replace("https://gaze.example.com/accept-invite?token=t", "u"));
}

#[test]
fn sender_mailbox_and_address_checks() {
    assert_eq!(from_mailbox(&email_config()), "NodeGaze <noreply@example.com>");
    assert_eq!(check_mailboxes(&email_config(), "erin@example.com"), Ok(()));
    match check_mailboxes(&email_config(), "not an address") {
        Err(ServiceError::Validation { message }) => assert!(message.starts_with("Invalid recipient email: ")),
        other => panic!("unexpected {:?}", other),
    }
    let bad_from = EmailConfig { from_email: "nobody".to_string(), ..email_config() };
    match check_mailboxes(&bad_from, "not an address") {
        Err(ServiceError::Validation { message }) => assert!(message.starts_with("Invalid from email: ")),
        other => panic!("unexpected {:?}", other),
    }
}
