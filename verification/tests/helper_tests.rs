use yup_oauth2::helper::{join, ConsoleApplicationSecret};
use yup_oauth2::types::ApplicationSecret;

fn secret(client_id: &str) -> ApplicationSecret {
    ApplicationSecret {
        client_id: client_id.to_string(),
        client_secret: "secret".to_string(),
        token_uri: "https://example.com/token".to_string(),
        auth_uri: "https://example.com/auth".to_string(),
        redirect_uris: vec!["urn:ietf:wg:oauth:2.0:oob".to_string()],
        project_id: None,
        client_email: None,
        auth_provider_x509_cert_url: None,
        client_x509_cert_url: None,
    }
}

#[test]
fn join_puts_separator_between_pieces() {
    assert_eq!(join(&["a", "b", "c"], " "), "a b c");
}

#[test]
fn join_of_nothing_is_empty() {
    let none: [&str; 0] = [];
    assert_eq!(join(&none, ", "), "");
}

#[test]
fn join_of_one_piece_is_that_piece() {
    assert_eq!(join(&["https://www.googleapis.com/scope/1"], " "), "https://www.googleapis.com/scope/1");
}

#[test]
fn join_keeps_empty_pieces_and_long_separators() {
    assert_eq!(join(&["", "x", ""], "--"), "--x--");
}

#[test]
fn join_has_the_length_of_pieces_and_separators() {
    let pieces = ["ab", "cde", "f"];
    let joined = join(&pieces, "::");
    assert_eq!(joined.chars().count(), 2 + 3 + 1 + 2 * (pieces.len() - 1));
}

#[test]
fn join_counts_characters_not_bytes() {
    assert_eq!(join(&["é", "ü"], "→"), "é→ü");
}

#[test]
fn console_secret_prefers_web() {
    let file = ConsoleApplicationSecret { web: Some(secret("web")), installed: Some(secret("installed")) };
    assert_eq!(file.into_application_secret(), Some(secret("web")));
}

#[test]
fn console_secret_falls_back_to_installed() {
    let file = ConsoleApplicationSecret { web: None, installed: Some(secret("installed")) };
    assert_eq!(file.into_application_secret(), Some(secret("installed")));
}

#[test]
fn console_secret_without_either_is_none() {
    let file = ConsoleApplicationSecret { web: None, installed: None };
    assert_eq!(file.into_application_secret(), None);
}
