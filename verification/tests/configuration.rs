use spores::config::{
    accept_loaded, oauth_scopes, render_config, AppConfig, ConfigError, APP_DIR, CONFIG_FILE,
    CONFIG_TEMPLATE, DEFAULT_REDIRECT_URI, TOKEN_CACHE_FILE,
};
use spores::wizard::{
    answer_line, prompt_text, resolve_answer, trimmed, Question, Wizard, WizardStep,
};

fn config(id: &str, secret: &str, redirect: Option<&str>) -> AppConfig {
    AppConfig {
        client_id: id.to_string(),
        client_secret: secret.to_string(),
        redirect_uri: redirect.map(|s| s.to_string()),
    }
}

fn ask(label: &str, default: Option<&str>) -> WizardStep {
    WizardStep::Ask(Question { label: label.to_string(), default: default.map(|s| s.to_string()) })
}

#[test]
fn file_names_and_default_redirect() {
    assert_eq!(APP_DIR, "spores");
    assert_eq!(CONFIG_FILE, "config.toml");
    assert_eq!(TOKEN_CACHE_FILE, "token_cache.json");
    assert_eq!(DEFAULT_REDIRECT_URI, "http://127.0.0.1:8888/callback");
}

#[test]
fn template_has_empty_credentials_and_suggested_redirect() {
    let expected = r#"# Spotify application credentials
# Create an app at https://developer.spotify.com/dashboard
client_id = ""
client_secret = ""

# Must match the redirect URI registered in your Spotify app.
# Use 127.0.0.1 — Spotify rejects "localhost".
# redirect_uri = "http://127.0.0.1:8888/callback"
"#;
    assert_eq!(CONFIG_TEMPLATE, expected);
}

#[test]
fn template_parses_to_unusable_config() {
    let table: toml::Table = toml::from_str(CONFIG_TEMPLATE).unwrap();
    assert_eq!(table["client_id"].as_str(), Some(""));
    assert_eq!(table["client_secret"].as_str(), Some(""));
    assert!(!table.contains_key("redirect_uri"));
    assert_eq!(accept_loaded(config("", "", None)), Err(ConfigError::MissingCredentials));
}

#[test]
fn rendered_config_holds_the_values_between_quotes() {
    let expected = r#"# Spotify application credentials
# Create an app at https://developer.spotify.com/dashboard
client_id = "abc123"
client_secret = "s3cret"

# Must match the redirect URI registered in your Spotify app.
# Use 127.0.0.1 — Spotify rejects "localhost".
redirect_uri = "http://127.0.0.1:9000/cb"
"#;
    assert_eq!(render_config("abc123", "s3cret", "http://127.0.0.1:9000/cb"), expected);
}

#[test]
fn rendered_config_reads_back_with_toml() {
    let text = render_config("abc123", "s3cret", "http://127.0.0.1:9000/cb");
    let table: toml::Table = toml::from_str(&text).unwrap();
    assert_eq!(table["client_id"].as_str(), Some("abc123"));
    assert_eq!(table["client_secret"].as_str(), Some("s3cret"));
    assert_eq!(table["redirect_uri"].as_str(), Some("http://127.0.0.1:9000/cb"));
}

#[test]
fn credentials_must_both_be_set() {
    assert!(config("id", "secret", None).has_credentials());
    assert!(!config("", "secret", None).has_credentials());
    assert!(!config("id", "", None).has_credentials());
    assert!(!config("", "", Some("http://x")).has_credentials());
}

#[test]
fn loaded_config_is_accepted_unchanged_or_refused() {
    let good = config("id", "secret", Some("http://x"));
    assert_eq!(accept_loaded(good.clone()), Ok(good));
    assert_eq!(accept_loaded(config("", "secret", None)), Err(ConfigError::MissingCredentials));
    assert_eq!(accept_loaded(config("id", "", None)), Err(ConfigError::MissingCredentials));
}

#[test]
fn redirect_uri_falls_back_to_default() {
    assert_eq!(config("a", "b", None).effective_redirect_uri(), "http://127.0.0.1:8888/callback");
    assert_eq!(config("a", "b", Some("http://x/y")).effective_redirect_uri(), "http://x/y");
    assert_eq!(config("a", "b", Some("")).effective_redirect_uri(), "");
}

#[test]
fn sign_in_asks_for_five_scopes() {
    assert_eq!(
        oauth_scopes(),
        vec![
            "playlist-read-private".to_string(),
            "playlist-read-collaborative".to_string(),
            "playlist-modify-public".to_string(),
            "playlist-modify-private".to_string(),
            "user-library-modify".to_string(),
        ]
    );
}

#[test]
fn prompt_shows_default_in_brackets() {
    assert_eq!(prompt_text("Client ID", Some("abc")), "Client ID [abc]: ");
    assert_eq!(prompt_text("Client ID", None), "Client ID: ");
    assert_eq!(prompt_text("", Some("")), " []: ");
}

#[test]
fn trimming_removes_white_space_at_both_ends_only() {
    assert_eq!(trimmed("  a  b \t\r\n"), "a  b");
    assert_eq!(trimmed("\u{3000}\u{a0}h\u{e9}llo w\u{f6}rld\u{2003}"), "h\u{e9}llo w\u{f6}rld");
    assert_eq!(trimmed(" \n\t "), "");
    assert_eq!(trimmed(""), "");
    assert_eq!(trimmed("x"), "x");
    assert_eq!(trimmed("x "), "x");
    assert_eq!(trimmed(" x"), "x");
}

#[test]
fn trimming_agrees_with_the_standard_library() {
    let lines = [
        "",
        " ",
        "abc",
        "  abc",
        "abc  ",
        "\tabc def\r\n",
        "\u{85}\u{1680}\u{2028}z\u{2029}\u{202f}\u{205f}",
        "\u{200b}not white\u{200b}",
        "_\u{b}\u{c}_",
        "\u{b}\u{c}",
    ];
    for line in lines {
        assert_eq!(trimmed(line), line.trim());
    }
}

#[test]
fn answer_is_the_trimmed_line() {
    assert_eq!(answer_line("  abc \r\n", Some("def")), "abc");
    assert_eq!(answer_line("a b\n", None), "a b");
}

#[test]
fn empty_answer_takes_the_default() {
    assert_eq!(answer_line("\n", Some("def")), "def");
    assert_eq!(answer_line("   \t ", Some("def")), "def");
    assert_eq!(answer_line("", None), "");
    assert_eq!(answer_line(" \n", None), "");
}

#[test]
fn resolved_answer_from_a_trimmed_line() {
    assert_eq!(resolve_answer("abc".to_string(), Some("def")), "abc");
    assert_eq!(resolve_answer("".to_string(), Some("def")), "def");
    assert_eq!(resolve_answer("".to_string(), None), "");
    assert_eq!(resolve_answer(" ".to_string(), Some("def")), " ");
}

#[test]
fn wizard_without_existing_config_asks_three_questions() {
    let w = Wizard::start(None);
    assert_eq!(w.step(), ask("Client ID", None));
    let w = w.answer("my-id\n");
    assert_eq!(w.step(), ask("Client secret", None));
    let w = w.answer("  my-secret  \n");
    assert_eq!(w.step(), ask("Redirect URI", Some("http://127.0.0.1:8888/callback")));
    let w = w.answer("\n");
    assert_eq!(
        w.step(),
        WizardStep::Save(render_config("my-id", "my-secret", "http://127.0.0.1:8888/callback"))
    );
    let w = w.answer("ignored\n");
    assert_eq!(
        w.step(),
        WizardStep::Save(render_config("my-id", "my-secret", "http://127.0.0.1:8888/callback"))
    );
}

#[test]
fn wizard_offers_existing_values_as_defaults() {
    let w = Wizard::start(Some(config("old-id", "old-secret", Some("http://old/cb"))));
    assert_eq!(w.step(), ask("Client ID", Some("old-id")));
    let w = w.answer("\n");
    assert_eq!(w.step(), ask("Client secret", Some("old-secret")));
    let w = w.answer("new-secret\n");
    assert_eq!(w.step(), ask("Redirect URI", Some("http://old/cb")));
    let w = w.answer("\n");
    assert_eq!(w.step(), WizardStep::Save(render_config("old-id", "new-secret", "http://old/cb")));
}

#[test]
fn wizard_offers_no_default_for_empty_credentials() {
    let w = Wizard::start(Some(config("", "old-secret", None)));
    assert_eq!(w.step(), ask("Client ID", None));
    let w = w.answer("\n");
    assert_eq!(w.step(), ask("Client secret", Some("old-secret")));
    let w = w.answer("\n");
    assert_eq!(w.step(), ask("Redirect URI", Some("http://127.0.0.1:8888/callback")));
    let w = w.answer("http://new/cb\n");
    assert_eq!(w.step(), WizardStep::Refuse);
}

#[test]
fn wizard_refuses_without_secret() {
    let w = Wizard::start(None).answer("id\n").answer("\n").answer("\n");
    assert_eq!(w.step(), WizardStep::Refuse);
}
