use blog_api::envfile::parse_env_line;
use blog_api::logconfig::{log_config, truthy};
use blog_api::password::{hash_password, verify_password};
use blog_api::request::{Backend, PageParams, Permission};
use blog_api::seeder::Migration;
use blog_api::store::Store;
use blog_api::strutil::{str_contains, str_eq, trim};
use blog_api::text::{dec_chars_u128, dec_string_u128};

#[test]
fn decimal_rendering_is_exact() {
    assert_eq!(dec_string_u128(0), "0");
    assert_eq!(dec_string_u128(7), "7");
    assert_eq!(dec_string_u128(65535), "65535");
    assert_eq!(dec_string_u128(1234567890123456789), "1234567890123456789");
    let chars: String = dec_chars_u128(408).iter().collect();
    assert_eq!(chars, "408");
}

#[test]
fn trim_removes_whitespace() {
    assert_eq!(trim("  hello  "), "hello");
    assert_eq!(trim("\t a b \r\n"), "a b");
    assert_eq!(trim("   \t"), "");
    assert_eq!(trim("x"), "x");
}

#[test]
fn trim_removes_unicode_whitespace() {
    assert_eq!(trim("\u{a0}x\u{3000}"), "x");
    assert_eq!(trim("\u{2003}\u{2028}key\u{202f}"), "key");
    assert_eq!(trim("\u{a0}\u{1680}\u{205f}"), "");
}

#[test]
fn string_helpers_match_contents() {
    assert!(str_eq("abc", "abc"));
    assert!(!str_eq("abc", "abd"));
    assert!(!str_eq("abc", "ab"));
    assert!(str_contains("hello world", "lo wo"));
    assert!(str_contains("hello", ""));
    assert!(!str_contains("hello", "world"));
    assert!(!str_contains("hi", "longer"));
}

#[test]
fn env_lines_parse_key_value_pairs() {
    assert_eq!(
        parse_env_line("DATABASE_URL=postgres://localhost/db"),
        Some(("DATABASE_URL".to_string(), "postgres://localhost/db".to_string()))
    );
    assert_eq!(
        parse_env_line("  HOST=127.0.0.1  "),
        Some(("HOST".to_string(), "127.0.0.1".to_string()))
    );
    assert_eq!(
        parse_env_line("NAME=\"quoted value\""),
        Some(("NAME".to_string(), "quoted value".to_string()))
    );
    assert_eq!(
        parse_env_line("NAME='single'"),
        Some(("NAME".to_string(), "single".to_string()))
    );
    assert_eq!(parse_env_line("EMPTY="), Some(("EMPTY".to_string(), "".to_string())));
    assert_eq!(
        parse_env_line("SPLIT=a=b"),
        Some(("SPLIT".to_string(), "a=b".to_string()))
    );
}

#[test]
fn env_lines_skip_comments_and_blanks() {
    assert_eq!(parse_env_line(""), None);
    assert_eq!(parse_env_line("   "), None);
    assert_eq!(parse_env_line("# a comment"), None);
    assert_eq!(parse_env_line("  # indented comment"), None);
    assert_eq!(parse_env_line("no equals sign"), None);
}

#[test]
fn env_lines_trim_unicode_whitespace() {
    assert_eq!(
        parse_env_line("\u{2003}KEY=v\u{2003}"),
        Some(("KEY".to_string(), "v".to_string()))
    );
    assert_eq!(parse_env_line("\u{a0}\u{a0}"), None);
}

#[test]
fn log_toggles_follow_env_values() {
    assert!(truthy("true"));
    assert!(truthy("TRUE"));
    assert!(truthy("TrUe"));
    assert!(!truthy("false"));
    assert!(!truthy(""));
    assert!(!truthy("truey"));

    let defaults = log_config(None, None, None);
    assert!(defaults.console);
    assert!(!defaults.file);
    assert!(!defaults.telemetry);

    let set = log_config(Some("false"), Some("True"), Some("yes"));
    assert!(!set.console);
    assert!(set.file);
    assert!(!set.telemetry);
}

#[test]
fn password_hash_round_trips() {
    let hash = hash_password("tops3cret").expect("hashing must succeed");
    assert_ne!(hash, "tops3cret");
    assert_eq!(hash.len(), 60, "a bcrypt hash is 60 characters");
    assert_eq!(verify_password("tops3cret", &hash), Ok(true));
    assert_eq!(verify_password("other", &hash), Ok(false));
    assert!(verify_password("x", "not a bcrypt hash").is_err());
}

#[test]
fn seeder_up_is_idempotent_and_down_removes() {
    let mut store = Store::new();
    Migration::up(&mut store).expect("seeding succeeds");
    assert_eq!(store.users.len(), 2);
    let alice = store.users.iter().find(|u| u.email == "alice@example.com").unwrap();
    assert_eq!(alice.name, "Alice");
    assert_eq!(verify_password("password123", &alice.password), Ok(true));

    Migration::up(&mut store).expect("a second pass changes nothing");
    assert_eq!(store.users.len(), 2);

    Migration::down(&mut store).expect("teardown succeeds");
    assert!(store.users.is_empty());
}

#[test]
fn backend_stub_reports_no_user() {
    let backend = Backend::new(3);
    let looked_up = backend.get_user(1).unwrap();
    assert!(looked_up.is_none());
}

#[test]
fn permission_from_str_keeps_name() {
    let p = Permission::from("posts.read");
    assert_eq!(p.name, "posts.read");
    assert_eq!(p.clone(), p);
}

#[test]
fn page_params_defaults() {
    let p = PageParams { page: None, size: Some(3) };
    assert_eq!(p.page_or_default(), 1);
    assert_eq!(p.size_or_default(10), 3);
    let q = PageParams { page: Some(4), size: None };
    assert_eq!(q.page_or_default(), 4);
    assert_eq!(q.size_or_default(10), 10);
}
