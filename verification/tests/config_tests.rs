use emergence_client::config::{
    config_path, fallback_config_path, load, lookup, parse_config, parse_line, parse_port, resolve, resolve_setting,
    ConfigEntry, ConfigError, ConfigFile, EffectiveConfig, Environment, Line,
};

fn entry(section: &str, key: &str, value: &str) -> ConfigEntry {
    ConfigEntry { section: section.to_string(), key: key.to_string(), value: value.to_string() }
}

fn env(server_url: Option<&str>, embox_url: Option<&str>, embox_port: Option<&str>) -> Environment {
    Environment {
        server_url: server_url.map(str::to_string),
        embox_url: embox_url.map(str::to_string),
        embox_port: embox_port.map(str::to_string),
    }
}

fn some(s: &str) -> Option<String> {
    Some(s.to_string())
}

#[test]
fn environment_beats_file_beats_default() {
    assert_eq!(resolve_setting(some("env"), some("file"), "default"), "env");
    assert_eq!(resolve_setting(some("env"), None, "default"), "env");
    assert_eq!(resolve_setting(None, some("file"), "default"), "file");
    assert_eq!(resolve_setting(None, None, "default"), "default");
}

#[test]
fn resolve_follows_precedence_for_each_setting() {
    let entries = parse_config(
        "[em_disco]\nserver_url = http://file:1\n[embox]\nurl = http://file:2/embox\nport = 9000\n",
    );
    let all = resolve(env(Some("http://env:1"), Some("http://env:2"), Some("7000")), &entries);
    assert_eq!(
        all,
        Ok(EffectiveConfig {
            disco_url: "http://env:1".to_string(),
            embox_url: "http://env:2".to_string(),
            embox_port: 7000,
        })
    );
    let none = resolve(env(None, None, None), &entries);
    assert_eq!(
        none,
        Ok(EffectiveConfig {
            disco_url: "http://file:1".to_string(),
            embox_url: "http://file:2/embox".to_string(),
            embox_port: 9000,
        })
    );
    let mixed = resolve(env(None, Some("http://env:2"), None), &vec![]);
    assert_eq!(
        mixed,
        Ok(EffectiveConfig {
            disco_url: "http://localhost:8080".to_string(),
            embox_url: "http://env:2".to_string(),
            embox_port: 8079,
        })
    );
}

#[test]
fn defaults_apply_without_sources() {
    assert_eq!(
        load(env(None, None, None), &ConfigFile::Missing),
        Ok(EffectiveConfig {
            disco_url: "http://localhost:8080".to_string(),
            embox_url: "http://localhost:8079/embox".to_string(),
            embox_port: 8079,
        })
    );
}

#[test]
fn unreadable_file_is_fatal_when_consulted() {
    assert_eq!(load(env(None, None, None), &ConfigFile::Unreadable), Err(ConfigError::UnreadableFile));
    assert_eq!(
        load(env(Some("a"), Some("b"), None), &ConfigFile::Unreadable),
        Err(ConfigError::UnreadableFile)
    );
    assert_eq!(
        load(env(Some("a"), Some("b"), Some("1")), &ConfigFile::Unreadable),
        Ok(EffectiveConfig { disco_url: "a".to_string(), embox_url: "b".to_string(), embox_port: 1 })
    );
}

#[test]
fn load_reads_the_file_contents() {
    let file = ConfigFile::Contents("[embox]\nport = \"8100\"\n".to_string());
    assert_eq!(
        load(env(None, None, None), &file),
        Ok(EffectiveConfig {
            disco_url: "http://localhost:8080".to_string(),
            embox_url: "http://localhost:8079/embox".to_string(),
            embox_port: 8100,
        })
    );
}

#[test]
fn invalid_port_is_reported_with_its_text() {
    assert_eq!(
        resolve(env(None, None, Some("eighty")), &vec![]),
        Err(ConfigError::InvalidPort("eighty".to_string()))
    );
    let file = ConfigFile::Contents("[embox]\nport = 70000".to_string());
    assert_eq!(load(env(None, None, None), &file), Err(ConfigError::InvalidPort("70000".to_string())));
}

#[test]
fn parse_port_reads_decimal_digits() {
    assert_eq!(parse_port("8079"), Some(8079));
    assert_eq!(parse_port("0"), Some(0));
    assert_eq!(parse_port("00080"), Some(80));
    assert_eq!(parse_port("65535"), Some(65535));
    assert_eq!(parse_port("65536"), None);
    assert_eq!(parse_port("99999999999999999999"), None);
    assert_eq!(parse_port(""), None);
    assert_eq!(parse_port("80a"), None);
    assert_eq!(parse_port("+80"), None);
    assert_eq!(parse_port(" 80"), None);
    assert_eq!(parse_port("٣"), None);
}

#[test]
fn parse_line_tells_the_kinds_apart() {
    assert_eq!(parse_line("[embox]"), Line::Section("embox".to_string()));
    assert_eq!(parse_line("  [ em_disco ]  "), Line::Section("em_disco".to_string()));
    assert_eq!(parse_line("[]"), Line::Section(String::new()));
    assert_eq!(parse_line("url = http://h"), Line::Pair("url".to_string(), "http://h".to_string()));
    assert_eq!(parse_line("url=\"http://h\""), Line::Pair("url".to_string(), "http://h".to_string()));
    assert_eq!(parse_line(" a = b = c "), Line::Pair("a".to_string(), "b = c".to_string()));
    assert_eq!(parse_line("key ="), Line::Pair("key".to_string(), String::new()));
    assert_eq!(parse_line("key = \" v \""), Line::Pair("key".to_string(), " v ".to_string()));
    assert_eq!(parse_line("= value"), Line::Other);
    assert_eq!(parse_line("no pair here"), Line::Other);
    assert_eq!(parse_line(""), Line::Other);
    assert_eq!(parse_line("   "), Line::Other);
    assert_eq!(parse_line("["), Line::Other);
    assert_eq!(parse_line("[x"), Line::Other);
}

#[test]
fn parse_config_collects_pairs_under_sections() {
    let text = "top = 1\n\n[em_disco]\nserver_url = \"http://d:8080\"\ngarbage\n[embox]\r\nurl = http://e/embox\r\nport=8079";
    assert_eq!(
        parse_config(text),
        vec![
            entry("", "top", "1"),
            entry("em_disco", "server_url", "http://d:8080"),
            entry("embox", "url", "http://e/embox"),
            entry("embox", "port", "8079"),
        ]
    );
    assert_eq!(parse_config(""), vec![]);
    assert_eq!(parse_config("\n\n\n"), vec![]);
    assert_eq!(parse_config("[only]\n"), vec![]);
}

#[test]
fn lookup_takes_the_last_entry() {
    let entries = vec![entry("a", "k", "1"), entry("b", "k", "2"), entry("a", "k", "3")];
    assert_eq!(lookup(&entries, "a", "k"), some("3"));
    assert_eq!(lookup(&entries, "b", "k"), some("2"));
    assert_eq!(lookup(&entries, "c", "k"), None);
    assert_eq!(lookup(&entries, "a", "other"), None);
    assert_eq!(lookup(&vec![], "a", "k"), None);
}

#[test]
fn config_path_lies_below_the_directory() {
    assert_eq!(config_path("/home/u/.config"), "/home/u/.config/emergence/emergence.conf");
    assert_eq!(
        fallback_config_path("C:\\Users\\u\\AppData"),
        "C:\\Users\\u\\AppData\\emergence\\emergence.conf"
    );
}

#[test]
fn port_text_reads_back() {
    for p in [0u16, 1, 9, 10, 80, 8079, 65535] {
        let mut s = String::new();
        emergence_client::text::append_decimal(&mut s, p);
        assert_eq!(parse_port(&s), Some(p));
    }
}
