use polkacli::config::{config_lookup, config_set_line, render_config_line};

fn lines(list: &[&str]) -> Vec<String> {
    list.iter().map(|n| n.to_string()).collect()
}

#[test]
fn entries_render_in_the_stored_form() {
    assert_eq!(render_config_line("rpc_url", "wss://node.example"), "rpc_url = \"wss://node.example\"");
    assert_eq!(render_config_line("k", ""), "k = \"\"");
}

#[test]
fn storing_a_new_key_appends_it() {
    let old = lines(&["mnemonic = \"a b c\""]);
    let new = config_set_line(&old, "rpc_url", "wss://node.example");
    assert_eq!(new, lines(&["mnemonic = \"a b c\"", "rpc_url = \"wss://node.example\""]));
}

#[test]
fn storing_an_existing_key_replaces_its_line() {
    let old = lines(&["rpc_url = \"wss://old.example\"", "mnemonic = \"a b c\""]);
    let new = config_set_line(&old, "rpc_url", "wss://new.example");
    assert_eq!(new, lines(&["rpc_url = \"wss://new.example\"", "mnemonic = \"a b c\""]));
}

#[test]
fn lookup_reads_back_the_stored_value() {
    let empty: Vec<String> = Vec::new();
    let stored = config_set_line(&empty, "secret_uri", "//Alice");
    assert_eq!(config_lookup(&stored, "secret_uri").as_deref(), Some("//Alice"));
    assert_eq!(config_lookup(&stored, "mnemonic"), None);
}

#[test]
fn lookup_takes_the_first_matching_line() {
    let text = lines(&["key = \"first\"", "key = \"second\""]);
    assert_eq!(config_lookup(&text, "key").as_deref(), Some("first"));
}

#[test]
fn malformed_lines_yield_nothing() {
    assert_eq!(config_lookup(&lines(&["rpc_url: nope"]), "rpc_url"), None);
    assert_eq!(config_lookup(&lines(&["rpc_url = unquoted"]), "rpc_url"), None);
    assert_eq!(config_lookup(&lines(&["rpc_url = \"broken"]), "rpc_url"), None);
    assert_eq!(config_lookup(&lines(&["rpc_url"]), "rpc_url"), None);
}

#[test]
fn empty_values_round_trip() {
    let empty: Vec<String> = Vec::new();
    let stored = config_set_line(&empty, "k", "");
    assert_eq!(config_lookup(&stored, "k").as_deref(), Some(""));
}
