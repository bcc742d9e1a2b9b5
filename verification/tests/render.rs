use proxswap::configuration::{Configuration, IptablesRule, Proxy, BASE_PORT};
use proxswap::proxy_controller::generate_proxy_file;

const PREAMBLE: &str =
    "base {\n    log_debug = off;\n    log_info = off;\n    daemon = on;\n    redirector = iptables;\n}\n";

fn proxy(proxy_type: &str, url: &str, port: u32) -> Proxy {
    Proxy { proxy_type: proxy_type.to_string(), url: url.to_string(), port }
}

fn hop(local_port: u32, proxy_type: &str, url: &str, port: u32) -> String {
    format!(
        "redsocks {{\n    local_ip = 127.0.0.1;\n    local_port = {};\n\n    type = {};\n    ip = {};\n    port = {};\n}}\n",
        local_port, proxy_type, url, port
    )
}

#[test]
fn base_port_is_fixed() {
    assert_eq!(BASE_PORT, 14888);
}

#[test]
fn no_proxies_render_as_preamble_only() {
    assert_eq!(generate_proxy_file(&vec![]), PREAMBLE);
}

#[test]
fn one_proxy_renders_exactly() {
    let text = generate_proxy_file(&vec![proxy("socks5", "10.0.0.1", 1080)]);
    let expected = "base {\n    log_debug = off;\n    log_info = off;\n    daemon = on;\n    redirector = iptables;\n}\n\nredsocks {\n    local_ip = 127.0.0.1;\n    local_port = 14888;\n\n    type = socks5;\n    ip = 10.0.0.1;\n    port = 1080;\n}\n";
    assert_eq!(text, expected);
}

#[test]
fn local_ports_count_up_from_base_in_list_order() {
    let proxies = vec![
        proxy("socks5", "a.example", 1080),
        proxy("http-connect", "b.example", 8080),
        proxy("socks4", "c.example", 0),
    ];
    let text = generate_proxy_file(&proxies);
    let expected = vec![
        PREAMBLE.to_string(),
        hop(14888, "socks5", "a.example", 1080),
        hop(14889, "http-connect", "b.example", 8080),
        hop(14890, "socks4", "c.example", 0),
    ]
    .join("\n");
    assert_eq!(text, expected);
}

#[test]
fn reordering_changes_assigned_ports() {
    let forward = generate_proxy_file(&vec![proxy("socks5", "a", 1), proxy("socks5", "b", 2)]);
    let backward = generate_proxy_file(&vec![proxy("socks5", "b", 2), proxy("socks5", "a", 1)]);
    assert_ne!(forward, backward);
    assert!(backward.contains("local_port = 14888;\n\n    type = socks5;\n    ip = b;"));
    assert!(backward.contains("local_port = 14889;\n\n    type = socks5;\n    ip = a;"));
}

#[test]
fn rendering_is_deterministic() {
    let proxies = vec![proxy("socks5", "a.example", 4294967295), proxy("http-relay", "b", 10)];
    let first = generate_proxy_file(&proxies);
    let second = generate_proxy_file(&proxies.clone());
    assert_eq!(first.as_bytes(), second.as_bytes());
    assert!(first.contains("port = 4294967295;"));
}

#[test]
fn configuration_renders_its_own_proxies() {
    let configuration = Configuration::new(
        "work".to_string(),
        vec![proxy("socks5", "10.0.0.1", 1080)],
        vec![IptablesRule { dport: 80, to_port: 14888, action: "REDIRECT".to_string() }],
    );
    assert_eq!(configuration.name, "work");
    assert_eq!(configuration.rules.len(), 1);
    assert_eq!(
        configuration.generate_redsocks_config(),
        generate_proxy_file(&configuration.proxies)
    );
    let copy = configuration.clone();
    assert_eq!(copy, configuration);
}
