use proxswap::configuration::{IptablesRule, Proxy};
use proxswap::wizard::{CreationField, CreationState};

fn type_text(wizard: &mut CreationState, text: &str) {
    for c in text.chars() {
        wizard.type_char(c);
    }
}

#[test]
fn fresh_wizard_is_on_name_with_empty_buffers() {
    let wizard = CreationState::new();
    assert_eq!(wizard.current_field(), CreationField::Name);
    assert_eq!(wizard.name(), "");
    assert_eq!(wizard.proxy_type(), "");
    assert_eq!(wizard.proxy_url(), "");
    assert_eq!(wizard.proxy_port(), "");
    assert_eq!(wizard.current_port_input(), "");
    assert!(wizard.redirect_ports().is_empty());
}

#[test]
fn next_walks_the_fields_and_stops_at_confirm() {
    let mut wizard = CreationState::new();
    let mut seen = vec![wizard.current_field()];
    for _ in 0..8 {
        wizard.next_field();
        seen.push(wizard.current_field());
    }
    assert_eq!(
        seen,
        vec![
            CreationField::Name,
            CreationField::ProxyType,
            CreationField::ProxyUrl,
            CreationField::ProxyPort,
            CreationField::RedirectPorts,
            CreationField::Confirm,
            CreationField::Confirm,
            CreationField::Confirm,
            CreationField::Confirm,
        ]
    );
}

#[test]
fn previous_mirrors_next_and_stops_at_name() {
    let mut wizard = CreationState::new();
    for _ in 0..5 {
        wizard.next_field();
    }
    let mut seen = vec![];
    for _ in 0..7 {
        wizard.previous_field();
        seen.push(wizard.current_field());
    }
    assert_eq!(
        seen,
        vec![
            CreationField::RedirectPorts,
            CreationField::ProxyPort,
            CreationField::ProxyUrl,
            CreationField::ProxyType,
            CreationField::Name,
            CreationField::Name,
            CreationField::Name,
        ]
    );
}

#[test]
fn field_steps_by_value() {
    assert_eq!(CreationField::ProxyPort.next(), CreationField::RedirectPorts);
    assert_eq!(CreationField::Confirm.next(), CreationField::Confirm);
    assert_eq!(CreationField::Name.previous(), CreationField::Name);
    assert_eq!(CreationField::Confirm.previous(), CreationField::RedirectPorts);
}

#[test]
fn text_fields_take_any_character() {
    let mut wizard = CreationState::new();
    type_text(&mut wizard, "my vpn-1");
    assert!(!wizard.enter());
    type_text(&mut wizard, "socks5");
    assert!(!wizard.enter());
    type_text(&mut wizard, "proxy.example.com");
    assert_eq!(wizard.name(), "my vpn-1");
    assert_eq!(wizard.proxy_type(), "socks5");
    assert_eq!(wizard.proxy_url(), "proxy.example.com");
    assert_eq!(wizard.current_field(), CreationField::ProxyUrl);
}

#[test]
fn port_fields_take_digits_only() {
    let mut wizard = CreationState::new();
    for _ in 0..3 {
        wizard.next_field();
    }
    type_text(&mut wizard, "1a0-8 0x");
    assert_eq!(wizard.proxy_port(), "1080");
    wizard.next_field();
    type_text(&mut wizard, "+4 4,3")    ;
    assert_eq!(wizard.current_port_input(), "443");
    wizard.next_field();
    type_text(&mut wizard, "123abc");
    assert_eq!(wizard.current_field(), CreationField::Confirm);
    assert_eq!(wizard.name(), "");
    assert_eq!(wizard.proxy_port(), "1080");
    assert_eq!(wizard.current_port_input(), "443");
}

#[test]
fn backspace_removes_the_last_character_of_the_focused_buffer() {
    let mut wizard = CreationState::new();
    wizard.backspace();
    assert_eq!(wizard.name(), "");
    type_text(&mut wizard, "work");
    wizard.backspace();
    assert_eq!(wizard.name(), "wor");
    wizard.next_field();
    wizard.backspace();
    assert_eq!(wizard.name(), "wor");
    assert_eq!(wizard.proxy_type(), "");
    for _ in 0..3 {
        wizard.next_field();
    }
    type_text(&mut wizard, "8080");
    wizard.backspace();
    assert_eq!(wizard.current_port_input(), "808");
    wizard.enter();
    wizard.backspace();
    assert_eq!(wizard.current_port_input(), "");
    assert_eq!(wizard.redirect_ports(), &vec!["808".to_string()]);
    wizard.next_field();
    wizard.backspace();
    assert_eq!(wizard.redirect_ports(), &vec!["808".to_string()]);
}

#[test]
fn enter_on_redirect_ports_collects_and_stays() {
    let mut wizard = CreationState::new();
    for _ in 0..4 {
        wizard.next_field();
    }
    assert!(!wizard.enter());
    assert!(wizard.redirect_ports().is_empty());
    assert_eq!(wizard.current_field(), CreationField::RedirectPorts);
    type_text(&mut wizard, "80");
    assert!(!wizard.enter());
    type_text(&mut wizard, "443");
    assert!(!wizard.enter());
    assert_eq!(wizard.redirect_ports(), &vec!["80".to_string(), "443".to_string()]);
    assert_eq!(wizard.current_port_input(), "");
    assert_eq!(wizard.current_field(), CreationField::RedirectPorts);
    wizard.next_field();
    assert!(wizard.enter());
    assert_eq!(wizard.current_field(), CreationField::Confirm);
}

#[test]
fn wizard_walkthrough_builds_the_configuration() {
    let mut wizard = CreationState::new();
    for _ in 0..8 {
        wizard.next_field();
    }
    for _ in 0..5 {
        wizard.previous_field();
    }
    assert_eq!(wizard.current_field(), CreationField::Name);
    type_text(&mut wizard, "work");
    wizard.enter();
    type_text(&mut wizard, "socks5");
    wizard.enter();
    type_text(&mut wizard, "10.0.0.1");
    wizard.enter();
    type_text(&mut wizard, "1080");
    wizard.enter();
    type_text(&mut wizard, "80");
    wizard.enter();
    type_text(&mut wizard, "443");
    wizard.enter();
    wizard.next_field();
    assert!(wizard.enter());
    let configuration = wizard.build();
    assert_eq!(configuration.name, "work");
    assert_eq!(
        configuration.proxies,
        vec![Proxy { proxy_type: "socks5".to_string(), url: "10.0.0.1".to_string(), port: 1080 }]
    );
    assert_eq!(
        configuration.rules,
        vec![
            IptablesRule { dport: 80, to_port: 14888, action: "REDIRECT".to_string() },
            IptablesRule { dport: 443, to_port: 14888, action: "REDIRECT".to_string() },
        ]
    );
}

#[test]
fn unusable_numbers_become_zero() {
    let mut wizard = CreationState::new();
    type_text(&mut wizard, "odd");
    for _ in 0..3 {
        wizard.next_field();
    }
    type_text(&mut wizard, "4294967296");
    wizard.next_field();
    type_text(&mut wizard, "65536");
    wizard.enter();
    type_text(&mut wizard, "65535");
    wizard.enter();
    type_text(&mut wizard, "0080");
    wizard.enter();
    let configuration = wizard.build();
    assert_eq!(configuration.proxies.len(), 1);
    assert_eq!(configuration.proxies[0].port, 0);
    assert_eq!(configuration.proxies[0].proxy_type, "");
    let ports: Vec<u16> = configuration.rules.iter().map(|r| r.dport).collect();
    assert_eq!(ports, vec![0, 65535, 80]);
}

#[test]
fn empty_wizard_builds_an_empty_configuration() {
    let configuration = CreationState::new().build();
    assert_eq!(configuration.name, "");
    assert_eq!(
        configuration.proxies,
        vec![Proxy { proxy_type: String::new(), url: String::new(), port: 0 }]
    );
    assert!(configuration.rules.is_empty());
}
