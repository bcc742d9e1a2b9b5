use proxswap::bindings::{
    deactivate_proxy, flush_iptables, kill_redsocks, make_iptables_rule, start_redsocks,
};
use proxswap::configuration::{Configuration, IptablesRule, Proxy};
use proxswap::display::{
    centered_shares, config_label, config_labels, ports_summary, proxy_line, rule_line,
    status_line, wizard_rows, FieldRow,
};
use proxswap::paths::{chain_path, config_dir, record_path, redsocks_dir};
use proxswap::tui::{App, Key};
use proxswap::wizard::CreationState;

#[test]
fn labels_mark_the_active_configuration() {
    assert_eq!(config_label("work", true), "● work");
    assert_eq!(config_label("work", false), "○ work");
    assert_eq!(config_label("", false), "○ ");
}

#[test]
fn proxy_and_rule_lines() {
    let proxy = Proxy { proxy_type: "socks5".to_string(), url: "10.0.0.1".to_string(), port: 1080 };
    assert_eq!(proxy_line(&proxy), "socks5 - 10.0.0.1:1080");
    let rule = IptablesRule { dport: 443, to_port: 14888, action: "REDIRECT".to_string() };
    assert_eq!(rule_line(&rule), "443 → 14888");
    let zero = IptablesRule { dport: 0, to_port: 65535, action: String::new() };
    assert_eq!(rule_line(&zero), "0 → 65535");
}

#[test]
fn ports_summary_lists_or_says_none() {
    assert_eq!(ports_summary(&vec![]), "None");
    assert_eq!(ports_summary(&vec!["80".to_string()]), "80");
    assert_eq!(ports_summary(&vec!["80".to_string(), "443".to_string()]), "80, 443");
}

#[test]
fn status_line_follows_mode_activity_and_query() {
    let mut app = App::new(vec![Configuration::new("work".to_string(), vec![], vec![])]);
    assert_eq!(
        status_line(&app),
        "Mode: Normal │ q: quit │ c: create │ /: search │ ↑↓: navigate "
    );
    app.handle_key(Key::Char('e'));
    assert_eq!(status_line(&app), "Mode: Editing │ ESC: cancel │ Enter: confirm ");
    app.handle_key(Key::Char('w'));
    assert_eq!(status_line(&app), "Mode: Editing │ ESC: cancel │ Enter: confirm Search: w");
    app.handle_key(Key::Enter);
    app.handle_key(Key::Down);
    app.handle_key(Key::Enter);
    app.activation_finished(0, true).unwrap();
    assert_eq!(
        status_line(&app),
        "Mode: Normal │ q: quit │ c: create │ x: deactivate proxy │ /: search │ ↑↓: navigate Search: w"
    );
    app.handle_key(Key::Char('c'));
    assert_eq!(
        status_line(&app),
        "Mode: Creating │ ESC: cancel │ ↑/↓: navigate │ Enter: confirm Search: w"
    );
}

#[test]
fn centred_shares_split_the_rest_evenly() {
    assert_eq!(centered_shares(60), (20, 60, 20));
    assert_eq!(centered_shares(20), (40, 20, 40));
    assert_eq!(centered_shares(100), (0, 100, 0));
    assert_eq!(centered_shares(0), (50, 0, 50));
    assert_eq!(centered_shares(75), (12, 75, 12));
}

#[test]
fn paths_below_home() {
    let config = config_dir("/home/ada");
    assert_eq!(config, "/home/ada/.config/proxswap");
    let redsocks = redsocks_dir(&config);
    assert_eq!(redsocks, "/home/ada/.config/proxswap/redsocks");
    assert_eq!(record_path(&config, "work"), "/home/ada/.config/proxswap/work.json");
    assert_eq!(chain_path(&redsocks, "work"), "/home/ada/.config/proxswap/redsocks/work.conf");
}

#[test]
fn command_lines_of_the_outside_tools() {
    assert_eq!(kill_redsocks(), vec!["killall", "redsocks"]);
    assert_eq!(flush_iptables(), vec!["iptables", "-t", "nat", "-F"]);
    assert_eq!(deactivate_proxy(), (kill_redsocks(), flush_iptables()));
    assert_eq!(
        start_redsocks("/home/ada/.config/proxswap/redsocks", "work"),
        vec!["-c", "/home/ada/.config/proxswap/redsocks/work.conf"]
    );
    let rule = IptablesRule { dport: 80, to_port: 14888, action: "REDIRECT".to_string() };
    assert_eq!(
        make_iptables_rule(&rule),
        vec![
            "iptables", "-t", "nat", "-A", "OUTPUT", "-p", "tcp", "--dport", "80", "-j",
            "REDIRECT", "--to-port", "14888"
        ]
    );
}

fn row(label: &str, value: &str, active: bool) -> FieldRow {
    FieldRow { label: label.to_string(), value: value.to_string(), active }
}

#[test]
fn labels_of_the_visible_rows() {
    let mut app = App::new(vec![
        Configuration::new("work".to_string(), vec![], vec![]),
        Configuration::new("home".to_string(), vec![], vec![]),
        Configuration::new("network".to_string(), vec![], vec![]),
    ]);
    assert_eq!(config_labels(&app), vec!["○ work", "○ home", "○ network"]);
    app.handle_key(Key::Up);
    app.handle_key(Key::Up);
    app.handle_key(Key::Enter);
    app.activation_finished(2, true).unwrap();
    assert_eq!(config_labels(&app), vec!["○ work", "○ home", "● network"]);
    app.handle_key(Key::Char('e'));
    app.handle_key(Key::Char('W'));
    assert_eq!(config_labels(&app), vec!["○ work", "● network"]);
    app.handle_key(Key::Char('z'));
    assert_eq!(config_labels(&app), Vec::<String>::new());
}

#[test]
fn form_rows_follow_the_focus() {
    let mut wizard = CreationState::new();
    for c in "work".chars() {
        wizard.type_char(c);
    }
    assert_eq!(
        wizard_rows(&wizard),
        vec![
            row("Name", "work", true),
            row("Proxy Type", "", false),
            row("Proxy URL", "", false),
            row("Proxy Port", "", false),
            row("Redirect Ports", "None", false),
        ]
    );
    for _ in 0..4 {
        wizard.next_field();
    }
    for c in "80".chars() {
        wizard.type_char(c);
    }
    wizard.enter();
    for c in "44".chars() {
        wizard.type_char(c);
    }
    assert_eq!(
        wizard_rows(&wizard),
        vec![
            row("Name", "work", false),
            row("Proxy Type", "", false),
            row("Proxy URL", "", false),
            row("Proxy Port", "", false),
            row("Redirect Ports", "80", true),
            row("Current Input", "44", true),
        ]
    );
    wizard.next_field();
    assert_eq!(wizard_rows(&wizard).len(), 5);
    assert!(wizard_rows(&wizard).iter().all(|r| !r.active));
}
