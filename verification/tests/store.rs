use proxswap::configuration::{Configuration, IptablesRule, Proxy};
use proxswap::error::Error;
use proxswap::proxy_controller::generate_proxy_file;
use proxswap::store::{Command, Store};

fn rule(dport: u16) -> IptablesRule {
    IptablesRule { dport, to_port: 14888, action: "REDIRECT".to_string() }
}

fn sample(name: &str, ports: &[u16]) -> Configuration {
    Configuration::new(
        name.to_string(),
        vec![Proxy { proxy_type: "socks5".to_string(), url: "10.0.0.1".to_string(), port: 1080 }],
        ports.iter().map(|p| rule(*p)).collect(),
    )
}

fn names(store: &Store) -> Vec<String> {
    (0..store.len()).map(|i| store.get(i).unwrap().name.clone()).collect()
}

fn store_of(list: &[&str]) -> Store {
    let mut store = Store::new();
    for name in list {
        assert_eq!(store.add(sample(name, &[80])), Ok(()));
    }
    store
}

#[test]
fn new_store_is_empty_and_idle() {
    let store = Store::new();
    assert_eq!(store.len(), 0);
    assert_eq!(store.active(), None);
    assert!(store.get(0).is_none());
    assert_eq!(store.find("work"), None);
}

#[test]
fn add_keeps_insertion_order() {
    let store = store_of(&["work", "home", "lab"]);
    assert_eq!(names(&store), vec!["work", "home", "lab"]);
    assert_eq!(store.find("home"), Some(1));
    assert_eq!(store.find("Home"), None);
}

#[test]
fn add_rejects_a_taken_name() {
    let mut store = store_of(&["work", "home"]);
    let other = Configuration::new("work".to_string(), vec![], vec![]);
    assert_eq!(store.add(other), Err(Error::DuplicateName));
    assert_eq!(names(&store), vec!["work", "home"]);
    assert_eq!(store.get(0).unwrap(), &sample("work", &[80]));
}

#[test]
fn create_returns_the_persisting_commands() {
    let mut store = store_of(&["home"]);
    let proxies =
        vec![Proxy { proxy_type: "socks5".to_string(), url: "10.0.0.1".to_string(), port: 1080 }];
    let (created, commands) = store
        .create("work".to_string(), proxies.clone(), vec![rule(80), rule(443)])
        .unwrap();
    assert_eq!(created, sample("work", &[80, 443]));
    assert_eq!(
        commands,
        vec![
            Command::WriteChainFile {
                name: "work".to_string(),
                text: generate_proxy_file(&proxies)
            },
            Command::InstallRule { rule: rule(80) },
            Command::InstallRule { rule: rule(443) },
            Command::WriteRecord { configuration: sample("work", &[80, 443]) },
        ]
    );
    assert_eq!(names(&store), vec!["home", "work"]);
    assert_eq!(store.get(1).unwrap(), &sample("work", &[80, 443]));
    assert_eq!(store.active(), None);
}

#[test]
fn create_with_a_taken_name_fails_and_changes_nothing() {
    let mut store = store_of(&["work", "home"]);
    assert_eq!(store.mark_active(1, true), Ok(()));
    let r = store.create("home".to_string(), vec![], vec![rule(1)]);
    assert_eq!(r.map(|_| ()), Err(Error::DuplicateName));
    assert_eq!(names(&store), vec!["work", "home"]);
    assert_eq!(store.get(1).unwrap(), &sample("home", &[80]));
    assert_eq!(store.active(), Some(1));
}

#[test]
fn run_starts_then_installs_in_rule_order() {
    let configuration = sample("work", &[80, 443]);
    assert_eq!(
        configuration.run(),
        vec![
            Command::StartRedirector { name: "work".to_string() },
            Command::InstallRule { rule: rule(80) },
            Command::InstallRule { rule: rule(443) },
        ]
    );
}

#[test]
fn activate_from_idle_needs_no_deactivation() {
    let mut store = store_of(&["work", "home"]);
    let commands = store.activate(1).unwrap();
    assert_eq!(
        commands,
        vec![
            Command::StartRedirector { name: "home".to_string() },
            Command::InstallRule { rule: rule(80) },
        ]
    );
    assert_eq!(store.active(), None);
    assert_eq!(store.mark_active(1, true), Ok(()));
    assert_eq!(store.active(), Some(1));
}

#[test]
fn activate_while_another_is_active_deactivates_first() {
    let mut store = Store::new();
    store.add(sample("a", &[80])).unwrap();
    store.add(sample("b", &[8080, 8443])).unwrap();
    store.activate(0).unwrap();
    store.mark_active(0, true).unwrap();
    let commands = store.activate(1).unwrap();
    assert_eq!(
        commands,
        vec![
            Command::StopRedirector,
            Command::FlushRules,
            Command::StartRedirector { name: "b".to_string() },
            Command::InstallRule { rule: rule(8080) },
            Command::InstallRule { rule: rule(8443) },
        ]
    );
    assert_eq!(store.active(), None);
    store.mark_active(1, true).unwrap();
    assert_eq!(store.active(), Some(1));
}

#[test]
fn failed_activation_marks_nothing() {
    let mut store = store_of(&["work", "home"]);
    store.activate(0).unwrap();
    assert_eq!(store.mark_active(0, false), Err(Error::ExternalProcessError));
    assert_eq!(store.active(), None);
    assert_eq!(names(&store), vec!["work", "home"]);
}

#[test]
fn activate_out_of_range_is_not_found() {
    let mut store = store_of(&["work"]);
    store.mark_active(0, true).unwrap();
    assert_eq!(store.activate(1), Err(Error::NotFound));
    assert_eq!(store.mark_active(1, true), Err(Error::NotFound));
    assert_eq!(store.active(), Some(0));
}

#[test]
fn deactivate_twice_is_harmless() {
    let mut store = store_of(&["work", "home"]);
    let first = store.deactivate();
    assert_eq!(first, vec![Command::StopRedirector, Command::FlushRules]);
    assert_eq!(store.active(), None);
    let second = store.deactivate();
    assert_eq!(second, first);
    assert_eq!(store.active(), None);
    assert_eq!(names(&store), vec!["work", "home"]);
}

#[test]
fn deactivate_clears_the_marker() {
    let mut store = store_of(&["work", "home"]);
    store.mark_active(1, true).unwrap();
    assert_eq!(store.deactivate(), vec![Command::StopRedirector, Command::FlushRules]);
    assert_eq!(store.active(), None);
}

#[test]
fn delete_active_deactivates_then_removes() {
    let mut store = store_of(&["work", "home", "lab"]);
    store.mark_active(1, true).unwrap();
    let commands = store.delete(1).unwrap();
    assert_eq!(
        commands,
        vec![
            Command::StopRedirector,
            Command::FlushRules,
            Command::RemoveFiles { name: "home".to_string() },
        ]
    );
    assert_eq!(names(&store), vec!["work", "lab"]);
    assert_eq!(store.find("home"), None);
    assert_eq!(store.active(), None);
}

#[test]
fn delete_inactive_keeps_the_active_one_marked() {
    let mut store = store_of(&["work", "home", "lab"]);
    store.mark_active(2, true).unwrap();
    let commands = store.delete(0).unwrap();
    assert_eq!(commands, vec![Command::RemoveFiles { name: "work".to_string() }]);
    assert_eq!(names(&store), vec!["home", "lab"]);
    assert_eq!(store.active(), Some(1));
    assert_eq!(store.get(1).unwrap().name, "lab");
    let commands = store.delete(1).unwrap_or_default();
    assert_eq!(commands.len(), 3);
    assert_eq!(store.active(), None);
}

#[test]
fn delete_after_the_active_one_leaves_its_index() {
    let mut store = store_of(&["work", "home", "lab"]);
    store.mark_active(0, true).unwrap();
    store.delete(2).unwrap();
    assert_eq!(store.active(), Some(0));
    assert_eq!(names(&store), vec!["work", "home"]);
}

#[test]
fn delete_and_remove_out_of_range_are_not_found() {
    let mut store = store_of(&["work"]);
    assert_eq!(store.delete(1), Err(Error::NotFound));
    assert_eq!(store.remove(7).map(|_| ()), Err(Error::NotFound));
    assert_eq!(names(&store), vec!["work"]);
}

#[test]
fn remove_hands_back_the_entry() {
    let mut store = store_of(&["work", "home"]);
    store.mark_active(0, true).unwrap();
    assert_eq!(
        store.remove(0),
        Ok((sample("work", &[80]), vec![Command::StopRedirector, Command::FlushRules]))
    );
    assert_eq!(names(&store), vec!["home"]);
    assert_eq!(store.active(), None);
    assert_eq!(store.remove(0), Ok((sample("home", &[80]), vec![])));
    assert_eq!(store.len(), 0);
}

#[test]
fn error_messages() {
    assert_eq!(Error::DuplicateName.message(), "a configuration with this name already exists");
    assert_eq!(Error::NotFound.message(), "no such configuration");
    assert_eq!(Error::IOError.message(), "a configuration file could not be read or written");
    assert_eq!(Error::ParseError.message(), "a configuration record is malformed");
    assert_eq!(Error::ExternalProcessError.message(), "an external command failed");
    assert_eq!(Error::PrivilegeError.message(), "elevated privileges could not be obtained");
}
