//! The configuration model.

use crate::proxy_controller::{chain_text, generate_proxy_file};
use vstd::prelude::*;
use vstd::string::*;

verus! {

/// One upstream hop of a proxy chain.
#[derive(Debug, PartialEq, Eq)]
pub struct Proxy {
    pub proxy_type: String,
    pub url: String,
    pub port: u32,
}

/// The mathematical value of a [`Proxy`].
pub struct ProxyModel {
    pub proxy_type: Seq<char>,
    pub url: Seq<char>,
    pub port: nat,
}

impl View for Proxy {
    type V = ProxyModel;

    open spec fn view(&self) -> ProxyModel {
        ProxyModel { proxy_type: self.proxy_type@, url: self.url@, port: self.port as nat }
    }
}

impl Clone for Proxy {
    fn clone(&self) -> (r: Self)
        ensures
            r == *self,
    {
        Proxy { proxy_type: self.proxy_type.clone(), url: self.url.clone(), port: self.port }
    }
}

/// One NAT rule, installed while the owning configuration is active.
#[derive(Debug, PartialEq, Eq)]
pub struct IptablesRule {
    pub dport: u16,
    pub to_port: u16,
    pub action: String,
}

/// The mathematical value of an [`IptablesRule`].
pub struct RuleModel {
    pub dport: nat,
    pub to_port: nat,
    pub action: Seq<char>,
}

impl View for IptablesRule {
    type V = RuleModel;

    open spec fn view(&self) -> RuleModel {
        RuleModel { dport: self.dport as nat, to_port: self.to_port as nat, action: self.action@ }
    }
}

impl Clone for IptablesRule {
    fn clone(&self) -> (r: Self)
        ensures
            r == *self,
    {
        IptablesRule { dport: self.dport, to_port: self.to_port, action: self.action.clone() }
    }
}

/// A named chain of proxies with the port redirections that send local
/// traffic through it.
#[derive(Debug, PartialEq, Eq)]
pub struct Configuration {
    pub name: String,
    pub proxies: Vec<Proxy>,
    pub rules: Vec<IptablesRule>,
}

/// The mathematical value of a [`Configuration`].
pub struct ConfigurationModel {
    pub name: Seq<char>,
    pub proxies: Seq<ProxyModel>,
    pub rules: Seq<RuleModel>,
}

/// The values of a list of proxies, in list order.
pub open spec fn proxy_models(proxies: Seq<Proxy>) -> Seq<ProxyModel> {
    Seq::new(proxies.len(), |i: int| proxies[i]@)
}

/// The values of a list of rules, in list order.
pub open spec fn rule_models(rules: Seq<IptablesRule>) -> Seq<RuleModel> {
    Seq::new(rules.len(), |i: int| rules[i]@)
}

/// The values of a list of configurations, in list order.
pub open spec fn configuration_models(configurations: Seq<Configuration>) -> Seq<
    ConfigurationModel,
> {
    Seq::new(configurations.len(), |i: int| configurations[i]@)
}

impl View for Configuration {
    type V = ConfigurationModel;

    open spec fn view(&self) -> ConfigurationModel {
        ConfigurationModel {
            name: self.name@,
            proxies: proxy_models(self.proxies@),
            rules: rule_models(self.rules@),
        }
    }
}

/// A copy of a list of proxies.
fn clone_proxies(proxies: &Vec<Proxy>) -> (r: Vec<Proxy>)
    ensures
        r@ == proxies@,
{
    let mut out: Vec<Proxy> = Vec::new();
    let mut i: usize = 0;
    while i < proxies.len()
        invariant
            i <= proxies.len(),
            out@ == proxies@.take(i as int),
        decreases proxies.len() - i,
    {
        out.push(proxies[i].clone());
        assert(out@ =~= proxies@.take(i + 1));
        i = i + 1;
    }
    assert(proxies@.take(proxies@.len() as int) =~= proxies@);
    out
}

/// A copy of a list of rules.
fn clone_rules(rules: &Vec<IptablesRule>) -> (r: Vec<IptablesRule>)
    ensures
        r@ == rules@,
{
    let mut out: Vec<IptablesRule> = Vec::new();
    let mut i: usize = 0;
    while i < rules.len()
        invariant
            i <= rules.len(),
            out@ == rules@.take(i as int),
        decreases rules.len() - i,
    {
        out.push(rules[i].clone());
        assert(out@ =~= rules@.take(i + 1));
        i = i + 1;
    }
    assert(rules@.take(rules@.len() as int) =~= rules@);
    out
}

impl Clone for Configuration {
    fn clone(&self) -> (r: Self)
        ensures
            r.name == self.name,
            r.proxies@ == self.proxies@,
            r.rules@ == self.rules@,
            r@ == self@,
    {
        Configuration {
            name: self.name.clone(),
            proxies: clone_proxies(&self.proxies),
            rules: clone_rules(&self.rules),
        }
    }
}

/// The local port on which the first hop of every chain listens; hop `i`
/// listens on `BASE_PORT + i`.
pub const BASE_PORT: u16 = 14888;

impl Configuration {
    /// A configuration with the given name, chain and rules.
    pub fn new(config_name: String, proxies: Vec<Proxy>, rules: Vec<IptablesRule>) -> (r:
        Configuration)
        ensures
            r.name == config_name,
            r.proxies == proxies,
            r.rules == rules,
    {
        Configuration { name: config_name, proxies, rules }
    }

    /// The chain definition of this configuration's proxies.
    pub fn generate_redsocks_config(&self) -> (text: String)
        ensures
            text@ == chain_text(self@.proxies),
    {
        generate_proxy_file(&self.proxies)
    }
}

} // verus!
