//! The command lines of the outside tools, as lists of arguments. Running
//! them is the caller's part.

use crate::configuration::{IptablesRule, RuleModel};
use crate::paths::{chain_path, chain_path_of};
use crate::text::{decimal, push_decimal, texts};
use vstd::prelude::*;
use vstd::string::*;

verus! {

/// The arguments that stop every running redirector.
pub open spec fn kill_redsocks_line() -> Seq<Seq<char>> {
    seq!["killall"@, "redsocks"@]
}

/// The arguments that empty the NAT table.
pub open spec fn flush_iptables_line() -> Seq<Seq<char>> {
    seq!["iptables"@, "-t"@, "nat"@, "-F"@]
}

/// The arguments that start the redirector on a chain file.
pub open spec fn start_redsocks_line(redsocks_dir: Seq<char>, name: Seq<char>) -> Seq<Seq<char>> {
    seq!["-c"@, chain_path_of(redsocks_dir, name)]
}

/// The arguments that append one rule to the NAT table's output chain: TCP
/// traffic to the rule's `dport` gets the rule's action towards its `to_port`.
pub open spec fn make_iptables_rule_line(rule: RuleModel) -> Seq<Seq<char>> {
    seq![
        "iptables"@,
        "-t"@,
        "nat"@,
        "-A"@,
        "OUTPUT"@,
        "-p"@,
        "tcp"@,
        "--dport"@,
        decimal(rule.dport),
        "-j"@,
        rule.action,
        "--to-port"@,
        decimal(rule.to_port),
    ]
}

/// The decimal notation of `n` as a string.
fn decimal_string(n: u16) -> (r: String)
    ensures
        r@ == decimal(n as nat),
{
    let mut out = String::new();
    push_decimal(&mut out, n as u128);
    assert(out@ =~= decimal(n as nat));
    out
}

/// The arguments for the privileged runner that stop the redirector.
pub fn kill_redsocks() -> (r: Vec<String>)
    ensures
        texts(r@) == kill_redsocks_line(),
{
    let mut out: Vec<String> = Vec::new();
    out.push(String::from_str("killall"));
    out.push(String::from_str("redsocks"));
    assert(texts(out@) =~= kill_redsocks_line());
    out
}

/// The arguments for the privileged runner that flush the NAT rules.
pub fn flush_iptables() -> (r: Vec<String>)
    ensures
        texts(r@) == flush_iptables_line(),
{
    let mut out: Vec<String> = Vec::new();
    out.push(String::from_str("iptables"));
    out.push(String::from_str("-t"));
    out.push(String::from_str("nat"));
    out.push(String::from_str("-F"));
    assert(texts(out@) =~= flush_iptables_line());
    out
}

/// The arguments for the redirector that start it on the chain file of the
/// configuration called `name`.
pub fn start_redsocks(redsocks_dir: &str, name: &str) -> (r: Vec<String>)
    ensures
        texts(r@) == start_redsocks_line(redsocks_dir@, name@),
{
    let mut out: Vec<String> = Vec::new();
    out.push(String::from_str("-c"));
    out.push(chain_path(redsocks_dir, name));
    assert(texts(out@) =~= start_redsocks_line(redsocks_dir@, name@));
    out
}

/// The two command lines of a full deactivation, in the order in which they
/// run: stop the redirector, then flush the NAT rules.
pub fn deactivate_proxy() -> (r: (Vec<String>, Vec<String>))
    ensures
        texts(r.0@) == kill_redsocks_line(),
        texts(r.1@) == flush_iptables_line(),
{
    (kill_redsocks(), flush_iptables())
}

/// The arguments for the privileged runner that install `rule`.
pub fn make_iptables_rule(rule: &IptablesRule) -> (r: Vec<String>)
    ensures
        texts(r@) == make_iptables_rule_line(rule@),
{
    let mut out: Vec<String> = Vec::new();
    out.push(String::from_str("iptables"));
    out.push(String::from_str("-t"));
    out.push(String::from_str("nat"));
    out.push(String::from_str("-A"));
    out.push(String::from_str("OUTPUT"));
    out.push(String::from_str("-p"));
    out.push(String::from_str("tcp"));
    out.push(String::from_str("--dport"));
    out.push(decimal_string(rule.dport));
    out.push(String::from_str("-j"));
    out.push(rule.action.clone());
    out.push(String::from_str("--to-port"));
    out.push(decimal_string(rule.to_port));
    assert(texts(out@) =~= make_iptables_rule_line(rule@));
    out
}

} // verus!
