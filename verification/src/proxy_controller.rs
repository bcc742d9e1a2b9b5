//! The renderer of the chain definition that the redirector reads.

pub use crate::configuration::Proxy;
use crate::configuration::{proxy_models, ProxyModel, BASE_PORT};
use crate::text::{decimal, join, push_decimal};
use vstd::prelude::*;
use vstd::string::*;

verus! {

/// The block that opens every chain definition.
pub open spec fn preamble() -> Seq<char> {
    "base {\n    log_debug = off;\n    log_info = off;\n    daemon = on;\n    redirector = iptables;\n}\n"@
}

/// The block of one hop that listens on `local_port` and forwards to `proxy`.
pub open spec fn hop_block(local_port: nat, proxy: ProxyModel) -> Seq<char> {
    "redsocks {\n    local_ip = 127.0.0.1;\n    local_port = "@ + decimal(local_port)
        + ";\n\n    type = "@ + proxy.proxy_type + ";\n    ip = "@ + proxy.url + ";\n    port = "@
        + decimal(proxy.port) + ";\n}\n"@
}

/// The blocks of a chain definition: the preamble, then one hop block per
/// proxy in list order, the hop at index `i` on local port `BASE_PORT + i`.
pub open spec fn chain_blocks(proxies: Seq<ProxyModel>) -> Seq<Seq<char>> {
    Seq::new(
        proxies.len() + 1,
        |k: int|
            if k == 0 {
                preamble()
            } else {
                hop_block((BASE_PORT + k - 1) as nat, proxies[k - 1])
            },
    )
}

/// The chain definition of a list of proxies: its blocks joined by a single
/// line feed. Every block ends in a line feed itself, so a blank line
/// separates two blocks.
pub open spec fn chain_text(proxies: Seq<ProxyModel>) -> Seq<char> {
    join(chain_blocks(proxies), "\n"@)
}

/// In the chain definition of `proxies`, the block after the preamble at
/// position `i` is the hop block of `proxies[i]` with local port
/// `BASE_PORT + i`: the ports run `BASE_PORT, BASE_PORT + 1, ...` in list order.
pub proof fn lemma_local_ports_sequential(proxies: Seq<ProxyModel>, i: int)
    requires
        0 <= i < proxies.len(),
    ensures
        chain_blocks(proxies).len() == proxies.len() + 1,
        chain_blocks(proxies)[0] == preamble(),
        chain_blocks(proxies)[i + 1] == hop_block((BASE_PORT + i) as nat, proxies[i]),
{
}

/// Rendering is a function of the proxies' values: two lists with the same
/// values in the same order have the same chain definition.
pub proof fn lemma_render_deterministic(a: Seq<Proxy>, b: Seq<Proxy>)
    requires
        a.len() == b.len(),
        forall|i: int| 0 <= i < a.len() ==> a[i]@ == b[i]@,
    ensures
        chain_text(proxy_models(a)) == chain_text(proxy_models(b)),
{
    assert(proxy_models(a) =~= proxy_models(b));
}

/// A list without proxies renders as the preamble alone.
pub proof fn lemma_render_empty()
    ensures
        chain_text(Seq::<ProxyModel>::empty()) == preamble(),
{
    assert(chain_blocks(Seq::<ProxyModel>::empty()).len() == 1);
}

/// Appends the hop block of `proxy` on `local_port` to `out`.
fn push_hop_block(out: &mut String, local_port: u128, proxy: &Proxy)
    ensures
        final(out)@ == old(out)@ + hop_block(local_port as nat, proxy@),
{
    out.append("redsocks {\n    local_ip = 127.0.0.1;\n    local_port = ");
    push_decimal(out, local_port);
    out.append(";\n\n    type = ");
    out.append(proxy.proxy_type.as_str());
    out.append(";\n    ip = ");
    out.append(proxy.url.as_str());
    out.append(";\n    port = ");
    push_decimal(out, proxy.port as u128);
    out.append(";\n}\n");
    assert(final(out)@ =~= old(out)@ + hop_block(local_port as nat, proxy@));
}

/// Renders the chain definition that the redirector reads: the preamble, then
/// one hop block per proxy in list order.
pub fn generate_proxy_file(proxies: &Vec<Proxy>) -> (text: String)
    ensures
        text@ == chain_text(proxy_models(proxies@)),
{
    let mut out = String::from_str(
        "base {\n    log_debug = off;\n    log_info = off;\n    daemon = on;\n    redirector = iptables;\n}\n",
    );
    let ghost models = proxy_models(proxies@);
    let mut i: usize = 0;
    proof {
        assert(chain_blocks(models).take(1) =~= seq![preamble()]);
    }
    while i < proxies.len()
        invariant
            i <= proxies.len(),
            models == proxy_models(proxies@),
            out@ == join(chain_blocks(models).take(i + 1), "\n"@),
        decreases proxies.len() - i,
    {
        out.append("\n");
        push_hop_block(&mut out, BASE_PORT as u128 + i as u128, &proxies[i]);
        proof {
            let blocks = chain_blocks(models).take(i + 2);
            assert(blocks.drop_last() =~= chain_blocks(models).take(i + 1));
            assert(blocks.last() == hop_block((BASE_PORT + i) as nat, proxies@[i as int]@));
        }
        i = i + 1;
    }
    proof {
        assert(chain_blocks(models).take(proxies@.len() as int + 1) =~= chain_blocks(models));
    }
    out
}

} // verus!
