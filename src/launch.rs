use vstd::prelude::*;
use vstd::string::StringExecFns;
use crate::model::{NodeInfo, WakuNode, WakuNodeConfig};
use crate::text::{decimal, digit_char, push_decimal, with_decimal};

verus! {

/// Container image every node runs.
pub const NODE_IMAGE: &'static str = "wakuorg/nwaku:v0.24.0";

/// The protocol suffix of a port key.
pub open spec fn proto_suffix(udp: bool) -> Seq<char> {
    if udp { "/udp"@ } else { "/tcp"@ }
}

/// The runtime's key for a container port: `"<port>/tcp"` or `"<port>/udp"`.
pub open spec fn port_key(port: u16, udp: bool) -> Seq<char> {
    decimal(port as nat) + proto_suffix(udp)
}

/// The keys of the four ports a node exposes: three TCP, one UDP.
pub open spec fn exposed_keys(c: WakuNodeConfig) -> Seq<Seq<char>> {
    seq![
        port_key(c.rest_port, false),
        port_key(c.tcp_port, false),
        port_key(c.websocket_port, false),
        port_key(c.discv5_port, true),
    ]
}

proof fn lemma_decimal_nonempty(n: nat)
    ensures
        decimal(n).len() >= 1,
    decreases n,
{
    if n >= 10 {
        lemma_decimal_nonempty(n / 10);
    }
}

proof fn lemma_digit_injective(x: nat, y: nat)
    requires
        x < 10,
        y < 10,
        digit_char(x) == digit_char(y),
    ensures
        x == y,
{
    assert(digit_char(x) as u32 == x + 48);
    assert(digit_char(y) as u32 == y + 48);
}

proof fn lemma_decimal_injective(a: nat, b: nat)
    requires
        decimal(a) == decimal(b),
    ensures
        a == b,
    decreases a,
{
    lemma_decimal_nonempty(a / 10);
    lemma_decimal_nonempty(b / 10);
    if a < 10 && b < 10 {
        assert(decimal(a) == seq![digit_char(a)]);
        assert(decimal(b) == seq![digit_char(b)]);
        assert(seq![digit_char(a)][0] == digit_char(a));
        assert(seq![digit_char(b)][0] == digit_char(b));
        lemma_digit_injective(a, b);
    } else if a < 10 {
        assert(decimal(b).len() >= 2);
    } else if b < 10 {
        assert(decimal(a).len() >= 2);
    } else {
        let da = decimal(a);
        let db = decimal(b);
        assert(da.drop_last() =~= decimal(a / 10));
        assert(db.drop_last() =~= decimal(b / 10));
        assert(da.last() == db.last());
        lemma_digit_injective(a % 10, b % 10);
        lemma_decimal_injective(a / 10, b / 10);
    }
}

proof fn lemma_port_key_injective(p: u16, q: u16, udp_p: bool, udp_q: bool)
    requires
        port_key(p, udp_p) == port_key(q, udp_q),
    ensures
        p == q,
        udp_p == udp_q,
{
    reveal_strlit("/tcp");
    reveal_strlit("/udp");
    let kp = port_key(p, udp_p);
    let kq = port_key(q, udp_q);
    let dp = decimal(p as nat);
    let dq = decimal(q as nat);
    assert(proto_suffix(udp_p).len() == 4);
    assert(proto_suffix(udp_q).len() == 4);
    assert(kp[kp.len() - 3] == proto_suffix(udp_p)[1]);
    assert(kq[kq.len() - 3] == proto_suffix(udp_q)[1]);
    assert(dp =~= kp.subrange(0, dp.len() as int));
    assert(dq =~= kq.subrange(0, dq.len() as int));
    lemma_decimal_injective(p as nat, q as nat);
}

/// A configuration with pairwise distinct ports exposes four distinct
/// port keys, so the bindings of one node never collide.
pub proof fn distinct_ports_give_distinct_keys(c: WakuNodeConfig)
    requires
        c.ports_distinct(),
    ensures
        exposed_keys(c).no_duplicates(),
{
    let k = exposed_keys(c);
    assert forall|i: int, j: int| 0 <= i < k.len() && 0 <= j < k.len() && i != j implies k[i]
        != k[j] by {
        if k[i] == k[j] {
            let ports = seq![c.rest_port, c.tcp_port, c.websocket_port, c.discv5_port];
            let udps = seq![false, false, false, true];
            assert(k[i] == port_key(ports[i], udps[i]));
            assert(k[j] == port_key(ports[j], udps[j]));
            lemma_port_key_injective(ports[i], ports[j], udps[i], udps[j]);
        }
    }
}

/// A container port published on the same port number of the host.
pub struct PortMapping {
    pub container_port: String,
    pub host_port: String,
}

/// Builds the key of a container port.
pub fn port_key_text(port: u16, udp: bool) -> (r: String)
    ensures
        r@ == port_key(port, udp),
{
    let mut s = String::new();
    push_decimal(&mut s, port);
    if udp {
        s.append("/udp");
    } else {
        s.append("/tcp");
    }
    proof {
        assert(s@ =~= port_key(port, udp));
    }
    s
}

fn mapping(port: u16, udp: bool) -> (r: PortMapping)
    ensures
        r.container_port@ == port_key(port, udp),
        r.host_port@ == decimal(port as nat),
{
    let container_port = port_key_text(port, udp);
    let host_port = with_decimal("", port);
    proof {
        reveal_strlit("");
        assert(host_port@ =~= decimal(port as nat));
    }
    PortMapping { container_port, host_port }
}

/// The exposed ports of a node, by key.
pub fn create_exposed_ports(config: &WakuNodeConfig) -> (r: Vec<String>)
    ensures
        r.deep_view() == exposed_keys(*config),
{
    let r = vec![
        port_key_text(config.rest_port, false),
        port_key_text(config.tcp_port, false),
        port_key_text(config.websocket_port, false),
        port_key_text(config.discv5_port, true),
    ];
    assert(r.deep_view() =~= exposed_keys(*config));
    r
}

/// The port bindings of a node: each exposed port bound to the same host port.
pub fn create_port_bindings(config: &WakuNodeConfig) -> (r: Vec<PortMapping>)
    ensures
        r@.len() == 4,
        forall|i: int| 0 <= i < 4 ==> #[trigger] r@[i].container_port@ == exposed_keys(*config)[i],
        r@[0].host_port@ == decimal(config.rest_port as nat),
        r@[1].host_port@ == decimal(config.tcp_port as nat),
        r@[2].host_port@ == decimal(config.websocket_port as nat),
        r@[3].host_port@ == decimal(config.discv5_port as nat),
{
    vec![
        mapping(config.rest_port, false),
        mapping(config.tcp_port, false),
        mapping(config.websocket_port, false),
        mapping(config.discv5_port, true),
    ]
}

/// The command-line arguments a node is started with.
pub open spec fn command_args(c: WakuNodeConfig) -> Seq<Seq<char>> {
    let base = seq![
        "--listen-address=0.0.0.0"@,
        "--rest=true"@,
        "--rest-admin=true"@,
        "--websocket-support=true"@,
        "--log-level=TRACE"@,
        "--rest-relay-cache-capacity=100"@,
        "--websocket-port="@ + decimal(c.websocket_port as nat),
        "--rest-port="@ + decimal(c.rest_port as nat),
        "--tcp-port="@ + decimal(c.tcp_port as nat),
        "--discv5-udp-port="@ + decimal(c.discv5_port as nat),
        "--rest-address=0.0.0.0"@,
        "--nat=extip:"@ + c.external_ip@,
        "--peer-exchange=true"@,
        "--discv5-discovery=true"@,
        "--relay=true"@,
    ];
    match c.bootstrap_node {
        Some(b) => base.push("--discv5-bootstrap-node="@ + b@),
        None => base,
    }
}

/// Builds the node's command line.
pub fn create_waku_command(config: &WakuNodeConfig) -> (r: Vec<String>)
    ensures
        r.deep_view() == command_args(*config),
{
    let mut extip = String::from_str("--nat=extip:");
    extip.append(config.external_ip.as_str());
    let mut cmd = vec![
        "--listen-address=0.0.0.0".to_owned(),
        "--rest=true".to_owned(),
        "--rest-admin=true".to_owned(),
        "--websocket-support=true".to_owned(),
        "--log-level=TRACE".to_owned(),
        "--rest-relay-cache-capacity=100".to_owned(),
        with_decimal("--websocket-port=", config.websocket_port),
        with_decimal("--rest-port=", config.rest_port),
        with_decimal("--tcp-port=", config.tcp_port),
        with_decimal("--discv5-udp-port=", config.discv5_port),
        "--rest-address=0.0.0.0".to_owned(),
        extip,
        "--peer-exchange=true".to_owned(),
        "--discv5-discovery=true".to_owned(),
        "--relay=true".to_owned(),
    ];
    match &config.bootstrap_node {
        Some(bootstrap) => {
            let mut arg = String::from_str("--discv5-bootstrap-node=");
            arg.append(bootstrap.as_str());
            cmd.push(arg);
        },
        None => {},
    }
    assert(cmd.deep_view() =~= command_args(*config));
    cmd
}

impl WakuNode {
    /// The handle of a node whose container has just been started: it echoes
    /// the configuration and has no address record yet.
    pub fn launched(config: WakuNodeConfig, container_id: String) -> (r: WakuNode)
        ensures
            r.container_id == container_id,
            r.name == config.name,
            r.rest_port == config.rest_port,
            r.tcp_port == config.tcp_port,
            r.websocket_port == config.websocket_port,
            r.discv5_port == config.discv5_port,
            r.external_ip == config.external_ip,
            r.enr_uri.is_none(),
    {
        WakuNode {
            container_id,
            name: config.name,
            rest_port: config.rest_port,
            tcp_port: config.tcp_port,
            websocket_port: config.websocket_port,
            discv5_port: config.discv5_port,
            external_ip: config.external_ip,
            enr_uri: None,
        }
    }

    /// Records the address record resolved for this node; nothing else changes.
    pub fn record_info(&mut self, info: NodeInfo)
        ensures
            final(self).enr_uri == Some(info.enr_uri),
            final(self).enr_uri is Some,
            info.enr_uri@.len() > 0 ==> final(self).enr_uri->0@.len() > 0,
            final(self).container_id == old(self).container_id,
            final(self).name == old(self).name,
            final(self).rest_port == old(self).rest_port,
            final(self).tcp_port == old(self).tcp_port,
            final(self).websocket_port == old(self).websocket_port,
            final(self).discv5_port == old(self).discv5_port,
            final(self).external_ip == old(self).external_ip,
    {
        self.enr_uri = Some(info.enr_uri);
    }
}

} // verus!
