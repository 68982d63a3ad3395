use vstd::prelude::*;

verus! {

/// A launched node: the container it runs in, the configuration it was
/// started with, and its routable address record once resolved.
#[derive(Debug, Clone)]
pub struct WakuNode {
    pub container_id: String,
    pub name: String,
    pub rest_port: u16,
    pub tcp_port: u16,
    pub websocket_port: u16,
    pub discv5_port: u16,
    pub external_ip: String,
    pub enr_uri: Option<String>,
}

/// The identity descriptor reported by a node's control plane.
#[derive(Debug)]
pub struct NodeInfo {
    pub enr_uri: String,
    pub listen_addresses: Vec<String>,
}

/// The single-field envelope some control planes wrap their documents in.
#[derive(Debug)]
pub struct ApiResponse<T> {
    pub data: T,
}

/// An outbound message: base64 payload, content topic, seconds since epoch.
#[derive(Debug)]
pub struct Message {
    pub payload: String,
    pub content_topic: String,
    pub timestamp: u64,
}

/// A message as listed back by a node.
#[derive(Debug)]
pub struct ReceivedMessage {
    pub payload: String,
    pub content_topic: String,
    pub timestamp: u64,
}

/// One entry of a node's peer list.
#[derive(Debug)]
pub struct PeerInfo {
    pub peer_id: String,
    pub multiaddr: String,
    pub connected: bool,
}

/// Declarative description of a node to launch.
#[derive(Debug, Clone)]
pub struct WakuNodeConfig {
    pub name: String,
    pub rest_port: u16,
    pub tcp_port: u16,
    pub websocket_port: u16,
    pub discv5_port: u16,
    pub external_ip: String,
    pub bootstrap_node: Option<String>,
}

impl WakuNodeConfig {
    /// The four ports of the configuration are pairwise distinct.
    pub open spec fn ports_distinct(&self) -> bool {
        &&& self.rest_port != self.tcp_port
        &&& self.rest_port != self.websocket_port
        &&& self.rest_port != self.discv5_port
        &&& self.tcp_port != self.websocket_port
        &&& self.tcp_port != self.discv5_port
        &&& self.websocket_port != self.discv5_port
    }
}

impl Default for WakuNodeConfig {
    fn default() -> (r: Self)
        ensures
            r.name@ == "waku-node"@,
            r.rest_port == 22161,
            r.tcp_port == 22162,
            r.websocket_port == 22163,
            r.discv5_port == 22164,
            r.external_ip@ == "172.18.111.226"@,
            r.bootstrap_node.is_none(),
    {
        WakuNodeConfig {
            name: "waku-node".to_owned(),
            rest_port: 22161,
            tcp_port: 22162,
            websocket_port: 22163,
            discv5_port: 22164,
            external_ip: "172.18.111.226".to_owned(),
            bootstrap_node: None,
        }
    }
}

} // verus!
