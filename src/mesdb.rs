use vstd::prelude::*;
use crate::schemas::Topology;

verus! {

/// The endpoints through which a cluster is reached.
#[derive(Clone, Debug, PartialEq, Eq)]
pub struct ClusterAddresses {
    pub tcp: Vec<String>,
    pub grpc: String,
    pub ui: String,
}

/// The domain under which every cluster is published.
pub open spec fn cluster_domain() -> Seq<char> {
    ".mesdb.eventstore.cloud"@
}

pub open spec fn addresses_of(id: Seq<char>, topology: Topology) -> (Seq<Seq<char>>, Seq<char>, Seq<char>) {
    let ui = "https://"@ + id + cluster_domain() + ":2113"@;
    if topology == Topology::ThreeNodeMultiZone {
        (
            seq![
                id + "-0"@ + cluster_domain() + ":1113"@,
                id + "-1"@ + cluster_domain() + ":1113"@,
                id + "-2"@ + cluster_domain() + ":1113"@,
            ],
            "esdb+discover://"@ + id + cluster_domain() + ":2113"@,
            ui,
        )
    } else {
        (
            seq![id + cluster_domain() + ":1113"@],
            "esdb://"@ + id + cluster_domain() + ":2113"@,
            ui,
        )
    }
}

fn node_address(id: &str, suffix: &str) -> (r: String)
    ensures
        r@ == id@ + suffix@ + cluster_domain() + ":1113"@,
{
    let mut a = String::from_str(id);
    a.append(suffix);
    a.append(".mesdb.eventstore.cloud");
    a.append(":1113");
    a
}

fn cluster_url(scheme: &str, id: &str) -> (r: String)
    ensures
        r@ == scheme@ + id@ + cluster_domain() + ":2113"@,
{
    let mut a = String::from_str(scheme);
    a.append(id);
    a.append(".mesdb.eventstore.cloud");
    a.append(":2113");
    a
}

impl ClusterAddresses {
    /// The addresses of the cluster with this id: one TCP endpoint per node
    /// (three for a multi-zone cluster), a gRPC connection string that
    /// discovers the nodes when there are several, and the web UI.
    pub fn for_cluster(id: &str, topology: Topology) -> (r: ClusterAddresses)
        ensures
            (r.tcp@.map_values(|t: String| t@), r.grpc@, r.ui@) == addresses_of(id@, topology),
    {
        let ui = cluster_url("https://", id);
        let mut tcp: Vec<String> = Vec::new();
        let grpc;
        if topology == Topology::ThreeNodeMultiZone {
            tcp.push(node_address(id, "-0"));
            tcp.push(node_address(id, "-1"));
            tcp.push(node_address(id, "-2"));
            grpc = cluster_url("esdb+discover://", id);
        } else {
            tcp.push(node_address(id, ""));
            grpc = cluster_url("esdb://", id);
            proof {
                reveal_strlit("");
            }
            assert(id@ + ""@ =~= id@);
        }
        let r = ClusterAddresses { tcp, grpc, ui };
        assert(r.tcp@.map_values(|t: String| t@) =~= addresses_of(id@, topology).0);
        r
    }
}

} // verus!
