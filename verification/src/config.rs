use vstd::prelude::*;

verus! {

/// Connection settings for the local node query interface.
#[derive(Clone, Debug)]
pub struct CardanoConfig {
    pub cli_path: String,
    pub node_socket_path: String,
    pub network: String,
    pub testnet_magic: Option<u32>,
}

/// Identity of one configured stake pool, together with the key material and
/// addresses that belong to it.  Reports carry the identifier and display
/// name of the pool they describe.
#[derive(Clone, Debug)]
pub struct PoolConfig {
    pub pool_id: String,
    pub name: String,
    pub ticker: String,
    pub vrf_key_file: String,
    pub pledge_address: String,
    pub reward_address: String,
}

/// Settings for the command-line query interface of a local node.
#[derive(Clone, Debug)]
pub struct CardanoCli {
    pub cli_path: String,
    pub socket_path: String,
    pub network: String,
}

impl CardanoCli {
    pub fn new(cardano: &CardanoConfig) -> (r: Self)
        ensures
            r.cli_path == cardano.cli_path,
            r.socket_path == cardano.node_socket_path,
            r.network == cardano.network,
    {
        CardanoCli {
            cli_path: cardano.cli_path.clone(),
            socket_path: cardano.node_socket_path.clone(),
            network: cardano.network.clone(),
        }
    }
}

/// Handle on a locally running node, addressed by its socket path.
#[derive(Clone, Debug)]
pub struct CardanoNode {
    pub socket_path: String,
}

impl CardanoNode {
    pub fn new(socket_path: String) -> (r: Self)
        ensures
            r.socket_path == socket_path,
    {
        CardanoNode { socket_path }
    }
}

/// Settings of the metrics endpoint that exposes collected pool metrics.
#[derive(Clone, Copy, Debug, PartialEq, Eq, Structural)]
pub struct PrometheusExporter {
    pub port: u16,
}

impl PrometheusExporter {
    pub fn new(port: u16) -> (r: Self)
        ensures
            r.port == port,
    {
        PrometheusExporter { port }
    }
}

/// A well-formed pool identifier: 56 characters starting with `pool1`.
pub open spec fn spec_valid_pool_id(s: Seq<char>) -> bool {
    &&& s.len() == 56
    &&& s[0] == 'p'
    &&& s[1] == 'o'
    &&& s[2] == 'o'
    &&& s[3] == 'l'
    &&& s[4] == '1'
}

/// Accept exactly the pool identifiers that are 56 characters long and start
/// with the `pool1` prefix.
pub fn validate_pool_id(pool_id: &str) -> (r: bool)
    ensures
        r == spec_valid_pool_id(pool_id@),
{
    if pool_id.unicode_len() != 56 {
        return false;
    }
    pool_id.get_char(0) == 'p' && pool_id.get_char(1) == 'o' && pool_id.get_char(2) == 'o'
        && pool_id.get_char(3) == 'l' && pool_id.get_char(4) == '1'
}

/// A plausible API key for the hosted indexing service: longer than ten
/// characters and prefixed with the network name it was issued for.
pub open spec fn spec_valid_blockfrost_key(key: Seq<char>, network: Seq<char>) -> bool {
    &&& key.len() > 10
    &&& network.len() <= key.len()
    &&& key.subrange(0, network.len() as int) == network
}

/// Accept exactly the API keys that are longer than ten characters and start
/// with the given network name.
pub fn validate_blockfrost_key(key: &str, network: &str) -> (r: bool)
    ensures
        r == spec_valid_blockfrost_key(key@, network@),
{
    let key_len = key.unicode_len();
    let net_len = network.unicode_len();
    if key_len <= 10 || net_len > key_len {
        return false;
    }
    let mut i: usize = 0;
    while i < net_len
        invariant
            0 <= i <= net_len,
            net_len == network@.len(),
            key_len == key@.len(),
            net_len <= key_len,
            forall|j: int| 0 <= j < i ==> key@[j] == network@[j],
        decreases net_len - i,
    {
        if key.get_char(i) != network.get_char(i) {
            proof {
                assert(key@.subrange(0, network@.len() as int)[i as int] == key@[i as int]);
            }
            return false;
        }
        i = i + 1;
    }
    proof {
        assert(key@.subrange(0, network@.len() as int) =~= network@);
    }
    true
}

} // verus!
