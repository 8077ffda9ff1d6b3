//! The fixed registry of relay networks, looked up by chain id.
use vstd::prelude::*;
use vstd::string::StringExecFns;

verus! {

/// Chain id of Ethereum mainnet.
pub const MAINNET_CHAIN_ID: u64 = 1;

/// Chain id of the Goerli test network.
pub const GOERLI_CHAIN_ID: u64 = 5;

/// Endpoints of one relay network.
pub struct MatchMakerNetwork {
    /// Chain id of the network.
    pub chain_id: u64,
    /// Lowercase name of the network, e.g. "mainnet".
    pub name: String,
    /// URL of the event stream.
    pub stream_url: String,
    /// URL of the bundle and transaction API.
    pub api_url: String,
}

/// The registered (name, api endpoint, stream endpoint) of a chain id, if it is supported.
pub open spec fn registered_network(chain_id: u64) -> Option<(Seq<char>, Seq<char>, Seq<char>)> {
    if chain_id == MAINNET_CHAIN_ID {
        Some(("mainnet"@, "https://relay.flashbots.net"@, "https://mev-share.flashbots.net"@))
    } else if chain_id == GOERLI_CHAIN_ID {
        Some((
            "goerli"@,
            "https://relay-goerli.flashbots.net"@,
            "https://mev-share-goerli.flashbots.net"@,
        ))
    } else {
        None
    }
}

/// `n` is the registered entry of its own chain id.
pub open spec fn is_registered(n: MatchMakerNetwork) -> bool {
    &&& registered_network(n.chain_id) is Some
    &&& n.name@ == registered_network(n.chain_id)->Some_0.0
    &&& n.api_url@ == registered_network(n.chain_id)->Some_0.1
    &&& n.stream_url@ == registered_network(n.chain_id)->Some_0.2
}

impl MatchMakerNetwork {
    /// A field-by-field copy.
    pub fn copy(&self) -> (r: MatchMakerNetwork)
        ensures
            r == *self,
    {
        MatchMakerNetwork {
            chain_id: self.chain_id,
            name: self.name.clone(),
            stream_url: self.stream_url.clone(),
            api_url: self.api_url.clone(),
        }
    }
}

/// Builds the registry entry of a supported chain id.
fn registered_entry(chain_id: u64) -> (r: MatchMakerNetwork)
    requires
        registered_network(chain_id) is Some,
    ensures
        r.chain_id == chain_id,
        is_registered(r),
{
    if chain_id == MAINNET_CHAIN_ID {
        MatchMakerNetwork {
            chain_id,
            name: String::from_str("mainnet"),
            stream_url: String::from_str("https://mev-share.flashbots.net"),
            api_url: String::from_str("https://relay.flashbots.net"),
        }
    } else {
        MatchMakerNetwork {
            chain_id,
            name: String::from_str("goerli"),
            stream_url: String::from_str("https://mev-share-goerli.flashbots.net"),
            api_url: String::from_str("https://relay-goerli.flashbots.net"),
        }
    }
}

/// The networks that the relay client can connect to.
pub struct SupportedNetworks {
    supported_networks: Vec<MatchMakerNetwork>,
}

impl SupportedNetworks {
    /// Every entry is the registered one for its chain id, and every supported chain has one.
    pub closed spec fn wf(&self) -> bool {
        &&& forall|i: int|
            0 <= i < self.supported_networks@.len() ==> is_registered(
                #[trigger] self.supported_networks@[i],
            )
        &&& forall|c: u64|
            registered_network(c) is Some ==> exists|i: int|
                0 <= i < self.supported_networks@.len() && (
                #[trigger] self.supported_networks@[i]).chain_id == c
    }

    /// The registry of all supported networks.
    pub fn new() -> (r: SupportedNetworks)
        ensures
            r.wf(),
    {
        let mut v: Vec<MatchMakerNetwork> = Vec::new();
        v.push(registered_entry(MAINNET_CHAIN_ID));
        v.push(registered_entry(GOERLI_CHAIN_ID));
        let r = SupportedNetworks { supported_networks: v };
        assert forall|c: u64| registered_network(c) is Some implies exists|i: int|
            0 <= i < r.supported_networks@.len() && (
            #[trigger] r.supported_networks@[i]).chain_id == c by {
            if c == MAINNET_CHAIN_ID {
                assert(r.supported_networks@[0].chain_id == c);
            } else {
                assert(r.supported_networks@[1].chain_id == c);
            }
        }
        r
    }

    /// Whether a network with this chain id is registered.
    pub fn is_supported(&self, chain_id: u64) -> (r: bool)
        requires
            self.wf(),
        ensures
            r == (registered_network(chain_id) is Some),
    {
        self.get_network(chain_id).is_some()
    }

    /// The registered network with this chain id, if any.
    pub fn get_network(&self, chain: u64) -> (r: Option<MatchMakerNetwork>)
        requires
            self.wf(),
        ensures
            r is None <==> registered_network(chain) is None,
            r is Some ==> r->Some_0.chain_id == chain && is_registered(r->Some_0),
    {
        let n = self.supported_networks.len();
        let mut i: usize = 0;
        while i < n
            invariant
                n == self.supported_networks@.len(),
                0 <= i <= n,
                self.wf(),
                forall|j: int| 0 <= j < i ==> (#[trigger] self.supported_networks@[j]).chain_id != chain,
            decreases n - i,
        {
            if self.supported_networks[i].chain_id == chain {
                return Some(self.supported_networks[i].copy());
            }
            i = i + 1;
        }
        proof {
            if registered_network(chain) is Some {
                let j = choose|j: int|
                    0 <= j < self.supported_networks@.len() && (
                    #[trigger] self.supported_networks@[j]).chain_id == chain;
            }
        }
        None
    }

    /// The mainnet entry.
    pub fn mainnet(&self) -> (r: Option<MatchMakerNetwork>)
        requires
            self.wf(),
        ensures
            r is Some,
            r->Some_0.chain_id == MAINNET_CHAIN_ID,
            is_registered(r->Some_0),
    {
        self.get_network(MAINNET_CHAIN_ID)
    }

    /// The Goerli entry.
    pub fn goerli(&self) -> (r: Option<MatchMakerNetwork>)
        requires
            self.wf(),
        ensures
            r is Some,
            r->Some_0.chain_id == GOERLI_CHAIN_ID,
            is_registered(r->Some_0),
    {
        self.get_network(GOERLI_CHAIN_ID)
    }
}

/// Why a client could not be configured.
#[derive(Debug, Clone, Copy, PartialEq, Eq, Structural)]
pub enum ConfigurationError {
    /// No network is registered for the chain id.
    UnsupportedChain(u64),
}

/// Selects the network of a chain id; fails, without any I/O, for an unsupported one.
pub fn network_for_chain(chain_id: u64) -> (r: Result<MatchMakerNetwork, ConfigurationError>)
    ensures
        r is Err <==> registered_network(chain_id) is None,
        r is Err ==> r->Err_0 == ConfigurationError::UnsupportedChain(chain_id),
        r is Ok ==> r->Ok_0.chain_id == chain_id && is_registered(r->Ok_0),
{
    let networks = SupportedNetworks::new();
    if !networks.is_supported(chain_id) {
        return Err(ConfigurationError::UnsupportedChain(chain_id));
    }
    match networks.get_network(chain_id) {
        Some(n) => Ok(n),
        None => Err(ConfigurationError::UnsupportedChain(chain_id)),
    }
}

/// Lookup is exact on the registry: chain ids 1 and 5 give their registered
/// endpoint pairs, and every other chain id is refused.
pub proof fn lemma_lookup_registered(chain_id: u64)
    ensures
        chain_id == 1 ==> registered_network(chain_id) == Some(
            ("mainnet"@, "https://relay.flashbots.net"@, "https://mev-share.flashbots.net"@),
        ),
        chain_id == 5 ==> registered_network(chain_id) == Some(
            (
                "goerli"@,
                "https://relay-goerli.flashbots.net"@,
                "https://mev-share-goerli.flashbots.net"@,
            ),
        ),
        chain_id != 1 && chain_id != 5 ==> registered_network(chain_id) is None,
{
}

} // verus!
