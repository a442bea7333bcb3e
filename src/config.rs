//! Endpoint descriptions: the known networks, their connection settings and
//! the tunable configuration shared by every connection built from them.
use vstd::prelude::*;
use vstd::string::*;
use crate::gas::{coins_for, coins_for_spec, price_for_attempt, price_for_attempt_spec, saturating_double, Fixed};
use crate::text::str_equals;

verus! {

/// Address format (human readable prefix family) of a chain.
#[derive(Clone, Copy, Debug, PartialEq, Eq, Hash, Structural)]
pub enum AddressType {
    Juno,
    Osmo,
    Levana,
    Wasm,
    Sei,
    Stargaze,
}

/// The default multiplier applied to simulated gas: 1.3.
pub const DEFAULT_GAS_ESTIMATE_MULTIPLIER_NANOS: u64 = 1_300_000_000;

/// The default low gas price: 0.02.
pub const DEFAULT_GAS_PRICE_LOW_NANOS: u64 = 20_000_000;

/// The default high gas price: 0.03.
pub const DEFAULT_GAS_PRICE_HIGH_NANOS: u64 = 30_000_000;

/// The default number of price tiers tried below the high price.
pub const DEFAULT_GAS_PRICE_RETRY_ATTEMPTS: u64 = 3;

/// The default number of finality polls.
pub const DEFAULT_TRANSACTION_ATTEMPTS: usize = 30;

/// Optional config values.
#[derive(Clone, Debug)]
pub struct CosmosConfig {
    /// Alternate JSON-RPC endpoint to use instead of gRPC.
    pub rpc_url: Option<String>,
    /// Multiplier applied to the simulated gas estimate, to absorb drift.
    pub gas_estimate_multiplier: Fixed,
    /// Amount of gas coin to send per unit of gas, at the low end.
    pub gas_price_low: Fixed,
    /// Amount of gas coin to send per unit of gas, at the high end.
    pub gas_price_high: Fixed,
    /// How many tiers below the high price are tried before it. With 0 the
    /// high price is used at once; with 1 low and then high; with 2 low,
    /// midpoint and high; and so on.
    pub gas_price_retry_attempts: u64,
    /// How many times the node is polled for a transaction before giving up.
    pub transaction_attempts: usize,
    /// Referer header sent with every request, if any.
    pub referer_header: Option<String>,
}

impl CosmosConfig {
    /// The configuration that every field's default gives.
    pub open spec fn is_default(self) -> bool {
        &&& self.rpc_url is None
        &&& self.referer_header is None
        &&& self.gas_estimate_multiplier.nanos == DEFAULT_GAS_ESTIMATE_MULTIPLIER_NANOS
        &&& self.gas_price_low.nanos == DEFAULT_GAS_PRICE_LOW_NANOS
        &&& self.gas_price_high.nanos == DEFAULT_GAS_PRICE_HIGH_NANOS
        &&& self.gas_price_retry_attempts == DEFAULT_GAS_PRICE_RETRY_ATTEMPTS
        &&& self.transaction_attempts == DEFAULT_TRANSACTION_ATTEMPTS
    }

    /// The price offered on retry tier `attempt_number` (counted from zero).
    pub open spec fn price_spec(self, attempt_number: nat) -> nat {
        price_for_attempt_spec(
            attempt_number,
            self.gas_price_low.nanos as nat,
            self.gas_price_high.nanos as nat,
            self.gas_price_retry_attempts as nat,
        )
    }

    /// Coins offered for `gas` units on retry tier `attempt_number`.
    pub open spec fn gas_to_coins_spec(self, gas: nat, attempt_number: nat) -> nat {
        coins_for_spec(gas, self.price_spec(attempt_number))
    }

    /// Coins offered for `gas` units on retry tier `attempt_number` (counted
    /// from zero): the tier's price times `gas`, truncated.
    pub fn gas_to_coins(&self, gas: u64, attempt_number: u64) -> (r: u64)
        ensures
            r == self.gas_to_coins_spec(gas as nat, attempt_number as nat),
    {
        let price = price_for_attempt(
            attempt_number,
            self.gas_price_low,
            self.gas_price_high,
            self.gas_price_retry_attempts,
        );
        coins_for(gas, price)
    }

    /// The gas limit requested after a simulation that used `gas_used`.
    pub fn padded_gas(&self, gas_used: u64) -> (r: u64)
        ensures
            r == coins_for_spec(gas_used as nat, self.gas_estimate_multiplier.nanos as nat),
    {
        coins_for(gas_used, self.gas_estimate_multiplier)
    }
}

impl Default for CosmosConfig {
    fn default() -> (r: Self)
        ensures
            r.is_default(),
    {
        CosmosConfig {
            rpc_url: None,
            gas_estimate_multiplier: Fixed::from_nanos(DEFAULT_GAS_ESTIMATE_MULTIPLIER_NANOS),
            gas_price_low: Fixed::from_nanos(DEFAULT_GAS_PRICE_LOW_NANOS),
            gas_price_high: Fixed::from_nanos(DEFAULT_GAS_PRICE_HIGH_NANOS),
            gas_price_retry_attempts: DEFAULT_GAS_PRICE_RETRY_ATTEMPTS,
            transaction_attempts: DEFAULT_TRANSACTION_ATTEMPTS,
            referer_header: None,
        }
    }
}

/// The known networks.
#[derive(Clone, Copy, Debug, Hash, PartialEq, Eq, Structural)]
pub enum CosmosNetwork {
    JunoTestnet,
    JunoMainnet,
    JunoLocal,
    OsmosisMainnet,
    OsmosisTestnet,
    OsmosisLocal,
    Dragonfire,
    WasmdLocal,
    SeiMainnet,
    SeiTestnet,
    StargazeTestnet,
    StargazeMainnet,
}

/// The name by which a network is written.
pub open spec fn network_name(n: CosmosNetwork) -> Seq<char> {
    match n {
        CosmosNetwork::JunoTestnet => "juno-testnet"@,
        CosmosNetwork::JunoMainnet => "juno-mainnet"@,
        CosmosNetwork::JunoLocal => "juno-local"@,
        CosmosNetwork::OsmosisMainnet => "osmosis-mainnet"@,
        CosmosNetwork::OsmosisTestnet => "osmosis-testnet"@,
        CosmosNetwork::OsmosisLocal => "osmosis-local"@,
        CosmosNetwork::Dragonfire => "dragonfire"@,
        CosmosNetwork::WasmdLocal => "wasmd-local"@,
        CosmosNetwork::SeiMainnet => "sei-mainnet"@,
        CosmosNetwork::SeiTestnet => "sei-testnet"@,
        CosmosNetwork::StargazeTestnet => "stargaze-testnet"@,
        CosmosNetwork::StargazeMainnet => "stargaze-mainnet"@,
    }
}

/// A network name that no known network has.
#[derive(Clone, Debug)]
pub struct UnknownNetwork {
    pub name: String,
}

impl UnknownNetwork {
    /// The message that describes this error.
    pub fn message(&self) -> (r: String)
        ensures
            r@ == "Unknown network: "@ + self.name@,
    {
        String::from_str("Unknown network: ").concat(self.name.as_str())
    }
}

impl CosmosNetwork {
    /// The name by which this network is written.
    pub fn as_str(self) -> (r: &'static str)
        ensures
            r@ == network_name(self),
    {
        match self {
            CosmosNetwork::JunoTestnet => "juno-testnet",
            CosmosNetwork::JunoMainnet => "juno-mainnet",
            CosmosNetwork::JunoLocal => "juno-local",
            CosmosNetwork::OsmosisMainnet => "osmosis-mainnet",
            CosmosNetwork::OsmosisTestnet => "osmosis-testnet",
            CosmosNetwork::OsmosisLocal => "osmosis-local",
            CosmosNetwork::Dragonfire => "dragonfire",
            CosmosNetwork::WasmdLocal => "wasmd-local",
            CosmosNetwork::SeiMainnet => "sei-mainnet",
            CosmosNetwork::SeiTestnet => "sei-testnet",
            CosmosNetwork::StargazeTestnet => "stargaze-testnet",
            CosmosNetwork::StargazeMainnet => "stargaze-mainnet",
        }
    }

    /// The network written `s`, or an error naming `s`.
    pub fn from_name(s: &str) -> (r: Result<CosmosNetwork, UnknownNetwork>)
        ensures
            r matches Ok(n) ==> network_name(n) == s@,
            r is Err <==> forall|n: CosmosNetwork| network_name(n) != s@,
            r matches Err(e) ==> e.name@ == s@,
    {
        let all = [
            CosmosNetwork::JunoTestnet,
            CosmosNetwork::JunoMainnet,
            CosmosNetwork::JunoLocal,
            CosmosNetwork::OsmosisMainnet,
            CosmosNetwork::OsmosisTestnet,
            CosmosNetwork::OsmosisLocal,
            CosmosNetwork::Dragonfire,
            CosmosNetwork::WasmdLocal,
            CosmosNetwork::SeiMainnet,
            CosmosNetwork::SeiTestnet,
            CosmosNetwork::StargazeTestnet,
            CosmosNetwork::StargazeMainnet,
        ];
        let mut i: usize = 0;
        while i < 12
            invariant
                all@.len() == 12,
                all@ == seq![
                    CosmosNetwork::JunoTestnet,
                    CosmosNetwork::JunoMainnet,
                    CosmosNetwork::JunoLocal,
                    CosmosNetwork::OsmosisMainnet,
                    CosmosNetwork::OsmosisTestnet,
                    CosmosNetwork::OsmosisLocal,
                    CosmosNetwork::Dragonfire,
                    CosmosNetwork::WasmdLocal,
                    CosmosNetwork::SeiMainnet,
                    CosmosNetwork::SeiTestnet,
                    CosmosNetwork::StargazeTestnet,
                    CosmosNetwork::StargazeMainnet,
                ],
                i <= 12,
                forall|j: int| 0 <= j < i ==> network_name(#[trigger] all@[j]) != s@,
            decreases 12 - i,
        {
            let n = all[i];
            if str_equals(n.as_str(), s) {
                return Ok(n);
            }
            i = i + 1;
        }
        assert forall|n: CosmosNetwork| network_name(n) != s@ by {
            match n {
                CosmosNetwork::JunoTestnet => assert(all@[0] == n),
                CosmosNetwork::JunoMainnet => assert(all@[1] == n),
                CosmosNetwork::JunoLocal => assert(all@[2] == n),
                CosmosNetwork::OsmosisMainnet => assert(all@[3] == n),
                CosmosNetwork::OsmosisTestnet => assert(all@[4] == n),
                CosmosNetwork::OsmosisLocal => assert(all@[5] == n),
                CosmosNetwork::Dragonfire => assert(all@[6] == n),
                CosmosNetwork::WasmdLocal => assert(all@[7] == n),
                CosmosNetwork::SeiMainnet => assert(all@[8] == n),
                CosmosNetwork::SeiTestnet => assert(all@[9] == n),
                CosmosNetwork::StargazeTestnet => assert(all@[10] == n),
                CosmosNetwork::StargazeMainnet => assert(all@[11] == n),
            }
        }
        Err(UnknownNetwork { name: s.to_owned() })
    }
}

impl core::str::FromStr for CosmosNetwork {
    type Err = UnknownNetwork;

    fn from_str(s: &str) -> Result<CosmosNetwork, UnknownNetwork> {
        CosmosNetwork::from_name(s)
    }
}

} // verus!

verus! {

/// The gRPC endpoint registered for a network.
pub open spec fn grpc_url_of(n: CosmosNetwork) -> Seq<char> {
    match n {
        CosmosNetwork::JunoTestnet => "http://juno-testnet-grpc.polkachu.com:12690"@,
        CosmosNetwork::JunoMainnet => "http://juno-grpc.polkachu.com:12690"@,
        CosmosNetwork::JunoLocal => "http://localhost:9090"@,
        CosmosNetwork::OsmosisMainnet => "http://grpc.osmosis.zone:9090"@,
        CosmosNetwork::OsmosisTestnet => "https://grpc.osmotest5.osmosis.zone"@,
        CosmosNetwork::OsmosisLocal => "http://localhost:9090"@,
        CosmosNetwork::Dragonfire => "https://grpc-v4-udb8dydv.dragonfire.sandbox.levana.finance:443"@,
        CosmosNetwork::WasmdLocal => "http://localhost:9090"@,
        CosmosNetwork::SeiMainnet => "https://not-yet-launched/"@,
        CosmosNetwork::SeiTestnet => "https://sei-grpc.kingnodes.com"@,
        CosmosNetwork::StargazeTestnet => "http://grpc-1.elgafar-1.stargaze-apis.com:26660"@,
        CosmosNetwork::StargazeMainnet => "http://stargaze-grpc.polkachu.com:13790"@,
    }
}

/// The chain identifier registered for a network.
pub open spec fn chain_id_of(n: CosmosNetwork) -> Seq<char> {
    match n {
        CosmosNetwork::JunoTestnet => "uni-6"@,
        CosmosNetwork::JunoMainnet => "juno-1"@,
        CosmosNetwork::JunoLocal => "testing"@,
        CosmosNetwork::OsmosisMainnet => "osmosis-1"@,
        CosmosNetwork::OsmosisTestnet => "osmo-test-5"@,
        CosmosNetwork::OsmosisLocal => "localosmosis"@,
        CosmosNetwork::Dragonfire => "dragonfire-4"@,
        CosmosNetwork::WasmdLocal => "localwasmd"@,
        CosmosNetwork::SeiMainnet => "not-yet-launched"@,
        CosmosNetwork::SeiTestnet => "atlantic-2"@,
        CosmosNetwork::StargazeTestnet => "elgafar-1"@,
        CosmosNetwork::StargazeMainnet => "stargaze-1"@,
    }
}

/// The fee coin denomination registered for a network.
pub open spec fn gas_coin_of(n: CosmosNetwork) -> Seq<char> {
    match n {
        CosmosNetwork::JunoTestnet => "ujunox"@,
        CosmosNetwork::JunoMainnet => "ujuno"@,
        CosmosNetwork::JunoLocal => "ujunox"@,
        CosmosNetwork::OsmosisMainnet => "uosmo"@,
        CosmosNetwork::OsmosisTestnet => "uosmo"@,
        CosmosNetwork::OsmosisLocal => "uosmo"@,
        CosmosNetwork::Dragonfire => "udragonfire"@,
        CosmosNetwork::WasmdLocal => "uwasm"@,
        CosmosNetwork::SeiMainnet => "usei"@,
        CosmosNetwork::SeiTestnet => "usei"@,
        CosmosNetwork::StargazeTestnet => "ustars"@,
        CosmosNetwork::StargazeMainnet => "ustars"@,
    }
}

/// The address format of a network.
pub open spec fn address_type_of(n: CosmosNetwork) -> AddressType {
    match n {
        CosmosNetwork::JunoTestnet | CosmosNetwork::JunoMainnet | CosmosNetwork::JunoLocal => AddressType::Juno,
        CosmosNetwork::OsmosisMainnet | CosmosNetwork::OsmosisTestnet | CosmosNetwork::OsmosisLocal => AddressType::Osmo,
        CosmosNetwork::Dragonfire => AddressType::Levana,
        CosmosNetwork::WasmdLocal => AddressType::Wasm,
        CosmosNetwork::SeiMainnet | CosmosNetwork::SeiTestnet => AddressType::Sei,
        CosmosNetwork::StargazeTestnet | CosmosNetwork::StargazeMainnet => AddressType::Stargaze,
    }
}

/// The low gas price of Sei mainnet: 0.012.
pub const SEI_GAS_PRICE_LOW_NANOS: u64 = 12_000_000;

/// The number of price tiers below the high price used on Sei.
pub const SEI_GAS_PRICE_RETRY_ATTEMPTS: u64 = 6;

/// The number of finality polls on a local Juno chain, which fails faster.
pub const JUNO_LOCAL_TRANSACTION_ATTEMPTS: usize = 3;

/// Build a connection
#[derive(Clone)]
pub struct CosmosBuilder {
    pub grpc_url: String,
    pub chain_id: String,
    pub gas_coin: String,
    pub address_type: AddressType,
    pub config: CosmosConfig,
}

impl CosmosBuilder {
    /// The endpoint, chain, coin and address format registered for `n`.
    pub open spec fn names_network(self, n: CosmosNetwork) -> bool {
        &&& self.grpc_url@ == grpc_url_of(n)
        &&& self.chain_id@ == chain_id_of(n)
        &&& self.gas_coin@ == gas_coin_of(n)
        &&& self.address_type == address_type_of(n)
    }

    /// The builder registered for `n`, whose gas prices are known without
    /// asking a remote registry: defaults, but for a local Juno chain's
    /// shorter finality poll and Sei mainnet's lower low price and longer
    /// price ladder.
    pub open spec fn is_registered(self, n: CosmosNetwork) -> bool {
        &&& self.names_network(n)
        &&& self.config.rpc_url is None
        &&& self.config.referer_header is None
        &&& self.config.gas_estimate_multiplier.nanos == DEFAULT_GAS_ESTIMATE_MULTIPLIER_NANOS
        &&& self.config.gas_price_high.nanos == DEFAULT_GAS_PRICE_HIGH_NANOS
        &&& self.config.gas_price_low.nanos == (if n == CosmosNetwork::SeiMainnet {
            SEI_GAS_PRICE_LOW_NANOS
        } else {
            DEFAULT_GAS_PRICE_LOW_NANOS
        })
        &&& self.config.gas_price_retry_attempts == (if n == CosmosNetwork::SeiMainnet {
            SEI_GAS_PRICE_RETRY_ATTEMPTS
        } else {
            DEFAULT_GAS_PRICE_RETRY_ATTEMPTS
        })
        &&& self.config.transaction_attempts == (if n == CosmosNetwork::JunoLocal {
            JUNO_LOCAL_TRANSACTION_ATTEMPTS
        } else {
            DEFAULT_TRANSACTION_ATTEMPTS
        })
    }

    /// Sets the referer header sent with every request.
    pub fn set_referer_header(&mut self, value: String)
        ensures
            final(self).config.referer_header == Some(value),
            final(self).grpc_url == old(self).grpc_url,
            final(self).chain_id == old(self).chain_id,
            final(self).gas_coin == old(self).gas_coin,
            final(self).address_type == old(self).address_type,
            final(self).config.rpc_url == old(self).config.rpc_url,
            final(self).config.gas_estimate_multiplier == old(self).config.gas_estimate_multiplier,
            final(self).config.gas_price_low == old(self).config.gas_price_low,
            final(self).config.gas_price_high == old(self).config.gas_price_high,
            final(self).config.gas_price_retry_attempts == old(self).config.gas_price_retry_attempts,
            final(self).config.transaction_attempts == old(self).config.transaction_attempts,
    {
        self.config.referer_header = Some(value);
    }

    fn with_defaults(grpc_url: &str, chain_id: &str, gas_coin: &str, address_type: AddressType) -> (r: CosmosBuilder)
        ensures
            r.grpc_url@ == grpc_url@,
            r.chain_id@ == chain_id@,
            r.gas_coin@ == gas_coin@,
            r.address_type == address_type,
            r.config.is_default(),
    {
        CosmosBuilder {
            grpc_url: String::from_str(grpc_url),
            chain_id: String::from_str(chain_id),
            gas_coin: String::from_str(gas_coin),
            address_type,
            config: CosmosConfig::default(),
        }
    }

    pub fn new_juno_testnet() -> (r: CosmosBuilder)
        ensures
            r.is_registered(CosmosNetwork::JunoTestnet),
    {
        Self::with_defaults("http://juno-testnet-grpc.polkachu.com:12690", "uni-6", "ujunox", AddressType::Juno)
    }

    pub fn new_juno_local() -> (r: CosmosBuilder)
        ensures
            r.is_registered(CosmosNetwork::JunoLocal),
    {
        let mut b = Self::with_defaults("http://localhost:9090", "testing", "ujunox", AddressType::Juno);
        b.config.transaction_attempts = JUNO_LOCAL_TRANSACTION_ATTEMPTS;
        b
    }

    pub fn new_juno_mainnet() -> (r: CosmosBuilder)
        ensures
            r.is_registered(CosmosNetwork::JunoMainnet),
    {
        Self::with_defaults("http://juno-grpc.polkachu.com:12690", "juno-1", "ujuno", AddressType::Juno)
    }

    pub fn new_osmosis_mainnet() -> (r: CosmosBuilder)
        ensures
            r.is_registered(CosmosNetwork::OsmosisMainnet),
    {
        Self::with_defaults("http://grpc.osmosis.zone:9090", "osmosis-1", "uosmo", AddressType::Osmo)
    }

    pub fn new_osmosis_testnet() -> (r: CosmosBuilder)
        ensures
            r.is_registered(CosmosNetwork::OsmosisTestnet),
    {
        Self::with_defaults("https://grpc.osmotest5.osmosis.zone", "osmo-test-5", "uosmo", AddressType::Osmo)
    }

    pub fn new_osmosis_local() -> (r: CosmosBuilder)
        ensures
            r.is_registered(CosmosNetwork::OsmosisLocal),
    {
        Self::with_defaults("http://localhost:9090", "localosmosis", "uosmo", AddressType::Osmo)
    }

    pub fn new_dragonfire() -> (r: CosmosBuilder)
        ensures
            r.is_registered(CosmosNetwork::Dragonfire),
    {
        Self::with_defaults(
            "https://grpc-v4-udb8dydv.dragonfire.sandbox.levana.finance:443",
            "dragonfire-4",
            "udragonfire",
            AddressType::Levana,
        )
    }

    pub fn new_wasmd_local() -> (r: CosmosBuilder)
        ensures
            r.is_registered(CosmosNetwork::WasmdLocal),
    {
        Self::with_defaults("http://localhost:9090", "localwasmd", "uwasm", AddressType::Wasm)
    }

    pub fn new_sei_mainnet() -> (r: CosmosBuilder)
        ensures
            r.is_registered(CosmosNetwork::SeiMainnet),
    {
        let mut b = Self::with_defaults("https://not-yet-launched/", "not-yet-launched", "usei", AddressType::Sei);
        b.config.gas_price_low = Fixed::from_nanos(SEI_GAS_PRICE_LOW_NANOS);
        b.config.gas_price_retry_attempts = SEI_GAS_PRICE_RETRY_ATTEMPTS;
        b
    }

    /// The Sei testnet builder, given the minimum gas price that its public
    /// gas registry publishes: prices run from that minimum to twice it.
    pub fn new_sei_testnet(min_gas_price: Fixed) -> (r: CosmosBuilder)
        ensures
            r.names_network(CosmosNetwork::SeiTestnet),
            r.config.rpc_url is None,
            r.config.referer_header is None,
            r.config.gas_estimate_multiplier.nanos == DEFAULT_GAS_ESTIMATE_MULTIPLIER_NANOS,
            r.config.gas_price_low == min_gas_price,
            r.config.gas_price_high.nanos == saturating_double(min_gas_price.nanos),
            r.config.gas_price_retry_attempts == SEI_GAS_PRICE_RETRY_ATTEMPTS,
            r.config.transaction_attempts == DEFAULT_TRANSACTION_ATTEMPTS,
    {
        let mut b = Self::with_defaults("https://sei-grpc.kingnodes.com", "atlantic-2", "usei", AddressType::Sei);
        b.config.gas_price_low = min_gas_price;
        b.config.gas_price_high = min_gas_price.doubled();
        b.config.gas_price_retry_attempts = SEI_GAS_PRICE_RETRY_ATTEMPTS;
        b
    }

    pub fn new_stargaze_testnet() -> (r: CosmosBuilder)
        ensures
            r.is_registered(CosmosNetwork::StargazeTestnet),
    {
        Self::with_defaults("http://grpc-1.elgafar-1.stargaze-apis.com:26660", "elgafar-1", "ustars", AddressType::Stargaze)
    }

    pub fn new_stargaze_mainnet() -> (r: CosmosBuilder)
        ensures
            r.is_registered(CosmosNetwork::StargazeMainnet),
    {
        Self::with_defaults("http://stargaze-grpc.polkachu.com:13790", "stargaze-1", "ustars", AddressType::Stargaze)
    }
}

impl CosmosNetwork {
    /// The registered builder of this network. Sei testnet has none here:
    /// its gas prices come from a remote registry, and its builder is made
    /// with `CosmosBuilder::new_sei_testnet` once that price is known.
    pub fn builder(self) -> (r: Option<CosmosBuilder>)
        ensures
            r is None <==> self == CosmosNetwork::SeiTestnet,
            r matches Some(b) ==> b.is_registered(self),
    {
        match self {
            CosmosNetwork::JunoTestnet => Some(CosmosBuilder::new_juno_testnet()),
            CosmosNetwork::JunoMainnet => Some(CosmosBuilder::new_juno_mainnet()),
            CosmosNetwork::JunoLocal => Some(CosmosBuilder::new_juno_local()),
            CosmosNetwork::OsmosisMainnet => Some(CosmosBuilder::new_osmosis_mainnet()),
            CosmosNetwork::OsmosisTestnet => Some(CosmosBuilder::new_osmosis_testnet()),
            CosmosNetwork::OsmosisLocal => Some(CosmosBuilder::new_osmosis_local()),
            CosmosNetwork::Dragonfire => Some(CosmosBuilder::new_dragonfire()),
            CosmosNetwork::WasmdLocal => Some(CosmosBuilder::new_wasmd_local()),
            CosmosNetwork::SeiMainnet => Some(CosmosBuilder::new_sei_mainnet()),
            CosmosNetwork::SeiTestnet => None,
            CosmosNetwork::StargazeTestnet => Some(CosmosBuilder::new_stargaze_testnet()),
            CosmosNetwork::StargazeMainnet => Some(CosmosBuilder::new_stargaze_mainnet()),
        }
    }
}

/// Adds the configured referer header to every outgoing request.
pub struct CosmosInterceptor(pub Option<String>);

impl CosmosInterceptor {
    /// The header value to send, if one is configured.
    pub fn header(&self) -> (r: Option<&String>)
        ensures
            r matches Some(h) <==> self.0 matches Some(v),
            r matches Some(h) ==> self.0 == Some(*h),
    {
        self.0.as_ref()
    }
}

} // verus!

verus! {

impl CosmosBuilder {
    /// Applies the overrides given on the command line: each one given
    /// replaces its setting, and the others stay.
    pub fn apply_overrides(
        &mut self,
        grpc_url: Option<String>,
        chain_id: Option<String>,
        gas_multiplier: Option<Fixed>,
        referer_header: Option<String>,
    )
        ensures
            final(self).grpc_url == (match grpc_url {
                Some(g) => g,
                None => old(self).grpc_url,
            }),
            final(self).chain_id == (match chain_id {
                Some(c) => c,
                None => old(self).chain_id,
            }),
            final(self).config.gas_estimate_multiplier == (match gas_multiplier {
                Some(m) => m,
                None => old(self).config.gas_estimate_multiplier,
            }),
            final(self).config.referer_header == (match referer_header {
                Some(h) => Some(h),
                None => old(self).config.referer_header,
            }),
            final(self).gas_coin == old(self).gas_coin,
            final(self).address_type == old(self).address_type,
            final(self).config.rpc_url == old(self).config.rpc_url,
            final(self).config.gas_price_low == old(self).config.gas_price_low,
            final(self).config.gas_price_high == old(self).config.gas_price_high,
            final(self).config.gas_price_retry_attempts == old(self).config.gas_price_retry_attempts,
            final(self).config.transaction_attempts == old(self).config.transaction_attempts,
    {
        if let Some(g) = grpc_url {
            self.grpc_url = g;
        }
        if let Some(c) = chain_id {
            self.chain_id = c;
        }
        if let Some(m) = gas_multiplier {
            self.config.gas_estimate_multiplier = m;
        }
        if let Some(h) = referer_header {
            self.set_referer_header(h);
        }
    }

    /// Whether the endpoint is reached over TLS: its URL starts "https://".
    pub fn uses_tls(&self) -> (r: bool)
        ensures
            r == crate::text::occurs_at(self.grpc_url@, "https://"@, 0),
    {
        let s = crate::text::chars_of(self.grpc_url.as_str());
        let p = crate::text::chars_of("https://");
        crate::text::matches_at(&s, &p, 0)
    }
}

} // verus!
