//! On-chain configuration values: the reserved configuration address, config
//! identifiers, the per-epoch payload of raw config bytes, and the
//! reconfiguration resource.

use vstd::prelude::*;
use vstd::string::*;
use crate::ext::{push_char, str_eq};
use crate::strutil::{push_u64_dec, spec_u64_dec};

verus! {

/// The reserved address that holds every on-chain config.
pub const CONFIG_ADDRESS_STR: &'static str = "0xA550C18";

/// A 32-byte account address.
#[derive(Debug)]
pub struct AccountAddress {
    pub bytes: Vec<u8>,
}

impl AccountAddress {
    /// An address is exactly 32 bytes.
    pub open spec fn wf(self) -> bool {
        self.bytes@.len() == 32
    }
}

/// The bytes of the reserved configuration address `0xA550C18`,
/// left-padded to 32 bytes.
pub open spec fn spec_config_address_bytes() -> Seq<u8> {
    Seq::new(
        32,
        |i: int|
            if i == 28 {
                0x0au8
            } else if i == 29 {
                0x55u8
            } else if i == 30 {
                0x0cu8
            } else if i == 31 {
                0x18u8
            } else {
                0u8
            },
    )
}

/// The reserved configuration address.
pub fn config_address() -> (r: AccountAddress)
    ensures
        r.wf(),
        r.bytes@ == spec_config_address_bytes(),
{
    let mut bytes: Vec<u8> = Vec::new();
    let mut i: usize = 0;
    while i < 28
        invariant
            i <= 28,
            bytes@.len() == i,
            forall|j: int| 0 <= j < i ==> bytes@[j] == 0u8,
        decreases 28 - i,
    {
        bytes.push(0u8);
        i = i + 1;
    }
    bytes.push(0x0au8);
    bytes.push(0x55u8);
    bytes.push(0x0cu8);
    bytes.push(0x18u8);
    let r = AccountAddress { bytes };
    proof {
        assert(r.bytes@ =~= spec_config_address_bytes());
    }
    r
}

/// Identifies one registered on-chain config: address text, module
/// identifier and type name.
#[derive(Copy, Clone, Debug)]
pub struct ConfigID(pub &'static str, pub &'static str, pub &'static str);

impl ConfigID {
    /// The config's type name.
    pub fn name(&self) -> (r: String)
        ensures
            r@ == self.2@,
    {
        self.2.to_owned()
    }

    /// Renders the identifier for diagnostics.
    pub fn display_string(&self) -> (r: String)
        ensures
            r@ == spec_config_id_display(*self),
    {
        let mut out = "OnChain config ID [address: ".to_owned();
        out.append(self.0);
        out.append(", identifier: ");
        out.append(self.1);
        push_char(&mut out, ']');
        proof {
            assert(out@ =~= spec_config_id_display(*self));
        }
        out
    }
}

/// The diagnostic rendering of a `ConfigID`.
pub open spec fn spec_config_id_display(id: ConfigID) -> Seq<char> {
    "OnChain config ID [address: "@ + id.0@ + ", identifier: "@ + id.1@ + seq![']']
}

/// The identifying texts of a `ConfigID`.
pub open spec fn config_id_view(id: ConfigID) -> (Seq<char>, Seq<char>, Seq<char>) {
    (id.0@, id.1@, id.2@)
}

/// The first value stored under `id`, if any.
pub open spec fn spec_find_config(
    configs: Seq<(ConfigID, Vec<u8>)>,
    id: (Seq<char>, Seq<char>, Seq<char>),
) -> Option<Seq<u8>>
    decreases configs.len(),
{
    if configs.len() == 0 {
        None
    } else if config_id_view(configs[0].0) == id {
        Some(configs[0].1@)
    } else {
        spec_find_config(configs.skip(1), id)
    }
}

/// The on-chain configs of one epoch, as raw bytes per config identifier.
#[derive(Debug)]
pub struct OnChainConfigPayload {
    pub epoch: u64,
    pub configs: Vec<(ConfigID, Vec<u8>)>,
}

impl OnChainConfigPayload {
    pub fn new(epoch: u64, configs: Vec<(ConfigID, Vec<u8>)>) -> (r: OnChainConfigPayload)
        ensures
            r.epoch == epoch,
            r.configs == configs,
    {
        OnChainConfigPayload { epoch, configs }
    }

    pub fn epoch(&self) -> (r: u64)
        ensures
            r == self.epoch,
    {
        self.epoch
    }

    pub fn configs(&self) -> (r: &Vec<(ConfigID, Vec<u8>)>)
        ensures
            r == self.configs,
    {
        &self.configs
    }

    /// The raw bytes stored for `id`, if the payload carries that config;
    /// decoding them into a typed config is its caller's business.
    pub fn config_bytes(&self, id: &ConfigID) -> (r: Option<&Vec<u8>>)
        ensures
            (r is Some) == (spec_find_config(self.configs@, config_id_view(*id)) is Some),
            r matches Some(b) ==> Some(b@) == spec_find_config(self.configs@, config_id_view(*id)),
    {
        let n = self.configs.len();
        let mut i: usize = 0;
        proof {
            assert(self.configs@.skip(0) =~= self.configs@);
        }
        while i < n
            invariant
                i <= n,
                n == self.configs@.len(),
                spec_find_config(self.configs@, config_id_view(*id)) == spec_find_config(
                    self.configs@.skip(i as int),
                    config_id_view(*id),
                ),
            decreases n - i,
        {
            let c = &self.configs[i];
            proof {
                assert(self.configs@.skip(i as int)[0] == self.configs@[i as int]);
                assert(self.configs@.skip(i as int).skip(1) =~= self.configs@.skip(i as int + 1));
            }
            if str_eq(c.0.0, id.0) && str_eq(c.0.1, id.1) && str_eq(c.0.2, id.2) {
                return Some(&self.configs[i].1);
            }
            i = i + 1;
        }
        proof {
            assert(self.configs@.skip(n as int).len() == 0);
        }
        None
    }

    /// Renders the payload for diagnostics.
    pub fn display_string(&self) -> (r: String)
        ensures
            r@ == spec_payload_display(*self),
    {
        let mut out = "OnChainConfigPayload [epoch: ".to_owned();
        push_u64_dec(&mut out, self.epoch);
        out.append(", configs: ");
        let ghost base = out@;
        let n = self.configs.len();
        let mut i: usize = 0;
        while i < n
            invariant
                i <= n,
                n == self.configs@.len(),
                out@ == base + spec_ids_concat(self.configs@, i as int),
            decreases n - i,
        {
            let id_text = self.configs[i].0.display_string();
            out.append(id_text.as_str());
            proof {
                assert(out@ =~= base + spec_ids_concat(self.configs@, i as int + 1));
            }
            i = i + 1;
        }
        push_char(&mut out, ']');
        proof {
            assert(out@ =~= spec_payload_display(*self));
        }
        out
    }
}

/// The concatenated diagnostic renderings of the first `i` config
/// identifiers of a payload.
pub open spec fn spec_ids_concat(configs: Seq<(ConfigID, Vec<u8>)>, i: int) -> Seq<char>
    decreases i,
{
    if i <= 0 || i > configs.len() {
        Seq::empty()
    } else {
        spec_ids_concat(configs, i - 1) + spec_config_id_display(configs[i - 1].0)
    }
}

/// The diagnostic rendering of a payload: its epoch and its config
/// identifiers.
pub open spec fn spec_payload_display(p: OnChainConfigPayload) -> Seq<char> {
    "OnChainConfigPayload [epoch: "@ + spec_u64_dec(p.epoch as int) + ", configs: "@
        + spec_ids_concat(p.configs@, p.configs@.len() as int) + seq![']']
}

/// A key identifying one event stream: a creation salt and the address that
/// owns the stream.
#[derive(Debug)]
pub struct EventKey {
    pub salt: u64,
    pub address: AccountAddress,
}

impl EventKey {
    pub fn new_from_address(address: &AccountAddress, salt: u64) -> (r: EventKey)
        ensures
            r.salt == salt,
            r.address.bytes@ == address.bytes@,
    {
        EventKey { salt, address: AccountAddress { bytes: address.bytes.clone() } }
    }
}

/// The key under which every epoch-change event is emitted.
pub fn new_epoch_event_key() -> (r: EventKey)
    ensures
        r.salt == 5,
        r.address.bytes@ == spec_config_address_bytes(),
{
    EventKey::new_from_address(&config_address(), 5)
}

/// A handle to one event stream: how many events it has emitted, and its key.
#[derive(Debug)]
pub struct EventHandle {
    pub count: u64,
    pub key: EventKey,
}

/// Storage from which on-chain configs are read, by the raw path the
/// caller addresses them with.
pub trait ConfigStorage {
    fn fetch_config(&self, address: AccountAddress, path: Vec<u8>) -> Option<Vec<u8>>;
}

/// The on-chain reconfiguration resource: the current epoch, the time of the
/// last reconfiguration, and the epoch-change event stream.
#[derive(Debug)]
pub struct ConfigurationResource {
    pub epoch: u64,
    pub last_reconfiguration_time: u64,
    pub events: EventHandle,
}

impl ConfigurationResource {
    pub fn epoch(&self) -> (r: u64)
        ensures
            r == self.epoch,
    {
        self.epoch
    }

    pub fn last_reconfiguration_time(&self) -> (r: u64)
        ensures
            r == self.last_reconfiguration_time,
    {
        self.last_reconfiguration_time
    }

    pub fn events(&self) -> (r: &EventHandle)
        ensures
            r == self.events,
    {
        &self.events
    }

    /// A copy one epoch later: epoch, reconfiguration time and event count
    /// each one higher, the event key unchanged.
    pub fn bump_epoch_for_test(&self) -> (r: ConfigurationResource)
        requires
            self.epoch < u64::MAX,
            self.last_reconfiguration_time < u64::MAX,
            self.events.count < u64::MAX,
        ensures
            r.epoch == self.epoch + 1,
            r.last_reconfiguration_time == self.last_reconfiguration_time + 1,
            r.events.count == self.events.count + 1,
            r.events.key.salt == self.events.key.salt,
            r.events.key.address.bytes@ == self.events.key.address.bytes@,
    {
        ConfigurationResource {
            epoch: self.epoch + 1,
            last_reconfiguration_time: self.last_reconfiguration_time + 1,
            events: EventHandle {
                count: self.events.count + 1,
                key: EventKey::new_from_address(&self.events.key.address, self.events.key.salt),
            },
        }
    }
}

impl Default for ConfigurationResource {
    /// The genesis resource: epoch zero, never reconfigured, an empty
    /// event stream keyed to the configuration address with salt 16.
    fn default() -> (r: Self)
        ensures
            r.epoch == 0,
            r.last_reconfiguration_time == 0,
            r.events.count == 0,
            r.events.key.salt == 16,
            r.events.key.address.bytes@ == spec_config_address_bytes(),
    {
        ConfigurationResource {
            epoch: 0,
            last_reconfiguration_time: 0,
            events: EventHandle {
                count: 0,
                key: EventKey::new_from_address(&config_address(), 16),
            },
        }
    }
}

} // verus!
