//! The part of a contract's environment that factory calls read and write.

use vstd::prelude::*;

use crate::address::Address;
use crate::address_set::AddressSet;

verus! {

/// Remaining lifetime, in ledgers, below which the instance storage is extended.
pub const INSTANCE_LIFETIME_THRESHOLD: u32 = 17_280;

/// Lifetime, in ledgers, to which the instance storage is extended.
pub const INSTANCE_BUMP_AMOUNT: u32 = 120_960;

/// The keys under which a factory stores its policy.
#[derive(Clone, Copy, Debug, PartialEq, Eq)]
pub enum DataKey {
    Admin,
    StreamContract,
    MaxDepositCap,
    MinDuration,
    /// Persistent entry of one recipient.
    Allowlist(Address),
    /// Boolean flag: when `true`, `create_stream` rejects all new streams.
    CreationPaused,
}

/// The entries of the instance storage; `None` where a key holds nothing.
#[derive(Clone, Copy, Debug, PartialEq, Eq)]
pub struct InstanceStorage {
    /// Entry of [`DataKey::Admin`].
    pub admin: Option<Address>,
    /// Entry of [`DataKey::StreamContract`].
    pub stream_contract: Option<Address>,
    /// Entry of [`DataKey::MaxDepositCap`].
    pub max_deposit: Option<i128>,
    /// Entry of [`DataKey::MinDuration`].
    pub min_duration: Option<u64>,
    /// Entry of [`DataKey::CreationPaused`].
    pub creation_paused: Option<bool>,
}

/// The event published when stream creation is paused or resumed.
///
/// It has one topic, and its data is the flag itself.
#[derive(Clone, Copy, Debug, PartialEq, Eq, Structural)]
pub struct FactoryEvent {
    pub paused: bool,
}

impl FactoryEvent {
    /// The topic of the event: `factory_paused` or `factory_resumed`.
    pub fn topic(&self) -> (topic: &'static str)
        ensures
            topic@ == if self.paused {
                "factory_paused"@
            } else {
                "factory_resumed"@
            },
    {
        if self.paused {
            "factory_paused"
        } else {
            "factory_resumed"
        }
    }
}

/// Pausing and resuming are told apart by their topics, which are fixed.
pub proof fn law_topic_tells_pause_from_resumption(event: FactoryEvent, topic: &'static str)
    requires
        call_ensures(FactoryEvent::topic, (&event,), topic),
    ensures
        topic@ == "factory_paused"@ <==> event.paused,
        topic@ == "factory_resumed"@ <==> !event.paused,
{
    reveal_strlit("factory_paused");
    reveal_strlit("factory_resumed");
    assert("factory_paused"@.len() != "factory_resumed"@.len());
}

/// Something the host has to carry out once a call has succeeded.
#[derive(Clone, Copy, Debug, PartialEq, Eq)]
pub enum Effect {
    /// Write what the environment now holds under this key, or remove the key
    /// where it holds nothing.
    Store(DataKey),
    /// Extend the instance storage to `extend_to` ledgers from now where fewer than
    /// `threshold` are left.
    ExtendInstanceTtl { threshold: u32, extend_to: u32 },
    /// Publish this event.
    Publish(FactoryEvent),
}

/// The environment of one invocation.
///
/// A host may load only the entries that a call reads: an entry that is not loaded
/// looks like one that is not stored.
#[derive(Debug)]
pub struct Env {
    pub instance: InstanceStorage,
    /// The recipients whose [`DataKey::Allowlist`] entry is `true`.
    pub allowlist: AddressSet,
    /// The addresses known to have authorized this invocation.
    pub authorized: AddressSet,
    /// What the host has to carry out, in order.
    pub effects: Vec<Effect>,
}

/// The mathematical value of an [`Env`].
#[verifier::ext_equal]
pub struct EnvView {
    pub instance: InstanceStorage,
    pub allowlist: Set<Address>,
    pub authorized: Set<Address>,
    pub effects: Seq<Effect>,
}

impl View for Env {
    type V = EnvView;

    open spec fn view(&self) -> EnvView {
        EnvView {
            instance: self.instance,
            allowlist: self.allowlist@,
            authorized: self.authorized@,
            effects: self.effects@,
        }
    }
}

impl Env {
    /// An environment in which nothing is stored, authorized or to be carried out.
    pub fn new() -> (env: Env)
        ensures
            env@ == EnvView::fresh(),
    {
        Env {
            instance: InstanceStorage {
                admin: None,
                stream_contract: None,
                max_deposit: None,
                min_duration: None,
                creation_paused: None,
            },
            allowlist: AddressSet::new(),
            authorized: AddressSet::new(),
            effects: Vec::new(),
        }
    }

    /// Records that `address` has authorized this invocation.
    pub fn authorize(&mut self, address: Address)
        ensures
            final(self)@ == old(self)@.authorize(address),
    {
        self.authorized.insert(address);
    }

    /// Replaces the entries of the instance storage and asks the host to store
    /// `key` and to keep the instance storage alive.
    pub(crate) fn update_instance(&mut self, instance: InstanceStorage, key: DataKey)
        ensures
            final(self)@ == old(self)@.update_instance(instance, key),
    {
        self.instance = instance;
        self.effects.push(Effect::Store(key));
        self.extend_instance_ttl();
        assert(self@ =~= old(self)@.update_instance(instance, key));
    }

    /// Asks the host to keep the instance storage alive.
    pub(crate) fn extend_instance_ttl(&mut self)
        ensures
            final(self)@ == old(self)@.perform(EnvView::ttl_extension()),
    {
        self.effects.push(
            Effect::ExtendInstanceTtl {
                threshold: INSTANCE_LIFETIME_THRESHOLD,
                extend_to: INSTANCE_BUMP_AMOUNT,
            },
        );
    }
}

impl Default for Env {
    fn default() -> (env: Env)
        ensures
            env@ == EnvView::fresh(),
    {
        Env::new()
    }
}

impl EnvView {
    /// Nothing stored, nothing authorized, nothing to carry out.
    pub open spec fn fresh() -> EnvView {
        EnvView {
            instance: InstanceStorage {
                admin: None,
                stream_contract: None,
                max_deposit: None,
                min_duration: None,
                creation_paused: None,
            },
            allowlist: Set::empty(),
            authorized: Set::empty(),
            effects: Seq::empty(),
        }
    }

    /// This environment once `address` has authorized the invocation.
    pub open spec fn authorize(self, address: Address) -> EnvView {
        EnvView { authorized: self.authorized.insert(address), ..self }
    }

    /// This environment with `effect` to be carried out after what it holds already.
    pub open spec fn perform(self, effect: Effect) -> EnvView {
        EnvView { effects: self.effects.push(effect), ..self }
    }

    /// The effect that keeps the instance storage alive.
    pub open spec fn ttl_extension() -> Effect {
        Effect::ExtendInstanceTtl {
            threshold: INSTANCE_LIFETIME_THRESHOLD,
            extend_to: INSTANCE_BUMP_AMOUNT,
        }
    }

    /// This environment after one instance entry was written under `key`.
    pub open spec fn update_instance(self, instance: InstanceStorage, key: DataKey) -> EnvView {
        EnvView { instance, ..self }.perform(Effect::Store(key)).perform(EnvView::ttl_extension())
    }
}

} // verus!
