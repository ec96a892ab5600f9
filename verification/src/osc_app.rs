//! The desktop app's OSC server settings: server instances keyed by random 128-bit ids,
//! the global switch, and the runtime configuration built from the saved settings.
//!
//! The configuration of a single OSC server is a type of the caller (`C`); it is carried
//! through untouched.
use vstd::prelude::*;
use std::collections::HashMap;
use crate::text::{decimal, decimal_string};

verus! {

broadcast use vstd::std_specs::hash::group_hash_axioms;

/// A fresh random id (a version-4 UUID as a number).
/// Trusted: it comes from `uuid::Uuid::new_v4`, so nothing is promised about its value.
#[verifier::external_body]
pub(crate) fn new_uuid() -> (r: u128) {
    uuid::Uuid::new_v4().as_u128()
}

/// The display name of the `n`-th server instance (counting from 1).
pub open spec fn spec_server_name(n: nat) -> Seq<char> {
    "OSC Server "@ + decimal(n)
}

/// The display name of the `n`-th server instance, such as `"OSC Server 2"`.
pub fn server_name(n: usize) -> (r: String)
    ensures
        r@ == spec_server_name(n as nat),
{
    let mut s = String::from_str("OSC Server ");
    let digits = decimal_string(n as u64);
    s.append(digits.as_str());
    s
}

/// The saved settings of one server instance.
pub struct OscServerModuleInstanceConfig<C> {
    pub enabled: bool,
    pub server: C,
}

/// The saved settings of the OSC module: the global switch and the server instances.
pub struct OscServerModuleConfig<C> {
    pub enabled: bool,
    pub servers: Vec<OscServerModuleInstanceConfig<C>>,
}

/// Whether a setting is on when the settings do not say.
pub fn default_true() -> (r: bool)
    ensures
        r,
{
    true
}

/// Runtime configuration for a single OSC server instance
pub struct OscServerRuntimeConfig<C> {
    /// Unique identifier for this server instance
    pub id: u128,
    /// Display name for this server instance
    pub name: String,
    /// Whether this server instance is enabled
    pub enabled: bool,
    /// The OSC server configuration
    pub config: C,
}

/// Runtime configuration combining all server instances
pub struct OscRuntimeConfig<C> {
    /// Global enable/disable switch for all OSC functionality
    pub osc_enabled: bool,
    /// OSC server instances by id
    pub osc_servers: HashMap<u128, OscServerRuntimeConfig<C>>,
}

/// Connection status for UI display
#[derive(Clone, Copy, Debug, PartialEq, Eq, Structural)]
pub enum ConnectionStatus {
    Online,
    Offline,
    Reconnecting,
    Failed,
}

impl<C> Default for OscRuntimeConfig<C> {
    /// OSC switched off, no server instances.
    fn default() -> (r: Self)
        ensures
            !r.osc_enabled,
            r.osc_servers@ == Map::<u128, OscServerRuntimeConfig<C>>::empty(),
    {
        OscRuntimeConfig { osc_enabled: false, osc_servers: HashMap::new() }
    }
}

/// `i` is the last place of its id among `ids`.
pub open spec fn last_with_id(ids: Seq<u128>, i: int) -> bool {
    0 <= i < ids.len() && forall|j: int| i < j < ids.len() ==> ids[j] != ids[i]
}

/// The runtime configuration `r` is the one built from `module` with the instance ids
/// `ids`: the global switch is kept, and the instance at place `i` is registered under
/// `ids[i]` with the name "OSC Server i+1" (a later instance with the same id replaces an
/// earlier one).
pub open spec fn runtime_built_from<C>(r: OscRuntimeConfig<C>, module_enabled: bool, servers: Seq<OscServerModuleInstanceConfig<C>>, ids: Seq<u128>) -> bool {
    &&& r.osc_enabled == module_enabled
    &&& ids.len() == servers.len()
    &&& r.osc_servers@.dom() == ids.to_set()
    &&& forall|i: int|
        #![trigger ids[i]]
        last_with_id(ids, i) ==> {
            let v = r.osc_servers@[ids[i]];
            &&& v.id == ids[i]
            &&& v.name@ == spec_server_name((i + 1) as nat)
            &&& v.enabled == servers[i].enabled
            &&& v.config == servers[i].server
        }
}

/// Builds the runtime configuration from the saved settings, registering the instance at
/// place `i` under `ids[i]`.
pub fn generate_runtime_config_with_ids<C>(module_config: OscServerModuleConfig<C>, ids: &Vec<u128>) -> (r: OscRuntimeConfig<C>)
    requires
        ids@.len() == module_config.servers@.len(),
        module_config.servers@.len() < usize::MAX,
    ensures
        runtime_built_from(r, module_config.enabled, module_config.servers@, ids@),
{
    let ghost orig = module_config.servers@;
    let enabled = module_config.enabled;
    let mut servers = module_config.servers;
    let mut osc_servers: HashMap<u128, OscServerRuntimeConfig<C>> = HashMap::new();
    let n: usize = servers.len();
    let mut index: usize = 0;
    while index < n
        invariant
            n == orig.len(),
            ids@.len() == n,
            n < usize::MAX,
            index <= n,
            servers@ == orig.subrange(index as int, n as int),
            osc_servers@.dom() == ids@.take(index as int).to_set(),
            forall|i: int|
                #![trigger ids@[i]]
                0 <= i < index && (forall|j: int| i < j < index ==> ids@[j] != ids@[i]) ==> {
                    let v = osc_servers@[ids@[i]];
                    &&& v.id == ids@[i]
                    &&& v.name@ == spec_server_name((i + 1) as nat)
                    &&& v.enabled == orig[i].enabled
                    &&& v.config == orig[i].server
                },
        decreases n - index,
    {
        let instance_config = servers.remove(0);
        let server_id: u128 = ids[index];
        let runtime_config = OscServerRuntimeConfig {
            id: server_id,
            name: server_name(index + 1),
            enabled: instance_config.enabled,
            config: instance_config.server,
        };
        let ghost before = osc_servers@;
        osc_servers.insert(server_id, runtime_config);
        assert(ids@.take(index + 1) =~= ids@.take(index as int).push(server_id));
        proof {
            ids@.take(index as int).lemma_push_to_set_commute(server_id);
        }
        assert(osc_servers@.dom() =~= ids@.take(index + 1).to_set());
        assert(servers@ =~= orig.subrange(index + 1, n as int));
        index = index + 1;
    }
    assert(ids@.take(n as int) =~= ids@);
    OscRuntimeConfig { osc_enabled: enabled, osc_servers }
}

/// Builds the runtime configuration from the saved settings, giving every server instance
/// a fresh random id and the name "OSC Server n" by its place.
pub fn generate_runtime_config<C>(module_config: OscServerModuleConfig<C>) -> (r: OscRuntimeConfig<C>)
    requires
        module_config.servers@.len() < usize::MAX,
    ensures
        exists|ids: Seq<u128>| runtime_built_from(r, module_config.enabled, module_config.servers@, ids),
{
    let mut ids: Vec<u128> = Vec::new();
    let n: usize = module_config.servers.len();
    let mut i: usize = 0;
    while i < n
        invariant
            i <= n,
            ids@.len() == i,
        decreases n - i,
    {
        ids.push(new_uuid());
        i = i + 1;
    }
    let ghost servers = module_config.servers@;
    let ghost enabled = module_config.enabled;
    let r = generate_runtime_config_with_ids(module_config, &ids);
    assert(runtime_built_from(r, enabled, servers, ids@));
    r
}

/// What must happen to a server instance's process after its switch is set.
#[derive(Clone, Copy, Debug, PartialEq, Eq, Structural)]
pub enum ServerAction {
    /// Start it (if it is not running yet).
    Start,
    /// Stop it (if it is running).
    Stop,
}

/// A server instance that is not configured.
#[derive(Clone, Copy, Debug, PartialEq, Eq, Structural)]
pub struct ServerNotFound {
    pub id: u128,
}

impl<C> OscRuntimeConfig<C> {
    /// Sets the switch of instance `id`. An instance runs only while both its switch and
    /// the global switch are on: the result says whether to start or stop it. Fails, and
    /// changes nothing, when no instance has that id.
    pub fn set_server_enabled(&mut self, id: u128, enabled: bool) -> (r: Result<ServerAction, ServerNotFound>)
        ensures
            final(self).osc_enabled == old(self).osc_enabled,
            old(self).osc_servers@.contains_key(id) ==> {
                &&& final(self).osc_servers@.dom() == old(self).osc_servers@.dom()
                &&& final(self).osc_servers@[id].enabled == enabled
                &&& final(self).osc_servers@[id].id == old(self).osc_servers@[id].id
                &&& final(self).osc_servers@[id].name == old(self).osc_servers@[id].name
                &&& final(self).osc_servers@[id].config == old(self).osc_servers@[id].config
                &&& forall|k: u128| k != id && old(self).osc_servers@.contains_key(k) ==>
                    final(self).osc_servers@[k] == old(self).osc_servers@[k]
                &&& r == if old(self).osc_enabled && enabled {
                    Ok::<ServerAction, ServerNotFound>(ServerAction::Start)
                } else {
                    Ok(ServerAction::Stop)
                }
            },
            !old(self).osc_servers@.contains_key(id) ==> {
                &&& final(self).osc_servers@ == old(self).osc_servers@
                &&& r == Err::<ServerAction, ServerNotFound>(ServerNotFound { id })
            },
    {
        match self.osc_servers.remove(&id) {
            Some(server) => {
                let updated = OscServerRuntimeConfig { enabled, ..server };
                self.osc_servers.insert(id, updated);
                assert(final(self).osc_servers@.dom() =~= old(self).osc_servers@.dom()) by {
                    assert(self.osc_servers@.dom() =~= old(self).osc_servers@.dom());
                }
                if self.osc_enabled && enabled {
                    Ok(ServerAction::Start)
                } else {
                    Ok(ServerAction::Stop)
                }
            },
            None => {
                Err(ServerNotFound { id })
            },
        }
    }
}

/// The saved settings of one server instance in the desktop app.
pub struct OscServerInstanceConfig<C> {
    /// Unique identifier for this server instance
    pub id: u128,
    /// Display name for this server instance
    pub name: String,
    /// Whether this server instance is enabled
    pub enabled: bool,
    /// The OSC server configuration
    pub config: C,
}

impl<C> OscServerInstanceConfig<C> {
    /// A new, switched-off server instance under a fresh random id.
    pub fn new(name: String, config: C) -> (r: Self)
        ensures
            r.name == name,
            !r.enabled,
            r.config == config,
    {
        OscServerInstanceConfig { id: new_uuid(), name, enabled: false, config }
    }
}

/// Main application configuration
pub struct AppConfig<C> {
    /// Global enable/disable switch for all OSC functionality
    pub osc_enabled: bool,
    /// OSC server instances by id
    pub osc_servers: HashMap<u128, OscServerInstanceConfig<C>>,
}

impl<C> AppConfig<C> {
    /// Adds a new, switched-off server instance under a fresh id and returns the id.
    pub fn add_osc_server(&mut self, name: String, config: C) -> (id: u128)
        ensures
            final(self).osc_enabled == old(self).osc_enabled,
            final(self).osc_servers@.contains_key(id),
            final(self).osc_servers@ == old(self).osc_servers@.insert(id, final(self).osc_servers@[id]),
            final(self).osc_servers@[id].id == id,
            final(self).osc_servers@[id].name == name,
            !final(self).osc_servers@[id].enabled,
            final(self).osc_servers@[id].config == config,
    {
        let instance = OscServerInstanceConfig::new(name, config);
        let id: u128 = instance.id;
        self.osc_servers.insert(id, instance);
        id
    }

    /// Removes the server instance `id` and hands it back, or `None` when there is none.
    pub fn remove_osc_server(&mut self, id: &u128) -> (r: Option<OscServerInstanceConfig<C>>)
        ensures
            final(self).osc_enabled == old(self).osc_enabled,
            final(self).osc_servers@ == old(self).osc_servers@.remove(*id),
            r == if old(self).osc_servers@.contains_key(*id) {
                Some(old(self).osc_servers@[*id])
            } else {
                None::<OscServerInstanceConfig<C>>
            },
    {
        self.osc_servers.remove(id)
    }

    /// The server instance `id`, or `None` when there is none.
    pub fn get_osc_server(&self, id: &u128) -> (r: Option<&OscServerInstanceConfig<C>>)
        ensures
            r matches Some(v) ==> self.osc_servers@.contains_key(*id) && *v == self.osc_servers@[*id],
            r is None <==> !self.osc_servers@.contains_key(*id),
    {
        self.osc_servers.get(id)
    }

    /// Flips the switch of server instance `id` and returns its new state, or `None`
    /// (changing nothing) when there is no such instance.
    pub fn toggle_osc_server(&mut self, id: &u128) -> (r: Option<bool>)
        ensures
            final(self).osc_enabled == old(self).osc_enabled,
            final(self).osc_servers@ == toggled(old(self).osc_servers@, *id),
            r == if old(self).osc_servers@.contains_key(*id) {
                Some(!old(self).osc_servers@[*id].enabled)
            } else {
                None::<bool>
            },
    {
        match self.osc_servers.remove(id) {
            Some(server) => {
                let enabled = !server.enabled;
                let updated = OscServerInstanceConfig { enabled, ..server };
                self.osc_servers.insert(*id, updated);
                assert(self.osc_servers@ =~= toggled(old(self).osc_servers@, *id));
                Some(enabled)
            },
            None => {
                assert(self.osc_servers@ =~= old(self).osc_servers@);
                None
            },
        }
    }
}

/// The server instances after flipping the switch of instance `id`: that instance is
/// kept with the opposite switch; without such an instance nothing changes.
pub open spec fn toggled<C>(servers: Map<u128, OscServerInstanceConfig<C>>, id: u128) -> Map<
    u128,
    OscServerInstanceConfig<C>,
> {
    if servers.contains_key(id) {
        servers.insert(id, OscServerInstanceConfig { enabled: !servers[id].enabled, ..servers[id] })
    } else {
        servers
    }
}

/// Flipping the switch of the same server instance twice gives back the same instances.
pub proof fn lemma_toggle_twice_restores<C>(servers: Map<u128, OscServerInstanceConfig<C>>, id: u128)
    ensures
        toggled(toggled(servers, id), id) == servers,
{
    if servers.contains_key(id) {
        assert(toggled(toggled(servers, id), id) =~= servers);
    }
}

impl<C> OscRuntimeConfig<C> {
    /// Sets the global switch. Switching on asks to start every instance whose own switch
    /// is on; switching off asks to stop every instance. The ids come back once each, in
    /// no particular order.
    pub fn set_osc_enabled(&mut self, enabled: bool) -> (r: (ServerAction, Vec<u128>))
        ensures
            final(self).osc_enabled == enabled,
            final(self).osc_servers@ == old(self).osc_servers@,
            r.0 == if enabled { ServerAction::Start } else { ServerAction::Stop },
            r.1@.no_duplicates(),
            forall|id: u128|
                #[trigger] r.1@.contains(id) <==> old(self).osc_servers@.contains_key(id) && (enabled
                    ==> old(self).osc_servers@[id].enabled),
    {
        self.osc_enabled = enabled;
        let mut ids: Vec<u128> = Vec::new();
        let ghost m = self.osc_servers@;
        let ghost mut done: Set<u128> = Set::empty();
        for k in it: self.osc_servers.keys()
            invariant
                m == self.osc_servers@,
                it.seq().unref().to_set() == m.dom(),
                it.seq().no_duplicates(),
                ids@.no_duplicates(),
                forall|x: u128| #[trigger] done.contains(x) ==> m.contains_key(x),
                forall|x: u128|
                    #[trigger] done.contains(x) <==> exists|j: int|
                        0 <= j < it.index() && *it.seq()[j] == x,
                forall|x: u128|
                    m.contains_key(x) && !(#[trigger] done.contains(x)) ==> exists|j: int|
                        it.index() <= j < it.seq().len() && *it.seq()[j] == x,
                forall|x: u128|
                    #[trigger] ids@.contains(x) <==> done.contains(x) && (enabled ==> m[x].enabled),
        {
            let id: u128 = *k;
            let ghost i = it.index();
            assert(*it.seq()[i] == id);
            assert(m.dom().contains(id)) by {
                assert(it.seq().unref()[i] == id);
            }
            let on = match self.osc_servers.get(&id) {
                Some(server) => server.enabled,
                None => false,
            };
            assert(!done.contains(id)) by {
                if done.contains(id) {
                    let j = choose|j: int| 0 <= j < i && *it.seq()[j] == id;
                    assert(it.seq()[j] == it.seq()[i]);
                }
            }
            assert(on == m[id].enabled);
            assert(!ids@.contains(id));
            let ghost before = ids@;
            if !enabled || on {
                ids.push(id);
                assert(ids@.no_duplicates()) by {
                    assert forall|a: int, b: int| 0 <= a < b < ids@.len() implies ids@[a] != ids@[b] by {
                        if b == ids@.len() - 1 {
                            assert(before.contains(ids@[a]));
                        } else {
                            assert(before[a] == ids@[a] && before[b] == ids@[b]);
                        }
                    }
                }
            }
            proof {
                let old_done = done;
                done = done.insert(id);
                assert forall|x: u128|
                    #[trigger] done.contains(x) <==> exists|j: int|
                        0 <= j < (i + 1) && *it.seq()[j] == x by {
                    if done.contains(x) && x != id {
                        assert(old_done.contains(x));
                    }
                    if x == id {
                        assert(*it.seq()[i] == x);
                    }
                }
                assert forall|x: u128|
                    m.contains_key(x) && !(#[trigger] done.contains(x)) implies exists|j: int|
                        (i + 1) <= j < it.seq().len() && *it.seq()[j] == x by {
                    assert(!old_done.contains(x));
                    let j = choose|j: int| i <= j < it.seq().len() && *it.seq()[j] == x;
                    assert(j != i);
                }
                assert forall|x: u128|
                    #[trigger] ids@.contains(x) <==> done.contains(x) && (enabled ==> m[x].enabled) by {
                    if ids@.contains(x) && x != id {
                        assert(before.contains(x));
                    }
                    if x != id && before.contains(x) {
                        let w = choose|w: int| 0 <= w < before.len() && before[w] == x;
                        assert(ids@[w] == x);
                    }
                    if x == id && (!enabled || on) {
                        assert(ids@[ids@.len() - 1] == id);
                    }
                    if x != id && done.contains(x) {
                        assert(old_done.contains(x));
                    }
                }
            }
        }
        assert forall|x: u128|
            #[trigger] ids@.contains(x) <==> m.contains_key(x) && (enabled ==> m[x].enabled) by {
            if m.contains_key(x) {
                assert(done.contains(x));
            }
        }
        (if enabled { ServerAction::Start } else { ServerAction::Stop }, ids)
    }
}

} // verus!
