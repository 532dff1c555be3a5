//! The node's boot sequence as a state machine.
//!
//! The driver hands each answer it receives to a handler; the handler
//! updates the state and returns the actions to perform next, in order.
//! Actions carry no payload: what an action applies is read from the state
//! right after the handler returns (`block_settings`, `network_name`,
//! `genesis_txs`, `service_account`, `error`).

use vstd::prelude::*;
use vstd::string::StringExecFns;
use crate::chain::{
    AccountReply, BootError, ChainSettings, GenesisFile, SettingsReply, StoredSettings, presence_of,
    service_presence, settings_from_reply, settings_reply_error,
};
use crate::identity::{
    calculate_network_name, code_key, content_hash, contract_code_key, multihash, network_name,
};
use crate::version::{VersionRefusal, gate_verdict, min_version_gate, version_order};

verus! {

/// One step for the driver to perform.
#[derive(Clone, Copy, Debug, PartialEq, Eq, Structural)]
pub enum Action {
    /// Start the block engine.
    StartEngine,
    /// Stop the block engine.
    StopEngine,
    /// Hand `block_settings`' name, threshold and timeout to the engine.
    ApplyBlockConfig,
    /// Hand `block_settings`' fuel-burning method to the engine.
    ApplyBurnFuelMethod,
    /// Replace the engine's validator predicate by the one that asks the
    /// system account's contract.
    InstallLiveValidator,
    /// Put `genesis_txs` in the engine's pool, in order.
    SeedPool,
    /// Write `block_settings` to storage.
    PersistSettings,
    /// Ask the engine for the system account; answer with `on_presence`.
    ResolveServiceAccount,
    /// Read the settings from storage; answer with `on_stored_settings`.
    LoadStoredSettings,
    /// Read the genesis file; answer with `on_genesis`.
    LoadGenesis,
    /// Store `service_account` and its code.
    StoreServiceAccount,
    /// Run the genesis watch on this thread; answer with
    /// `on_genesis_settled`.
    WatchGenesis,
    /// Run the genesis watch on a thread of its own; answer with
    /// `on_genesis_settled` from there.
    WatchGenesisInBackground,
    /// Ask the engine for the settings held by the system account; answer
    /// with `on_service_settings`.
    FetchServiceSettings,
    /// Hand `network_name` to the peer service.
    SetPeerNetworkName,
    /// Start the REST service.
    StartRest,
    /// Start the peer service.
    StartPeer,
    /// Start the bridge service.
    StartBridge,
    /// Start the monitor service.
    StartMonitor,
    /// Stop the process with `error`.
    Abort,
}

/// Where the main boot sequence stands.
#[derive(Clone, Copy, Debug, PartialEq, Eq, Structural)]
pub enum BootPhase {
    Idle,
    Resolving,
    LoadingSettings,
    LoadingGenesis,
    AwaitingGenesisBlock,
    AwaitingServiceSettings,
    Operational,
    Failed,
}

/// Where the genesis completion that runs in the background stands.
#[derive(Clone, Copy, Debug, PartialEq, Eq, Structural)]
pub enum Background {
    Idle,
    AwaitingGenesisBlock,
    AwaitingServiceSettings,
    Done,
}

/// Which of the two startup branches the node took.
#[derive(Clone, Copy, Debug, PartialEq, Eq, Structural)]
pub enum Branch {
    Undecided,
    /// The system account existed: the node joins a running network.
    Joining,
    /// The system account was missing: the node originates the network.
    Originating,
}

/// The system account as stored at genesis: its contract code, the code's
/// multihash, and the storage key of the code.
#[derive(Debug)]
pub struct ServiceAccount {
    pub code: Vec<u8>,
    pub contract_hash: Vec<u8>,
    pub code_key: String,
}

/// Network name the engine runs under while the genesis block is built.
pub const BOOTSTRAP_NETWORK: &'static str = "bootstrap";

/// Block threshold while the genesis block is built from an empty bundle.
pub const BOOTSTRAP_BLOCK_THRESHOLD: usize = 42;

/// Block timeout in seconds while the genesis block is built.
pub const BOOTSTRAP_BLOCK_TIMEOUT: u16 = 2;

/// Minimum node version of the provisional settings.
pub const BOOTSTRAP_MIN_NODE_VERSION: &'static str = "0.2.6";

/// The boot state of the node.
pub struct Orchestrator {
    pub phase: BootPhase,
    pub background: Background,
    pub branch: Branch,
    /// Whether the block engine runs, as the actions so far leave it.
    pub engine_running: bool,
    /// Version of the running core.
    pub core_version: String,
    /// The configuration the engine runs with, or is about to.
    pub block_settings: ChainSettings,
    /// The network name for the peer service.
    pub network_name: String,
    /// The identifier derived from the genesis file.
    pub genesis_name: String,
    /// The genesis transactions for the pool.
    pub genesis_txs: Vec<Vec<u8>>,
    /// The system account to store at genesis.
    pub service_account: Option<ServiceAccount>,
    /// The error the boot failed with.
    pub error: Option<BootError>,
}

/// Actions that change the engine's configuration.
pub open spec fn is_engine_config(a: Action) -> bool {
    match a {
        Action::ApplyBlockConfig | Action::ApplyBurnFuelMethod | Action::InstallLiveValidator
        | Action::SeedPool => true,
        _ => false,
    }
}

/// Actions that only the originating branch performs.
pub open spec fn is_genesis_action(a: Action) -> bool {
    match a {
        Action::LoadGenesis | Action::StoreServiceAccount | Action::SeedPool
        | Action::WatchGenesis | Action::WatchGenesisInBackground
        | Action::FetchServiceSettings => true,
        _ => false,
    }
}

/// Whether the engine runs after action `a`, given whether it ran before.
pub open spec fn engine_next(running: bool, a: Action) -> bool {
    match a {
        Action::StartEngine => true,
        Action::StopEngine => false,
        _ => running,
    }
}

/// Whether the engine runs after `actions`, given whether it ran before.
pub open spec fn engine_state(actions: Seq<Action>, running: bool) -> bool
    decreases actions.len(),
{
    if actions.len() == 0 {
        running
    } else {
        engine_next(engine_state(actions.drop_last(), running), actions.last())
    }
}

/// Every configuration change in `actions` happens while the engine is
/// stopped, given whether it ran before.
pub open spec fn disciplined(actions: Seq<Action>, running: bool) -> bool
    decreases actions.len(),
{
    if actions.len() == 0 {
        true
    } else {
        disciplined(actions.drop_last(), running) && (is_engine_config(actions.last())
            ==> !engine_state(actions.drop_last(), running))
    }
}

/// The engine discipline holds over consecutive steps: where each step's
/// actions change the configuration only while the engine is stopped,
/// starting from where the previous step left the engine, so does the whole
/// run, and the engine ends as the last step leaves it.
pub proof fn lemma_discipline_composes(a: Seq<Action>, b: Seq<Action>, running: bool)
    requires
        disciplined(a, running),
        disciplined(b, engine_state(a, running)),
    ensures
        disciplined(a + b, running),
        engine_state(a + b, running) == engine_state(b, engine_state(a, running)),
    decreases b.len(),
{
    if b.len() == 0 {
        assert(a + b == a);
    } else {
        let b0 = b.drop_last();
        assert((a + b).drop_last() == a + b0);
        assert((a + b).last() == b.last());
        lemma_discipline_composes(a, b0, running);
    }
}

proof fn lemma_push(a: Seq<Action>, x: Action, running: bool)
    ensures
        disciplined(a.push(x), running) == (disciplined(a, running) && (is_engine_config(x)
            ==> !engine_state(a, running))),
        engine_state(a.push(x), running) == engine_next(engine_state(a, running), x),
{
    assert(a.push(x).drop_last() == a);
}

/// A stop, then configuration changes, then a start: from any engine
/// state the changes happen while the engine is stopped, and the engine
/// runs again at the end. This covers the block configuration, the
/// validator predicate swap and the seeding of the pool.
pub proof fn lemma_bracketed_reconfiguration(running: bool)
    ensures
        disciplined(reconfigure_actions(), running),
        engine_state(reconfigure_actions(), running),
        disciplined(seq![Action::StopEngine, Action::InstallLiveValidator, Action::StartEngine], running),
        engine_state(seq![Action::StopEngine, Action::InstallLiveValidator, Action::StartEngine], running),
        disciplined(seq![Action::StopEngine, Action::SeedPool, Action::StartEngine], running),
        engine_state(seq![Action::StopEngine, Action::SeedPool, Action::StartEngine], running),
{
    let e = Seq::<Action>::empty();
    assert(disciplined(e, running));
    lemma_push(e, Action::StopEngine, running);
    let s1 = e.push(Action::StopEngine);
    assert(disciplined(s1, running) && !engine_state(s1, running));
    lemma_push(s1, Action::ApplyBlockConfig, running);
    lemma_push(s1.push(Action::ApplyBlockConfig), Action::ApplyBurnFuelMethod, running);
    lemma_push(s1.push(Action::ApplyBlockConfig).push(Action::ApplyBurnFuelMethod), Action::StartEngine, running);
    assert(disciplined(s1.push(Action::ApplyBlockConfig), running));
    assert(!engine_state(s1.push(Action::ApplyBlockConfig), running));
    assert(disciplined(s1.push(Action::ApplyBlockConfig).push(Action::ApplyBurnFuelMethod), running));
    let s4 = s1.push(Action::ApplyBlockConfig).push(Action::ApplyBurnFuelMethod).push(Action::StartEngine);
    assert(disciplined(s4, running));
    assert(reconfigure_actions() =~= s4);
    lemma_push(s1, Action::InstallLiveValidator, running);
    lemma_push(s1.push(Action::InstallLiveValidator), Action::StartEngine, running);
    assert(disciplined(s1.push(Action::InstallLiveValidator), running));
    let v3 = s1.push(Action::InstallLiveValidator).push(Action::StartEngine);
    assert(disciplined(v3, running));
    assert(seq![Action::StopEngine, Action::InstallLiveValidator, Action::StartEngine] =~= v3);
    lemma_push(s1, Action::SeedPool, running);
    lemma_push(s1.push(Action::SeedPool), Action::StartEngine, running);
    assert(disciplined(s1.push(Action::SeedPool), running));
    let seeded = s1.push(Action::SeedPool).push(Action::StartEngine);
    assert(disciplined(seeded, running));
    assert(seq![Action::StopEngine, Action::SeedPool, Action::StartEngine] =~= seeded);
}

fn emit(actions: &mut Vec<Action>, running: &mut bool, a: Action, Ghost(start): Ghost<bool>)
    requires
        disciplined(old(actions)@, start),
        *old(running) == engine_state(old(actions)@, start),
        is_engine_config(a) ==> !*old(running),
    ensures
        final(actions)@ == old(actions)@.push(a),
        disciplined(final(actions)@, start),
        *final(running) == engine_state(final(actions)@, start),
        *final(running) == engine_next(*old(running), a),
{
    let ghost before = actions@;
    actions.push(a);
    assert(actions@.drop_last() == before);
    match a {
        Action::StartEngine => {
            *running = true;
        },
        Action::StopEngine => {
            *running = false;
        },
        _ => {},
    }
}

/// One step of the boot keeps the startup branch once it is decided, and
/// performs genesis actions only on the originating branch.
pub open spec fn branch_step(before: Branch, after: Branch, actions: Seq<Action>) -> bool {
    &&& before != Branch::Undecided ==> after == before
    &&& forall|i: int| 0 <= i < actions.len() && is_genesis_action(#[trigger] actions[i])
        ==> after == Branch::Originating
}

/// The two startup branches exclude each other: along a run of boot steps,
/// once the node has taken the joining branch no later step loads the
/// genesis file or performs any other genesis action, and once it has
/// taken the originating branch it never becomes a joining node.
pub proof fn lemma_branches_exclusive(branches: Seq<Branch>, outputs: Seq<Seq<Action>>, k: int)
    requires
        branches.len() == outputs.len() + 1,
        forall|j: int| 0 <= j < outputs.len() ==> branch_step(branches[j], branches[j + 1], #[trigger] outputs[j]),
        0 <= k < branches.len(),
        branches[k] != Branch::Undecided,
    ensures
        forall|j: int| k <= j < branches.len() ==> branches[j] == branches[k],
        branches[k] == Branch::Joining ==> forall|j: int, i: int|
            k <= j < outputs.len() && 0 <= i < outputs[j].len() ==> !is_genesis_action(#[trigger] outputs[j][i]),
    decreases branches.len() - k,
{
    if k + 1 < branches.len() {
        assert(branch_step(branches[k], branches[k + 1], outputs[k]));
        lemma_branches_exclusive(branches, outputs, k + 1);
        assert forall|j: int| k <= j < branches.len() implies branches[j] == branches[k] by {
            if j > k {
            }
        }
        if branches[k] == Branch::Joining {
            assert forall|j: int, i: int| k <= j < outputs.len() && 0 <= i < outputs[j].len()
                implies !is_genesis_action(#[trigger] outputs[j][i]) by {
                assert(branch_step(branches[j], branches[j + 1], outputs[j]));
            }
        }
    }
}

/// The boot data that only genesis sets is the same in `a` and `b`: the
/// core version, the genesis identifier, transactions and system account.
pub open spec fn keeps_genesis_data(a: Orchestrator, b: Orchestrator) -> bool {
    &&& b.core_version == a.core_version
    &&& b.genesis_name == a.genesis_name
    &&& b.genesis_txs == a.genesis_txs
    &&& b.service_account == a.service_account
}

/// The engine configuration and the peer network name are the same in `a`
/// and `b`.
pub open spec fn keeps_settings(a: Orchestrator, b: Orchestrator) -> bool {
    &&& b.block_settings == a.block_settings
    &&& b.network_name == a.network_name
}

/// The actions of a reconfiguration of the engine with `block_settings`.
pub open spec fn reconfigure_actions() -> Seq<Action> {
    seq![Action::StopEngine, Action::ApplyBlockConfig, Action::ApplyBurnFuelMethod, Action::StartEngine]
}

/// The actions that bring the node into operation from the settings in
/// storage.
pub open spec fn join_actions() -> Seq<Action> {
    seq![
        Action::StopEngine,
        Action::ApplyBlockConfig,
        Action::ApplyBurnFuelMethod,
        Action::StartEngine,
        Action::StopEngine,
        Action::InstallLiveValidator,
        Action::StartEngine,
        Action::SetPeerNetworkName,
        Action::StartRest,
        Action::StartPeer,
        Action::StartBridge,
        Action::StartMonitor,
    ]
}

/// The actions at genesis when the bundle holds no transaction: the
/// system account's contract creates the first block, watched in the
/// background; the peer service waits for it.
pub open spec fn background_genesis_actions() -> Seq<Action> {
    seq![
        Action::StoreServiceAccount,
        Action::StopEngine,
        Action::ApplyBlockConfig,
        Action::ApplyBurnFuelMethod,
        Action::StartEngine,
        Action::WatchGenesisInBackground,
        Action::StartRest,
        Action::StartBridge,
        Action::StartMonitor,
    ]
}

/// The actions at genesis when the bundle holds transactions: they seed
/// the pool and the first block is awaited on this thread.
pub open spec fn seeded_genesis_actions() -> Seq<Action> {
    seq![
        Action::StoreServiceAccount,
        Action::StopEngine,
        Action::ApplyBlockConfig,
        Action::ApplyBurnFuelMethod,
        Action::StartEngine,
        Action::StopEngine,
        Action::SeedPool,
        Action::StartEngine,
        Action::WatchGenesis,
    ]
}

/// The actions that finish a genesis completed in the background.
pub open spec fn background_finish_actions() -> Seq<Action> {
    seq![
        Action::StopEngine,
        Action::ApplyBlockConfig,
        Action::ApplyBurnFuelMethod,
        Action::PersistSettings,
        Action::InstallLiveValidator,
        Action::StartEngine,
        Action::SetPeerNetworkName,
        Action::StartPeer,
    ]
}

/// The block threshold at genesis for a bundle of `n` transactions.
pub open spec fn genesis_threshold(n: nat) -> nat {
    if n == 0 {
        BOOTSTRAP_BLOCK_THRESHOLD as nat
    } else {
        n
    }
}

/// Whether the stored settings admit this core, and if not, why.
pub open spec fn join_verdict(core: Seq<char>, s: ChainSettings) -> Result<(), BootError> {
    match gate_verdict(version_order(core, s.min_node_version@)) {
        Err(VersionRefusal::TooOld) => Err(BootError::CoreTooOld),
        Err(VersionRefusal::Unparsable) => Err(BootError::VersionUnparsable),
        Ok(()) => if s.network_name is None {
            Err(BootError::NetworkNameMissing)
        } else {
            Ok(())
        },
    }
}

/// The error a stored-settings answer without settings raises.
pub open spec fn stored_error(stored: StoredSettings) -> BootError {
    match stored {
        StoredSettings::Missing => BootError::SettingsMissing,
        _ => BootError::SettingsUndecodable,
    }
}

/// The provisional settings while the genesis block is built.
fn bootstrap_settings(block_threshold: usize) -> (r: ChainSettings)
    ensures
        r.accept_broadcast == false,
        r.block_threshold == block_threshold,
        r.block_timeout == BOOTSTRAP_BLOCK_TIMEOUT,
        r.burning_fuel_method@ == Seq::<char>::empty(),
        r.network_name matches Some(n) && n@ == BOOTSTRAP_NETWORK@,
        r.is_production == true,
        r.min_node_version@ == BOOTSTRAP_MIN_NODE_VERSION@,
{
    ChainSettings {
        accept_broadcast: false,
        block_threshold,
        block_timeout: BOOTSTRAP_BLOCK_TIMEOUT,
        burning_fuel_method: String::new(),
        network_name: Some(String::from_str(BOOTSTRAP_NETWORK)),
        is_production: true,
        min_node_version: String::from_str(BOOTSTRAP_MIN_NODE_VERSION),
    }
}

impl Orchestrator {
    /// A node about to boot, its engine configured from the static
    /// configuration and stopped.
    pub fn new(network: String, block_threshold: usize, block_timeout: u16, core_version: String) -> (r: Self)
        ensures
            r.phase == BootPhase::Idle,
            r.background == Background::Idle,
            r.branch == Branch::Undecided,
            !r.engine_running,
            r.core_version == core_version,
            r.block_settings.network_name == Some(network),
            r.network_name == network,
            r.genesis_name@ == Seq::<char>::empty(),
            r.block_settings.block_threshold == block_threshold,
            r.block_settings.block_timeout == block_timeout,
            r.block_settings.accept_broadcast == false,
            r.block_settings.burning_fuel_method@ == Seq::<char>::empty(),
            r.block_settings.is_production == false,
            r.block_settings.min_node_version@ == Seq::<char>::empty(),
            r.genesis_txs@.len() == 0,
            r.service_account is None,
            r.error is None,
    {
        let name = network.clone();
        Orchestrator {
            phase: BootPhase::Idle,
            background: Background::Idle,
            branch: Branch::Undecided,
            engine_running: false,
            core_version,
            block_settings: ChainSettings {
                accept_broadcast: false,
                block_threshold,
                block_timeout,
                burning_fuel_method: String::new(),
                network_name: Some(network),
                is_production: false,
                min_node_version: String::new(),
            },
            network_name: name,
            genesis_name: String::new(),
            genesis_txs: Vec::new(),
            service_account: None,
            error: None,
        }
    }

    fn fail(&mut self, actions: &mut Vec<Action>, running: &mut bool, e: BootError, Ghost(start): Ghost<bool>)
        requires
            disciplined(old(actions)@, start),
            *old(running) == engine_state(old(actions)@, start),
        ensures
            final(actions)@ == old(actions)@.push(Action::Abort),
            disciplined(final(actions)@, start),
            *final(running) == engine_state(final(actions)@, start),
            *final(running) == *old(running),
            final(self).phase == BootPhase::Failed,
            final(self).error == Some(e),
            final(self).branch == old(self).branch,
            final(self).background == old(self).background,
            final(self).engine_running == old(self).engine_running,
            keeps_genesis_data(*old(self), *final(self)),
            keeps_settings(*old(self), *final(self)),
    {
        emit(actions, running, Action::Abort, Ghost(start));
        self.phase = BootPhase::Failed;
        self.error = Some(e);
    }

    /// Starts the engine so that it can answer, and asks for the system
    /// account.
    pub fn begin(&mut self) -> (actions: Vec<Action>)
        ensures
            old(self).phase == BootPhase::Idle ==> {
                &&& actions@ == seq![Action::StartEngine, Action::ResolveServiceAccount]
                &&& final(self).phase == BootPhase::Resolving
            },
            old(self).phase != BootPhase::Idle ==> actions@.len() == 0 && final(self).phase == old(self).phase,
            final(self).branch == old(self).branch,
            branch_step(old(self).branch, final(self).branch, actions@),
            final(self).background == old(self).background,
            disciplined(actions@, old(self).engine_running),
            final(self).engine_running == engine_state(actions@, old(self).engine_running),
            keeps_genesis_data(*old(self), *final(self)),
            keeps_settings(*old(self), *final(self)),
            final(self).error == old(self).error,
    {
        let ghost start = self.engine_running;
        let mut running = self.engine_running;
        let mut actions: Vec<Action> = Vec::new();
        if self.phase == BootPhase::Idle {
            emit(&mut actions, &mut running, Action::StartEngine, Ghost(start));
            emit(&mut actions, &mut running, Action::ResolveServiceAccount, Ghost(start));
            self.phase = BootPhase::Resolving;
        }
        self.engine_running = running;
        actions
    }

    /// Takes the answer on the system account: join the running network if
    /// it exists, originate the network if it does not.
    pub fn on_presence(&mut self, reply: AccountReply) -> (actions: Vec<Action>)
        ensures
            old(self).phase == BootPhase::Resolving && old(self).branch == Branch::Undecided ==> {
                match presence_of(reply) {
                    Ok(true) => {
                        &&& actions@ == seq![Action::LoadStoredSettings]
                        &&& final(self).phase == BootPhase::LoadingSettings
                        &&& final(self).branch == Branch::Joining
                    },
                    Ok(false) => {
                        &&& actions@ == seq![Action::LoadGenesis]
                        &&& final(self).phase == BootPhase::LoadingGenesis
                        &&& final(self).branch == Branch::Originating
                    },
                    Err(e) => {
                        &&& actions@ == seq![Action::Abort]
                        &&& final(self).phase == BootPhase::Failed
                        &&& final(self).error == Some(e)
                        &&& final(self).branch == Branch::Undecided
                    },
                }
            },
            !(old(self).phase == BootPhase::Resolving && old(self).branch == Branch::Undecided) ==> {
                &&& actions@.len() == 0
                &&& final(self).phase == old(self).phase
                &&& final(self).branch == old(self).branch
            },
            branch_step(old(self).branch, final(self).branch, actions@),
            final(self).background == old(self).background,
            disciplined(actions@, old(self).engine_running),
            final(self).engine_running == engine_state(actions@, old(self).engine_running),
            keeps_genesis_data(*old(self), *final(self)),
            keeps_settings(*old(self), *final(self)),
    {
        let ghost start = self.engine_running;
        let mut running = self.engine_running;
        let mut actions: Vec<Action> = Vec::new();
        if self.phase == BootPhase::Resolving && self.branch == Branch::Undecided {
            match service_presence(reply) {
                Ok(true) => {
                    emit(&mut actions, &mut running, Action::LoadStoredSettings, Ghost(start));
                    self.branch = Branch::Joining;
                    self.phase = BootPhase::LoadingSettings;
                },
                Ok(false) => {
                    emit(&mut actions, &mut running, Action::LoadGenesis, Ghost(start));
                    self.branch = Branch::Originating;
                    self.phase = BootPhase::LoadingGenesis;
                },
                Err(e) => {
                    self.fail(&mut actions, &mut running, e, Ghost(start));
                },
            }
        }
        self.engine_running = running;
        actions
    }

    /// Takes the settings read from storage: check the minimum version,
    /// then reconfigure the engine, install the live validator predicate,
    /// name the peer network and start the services.
    pub fn on_stored_settings(&mut self, stored: StoredSettings) -> (actions: Vec<Action>)
        ensures
            old(self).phase == BootPhase::LoadingSettings ==> match stored {
                StoredSettings::Found(s) => match join_verdict(old(self).core_version@, s) {
                    Ok(()) => {
                        &&& actions@ == join_actions()
                        &&& final(self).phase == BootPhase::Operational
                        &&& final(self).block_settings == s
                        &&& s.network_name == Some(final(self).network_name)
                    },
                    Err(e) => {
                        &&& actions@ == seq![Action::Abort]
                        &&& final(self).phase == BootPhase::Failed
                        &&& final(self).error == Some(e)
                    },
                },
                _ => {
                    &&& actions@ == seq![Action::Abort]
                    &&& final(self).phase == BootPhase::Failed
                    &&& final(self).error == Some(stored_error(stored))
                },
            },
            old(self).phase != BootPhase::LoadingSettings ==> actions@.len() == 0
                && final(self).phase == old(self).phase,
            final(self).branch == old(self).branch,
            final(self).background == old(self).background,
            branch_step(old(self).branch, final(self).branch, actions@),
            disciplined(actions@, old(self).engine_running),
            final(self).engine_running == engine_state(actions@, old(self).engine_running),
            keeps_genesis_data(*old(self), *final(self)),
    {
        let ghost start = self.engine_running;
        let mut running = self.engine_running;
        let mut actions: Vec<Action> = Vec::new();
        if self.phase == BootPhase::LoadingSettings {
            match stored {
                StoredSettings::Found(s) => {
                    match min_version_gate(self.core_version.as_str(), s.min_node_version.as_str()) {
                        Err(VersionRefusal::TooOld) => {
                            self.fail(&mut actions, &mut running, BootError::CoreTooOld, Ghost(start));
                        },
                        Err(VersionRefusal::Unparsable) => {
                            self.fail(&mut actions, &mut running, BootError::VersionUnparsable, Ghost(start));
                        },
                        Ok(()) => {
                            match &s.network_name {
                                None => {
                                    self.fail(&mut actions, &mut running, BootError::NetworkNameMissing, Ghost(start));
                                },
                                Some(name) => {
                                    self.network_name = name.clone();
                                    self.block_settings = s;
                                    emit(&mut actions, &mut running, Action::StopEngine, Ghost(start));
                                    emit(&mut actions, &mut running, Action::ApplyBlockConfig, Ghost(start));
                                    emit(&mut actions, &mut running, Action::ApplyBurnFuelMethod, Ghost(start));
                                    emit(&mut actions, &mut running, Action::StartEngine, Ghost(start));
                                    emit(&mut actions, &mut running, Action::StopEngine, Ghost(start));
                                    emit(&mut actions, &mut running, Action::InstallLiveValidator, Ghost(start));
                                    emit(&mut actions, &mut running, Action::StartEngine, Ghost(start));
                                    emit(&mut actions, &mut running, Action::SetPeerNetworkName, Ghost(start));
                                    emit(&mut actions, &mut running, Action::StartRest, Ghost(start));
                                    emit(&mut actions, &mut running, Action::StartPeer, Ghost(start));
                                    emit(&mut actions, &mut running, Action::StartBridge, Ghost(start));
                                    emit(&mut actions, &mut running, Action::StartMonitor, Ghost(start));
                                    self.phase = BootPhase::Operational;
                                },
                            }
                        },
                    }
                },
                StoredSettings::Missing => {
                    self.fail(&mut actions, &mut running, BootError::SettingsMissing, Ghost(start));
                },
                StoredSettings::Undecodable => {
                    self.fail(&mut actions, &mut running, BootError::SettingsUndecodable, Ghost(start));
                },
            }
        }
        self.engine_running = running;
        actions
    }

    /// Takes the genesis file: derive the network identifier from its
    /// bytes, store the system account with the bundle's contract, run the
    /// engine with provisional settings, then either seed the pool with the
    /// bundle's transactions and wait for the first block here, or, for a
    /// bundle without transactions, wait for it in the background and start
    /// the services but the peer one.
    pub fn on_genesis(&mut self, file: GenesisFile) -> (actions: Vec<Action>)
        ensures
            old(self).phase == BootPhase::LoadingGenesis && old(self).branch == Branch::Originating
                ==> match file {
                GenesisFile::Unreadable => {
                    &&& actions@ == seq![Action::Abort]
                    &&& final(self).phase == BootPhase::Failed
                    &&& final(self).error == Some(BootError::GenesisUnreadable)
                },
                GenesisFile::Read { bytes, bundle: None } => {
                    &&& actions@ == seq![Action::Abort]
                    &&& final(self).phase == BootPhase::Failed
                    &&& final(self).error == Some(BootError::GenesisMalformed)
                },
                GenesisFile::Read { bytes, bundle: Some(b) } => {
                    &&& final(self).genesis_name@ == network_name(bytes@)
                    &&& final(self).service_account matches Some(acc) && {
                        &&& acc.code == b.bin
                        &&& acc.contract_hash@ == multihash(b.bin@)
                        &&& acc.code_key@ == code_key(multihash(b.bin@))
                    }
                    &&& final(self).block_settings.accept_broadcast == false
                    &&& final(self).block_settings.block_threshold as nat == genesis_threshold(b.txs@.len())
                    &&& final(self).block_settings.block_timeout == BOOTSTRAP_BLOCK_TIMEOUT
                    &&& final(self).block_settings.burning_fuel_method@ == Seq::<char>::empty()
                    &&& final(self).block_settings.network_name matches Some(n) && n@ == BOOTSTRAP_NETWORK@
                    &&& final(self).block_settings.is_production == true
                    &&& final(self).block_settings.min_node_version@ == BOOTSTRAP_MIN_NODE_VERSION@
                    &&& final(self).genesis_txs == b.txs
                    &&& if b.txs@.len() == 0 {
                        &&& actions@ == background_genesis_actions()
                        &&& final(self).phase == BootPhase::Operational
                        &&& final(self).background == Background::AwaitingGenesisBlock
                    } else {
                        &&& actions@ == seeded_genesis_actions()
                        &&& final(self).phase == BootPhase::AwaitingGenesisBlock
                        &&& final(self).background == old(self).background
                    }
                },
            },
            !(old(self).phase == BootPhase::LoadingGenesis && old(self).branch == Branch::Originating)
                ==> actions@.len() == 0 && final(self).phase == old(self).phase
                    && final(self).background == old(self).background,
            final(self).branch == old(self).branch,
            branch_step(old(self).branch, final(self).branch, actions@),
            disciplined(actions@, old(self).engine_running),
            final(self).engine_running == engine_state(actions@, old(self).engine_running),
            final(self).core_version == old(self).core_version,
            final(self).network_name == old(self).network_name,
    {
        let ghost start = self.engine_running;
        let mut running = self.engine_running;
        let mut actions: Vec<Action> = Vec::new();
        if self.phase == BootPhase::LoadingGenesis && self.branch == Branch::Originating {
            match file {
                GenesisFile::Unreadable => {
                    self.fail(&mut actions, &mut running, BootError::GenesisUnreadable, Ghost(start));
                },
                GenesisFile::Read { bytes: _, bundle: None } => {
                    self.fail(&mut actions, &mut running, BootError::GenesisMalformed, Ghost(start));
                },
                GenesisFile::Read { bytes, bundle: Some(b) } => {
                    self.genesis_name = calculate_network_name(bytes.as_slice());
                    let hash = content_hash(b.bin.as_slice());
                    let key = contract_code_key(hash.as_slice());
                    let n_txs = b.txs.len();
                    let threshold = if n_txs == 0 {
                        BOOTSTRAP_BLOCK_THRESHOLD
                    } else {
                        n_txs
                    };
                    self.service_account = Some(ServiceAccount { code: b.bin, contract_hash: hash, code_key: key });
                    self.genesis_txs = b.txs;
                    self.block_settings = bootstrap_settings(threshold);
                    emit(&mut actions, &mut running, Action::StoreServiceAccount, Ghost(start));
                    emit(&mut actions, &mut running, Action::StopEngine, Ghost(start));
                    emit(&mut actions, &mut running, Action::ApplyBlockConfig, Ghost(start));
                    emit(&mut actions, &mut running, Action::ApplyBurnFuelMethod, Ghost(start));
                    emit(&mut actions, &mut running, Action::StartEngine, Ghost(start));
                    if n_txs == 0 {
                        emit(&mut actions, &mut running, Action::WatchGenesisInBackground, Ghost(start));
                        emit(&mut actions, &mut running, Action::StartRest, Ghost(start));
                        emit(&mut actions, &mut running, Action::StartBridge, Ghost(start));
                        emit(&mut actions, &mut running, Action::StartMonitor, Ghost(start));
                        self.phase = BootPhase::Operational;
                        self.background = Background::AwaitingGenesisBlock;
                    } else {
                        emit(&mut actions, &mut running, Action::StopEngine, Ghost(start));
                        emit(&mut actions, &mut running, Action::SeedPool, Ghost(start));
                        emit(&mut actions, &mut running, Action::StartEngine, Ghost(start));
                        emit(&mut actions, &mut running, Action::WatchGenesis, Ghost(start));
                        self.phase = BootPhase::AwaitingGenesisBlock;
                    }
                },
            }
        }
        self.engine_running = running;
        actions
    }

    /// Takes the end of the genesis watch: the system account exists; ask
    /// for the settings it holds.
    pub fn on_genesis_settled(&mut self) -> (actions: Vec<Action>)
        ensures
            old(self).branch == Branch::Originating && old(self).phase == BootPhase::AwaitingGenesisBlock ==> {
                &&& actions@ == seq![Action::FetchServiceSettings]
                &&& final(self).phase == BootPhase::AwaitingServiceSettings
                &&& final(self).background == old(self).background
            },
            old(self).branch == Branch::Originating && old(self).phase != BootPhase::AwaitingGenesisBlock
                && old(self).background == Background::AwaitingGenesisBlock ==> {
                &&& actions@ == seq![Action::FetchServiceSettings]
                &&& final(self).phase == old(self).phase
                &&& final(self).background == Background::AwaitingServiceSettings
            },
            !(old(self).branch == Branch::Originating && (old(self).phase == BootPhase::AwaitingGenesisBlock
                || old(self).background == Background::AwaitingGenesisBlock)) ==> {
                &&& actions@.len() == 0
                &&& final(self).phase == old(self).phase
                &&& final(self).background == old(self).background
            },
            final(self).branch == old(self).branch,
            branch_step(old(self).branch, final(self).branch, actions@),
            disciplined(actions@, old(self).engine_running),
            final(self).engine_running == engine_state(actions@, old(self).engine_running),
            keeps_genesis_data(*old(self), *final(self)),
            keeps_settings(*old(self), *final(self)),
            final(self).error == old(self).error,
    {
        let ghost start = self.engine_running;
        let mut running = self.engine_running;
        let mut actions: Vec<Action> = Vec::new();
        if self.branch == Branch::Originating {
            if self.phase == BootPhase::AwaitingGenesisBlock {
                emit(&mut actions, &mut running, Action::FetchServiceSettings, Ghost(start));
                self.phase = BootPhase::AwaitingServiceSettings;
            } else if self.background == Background::AwaitingGenesisBlock {
                emit(&mut actions, &mut running, Action::FetchServiceSettings, Ghost(start));
                self.background = Background::AwaitingServiceSettings;
            }
        }
        self.engine_running = running;
        actions
    }

    /// Takes the settings held by the new system account and renames the
    /// network after the genesis file. On this thread: persist them and load
    /// them back as a joining node does. In the background: reconfigure the
    /// engine, persist them, install the live validator predicate and start
    /// the peer service.
    pub fn on_service_settings(&mut self, reply: SettingsReply) -> (actions: Vec<Action>)
        ensures
            old(self).branch == Branch::Originating && (old(self).phase == BootPhase::AwaitingServiceSettings
                || old(self).background == Background::AwaitingServiceSettings) ==> match reply {
                SettingsReply::Settings(s) => {
                    &&& final(self).block_settings.network_name == Some(old(self).genesis_name)
                    &&& final(self).block_settings.block_threshold == s.block_threshold
                    &&& final(self).block_settings.block_timeout == s.block_timeout
                    &&& final(self).block_settings.burning_fuel_method == s.burning_fuel_method
                    &&& final(self).block_settings.accept_broadcast == s.accept_broadcast
                    &&& final(self).block_settings.is_production == s.is_production
                    &&& final(self).block_settings.min_node_version == s.min_node_version
                    &&& if old(self).phase == BootPhase::AwaitingServiceSettings {
                        &&& actions@ == seq![Action::PersistSettings, Action::LoadStoredSettings]
                        &&& final(self).phase == BootPhase::LoadingSettings
                        &&& final(self).background == old(self).background
                    } else {
                        &&& actions@ == background_finish_actions()
                        &&& final(self).phase == old(self).phase
                        &&& final(self).background == Background::Done
                        &&& final(self).network_name == old(self).genesis_name
                    }
                },
                _ => {
                    &&& actions@ == seq![Action::Abort]
                    &&& final(self).phase == BootPhase::Failed
                    &&& final(self).error == Some(settings_reply_error(reply))
                },
            },
            !(old(self).branch == Branch::Originating && (old(self).phase == BootPhase::AwaitingServiceSettings
                || old(self).background == Background::AwaitingServiceSettings)) ==> {
                &&& actions@.len() == 0
                &&& final(self).phase == old(self).phase
                &&& final(self).background == old(self).background
            },
            final(self).branch == old(self).branch,
            branch_step(old(self).branch, final(self).branch, actions@),
            disciplined(actions@, old(self).engine_running),
            final(self).engine_running == engine_state(actions@, old(self).engine_running),
            keeps_genesis_data(*old(self), *final(self)),
    {
        let ghost start = self.engine_running;
        let mut running = self.engine_running;
        let mut actions: Vec<Action> = Vec::new();
        if self.branch == Branch::Originating && (self.phase == BootPhase::AwaitingServiceSettings
            || self.background == Background::AwaitingServiceSettings) {
            match settings_from_reply(reply) {
                Err(e) => {
                    self.fail(&mut actions, &mut running, e, Ghost(start));
                },
                Ok(s) => {
                    let mut s = s;
                    s.network_name = Some(self.genesis_name.clone());
                    self.block_settings = s;
                    if self.phase == BootPhase::AwaitingServiceSettings {
                        emit(&mut actions, &mut running, Action::PersistSettings, Ghost(start));
                        emit(&mut actions, &mut running, Action::LoadStoredSettings, Ghost(start));
                        self.phase = BootPhase::LoadingSettings;
                    } else {
                        self.network_name = self.genesis_name.clone();
                        emit(&mut actions, &mut running, Action::StopEngine, Ghost(start));
                        emit(&mut actions, &mut running, Action::ApplyBlockConfig, Ghost(start));
                        emit(&mut actions, &mut running, Action::ApplyBurnFuelMethod, Ghost(start));
                        emit(&mut actions, &mut running, Action::PersistSettings, Ghost(start));
                        emit(&mut actions, &mut running, Action::InstallLiveValidator, Ghost(start));
                        emit(&mut actions, &mut running, Action::StartEngine, Ghost(start));
                        emit(&mut actions, &mut running, Action::SetPeerNetworkName, Ghost(start));
                        emit(&mut actions, &mut running, Action::StartPeer, Ghost(start));
                        self.background = Background::Done;
                    }
                },
            }
        }
        self.engine_running = running;
        actions
    }

}

} // verus!
