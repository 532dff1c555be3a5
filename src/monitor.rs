//! The monitor worker: a status snapshot of the node, refreshed from the
//! block engine on every cycle, published to a collector and written to a
//! report file.

use vstd::prelude::*;
use vstd::string::StringExecFns;
use crate::identity::{hex_encode, hex_text};
use crate::report::{
    CellAlign, TableColumn, column_view, no_rows, push_row, render_table, rows_view, table_text,
};
use crate::text::{decimal, decimal_text};
use crate::config::Config;

verus! {

/// The unconfirmed-transaction pool: its content hash and its size.
#[derive(Debug)]
pub struct UnconfirmedPool {
    pub hash: Vec<u8>,
    pub size: usize,
}

/// The last committed block: its hash, height, size and content hashes.
#[derive(Debug)]
pub struct LastBlock {
    pub hash: Vec<u8>,
    pub height: u64,
    pub size: u64,
    pub prev_hash: Vec<u8>,
    pub txs_hash: Vec<u8>,
    pub rxs_hash: Vec<u8>,
    pub state_hash: Vec<u8>,
}

/// The peer service's endpoint.
#[derive(Debug)]
pub struct P2pInfo {
    pub p2p_addr: String,
    /// P2p service tcp port.
    pub p2p_port: u16,
    /// P2P service bootstrap address.
    pub p2p_bootstrap_addr: Option<String>,
}

/// The part of the network configuration that the monitor reports.
#[derive(Debug)]
pub struct NetworkConfig {
    pub name: String,
    pub block_threshold: usize,
    pub block_timeout: u16,
}

/// The node's role.
#[derive(Clone, Copy, Debug, PartialEq, Eq, Structural)]
pub enum NodeRole {
    Ordinary,
    Validator,
}

/// The status snapshot of the node.
#[derive(Debug)]
pub struct Status {
    /// Public key of the node.
    pub public_key: String,
    /// Public key of the node on the peer network.
    pub nw_public_key: String,
    /// Local address to reach the node.
    pub ip_endpoint: Option<String>,
    /// Address of the node as seen from outside.
    pub pub_ip: Option<String>,
    pub role: NodeRole,
    pub nw_config: NetworkConfig,
    /// Version of the core.
    pub core_version: String,
    pub last_block: Option<LastBlock>,
    pub unconfirmed_pool: Option<UnconfirmedPool>,
    pub p2p_info: P2pInfo,
    /// Latest randomness-beacon seed.
    pub seed: u64,
}

/// What the monitor publishes: the node's id and its status.
#[derive(Debug)]
pub struct MonitorConfig {
    pub node_id: String,
    pub data: Status,
}

impl MonitorConfig {
    /// The snapshot at startup: identities, role and versions as given,
    /// network and peer settings from the configuration, no block and no
    /// pool yet.
    pub fn initial(
        node_id: String,
        public_key: String,
        nw_public_key: String,
        config: &Config,
        core_version: String,
        seed: u64,
    ) -> (r: MonitorConfig)
        ensures
            r.node_id == node_id,
            r.data.public_key == public_key,
            r.data.nw_public_key == nw_public_key,
            r.data.ip_endpoint == config.local_ip,
            r.data.pub_ip == config.public_ip,
            r.data.role == NodeRole::Ordinary,
            r.data.nw_config.name == config.network,
            r.data.nw_config.block_threshold == config.block_threshold,
            r.data.nw_config.block_timeout == config.block_timeout,
            r.data.core_version == core_version,
            r.data.last_block is None,
            r.data.unconfirmed_pool is None,
            r.data.p2p_info.p2p_addr == config.p2p_addr,
            r.data.p2p_info.p2p_port == config.p2p_port,
            r.data.p2p_info.p2p_bootstrap_addr == config.p2p_bootstrap_addr,
            r.data.seed == seed,
    {
        MonitorConfig {
            node_id,
            data: Status {
                public_key,
                nw_public_key,
                ip_endpoint: config.local_ip.clone(),
                pub_ip: config.public_ip.clone(),
                role: NodeRole::Ordinary,
                nw_config: NetworkConfig {
                    name: config.network.clone(),
                    block_threshold: config.block_threshold,
                    block_timeout: config.block_timeout,
                },
                core_version,
                last_block: None,
                unconfirmed_pool: None,
                p2p_info: P2pInfo {
                    p2p_addr: config.p2p_addr.clone(),
                    p2p_port: config.p2p_port,
                    p2p_bootstrap_addr: config.p2p_bootstrap_addr.clone(),
                },
                seed,
            },
        }
    }
}

/// One step for the driver of the monitor to perform.
#[derive(Clone, Copy, Debug, PartialEq, Eq, Structural)]
pub enum MonitorAction {
    /// Ask the engine for the network name; answer with `on_network_id`.
    RequestNetworkId,
    /// Sleep for `interval_secs`; answer with `on_tick`.
    Sleep,
    /// Ask the engine for its statistics; answer with `on_core_stats`.
    RequestCoreStats,
    /// Ask the engine for the beacon seed; answer with `on_seed`.
    RequestSeed,
    /// Post the snapshot to the collector; a failure is only logged.
    Publish,
    /// Overwrite the report file with `report_text`.
    SaveReport,
    /// The channel closed: the monitor ends.
    Stop,
}

/// Where the monitor stands.
#[derive(Clone, Copy, Debug, PartialEq, Eq, Structural)]
pub enum MonitorPhase {
    Idle,
    AwaitingNetworkId,
    Sleeping,
    AwaitingCoreStats,
    AwaitingSeed,
    Stopped,
}

/// The engine's answer on the network name.
#[derive(Debug)]
pub enum NetworkIdReply {
    Name(String),
    Unexpected,
    ChannelClosed,
}

/// The engine's statistics: pool hash, pool size and the last block.
#[derive(Debug)]
pub enum CoreStatsReply {
    Stats { pool_hash: Vec<u8>, pool_size: usize, block: Option<LastBlock> },
    Unexpected,
    ChannelClosed,
}

/// The engine's answer on the beacon seed.
#[derive(Clone, Copy, Debug, PartialEq, Eq, Structural)]
pub enum SeedReply {
    Seed(u64),
    Unexpected,
    ChannelClosed,
}

/// The monitor worker.
pub struct MonitorWorker {
    pub config: MonitorConfig,
    pub phase: MonitorPhase,
    /// Address of the collector the snapshot is posted to, if any.
    pub collector: Option<String>,
    /// Seconds that `Sleep` lasts.
    pub interval_secs: u64,
}

/// Seconds between two monitor cycles by default.
pub const DEFAULT_MONITOR_INTERVAL_SECS: u64 = 300;

/// The last block after a cycle that brought `block`: a new block
/// replaces the previous one whole; no block keeps it.
pub open spec fn updated_last_block(prev: Option<LastBlock>, block: Option<LastBlock>) -> Option<LastBlock> {
    match block {
        Some(b) => Some(b),
        None => prev,
    }
}

/// The actions that end a cycle.
pub open spec fn cycle_end(publish: bool) -> Seq<MonitorAction> {
    if publish {
        seq![MonitorAction::Publish, MonitorAction::SaveReport, MonitorAction::Sleep]
    } else {
        seq![MonitorAction::SaveReport, MonitorAction::Sleep]
    }
}

impl MonitorWorker {
    /// A worker over the snapshot in `config`, cycling every five minutes.
    pub fn new(config: MonitorConfig, collector: Option<String>) -> (r: Self)
        ensures
            r.config == config,
            r.collector == collector,
            r.phase == MonitorPhase::Idle,
            r.interval_secs == DEFAULT_MONITOR_INTERVAL_SECS,
    {
        MonitorWorker { config, phase: MonitorPhase::Idle, collector, interval_secs: DEFAULT_MONITOR_INTERVAL_SECS }
    }

    /// Records a cycle's statistics: the pool is replaced, by nothing where
    /// it is empty; a new last block replaces the old one whole.
    pub fn update(&mut self, block: Option<LastBlock>, unconfirmed_pool: Option<UnconfirmedPool>)
        ensures
            final(self).config == (MonitorConfig {
                data: Status {
                    unconfirmed_pool: unconfirmed_pool,
                    last_block: updated_last_block(old(self).config.data.last_block, block),
                    ..old(self).config.data
                },
                ..old(self).config
            }),
            final(self).phase == old(self).phase,
            final(self).collector == old(self).collector,
            final(self).interval_secs == old(self).interval_secs,
    {
        self.config.data.unconfirmed_pool = unconfirmed_pool;
        if let Some(b) = block {
            self.config.data.last_block = Some(b);
        }
    }

    /// Asks for the network name.
    pub fn start(&mut self) -> (actions: Vec<MonitorAction>)
        ensures
            old(self).phase == MonitorPhase::Idle ==> actions@ == seq![MonitorAction::RequestNetworkId]
                && final(self).phase == MonitorPhase::AwaitingNetworkId,
            old(self).phase != MonitorPhase::Idle ==> actions@.len() == 0 && final(self).phase == old(self).phase,
            final(self).config == old(self).config,
            final(self).collector == old(self).collector,
            final(self).interval_secs == old(self).interval_secs,
    {
        let mut actions: Vec<MonitorAction> = Vec::new();
        if self.phase == MonitorPhase::Idle {
            actions.push(MonitorAction::RequestNetworkId);
            self.phase = MonitorPhase::AwaitingNetworkId;
        }
        actions
    }

    /// Takes the network name into the snapshot, then sleeps.
    pub fn on_network_id(&mut self, reply: NetworkIdReply) -> (actions: Vec<MonitorAction>)
        ensures
            old(self).phase == MonitorPhase::AwaitingNetworkId ==> match reply {
                NetworkIdReply::Name(n) => {
                    &&& actions@ == seq![MonitorAction::Sleep]
                    &&& final(self).phase == MonitorPhase::Sleeping
                    &&& final(self).config == (MonitorConfig {
                        data: Status {
                            nw_config: NetworkConfig { name: n, ..old(self).config.data.nw_config },
                            ..old(self).config.data
                        },
                        ..old(self).config
                    })
                },
                NetworkIdReply::Unexpected => {
                    &&& actions@ == seq![MonitorAction::Sleep]
                    &&& final(self).phase == MonitorPhase::Sleeping
                    &&& final(self).config == old(self).config
                },
                NetworkIdReply::ChannelClosed => {
                    &&& actions@ == seq![MonitorAction::Stop]
                    &&& final(self).phase == MonitorPhase::Stopped
                    &&& final(self).config == old(self).config
                },
            },
            old(self).phase != MonitorPhase::AwaitingNetworkId ==> actions@.len() == 0
                && final(self).phase == old(self).phase && final(self).config == old(self).config,
            final(self).collector == old(self).collector,
            final(self).interval_secs == old(self).interval_secs,
    {
        let mut actions: Vec<MonitorAction> = Vec::new();
        if self.phase == MonitorPhase::AwaitingNetworkId {
            match reply {
                NetworkIdReply::Name(n) => {
                    self.config.data.nw_config.name = n;
                    actions.push(MonitorAction::Sleep);
                    self.phase = MonitorPhase::Sleeping;
                },
                NetworkIdReply::Unexpected => {
                    actions.push(MonitorAction::Sleep);
                    self.phase = MonitorPhase::Sleeping;
                },
                NetworkIdReply::ChannelClosed => {
                    actions.push(MonitorAction::Stop);
                    self.phase = MonitorPhase::Stopped;
                },
            }
        }
        actions
    }

    /// The interval has passed: ask for the statistics.
    pub fn on_tick(&mut self) -> (actions: Vec<MonitorAction>)
        ensures
            old(self).phase == MonitorPhase::Sleeping ==> actions@ == seq![MonitorAction::RequestCoreStats]
                && final(self).phase == MonitorPhase::AwaitingCoreStats,
            old(self).phase != MonitorPhase::Sleeping ==> actions@.len() == 0 && final(self).phase == old(self).phase,
            final(self).config == old(self).config,
            final(self).collector == old(self).collector,
            final(self).interval_secs == old(self).interval_secs,
    {
        let mut actions: Vec<MonitorAction> = Vec::new();
        if self.phase == MonitorPhase::Sleeping {
            actions.push(MonitorAction::RequestCoreStats);
            self.phase = MonitorPhase::AwaitingCoreStats;
        }
        actions
    }

    /// Takes the statistics into the snapshot, then asks for the seed.
    pub fn on_core_stats(&mut self, reply: CoreStatsReply) -> (actions: Vec<MonitorAction>)
        ensures
            old(self).phase == MonitorPhase::AwaitingCoreStats ==> match reply {
                CoreStatsReply::Stats { pool_hash, pool_size, block } => {
                    &&& actions@ == seq![MonitorAction::RequestSeed]
                    &&& final(self).phase == MonitorPhase::AwaitingSeed
                    &&& final(self).config == (MonitorConfig {
                        data: Status {
                            unconfirmed_pool: if pool_size > 0 {
                                Some(UnconfirmedPool { hash: pool_hash, size: pool_size })
                            } else {
                                None
                            },
                            last_block: updated_last_block(old(self).config.data.last_block, block),
                            ..old(self).config.data
                        },
                        ..old(self).config
                    })
                },
                CoreStatsReply::Unexpected => {
                    &&& actions@ == seq![MonitorAction::Sleep]
                    &&& final(self).phase == MonitorPhase::Sleeping
                    &&& final(self).config == old(self).config
                },
                CoreStatsReply::ChannelClosed => {
                    &&& actions@ == seq![MonitorAction::Stop]
                    &&& final(self).phase == MonitorPhase::Stopped
                    &&& final(self).config == old(self).config
                },
            },
            old(self).phase != MonitorPhase::AwaitingCoreStats ==> actions@.len() == 0
                && final(self).phase == old(self).phase && final(self).config == old(self).config,
            final(self).collector == old(self).collector,
            final(self).interval_secs == old(self).interval_secs,
    {
        let mut actions: Vec<MonitorAction> = Vec::new();
        if self.phase == MonitorPhase::AwaitingCoreStats {
            match reply {
                CoreStatsReply::Stats { pool_hash, pool_size, block } => {
                    let pool = if pool_size > 0 {
                        Some(UnconfirmedPool { hash: pool_hash, size: pool_size })
                    } else {
                        None
                    };
                    self.update(block, pool);
                    actions.push(MonitorAction::RequestSeed);
                    self.phase = MonitorPhase::AwaitingSeed;
                },
                CoreStatsReply::Unexpected => {
                    actions.push(MonitorAction::Sleep);
                    self.phase = MonitorPhase::Sleeping;
                },
                CoreStatsReply::ChannelClosed => {
                    actions.push(MonitorAction::Stop);
                    self.phase = MonitorPhase::Stopped;
                },
            }
        }
        actions
    }

    /// Takes the seed into the snapshot, then publishes the snapshot where a
    /// collector is set, writes the report and sleeps. A seed that does not
    /// come leaves the previous one.
    pub fn on_seed(&mut self, reply: SeedReply) -> (actions: Vec<MonitorAction>)
        ensures
            old(self).phase == MonitorPhase::AwaitingSeed ==> {
                &&& actions@ == cycle_end(old(self).collector is Some)
                &&& final(self).phase == MonitorPhase::Sleeping
                &&& final(self).config == (MonitorConfig {
                    data: Status {
                        seed: match reply {
                            SeedReply::Seed(s) => s,
                            _ => old(self).config.data.seed,
                        },
                        ..old(self).config.data
                    },
                    ..old(self).config
                })
            },
            old(self).phase != MonitorPhase::AwaitingSeed ==> actions@.len() == 0
                && final(self).phase == old(self).phase && final(self).config == old(self).config,
            final(self).collector == old(self).collector,
            final(self).interval_secs == old(self).interval_secs,
    {
        let mut actions: Vec<MonitorAction> = Vec::new();
        if self.phase == MonitorPhase::AwaitingSeed {
            if let SeedReply::Seed(s) = reply {
                self.config.data.seed = s;
            }
            if self.collector.is_some() {
                actions.push(MonitorAction::Publish);
            }
            actions.push(MonitorAction::SaveReport);
            actions.push(MonitorAction::Sleep);
            self.phase = MonitorPhase::Sleeping;
        }
        actions
    }
}

/// Two consecutive cycles that each bring a block: the snapshot then holds
/// the second block whole, and where the two blocks' hashes differ the
/// first hash does not remain.
pub proof fn lemma_last_block_replaced(prev: Option<LastBlock>, b1: LastBlock, b2: LastBlock)
    ensures
        updated_last_block(updated_last_block(prev, Some(b1)), Some(b2)) == Some(b2),
        b1.hash@ != b2.hash@ ==> updated_last_block(updated_last_block(prev, Some(b1)), Some(b2)).unwrap().hash@
            != b1.hash@,
{
}

/// Width of the report's tables.
pub const REPORT_WIDTH: usize = 100;

/// The report's first column: field names, left-aligned.
pub open spec fn field_column() -> (Seq<char>, CellAlign, nat) {
    ("field"@, CellAlign::Left, REPORT_WIDTH as nat)
}

/// The report's second column: values, centred.
pub open spec fn value_column() -> (Seq<char>, CellAlign, nat) {
    ("value"@, CellAlign::Center, REPORT_WIDTH as nat)
}

/// A table of the report.
pub open spec fn table_of(rows: Seq<(Seq<char>, Seq<char>)>) -> Seq<char> {
    table_text(REPORT_WIDTH as nat, field_column(), value_column(), rows)
}

/// An optional text, or `None`.
pub open spec fn text_or_none(o: Option<String>) -> Seq<char> {
    match o {
        Some(t) => t@,
        None => "None"@,
    }
}

/// The name of a role.
pub open spec fn role_text(r: NodeRole) -> Seq<char> {
    match r {
        NodeRole::Ordinary => "ordinary"@,
        NodeRole::Validator => "validator"@,
    }
}

/// The rows on the node.
pub open spec fn node_rows(d: Status) -> Seq<(Seq<char>, Seq<char>)> {
    seq![
        ("public key"@, d.public_key@),
        ("network public key"@, d.nw_public_key@),
        ("public IP"@, text_or_none(d.pub_ip)),
        ("IP end point"@, text_or_none(d.ip_endpoint)),
        ("role"@, role_text(d.role)),
        ("core version"@, d.core_version@),
    ]
}

/// The rows on the network.
pub open spec fn network_rows(c: NetworkConfig) -> Seq<(Seq<char>, Seq<char>)> {
    seq![
        ("network name"@, c.name@),
        ("block threshold"@, decimal(c.block_threshold as nat)),
        ("block timeout"@, decimal(c.block_timeout as nat)),
    ]
}

/// The rows on the peer service.
pub open spec fn p2p_rows(p: P2pInfo) -> Seq<(Seq<char>, Seq<char>)> {
    seq![
        ("p2p address"@, p.p2p_addr@),
        ("p2p port"@, decimal(p.p2p_port as nat)),
        ("p2p bootstrap address"@, text_or_none(p.p2p_bootstrap_addr)),
    ]
}

/// The rows on the last block.
pub open spec fn block_rows(b: LastBlock) -> Seq<(Seq<char>, Seq<char>)> {
    seq![
        ("hash"@, hex_text(b.hash@)),
        ("height"@, decimal(b.height as nat)),
        ("size"@, decimal(b.size as nat)),
        ("previous hash"@, hex_text(b.prev_hash@)),
        ("txs hash"@, hex_text(b.txs_hash@)),
        ("rxs hash"@, hex_text(b.rxs_hash@)),
        ("state hash"@, hex_text(b.state_hash@)),
    ]
}

/// The rows on the unconfirmed pool.
pub open spec fn pool_rows(p: UnconfirmedPool) -> Seq<(Seq<char>, Seq<char>)> {
    seq![("hash"@, hex_text(p.hash@)), ("length"@, decimal(p.size as nat))]
}

/// The last-block section: its table, or `None`.
pub open spec fn block_section(b: Option<LastBlock>) -> Seq<char> {
    match b {
        Some(b) => table_of(block_rows(b)),
        None => "None\n"@,
    }
}

/// The pool section: its table, or `None`.
pub open spec fn pool_section(p: Option<UnconfirmedPool>) -> Seq<char> {
    match p {
        Some(p) => table_of(pool_rows(p)),
        None => "None\n"@,
    }
}

/// The human-readable report of a snapshot.
pub open spec fn report_of(c: MonitorConfig) -> Seq<char> {
    "\nnode id:\n"@ + c.node_id@
        + "\n\nnode info\n"@ + table_of(node_rows(c.data))
        + "\nnetwork info\n"@ + table_of(network_rows(c.data.nw_config))
        + "\np2p info\n"@ + table_of(p2p_rows(c.data.p2p_info))
        + "\nlast block\n"@ + block_section(c.data.last_block)
        + "\nunconfirmed pool\n"@ + pool_section(c.data.unconfirmed_pool)
        + table_of(seq![("seed"@, decimal(c.data.seed as nat))])
}

fn or_none(o: &Option<String>) -> (r: String)
    ensures
        r@ == text_or_none(*o),
{
    match o {
        Some(t) => t.clone(),
        None => String::from_str("None"),
    }
}

fn table(rows: &Vec<(String, String)>) -> (r: String)
    ensures
        r@ == table_of(rows_view(rows@)),
{
    let first = TableColumn { header: String::from_str("field"), align: CellAlign::Left, max_width: REPORT_WIDTH };
    let second = TableColumn { header: String::from_str("value"), align: CellAlign::Center, max_width: REPORT_WIDTH };
    render_table(REPORT_WIDTH, &first, &second, rows)
}

fn row(rows: &mut Vec<(String, String)>, field: &str, value: String)
    ensures
        rows_view(final(rows)@) == rows_view(old(rows)@).push((field@, value@)),
{
    push_row(rows, String::from_str(field), value);
}

fn node_table(d: &Status) -> (r: String)
    ensures
        r@ == table_of(node_rows(*d)),
{
    let role = match d.role {
        NodeRole::Ordinary => String::from_str("ordinary"),
        NodeRole::Validator => String::from_str("validator"),
    };
    let mut rows = no_rows();
    row(&mut rows, "public key", d.public_key.clone());
    row(&mut rows, "network public key", d.nw_public_key.clone());
    row(&mut rows, "public IP", or_none(&d.pub_ip));
    row(&mut rows, "IP end point", or_none(&d.ip_endpoint));
    row(&mut rows, "role", role);
    row(&mut rows, "core version", d.core_version.clone());
    assert(rows_view(rows@) =~= node_rows(*d));
    table(&rows)
}

fn network_table(c: &NetworkConfig) -> (r: String)
    ensures
        r@ == table_of(network_rows(*c)),
{
    let mut rows = no_rows();
    row(&mut rows, "network name", c.name.clone());
    row(&mut rows, "block threshold", decimal_text(c.block_threshold as u64));
    row(&mut rows, "block timeout", decimal_text(c.block_timeout as u64));
    assert(rows_view(rows@) =~= network_rows(*c));
    table(&rows)
}

fn p2p_table(p: &P2pInfo) -> (r: String)
    ensures
        r@ == table_of(p2p_rows(*p)),
{
    let mut rows = no_rows();
    row(&mut rows, "p2p address", p.p2p_addr.clone());
    row(&mut rows, "p2p port", decimal_text(p.p2p_port as u64));
    row(&mut rows, "p2p bootstrap address", or_none(&p.p2p_bootstrap_addr));
    assert(rows_view(rows@) =~= p2p_rows(*p));
    table(&rows)
}

fn block_table(b: &Option<LastBlock>) -> (r: String)
    ensures
        r@ == block_section(*b),
{
    match b {
        Some(b) => {
            let mut rows = no_rows();
            row(&mut rows, "hash", hex_encode(b.hash.as_slice()));
            row(&mut rows, "height", decimal_text(b.height));
            row(&mut rows, "size", decimal_text(b.size));
            row(&mut rows, "previous hash", hex_encode(b.prev_hash.as_slice()));
            row(&mut rows, "txs hash", hex_encode(b.txs_hash.as_slice()));
            row(&mut rows, "rxs hash", hex_encode(b.rxs_hash.as_slice()));
            row(&mut rows, "state hash", hex_encode(b.state_hash.as_slice()));
            assert(rows_view(rows@) =~= block_rows(*b));
            table(&rows)
        },
        None => String::from_str("None\n"),
    }
}

fn pool_table(p: &Option<UnconfirmedPool>) -> (r: String)
    ensures
        r@ == pool_section(*p),
{
    match p {
        Some(p) => {
            let mut rows = no_rows();
            row(&mut rows, "hash", hex_encode(p.hash.as_slice()));
            row(&mut rows, "length", decimal_text(p.size as u64));
            assert(rows_view(rows@) =~= pool_rows(*p));
            table(&rows)
        },
        None => String::from_str("None\n"),
    }
}

impl MonitorWorker {
    /// The report of the current snapshot, as written to the report file.
    pub fn report_text(&self) -> (r: String)
        ensures
            r@ == report_of(self.config),
    {
        let c = &self.config;
        let mut seed_rows = no_rows();
        row(&mut seed_rows, "seed", decimal_text(c.data.seed));
        let mut out = String::from_str("\nnode id:\n");
        out.append(c.node_id.as_str());
        out.append("\n\nnode info\n");
        out.append(node_table(&c.data).as_str());
        out.append("\nnetwork info\n");
        out.append(network_table(&c.data.nw_config).as_str());
        out.append("\np2p info\n");
        out.append(p2p_table(&c.data.p2p_info).as_str());
        out.append("\nlast block\n");
        out.append(block_table(&c.data.last_block).as_str());
        out.append("\nunconfirmed pool\n");
        out.append(pool_table(&c.data.unconfirmed_pool).as_str());
        out.append(table(&seed_rows).as_str());
        out
    }
}

} // verus!
