use trinci_node::monitor::{
    CoreStatsReply, LastBlock, MonitorAction, MonitorConfig, MonitorPhase, MonitorWorker,
    NetworkConfig, NetworkIdReply, NodeRole, P2pInfo, SeedReply, Status,
};

fn status() -> Status {
    Status {
        public_key: "node-key".to_string(),
        nw_public_key: "peer-key".to_string(),
        ip_endpoint: None,
        pub_ip: Some("8.8.4.4".to_string()),
        role: NodeRole::Ordinary,
        nw_config: NetworkConfig { name: "bootstrap".to_string(), block_threshold: 42, block_timeout: 3 },
        core_version: "0.2.6".to_string(),
        last_block: None,
        unconfirmed_pool: None,
        p2p_info: P2pInfo { p2p_addr: "127.0.0.1".to_string(), p2p_port: 0, p2p_bootstrap_addr: None },
        seed: 7,
    }
}

fn block(hash: u8, height: u64) -> LastBlock {
    LastBlock {
        hash: vec![hash; 4],
        height,
        size: 2,
        prev_hash: vec![0xab],
        txs_hash: vec![0x01],
        rxs_hash: vec![0x02],
        state_hash: vec![0x03],
    }
}

fn worker(collector: Option<String>) -> MonitorWorker {
    MonitorWorker::new(MonitorConfig { node_id: "node-id".to_string(), data: status() }, collector)
}

fn stats(block: Option<LastBlock>, pool_size: usize) -> CoreStatsReply {
    CoreStatsReply::Stats { pool_hash: vec![0xee, 0x01], pool_size, block }
}

#[test]
fn last_block_is_replaced_whole() {
    let mut w = worker(None);
    w.update(Some(block(0x11, 1)), None);
    w.update(Some(block(0x22, 2)), None);
    let last = w.config.data.last_block.as_ref().unwrap();
    assert_eq!(last.hash, vec![0x22; 4]);
    assert_eq!(last.height, 2);
    w.update(None, None);
    assert_eq!(w.config.data.last_block.as_ref().unwrap().hash, vec![0x22; 4]);
}

#[test]
fn monitor_cycle() {
    let mut w = worker(Some("http://collector".to_string()));
    assert_eq!(w.start(), vec![MonitorAction::RequestNetworkId]);
    assert_eq!(w.on_network_id(NetworkIdReply::Name("QmNet".to_string())), vec![MonitorAction::Sleep]);
    assert_eq!(w.config.data.nw_config.name, "QmNet");
    assert_eq!(w.on_tick(), vec![MonitorAction::RequestCoreStats]);
    assert_eq!(w.on_core_stats(stats(Some(block(0x11, 5)), 3)), vec![MonitorAction::RequestSeed]);
    assert_eq!(w.config.data.unconfirmed_pool.as_ref().unwrap().size, 3);
    assert_eq!(
        w.on_seed(SeedReply::Seed(99)),
        vec![MonitorAction::Publish, MonitorAction::SaveReport, MonitorAction::Sleep]
    );
    assert_eq!(w.config.data.seed, 99);
    w.on_tick();
    w.on_core_stats(stats(None, 0));
    assert!(w.config.data.unconfirmed_pool.is_none());
    assert_eq!(w.config.data.last_block.as_ref().unwrap().height, 5);
    w.on_seed(SeedReply::ChannelClosed);
    assert_eq!(w.config.data.seed, 99);
    w.on_tick();
    assert_eq!(w.on_core_stats(CoreStatsReply::ChannelClosed), vec![MonitorAction::Stop]);
    assert_eq!(w.phase, MonitorPhase::Stopped);
}

#[test]
fn no_collector_skips_publish() {
    let mut w = worker(None);
    w.start();
    w.on_network_id(NetworkIdReply::Unexpected);
    assert_eq!(w.config.data.nw_config.name, "bootstrap");
    w.on_tick();
    w.on_core_stats(stats(None, 1));
    assert_eq!(w.on_seed(SeedReply::Unexpected), vec![MonitorAction::SaveReport, MonitorAction::Sleep]);
}

#[test]
fn report_sections() {
    let mut w = worker(None);
    let empty = w.report_text();
    assert!(empty.starts_with("\nnode id:\nnode-id\n\nnode info\n"));
    assert!(empty.contains("\nlast block\nNone\n\nunconfirmed pool\nNone\n"));
    assert!(empty.contains("network public key"));
    assert!(empty.contains("8.8.4.4"));
    assert!(empty.contains("ordinary"));
    w.update(Some(block(0x1f, 1234)), None);
    let full = w.report_text();
    assert!(full.contains("1f1f1f1f"));
    assert!(full.contains("1234"));
    assert!(full.contains("state hash"));
    assert!(!full.contains("\nlast block\nNone"));
}

#[test]
fn initial_snapshot_from_configuration() {
    let mut config = trinci_node::config::Config::default();
    config.local_ip = Some("10.0.0.2".to_string());
    config.p2p_port = 4000;
    let c = MonitorConfig::initial(
        "node".to_string(),
        "pk".to_string(),
        "npk".to_string(),
        &config,
        "0.2.6".to_string(),
        11,
    );
    assert_eq!(c.node_id, "node");
    assert_eq!(c.data.nw_config.name, "bootstrap");
    assert_eq!(c.data.nw_config.block_threshold, 42);
    assert_eq!(c.data.ip_endpoint.as_deref(), Some("10.0.0.2"));
    assert_eq!(c.data.pub_ip, None);
    assert_eq!(c.data.p2p_info.p2p_port, 4000);
    assert_eq!(c.data.role, NodeRole::Ordinary);
    assert!(c.data.last_block.is_none());
    assert_eq!(c.data.seed, 11);
    let w = MonitorWorker::new(c, None);
    assert_eq!(w.interval_secs, 300);
}
