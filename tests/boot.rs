use trinci_node::chain::{
    service_presence, settings_from_reply, AccountReply, BootError, ChainSettings, GenesisBundle,
    GenesisFile, SettingsReply, StoredSettings,
};
use trinci_node::genesis_watch::{GenesisWatch, WatchAction, WatchMessage, WatchPhase};
use trinci_node::orchestrator::{Action, Background, BootPhase, Branch, Orchestrator};
use trinci_node::supervisor::{shutdown_plan, Liveness, Service};
use trinci_node::version::{check_version, min_version_gate, VersionNotice, VersionRefusal};

fn booting() -> Orchestrator {
    let mut o = Orchestrator::new("bootstrap".to_string(), 42, 3, "0.2.6".to_string());
    assert_eq!(o.begin(), vec![Action::StartEngine, Action::ResolveServiceAccount]);
    o
}

fn settings(min_version: &str, name: Option<&str>) -> ChainSettings {
    ChainSettings {
        accept_broadcast: true,
        block_threshold: 100,
        block_timeout: 5,
        burning_fuel_method: "burn".to_string(),
        network_name: name.map(|n| n.to_string()),
        is_production: false,
        min_node_version: min_version.to_string(),
    }
}

fn genesis(txs: Vec<Vec<u8>>) -> GenesisFile {
    GenesisFile::Read {
        bytes: b"genesis-bytes".to_vec(),
        bundle: Some(GenesisBundle { bin: vec![1, 2, 3], txs, nonce: "n".to_string() }),
    }
}

fn is_network_facing(a: &Action) -> bool {
    matches!(a, Action::StartRest | Action::StartPeer | Action::StartBridge | Action::StartMonitor)
}

#[test]
fn genesis_without_transactions_watches_in_background() {
    let mut o = booting();
    assert_eq!(o.on_presence(AccountReply::NotFound), vec![Action::LoadGenesis]);
    let actions = o.on_genesis(genesis(vec![]));
    assert_eq!(o.block_settings.network_name.as_deref(), Some("bootstrap"));
    assert_eq!(o.block_settings.block_threshold, 42);
    assert_eq!(o.block_settings.block_timeout, 2);
    assert!(actions.contains(&Action::WatchGenesisInBackground));
    assert!(!actions.contains(&Action::WatchGenesis));
    assert!(!actions.contains(&Action::StartPeer));
    assert_eq!(
        actions,
        vec![
            Action::StoreServiceAccount,
            Action::StopEngine,
            Action::ApplyBlockConfig,
            Action::ApplyBurnFuelMethod,
            Action::StartEngine,
            Action::WatchGenesisInBackground,
            Action::StartRest,
            Action::StartBridge,
            Action::StartMonitor,
        ]
    );
    assert_eq!(o.phase, BootPhase::Operational);
    assert_eq!(o.background, Background::AwaitingGenesisBlock);
    assert_eq!(o.genesis_name, "Qmb98cBzFEHvDmphRyrgkwVuAzLVpZ7Ks7dtvQ9mxSbXzm");

    assert_eq!(o.on_genesis_settled(), vec![Action::FetchServiceSettings]);
    let finish = o.on_service_settings(SettingsReply::Settings(settings("0.1.0", Some("x"))));
    assert_eq!(
        finish,
        vec![
            Action::StopEngine,
            Action::ApplyBlockConfig,
            Action::ApplyBurnFuelMethod,
            Action::PersistSettings,
            Action::InstallLiveValidator,
            Action::StartEngine,
            Action::SetPeerNetworkName,
            Action::StartPeer,
        ]
    );
    assert_eq!(o.network_name, "Qmb98cBzFEHvDmphRyrgkwVuAzLVpZ7Ks7dtvQ9mxSbXzm");
    assert_eq!(o.block_settings.network_name.as_deref(), Some("Qmb98cBzFEHvDmphRyrgkwVuAzLVpZ7Ks7dtvQ9mxSbXzm"));
    assert_eq!(o.background, Background::Done);
}

#[test]
fn genesis_with_transactions_blocks_on_watch() {
    let mut o = booting();
    o.on_presence(AccountReply::NotFound);
    let txs = vec![vec![10u8], vec![20u8, 21], vec![30u8]];
    let actions = o.on_genesis(genesis(txs.clone()));
    assert_eq!(o.block_settings.block_threshold, 3);
    assert_eq!(o.genesis_txs, txs);
    assert_eq!(
        actions,
        vec![
            Action::StoreServiceAccount,
            Action::StopEngine,
            Action::ApplyBlockConfig,
            Action::ApplyBurnFuelMethod,
            Action::StartEngine,
            Action::StopEngine,
            Action::SeedPool,
            Action::StartEngine,
            Action::WatchGenesis,
        ]
    );
    assert!(!actions.iter().any(is_network_facing));
    assert_eq!(o.phase, BootPhase::AwaitingGenesisBlock);

    assert_eq!(o.on_genesis_settled(), vec![Action::FetchServiceSettings]);
    assert_eq!(
        o.on_service_settings(SettingsReply::Settings(settings("0.1.0", None))),
        vec![Action::PersistSettings, Action::LoadStoredSettings]
    );
    let stored = o.block_settings.clone();
    let join = o.on_stored_settings(StoredSettings::Found(stored));
    assert_eq!(join.last(), Some(&Action::StartMonitor));
    assert!(join.contains(&Action::StartPeer));
    assert_eq!(o.phase, BootPhase::Operational);
    assert_eq!(o.network_name, "Qmb98cBzFEHvDmphRyrgkwVuAzLVpZ7Ks7dtvQ9mxSbXzm");
}

#[test]
fn newer_minimum_version_aborts_before_services() {
    let mut o = booting();
    assert_eq!(o.on_presence(AccountReply::Account), vec![Action::LoadStoredSettings]);
    let actions = o.on_stored_settings(StoredSettings::Found(settings("9.9.9", Some("net"))));
    assert_eq!(actions, vec![Action::Abort]);
    assert!(!actions.iter().any(is_network_facing));
    assert_eq!(o.phase, BootPhase::Failed);
    assert_eq!(o.error, Some(BootError::CoreTooOld));
}

#[test]
fn joining_node_reconfigures_then_starts_services() {
    let mut o = booting();
    o.on_presence(AccountReply::Account);
    assert_eq!(o.branch, Branch::Joining);
    let actions = o.on_stored_settings(StoredSettings::Found(settings("0.2.6", Some("net"))));
    assert_eq!(
        actions,
        vec![
            Action::StopEngine,
            Action::ApplyBlockConfig,
            Action::ApplyBurnFuelMethod,
            Action::StartEngine,
            Action::StopEngine,
            Action::InstallLiveValidator,
            Action::StartEngine,
            Action::SetPeerNetworkName,
            Action::StartRest,
            Action::StartPeer,
            Action::StartBridge,
            Action::StartMonitor,
        ]
    );
    assert_eq!(o.network_name, "net");
    assert_eq!(o.block_settings.block_threshold, 100);
    assert!(o.engine_running);
    assert!(o.on_genesis(genesis(vec![])).is_empty());
    assert_eq!(o.branch, Branch::Joining);
}

#[test]
fn joining_errors() {
    let mut o = booting();
    o.on_presence(AccountReply::Account);
    assert_eq!(o.on_stored_settings(StoredSettings::Found(settings("0.1", None))), vec![Action::Abort]);
    assert_eq!(o.error, Some(BootError::NetworkNameMissing));

    let mut o = booting();
    o.on_presence(AccountReply::Account);
    o.on_stored_settings(StoredSettings::Missing);
    assert_eq!(o.error, Some(BootError::SettingsMissing));

    let mut o = booting();
    o.on_presence(AccountReply::Account);
    o.on_stored_settings(StoredSettings::Undecodable);
    assert_eq!(o.error, Some(BootError::SettingsUndecodable));
}

#[test]
fn presence_errors_abort() {
    for (reply, err) in [
        (AccountReply::Exception, BootError::UnexpectedException),
        (AccountReply::Unexpected, BootError::UnexpectedReply),
        (AccountReply::ChannelClosed, BootError::ChannelClosed),
    ] {
        let mut o = booting();
        assert_eq!(o.on_presence(reply), vec![Action::Abort]);
        assert_eq!(o.error, Some(err));
        assert_eq!(o.branch, Branch::Undecided);
    }
    assert_eq!(service_presence(AccountReply::Account), Ok(true));
    assert_eq!(service_presence(AccountReply::NotFound), Ok(false));
}

#[test]
fn genesis_file_errors() {
    let mut o = booting();
    o.on_presence(AccountReply::NotFound);
    assert_eq!(o.on_genesis(GenesisFile::Unreadable), vec![Action::Abort]);
    assert_eq!(o.error, Some(BootError::GenesisUnreadable));

    let mut o = booting();
    o.on_presence(AccountReply::NotFound);
    o.on_genesis(GenesisFile::Read { bytes: vec![0xff], bundle: None });
    assert_eq!(o.error, Some(BootError::GenesisMalformed));
}

#[test]
fn service_account_record() {
    let mut o = booting();
    o.on_presence(AccountReply::NotFound);
    o.on_genesis(genesis(vec![]));
    let acc = o.service_account.as_ref().unwrap();
    assert_eq!(acc.code, vec![1, 2, 3]);
    assert_eq!(
        acc.code_key,
        "contracts:code:1220039058c6f2c0cb492c533b0a4d14ef77cc0f78abccced5287d84a1a2011cfb81"
    );
    assert_eq!(acc.contract_hash.len(), 34);
}

#[test]
fn settings_reply_errors() {
    assert_eq!(settings_from_reply(SettingsReply::MissingEntry).err(), Some(BootError::SettingsMissing));
    assert_eq!(settings_from_reply(SettingsReply::Undecodable).err(), Some(BootError::SettingsUndecodable));
    assert_eq!(settings_from_reply(SettingsReply::NotFound).err(), Some(BootError::ServiceAccountMissing));
    assert_eq!(settings_from_reply(SettingsReply::Exception).err(), Some(BootError::UnexpectedException));
    assert_eq!(settings_from_reply(SettingsReply::Unexpected).err(), Some(BootError::UnexpectedReply));
    assert_eq!(settings_from_reply(SettingsReply::ChannelClosed).err(), Some(BootError::ChannelClosed));
    assert_eq!(
        settings_from_reply(SettingsReply::Settings(settings("1", Some("a")))).ok(),
        Some(settings("1", Some("a")))
    );
}

#[test]
fn watch_finishes_when_account_appears() {
    let mut w = GenesisWatch::new(3);
    assert_eq!(w.start(), vec![WatchAction::Subscribe]);
    assert_eq!(w.on_subscribed(true), vec![WatchAction::AwaitMessage]);
    assert_eq!(w.on_message(WatchMessage::Other), vec![WatchAction::AwaitMessage]);
    assert_eq!(w.on_message(WatchMessage::Block), vec![WatchAction::CheckPresence]);
    assert_eq!(w.on_presence(AccountReply::NotFound), vec![WatchAction::AwaitMessage]);
    assert_eq!(w.blocks_without_account, 1);
    assert_eq!(w.on_message(WatchMessage::Block), vec![WatchAction::CheckPresence]);
    assert_eq!(w.on_presence(AccountReply::Account), vec![WatchAction::Unsubscribe]);
    assert_eq!(w.on_unsubscribed(true), vec![WatchAction::Finish]);
    assert_eq!(w.phase, WatchPhase::Done);
}

#[test]
fn watch_gives_up_after_patience() {
    let mut w = GenesisWatch::new(2);
    w.start();
    w.on_subscribed(true);
    w.on_message(WatchMessage::Block);
    assert_eq!(w.on_presence(AccountReply::NotFound), vec![WatchAction::AwaitMessage]);
    w.on_message(WatchMessage::Block);
    assert_eq!(w.on_presence(AccountReply::NotFound), vec![WatchAction::Abort]);
    assert_eq!(w.error, Some(BootError::GenesisNotCommitted));

    let mut w = GenesisWatch::new(1);
    w.start();
    w.on_subscribed(true);
    assert_eq!(w.on_message(WatchMessage::ChannelClosed), vec![WatchAction::Abort]);
    assert_eq!(w.error, Some(BootError::ChannelClosed));
}

#[test]
fn bridge_down_stops_every_service_once() {
    let l = Liveness { block: true, rest: true, peer: true, bridge: false, monitor: Some(true) };
    let plan = shutdown_plan(l).unwrap();
    assert_eq!(
        plan,
        vec![Service::Block, Service::Rest, Service::Peer, Service::Bridge, Service::Monitor]
    );
    for s in [Service::Block, Service::Rest, Service::Peer, Service::Monitor] {
        assert_eq!(plan.iter().filter(|x| **x == s).count(), 1);
    }
}

#[test]
fn all_running_keeps_going() {
    let l = Liveness { block: true, rest: true, peer: true, bridge: true, monitor: None };
    assert_eq!(shutdown_plan(l), None);
    let l = Liveness { block: false, rest: true, peer: true, bridge: true, monitor: None };
    assert_eq!(shutdown_plan(l), Some(vec![Service::Block, Service::Rest, Service::Peer, Service::Bridge]));
}

#[test]
fn version_gate_and_notices() {
    assert_eq!(min_version_gate("0.2.6", "0.2.6"), Ok(()));
    assert_eq!(min_version_gate("0.3.0", "0.2.6"), Ok(()));
    assert_eq!(min_version_gate("0.2.5", "0.2.6"), Err(VersionRefusal::TooOld));
    assert_eq!(min_version_gate("0.2.6", "abc"), Err(VersionRefusal::Unparsable));
    let v = |a: &str, b: &str| (a.to_string(), b.to_string());
    assert_eq!(check_version(v("1.0.0", "0.2.6"), v("1.0.1", "0.2.6")), VersionNotice::NodeOutdated);
    assert_eq!(check_version(v("1.0.2", "0.2.6"), v("1.0.1", "0.2.6")), VersionNotice::NodeNewer);
    assert_eq!(check_version(v("1.0.0", "0.2.6"), v("1.0.0", "0.2.5")), VersionNotice::CoreOutdated);
    assert_eq!(check_version(v("1.0.0", "0.2.6"), v("1.0.0", "0.2.7")), VersionNotice::CoreNewer);
    assert_eq!(check_version(v("1.0.0", "0.2.6"), v("1.0.0", "0.2.6")), VersionNotice::UpToDate);
    assert_eq!(check_version(v("abc", "0.2.6"), v("1.0.0", "0.2.6")), VersionNotice::Unparsable);
}

#[test]
fn empty_bundle_leaves_no_transactions() {
    let mut o = booting();
    o.on_presence(AccountReply::NotFound);
    o.on_genesis(genesis(vec![]));
    assert!(o.genesis_txs.is_empty());
    let fresh = Orchestrator::new("net".to_string(), 5, 6, "0.2.6".to_string());
    assert!(!fresh.block_settings.accept_broadcast);
    assert!(!fresh.block_settings.is_production);
    assert_eq!(fresh.block_settings.burning_fuel_method, "");
    assert_eq!(fresh.block_settings.min_node_version, "");
    assert_eq!(fresh.network_name, "net");
}
