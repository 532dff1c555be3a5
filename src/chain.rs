//! What the node learns from the block engine at boot, and the fatal boot
//! errors that the answers can raise.

use vstd::prelude::*;

verus! {

/// The network configuration that the block engine runs with.
#[derive(Clone, Debug, PartialEq)]
pub struct ChainSettings {
    /// Whether unsolicited broadcast transactions are accepted.
    pub accept_broadcast: bool,
    /// Max transactions per block.
    pub block_threshold: usize,
    /// Max seconds before a block is cut.
    pub block_timeout: u16,
    /// Name of the fuel-burning method.
    pub burning_fuel_method: String,
    /// Network name; it must be set before the settings reach the engine.
    pub network_name: Option<String>,
    /// Production network flag.
    pub is_production: bool,
    /// Minimum node software version the network accepts.
    pub min_node_version: String,
}

/// A fatal error at boot: the node cannot go on.
#[derive(Clone, Copy, Debug, PartialEq, Eq, Structural)]
pub enum BootError {
    /// The request channel to the block engine is closed.
    ChannelClosed,
    /// The block engine answered with a message of another kind.
    UnexpectedReply,
    /// The block engine answered with an error other than "not found".
    UnexpectedException,
    /// The system account does not exist where it must.
    ServiceAccountMissing,
    /// The stored settings are missing.
    SettingsMissing,
    /// The stored settings cannot be decoded.
    SettingsUndecodable,
    /// The settings carry no network name.
    NetworkNameMissing,
    /// The running core is older than the network's minimum version.
    CoreTooOld,
    /// A version string cannot be compared.
    VersionUnparsable,
    /// The genesis file cannot be read.
    GenesisUnreadable,
    /// The genesis file is not a valid genesis bundle.
    GenesisMalformed,
    /// Blocks were committed but the system account did not appear.
    GenesisNotCommitted,
}

/// The block engine's answer to a request for the system account.
#[derive(Clone, Copy, Debug, PartialEq, Eq, Structural)]
pub enum AccountReply {
    /// The account exists.
    Account,
    /// The engine reports the account as not found.
    NotFound,
    /// The engine reports another error.
    Exception,
    /// A message of another kind came back.
    Unexpected,
    /// The channel closed.
    ChannelClosed,
}

/// Whether the system account exists, or the fatal error the answer raises.
pub open spec fn presence_of(reply: AccountReply) -> Result<bool, BootError> {
    match reply {
        AccountReply::Account => Ok(true),
        AccountReply::NotFound => Ok(false),
        AccountReply::Exception => Err(BootError::UnexpectedException),
        AccountReply::Unexpected => Err(BootError::UnexpectedReply),
        AccountReply::ChannelClosed => Err(BootError::ChannelClosed),
    }
}

/// Reads the block engine's answer on the system account.
pub fn service_presence(reply: AccountReply) -> (r: Result<bool, BootError>)
    ensures
        r == presence_of(reply),
{
    match reply {
        AccountReply::Account => Ok(true),
        AccountReply::NotFound => Ok(false),
        AccountReply::Exception => Err(BootError::UnexpectedException),
        AccountReply::Unexpected => Err(BootError::UnexpectedReply),
        AccountReply::ChannelClosed => Err(BootError::ChannelClosed),
    }
}

/// The block engine's answer to a request for the settings held by the
/// system account.
#[derive(Debug)]
pub enum SettingsReply {
    /// The settings entry, decoded.
    Settings(ChainSettings),
    /// The account answered without the settings entry.
    MissingEntry,
    /// The settings entry does not decode.
    Undecodable,
    /// The engine reports the account as not found.
    NotFound,
    /// The engine reports another error.
    Exception,
    /// A message of another kind came back.
    Unexpected,
    /// The channel closed.
    ChannelClosed,
}

/// The fatal error that an answer without settings raises.
pub open spec fn settings_reply_error(reply: SettingsReply) -> BootError {
    match reply {
        SettingsReply::Settings(_) => BootError::UnexpectedReply,
        SettingsReply::MissingEntry => BootError::SettingsMissing,
        SettingsReply::Undecodable => BootError::SettingsUndecodable,
        SettingsReply::NotFound => BootError::ServiceAccountMissing,
        SettingsReply::Exception => BootError::UnexpectedException,
        SettingsReply::Unexpected => BootError::UnexpectedReply,
        SettingsReply::ChannelClosed => BootError::ChannelClosed,
    }
}

/// Takes the settings out of the block engine's answer, or the fatal error
/// that the answer raises.
pub fn settings_from_reply(reply: SettingsReply) -> (r: Result<ChainSettings, BootError>)
    ensures
        match reply {
            SettingsReply::Settings(s) => r == Ok::<ChainSettings, BootError>(s),
            _ => r == Err::<ChainSettings, BootError>(settings_reply_error(reply)),
        },
{
    match reply {
        SettingsReply::Settings(s) => Ok(s),
        SettingsReply::MissingEntry => Err(BootError::SettingsMissing),
        SettingsReply::Undecodable => Err(BootError::SettingsUndecodable),
        SettingsReply::NotFound => Err(BootError::ServiceAccountMissing),
        SettingsReply::Exception => Err(BootError::UnexpectedException),
        SettingsReply::Unexpected => Err(BootError::UnexpectedReply),
        SettingsReply::ChannelClosed => Err(BootError::ChannelClosed),
    }
}

/// The settings read back from the node's own storage.
#[derive(Debug)]
pub enum StoredSettings {
    /// The settings, decoded.
    Found(ChainSettings),
    /// Nothing is stored under the settings key.
    Missing,
    /// What is stored does not decode.
    Undecodable,
}

/// A genesis bundle: the bootstrap contract and the genesis transactions,
/// each transaction in its encoded form.
#[derive(Debug)]
pub struct GenesisBundle {
    /// Code of the bootstrap contract.
    pub bin: Vec<u8>,
    /// Genesis transactions, in order.
    pub txs: Vec<Vec<u8>>,
    /// Text that makes bundle files distinct.
    pub nonce: String,
}

/// The genesis file as read from disk.
#[derive(Debug)]
pub enum GenesisFile {
    /// The file cannot be opened or read in full.
    Unreadable,
    /// The file's bytes, and the bundle decoded from them if they decode.
    Read { bytes: Vec<u8>, bundle: Option<GenesisBundle> },
}

} // verus!
