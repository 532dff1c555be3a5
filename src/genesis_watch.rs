//! The watch that waits for the genesis block: it follows committed blocks
//! until the system account appears.
//!
//! A block committed while the account is still missing means that the
//! genesis transaction creating it failed. The watch tolerates a bounded
//! number of such blocks, `patience`, so that a slow genesis contract is no
//! false alarm, and then fails rather than wait for ever on a malformed
//! bundle.

use vstd::prelude::*;
use crate::chain::{AccountReply, BootError, presence_of, service_presence};

verus! {

/// Subscriber id under which the watch follows committed blocks.
pub const GENESIS_SUBSCRIBER_ID: &'static str = "bootstrap";

/// Blocks without the system account that the watch tolerates by default.
pub const DEFAULT_GENESIS_PATIENCE: u64 = 3;

/// One step for the driver of the watch to perform.
#[derive(Clone, Copy, Debug, PartialEq, Eq, Structural)]
pub enum WatchAction {
    /// Subscribe to committed blocks; answer with `on_subscribed`.
    Subscribe,
    /// Wait for the next message of the subscription; answer with
    /// `on_message`.
    AwaitMessage,
    /// Ask for the system account; answer with `on_presence`.
    CheckPresence,
    /// Cancel the subscription; answer with `on_unsubscribed`.
    Unsubscribe,
    /// The system account exists: the watch is over.
    Finish,
    /// Stop the process with the watch's `error`.
    Abort,
}

/// A message that the subscription delivers.
#[derive(Clone, Copy, Debug, PartialEq, Eq, Structural)]
pub enum WatchMessage {
    /// A block was committed.
    Block,
    /// A message of another kind.
    Other,
    /// The channel closed.
    ChannelClosed,
}

/// Where the watch stands.
#[derive(Clone, Copy, Debug, PartialEq, Eq, Structural)]
pub enum WatchPhase {
    Idle,
    Subscribing,
    Waiting,
    Checking,
    Unsubscribing,
    Done,
    Failed,
}

/// The state of the genesis watch.
pub struct GenesisWatch {
    pub phase: WatchPhase,
    /// Committed blocks seen without the system account.
    pub blocks_without_account: u64,
    /// Blocks without the system account tolerated before failing.
    pub patience: u64,
    pub error: Option<BootError>,
}

impl GenesisWatch {
    /// A watch that fails at the `patience`-th block committed without the
    /// system account.
    pub fn new(patience: u64) -> (r: Self)
        requires
            patience >= 1,
        ensures
            r.phase == WatchPhase::Idle,
            r.blocks_without_account == 0,
            r.patience == patience,
            r.error is None,
    {
        GenesisWatch { phase: WatchPhase::Idle, blocks_without_account: 0, patience, error: None }
    }

    fn fail(&mut self, e: BootError) -> (actions: Vec<WatchAction>)
        ensures
            actions@ == seq![WatchAction::Abort],
            final(self).phase == WatchPhase::Failed,
            final(self).error == Some(e),
            final(self).blocks_without_account == old(self).blocks_without_account,
            final(self).patience == old(self).patience,
    {
        self.phase = WatchPhase::Failed;
        self.error = Some(e);
        let mut actions: Vec<WatchAction> = Vec::new();
        actions.push(WatchAction::Abort);
        actions
    }

    /// Subscribes to committed blocks.
    pub fn start(&mut self) -> (actions: Vec<WatchAction>)
        ensures
            old(self).phase == WatchPhase::Idle ==> actions@ == seq![WatchAction::Subscribe]
                && final(self).phase == WatchPhase::Subscribing,
            old(self).phase != WatchPhase::Idle ==> actions@.len() == 0 && final(self).phase == old(self).phase,
            final(self).blocks_without_account == old(self).blocks_without_account,
            final(self).patience == old(self).patience,
    {
        let mut actions: Vec<WatchAction> = Vec::new();
        if self.phase == WatchPhase::Idle {
            actions.push(WatchAction::Subscribe);
            self.phase = WatchPhase::Subscribing;
        }
        actions
    }

    /// Takes the outcome of the subscription request.
    pub fn on_subscribed(&mut self, ok: bool) -> (actions: Vec<WatchAction>)
        ensures
            old(self).phase == WatchPhase::Subscribing && ok ==> actions@ == seq![WatchAction::AwaitMessage]
                && final(self).phase == WatchPhase::Waiting,
            old(self).phase == WatchPhase::Subscribing && !ok ==> actions@ == seq![WatchAction::Abort]
                && final(self).phase == WatchPhase::Failed
                && final(self).error == Some(BootError::ChannelClosed),
            old(self).phase != WatchPhase::Subscribing ==> actions@.len() == 0 && final(self).phase == old(self).phase,
            final(self).blocks_without_account == old(self).blocks_without_account,
            final(self).patience == old(self).patience,
    {
        let mut actions: Vec<WatchAction> = Vec::new();
        if self.phase == WatchPhase::Subscribing {
            if ok {
                actions.push(WatchAction::AwaitMessage);
                self.phase = WatchPhase::Waiting;
            } else {
                return self.fail(BootError::ChannelClosed);
            }
        }
        actions
    }

    /// Takes a message of the subscription: a committed block calls for a
    /// look at the system account, another message is passed over, a closed
    /// channel is fatal.
    pub fn on_message(&mut self, msg: WatchMessage) -> (actions: Vec<WatchAction>)
        ensures
            old(self).phase == WatchPhase::Waiting ==> match msg {
                WatchMessage::Block => actions@ == seq![WatchAction::CheckPresence]
                    && final(self).phase == WatchPhase::Checking,
                WatchMessage::Other => actions@ == seq![WatchAction::AwaitMessage]
                    && final(self).phase == WatchPhase::Waiting,
                WatchMessage::ChannelClosed => actions@ == seq![WatchAction::Abort]
                    && final(self).phase == WatchPhase::Failed
                    && final(self).error == Some(BootError::ChannelClosed),
            },
            old(self).phase != WatchPhase::Waiting ==> actions@.len() == 0 && final(self).phase == old(self).phase,
            final(self).blocks_without_account == old(self).blocks_without_account,
            final(self).patience == old(self).patience,
    {
        let mut actions: Vec<WatchAction> = Vec::new();
        if self.phase == WatchPhase::Waiting {
            match msg {
                WatchMessage::Block => {
                    actions.push(WatchAction::CheckPresence);
                    self.phase = WatchPhase::Checking;
                },
                WatchMessage::Other => {
                    actions.push(WatchAction::AwaitMessage);
                },
                WatchMessage::ChannelClosed => {
                    return self.fail(BootError::ChannelClosed);
                },
            }
        }
        actions
    }

    /// Takes the answer on the system account after a committed block.
    pub fn on_presence(&mut self, reply: AccountReply) -> (actions: Vec<WatchAction>)
        ensures
            old(self).phase == WatchPhase::Checking ==> match presence_of(reply) {
                Ok(true) => actions@ == seq![WatchAction::Unsubscribe]
                    && final(self).phase == WatchPhase::Unsubscribing
                    && final(self).blocks_without_account == old(self).blocks_without_account,
                Ok(false) => if old(self).blocks_without_account + 1 >= old(self).patience {
                    &&& actions@ == seq![WatchAction::Abort]
                    &&& final(self).phase == WatchPhase::Failed
                    &&& final(self).error == Some(BootError::GenesisNotCommitted)
                    &&& final(self).blocks_without_account == old(self).blocks_without_account
                } else {
                    &&& actions@ == seq![WatchAction::AwaitMessage]
                    &&& final(self).phase == WatchPhase::Waiting
                    &&& final(self).blocks_without_account == old(self).blocks_without_account + 1
                },
                Err(e) => actions@ == seq![WatchAction::Abort]
                    && final(self).phase == WatchPhase::Failed
                    && final(self).error == Some(e),
            },
            old(self).phase != WatchPhase::Checking ==> actions@.len() == 0 && final(self).phase == old(self).phase
                && final(self).blocks_without_account == old(self).blocks_without_account,
            final(self).patience == old(self).patience,
    {
        let mut actions: Vec<WatchAction> = Vec::new();
        if self.phase == WatchPhase::Checking {
            match service_presence(reply) {
                Ok(true) => {
                    actions.push(WatchAction::Unsubscribe);
                    self.phase = WatchPhase::Unsubscribing;
                },
                Ok(false) => {
                    if self.patience == 0 || self.blocks_without_account >= self.patience - 1 {
                        return self.fail(BootError::GenesisNotCommitted);
                    }
                    self.blocks_without_account = self.blocks_without_account + 1;
                    actions.push(WatchAction::AwaitMessage);
                    self.phase = WatchPhase::Waiting;
                },
                Err(e) => {
                    return self.fail(e);
                },
            }
        }
        actions
    }

    /// Takes the outcome of the unsubscription.
    pub fn on_unsubscribed(&mut self, ok: bool) -> (actions: Vec<WatchAction>)
        ensures
            old(self).phase == WatchPhase::Unsubscribing && ok ==> actions@ == seq![WatchAction::Finish]
                && final(self).phase == WatchPhase::Done,
            old(self).phase == WatchPhase::Unsubscribing && !ok ==> actions@ == seq![WatchAction::Abort]
                && final(self).phase == WatchPhase::Failed
                && final(self).error == Some(BootError::ChannelClosed),
            old(self).phase != WatchPhase::Unsubscribing ==> actions@.len() == 0 && final(self).phase == old(self).phase,
            final(self).blocks_without_account == old(self).blocks_without_account,
            final(self).patience == old(self).patience,
    {
        let mut actions: Vec<WatchAction> = Vec::new();
        if self.phase == WatchPhase::Unsubscribing {
            if ok {
                actions.push(WatchAction::Finish);
                self.phase = WatchPhase::Done;
            } else {
                return self.fail(BootError::ChannelClosed);
            }
        }
        actions
    }
}

} // verus!
