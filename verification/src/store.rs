//! The command store: a concurrency-safe holder of the single latest
//! motion command. The message-delivery side overwrites it whole; the
//! step loop reads a full, consistent copy. The reader-writer lock makes
//! a read observe either the pre-update or the post-update command, never
//! a mix of the two.

use vstd::prelude::*;
use vstd::rwlock::{RwLock, RwLockPredicate};

use crate::command::{adopt, MotionCommand};

verus! {

/// One inbound delivery from the bus, by command category.
pub enum InboundMessage {
    /// A motion-control command, with the outcome of decoding its
    /// payload: `None` when the payload was malformed.
    Control(Option<MotionCommand>),
    /// A gear command: a category the bridge recognizes and deliberately
    /// ignores.
    Gear,
    /// An operation-mode command: recognized and deliberately ignored.
    Mode,
}

/// What became of one inbound delivery.
#[derive(Clone, Copy, PartialEq, Eq, Structural, Debug)]
pub enum Disposition {
    /// The decoded command replaced the stored one wholesale.
    Adopted,
    /// The payload was malformed; the stale stored command was kept.
    DroppedMalformed,
    /// The category is recognized and ignored by design.
    Ignored,
}

/// Invariant on the stored slot: whatever command is in the store is well
/// formed, whichever context put it there.
pub struct StoredCommand;

impl RwLockPredicate<MotionCommand> for StoredCommand {
    open spec fn inv(self, c: MotionCommand) -> bool {
        c.wf()
    }
}

/// Single-slot "latest command" store. `update` and `submit` may run from
/// the message-delivery context concurrently with `read` from the step
/// loop; each replaces or copies the whole command under the lock.
pub struct CommandStore {
    lock: RwLock<MotionCommand, StoredCommand>,
}

impl CommandStore {
    /// A fresh store holding the neutral command, so a bridge that has
    /// never received a command coasts.
    pub fn new() -> (s: CommandStore) {
        CommandStore { lock: RwLock::new(MotionCommand::neutral(), Ghost(StoredCommand)) }
    }

    /// Replaces the stored command wholesale.
    pub fn update(&self, cmd: MotionCommand)
        requires
            cmd.wf(),
    {
        let (_prev, handle) = self.lock.acquire_write();
        handle.release_write(cmd);
    }

    /// Returns a full, consistent copy of the stored command.
    pub fn read(&self) -> (r: MotionCommand)
        ensures
            r.wf(),
    {
        let handle = self.lock.acquire_read();
        let r = *handle.borrow();
        handle.release_read();
        r
    }

    /// Applies the outcome of decoding one inbound message: a decoded
    /// command replaces the stored one in full, a decode failure (`None`)
    /// leaves the store unchanged.
    pub fn submit(&self, decoded: Option<MotionCommand>)
        requires
            decoded matches Some(c) ==> c.wf(),
    {
        let (current, handle) = self.lock.acquire_write();
        let next = adopt(current, decoded);
        handle.release_write(next);
    }

    /// Routes one inbound delivery by category: control commands pass
    /// through the adoption policy; gear and operation-mode commands are
    /// accepted and ignored — a recognized functional gap, not an error.
    pub fn deliver(&self, msg: InboundMessage) -> (d: Disposition)
        requires
            msg matches InboundMessage::Control(decoded) ==> (decoded matches Some(c)
                ==> c.wf()),
        ensures
            msg matches InboundMessage::Control(decoded) ==> d == (if decoded is Some {
                Disposition::Adopted
            } else {
                Disposition::DroppedMalformed
            }),
            msg is Gear || msg is Mode ==> d == Disposition::Ignored,
    {
        match msg {
            InboundMessage::Control(decoded) => {
                let adopted = decoded.is_some();
                self.submit(decoded);
                if adopted {
                    Disposition::Adopted
                } else {
                    Disposition::DroppedMalformed
                }
            },
            InboundMessage::Gear => Disposition::Ignored,
            InboundMessage::Mode => Disposition::Ignored,
        }
    }
}

} // verus!
