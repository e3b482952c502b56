//! Notices that go away by themselves.
//!
//! A notice is shown until a timer removes it. The timer is a thread of the
//! host that sleeps and then posts an event, so it may fire when a later
//! notice is already on display. Every notice therefore gets a number of its
//! own, the epoch, and a timer removes what is shown only if its epoch is
//! still the current one.

use crate::ui::DemoUI;
use vstd::prelude::*;

verus! {

/// The time in seconds that a notice is shown for.
pub const MESSAGE_TIMEOUT_SECS: u64 = 5;

/// What the host has to schedule for a notice: after `delay_secs` seconds,
/// post a user event of type `event_id` with `epoch` as its data.
#[derive(Clone, Copy, Debug, PartialEq, Eq, Structural)]
pub struct ExpiryNotice {
    pub event_id: u32,
    pub epoch: u32,
    pub delay_secs: u64,
}

/// The notice on display and the epoch of the latest one.
pub struct MessageBoard {
    pub message: Seq<char>,
    pub epoch: u32,
}

impl MessageBoard {
    /// Whether another notice can be numbered. An empty text is no notice
    /// and needs no number.
    pub open spec fn can_post(self, message: Seq<char>) -> bool {
        message.len() > 0 ==> self.epoch < u32::MAX
    }

    /// The board after `message` was posted. An empty text changes nothing.
    pub open spec fn posted(self, message: Seq<char>) -> MessageBoard {
        if message.len() == 0 {
            self
        } else {
            MessageBoard { message, epoch: (self.epoch + 1) as u32 }
        }
    }

    /// What is to be scheduled when `message` is posted.
    pub open spec fn notice_for(self, event_id: u32, message: Seq<char>) -> Option<ExpiryNotice> {
        if message.len() == 0 {
            None
        } else {
            Some(
                ExpiryNotice {
                    event_id,
                    epoch: (self.epoch + 1) as u32,
                    delay_secs: MESSAGE_TIMEOUT_SECS,
                },
            )
        }
    }

    /// Whether a timer for `epoch` still speaks of the notice on display.
    pub open spec fn is_current(self, epoch: u32) -> bool {
        epoch == self.epoch
    }

    /// The board after the timer for `epoch` fired.
    pub open spec fn expired(self, epoch: u32) -> MessageBoard {
        if self.is_current(epoch) {
            MessageBoard { message: Seq::empty(), epoch: self.epoch }
        } else {
            self
        }
    }

    /// The board after each of `messages` was posted in turn.
    pub open spec fn posted_all(self, messages: Seq<Seq<char>>) -> MessageBoard
        decreases messages.len(),
    {
        if messages.len() == 0 {
            self
        } else {
            self.posted_all(messages.drop_last()).posted(messages.last())
        }
    }
}

/// The board that a viewer shows: the text among its controls, and its
/// counter.
pub open spec fn board_of(ui: DemoUI, epoch: u32) -> MessageBoard {
    MessageBoard { message: ui.message@, epoch }
}

/// Shows `message` and numbers it, and says what the host has to schedule so
/// that the notice goes away. An empty text is no notice: nothing changes and
/// nothing is scheduled.
pub fn emit_message(
    ui: &mut DemoUI,
    message_epoch: &mut u32,
    expire_message_event_id: u32,
    message: String,
) -> (notice: Option<ExpiryNotice>)
    requires
        board_of(*old(ui), *old(message_epoch)).can_post(message@),
    ensures
        board_of(*final(ui), *final(message_epoch)) == board_of(
            *old(ui),
            *old(message_epoch),
        ).posted(message@),
        final(ui)@ == (crate::ui::DemoUIView { message: final(ui).message@, ..old(ui)@ }),
        notice == board_of(*old(ui), *old(message_epoch)).notice_for(
            expire_message_event_id,
            message@,
        ),
{
    if message.as_str().is_empty() {
        return None;
    }
    ui.message = message;
    let expected_epoch: u32 = *message_epoch + 1;
    *message_epoch = expected_epoch;
    Some(
        ExpiryNotice {
            event_id: expire_message_event_id,
            epoch: expected_epoch,
            delay_secs: MESSAGE_TIMEOUT_SECS,
        },
    )
}

/// Takes the notice from display if the timer that fired is the one of the
/// notice that is shown. Says whether it was.
pub fn expire_message(ui: &mut DemoUI, message_epoch: u32, expected_epoch: u32) -> (cleared: bool)
    ensures
        board_of(*final(ui), message_epoch) == board_of(*old(ui), message_epoch).expired(
            expected_epoch,
        ),
        final(ui)@ == (crate::ui::DemoUIView { message: final(ui).message@, ..old(ui)@ }),
        cleared == board_of(*old(ui), message_epoch).is_current(expected_epoch),
{
    if expected_epoch == message_epoch {
        ui.message = String::new();
        true
    } else {
        false
    }
}

/// The epoch never goes down, and goes up with every notice.
pub proof fn lemma_epoch_is_monotonic(board: MessageBoard, message: Seq<char>)
    requires
        board.can_post(message),
    ensures
        board.posted(message).epoch >= board.epoch,
        message.len() > 0 ==> board.posted(message).epoch > board.epoch,
        forall|epoch: u32| board.expired(epoch).epoch == board.epoch,
{
}

/// Of two notices, the timer of the first leaves the second on display when
/// it fires late, and the timer of the second removes it.
pub proof fn lemma_stale_expiry_is_ignored(board: MessageBoard, first: Seq<char>, second: Seq<char>)
    requires
        first.len() > 0,
        second.len() > 0,
        board.can_post(first),
        board.posted(first).can_post(second),
    ensures
        ({
            let once = board.posted(first);
            let twice = once.posted(second);
            let early = board.notice_for(0, first).unwrap();
            let late = once.notice_for(0, second).unwrap();
            &&& twice.message == second
            &&& twice.expired(early.epoch) == twice
            &&& twice.expired(late.epoch).message.len() == 0
            &&& twice.expired(late.epoch).expired(early.epoch) == twice.expired(late.epoch)
        }),
{
}

/// However many notices follow, the timer of an earlier one never removes
/// what is on display: only the epoch of the latest notice is current.
pub proof fn lemma_only_latest_epoch_expires(
    board: MessageBoard,
    message: Seq<char>,
    later: Seq<Seq<char>>,
)
    requires
        message.len() > 0,
        later.len() > 0,
        forall|i: int| 0 <= i < later.len() ==> (#[trigger] later[i]).len() > 0,
        board.epoch + 1 + later.len() <= u32::MAX,
    ensures
        ({
            let early = board.notice_for(0, message).unwrap();
            let now = board.posted(message).posted_all(later);
            &&& now.epoch == board.epoch + 1 + later.len()
            &&& !now.is_current(early.epoch)
            &&& now.expired(early.epoch) == now
            &&& now.message == later.last()
        }),
    decreases later.len(),
{
    if later.len() > 1 {
        let shorter = later.drop_last();
        assert forall|i: int| 0 <= i < shorter.len() implies (#[trigger] shorter[i]).len() > 0 by {
            assert(shorter[i] == later[i]);
        }
        lemma_only_latest_epoch_expires(board, message, shorter);
    } else {
        assert(later.drop_last().len() == 0);
        assert(board.posted(message).posted_all(later.drop_last()) == board.posted(message));
    }
}

} // verus!
