//! The notifications a compositor sends about one window, and the aggregator
//! that buffers them between two drains.

use vstd::prelude::*;

verus! {

/// One notification about a window.
#[derive(Clone, Copy, Debug, PartialEq, Eq)]
pub enum WindowEvent {
    /// The user asked for the window to go away.
    Close,
    /// The decorations need to be drawn again.
    Refresh,
    /// The window's size or state may have changed. The size is in surface
    /// units and is absent when the compositor leaves it to the client.
    Configure { new_size: Option<(u32, u32)>, full_screen: bool },
}

/// What has been announced for a window since it was last drained. Each field
/// holds at most one buffered value: a later notification replaces an earlier
/// one of the same kind.
#[derive(Clone, Copy, Debug, PartialEq, Eq)]
pub struct PendingEvent {
    pub close: bool,
    pub had_configure_event: bool,
    pub refresh_decorations: bool,
    pub configure: Option<(u32, u32)>,
    pub dpi: Option<i32>,
    pub full_screen: Option<bool>,
}

impl PendingEvent {
    /// The aggregator with nothing buffered.
    pub open spec fn empty() -> PendingEvent {
        PendingEvent {
            close: false,
            had_configure_event: false,
            refresh_decorations: false,
            configure: None,
            dpi: None,
            full_screen: None,
        }
    }

    /// The full-screen state buffered after a configure that reports
    /// `full_screen`: nothing is recorded as long as no notification since
    /// the last drain has said anything but "not full screen".
    pub open spec fn merged_full_screen(self, full_screen: bool) -> Option<bool> {
        if self.full_screen.is_none() && !full_screen {
            None
        } else {
            Some(full_screen)
        }
    }

    /// The aggregator after `evt` has been merged into it.
    pub open spec fn queued(self, evt: WindowEvent) -> PendingEvent {
        match evt {
            WindowEvent::Close => PendingEvent { close: true, ..self },
            WindowEvent::Refresh => PendingEvent { refresh_decorations: true, ..self },
            WindowEvent::Configure { new_size, full_screen } => PendingEvent {
                had_configure_event: true,
                configure: if new_size.is_some() {
                    new_size
                } else {
                    self.configure
                },
                full_screen: self.merged_full_screen(full_screen),
                ..self
            },
        }
    }

    /// Whether merging `evt` changes anything that a drain would see. A
    /// merge that changes nothing needs no wake-up: whatever is buffered has
    /// already asked for its drain.
    pub open spec fn changed_by(self, evt: WindowEvent) -> bool {
        self.queued(evt) != self
    }

    /// Nothing is buffered.
    pub open spec fn is_empty(self) -> bool {
        self == PendingEvent::empty()
    }

    /// An aggregator with nothing buffered.
    pub fn new() -> (p: PendingEvent)
        ensures
            p == PendingEvent::empty(),
    {
        PendingEvent {
            close: false,
            had_configure_event: false,
            refresh_decorations: false,
            configure: None,
            dpi: None,
            full_screen: None,
        }
    }

    /// Merges one notification and says whether the merge changed what is
    /// buffered, in which case the window must be woken.
    pub fn queue(&mut self, evt: WindowEvent) -> (changed: bool)
        ensures
            *final(self) == old(self).queued(evt),
            changed == old(self).changed_by(evt),
    {
        match evt {
            WindowEvent::Close => {
                let changed = !self.close;
                self.close = true;
                changed
            },
            WindowEvent::Refresh => {
                let changed = !self.refresh_decorations;
                self.refresh_decorations = true;
                changed
            },
            WindowEvent::Configure { new_size, full_screen } => {
                let mut changed: bool = !self.had_configure_event;
                self.had_configure_event = true;
                match new_size {
                    Some(size) => {
                        match self.configure {
                            Some(buffered) => {
                                if buffered.0 != size.0 || buffered.1 != size.1 {
                                    changed = true;
                                }
                            },
                            None => {
                                changed = true;
                            },
                        }
                        self.configure = Some(size);
                    },
                    None => {},
                }
                match self.full_screen {
                    Some(buffered) => {
                        if buffered != full_screen {
                            changed = true;
                        }
                        self.full_screen = Some(full_screen);
                    },
                    None => {
                        if full_screen {
                            changed = true;
                            self.full_screen = Some(full_screen);
                        }
                    },
                }
                changed
            },
        }
    }

    /// Records a new scale factor for the surface. A scale change always
    /// wakes the window, so nothing is returned.
    pub fn queue_dpi(&mut self, dpi: i32)
        ensures
            *final(self) == (PendingEvent { dpi: Some(dpi), ..*old(self) }),
    {
        self.dpi = Some(dpi);
    }

    /// Hands out everything buffered and leaves the aggregator empty.
    pub fn take(&mut self) -> (taken: PendingEvent)
        ensures
            taken == *old(self),
            *final(self) == PendingEvent::empty(),
    {
        let taken = *self;
        *self = PendingEvent::new();
        taken
    }
}

impl Default for PendingEvent {
    fn default() -> (p: PendingEvent)
        ensures
            p == PendingEvent::empty(),
    {
        PendingEvent::new()
    }
}

/// A notification that repeats the one before it changes nothing: the
/// aggregator stays as it is and no wake-up is asked for, whatever the
/// notification and whatever was buffered before the two.
pub proof fn lemma_repeated_event_is_silent(before: PendingEvent, evt: WindowEvent)
    ensures
        before.queued(evt).queued(evt) == before.queued(evt),
        !before.queued(evt).changed_by(evt),
{
}

/// Of two configures with the same size and the same full-screen state,
/// and no drain between them, the second does not mark the aggregator as
/// changed, and the size is buffered once.
pub proof fn lemma_repeated_configure_is_silent(
    before: PendingEvent,
    size: (u32, u32),
    full_screen: bool,
)
    ensures
        ({
            let evt = WindowEvent::Configure { new_size: Some(size), full_screen };
            let once = before.queued(evt);
            &&& !once.changed_by(evt)
            &&& once.queued(evt) == once
            &&& once.configure == Some(size)
        }),
{
}

/// A configure of the same size that reports another full-screen state
/// than the one before it does mark the aggregator as changed: the new state
/// must reach the window.
pub proof fn lemma_other_state_is_a_change(
    before: PendingEvent,
    size: (u32, u32),
    first_full_screen: bool,
    second_full_screen: bool,
)
    requires
        first_full_screen != second_full_screen,
    ensures
        ({
            let once = before.queued(
                WindowEvent::Configure { new_size: Some(size), full_screen: first_full_screen },
            );
            let second = WindowEvent::Configure {
                new_size: Some(size),
                full_screen: second_full_screen,
            };
            &&& once.changed_by(second)
            &&& once.queued(second).configure == Some(size)
            &&& once.queued(second).full_screen == Some(second_full_screen)
        }),
{
}

/// The latest size replaces the buffered one, and a size that differs from
/// the buffered one is a change.
pub proof fn lemma_configure_keeps_latest(
    before: PendingEvent,
    earlier: (u32, u32),
    later: (u32, u32),
    full_screen: bool,
)
    ensures
        ({
            let once = before.queued(
                WindowEvent::Configure { new_size: Some(earlier), full_screen },
            );
            let second = WindowEvent::Configure { new_size: Some(later), full_screen };
            &&& once.changed_by(second) == (earlier != later)
            &&& once.queued(second).configure == Some(later)
        }),
{
}

/// Of two close notifications with no drain between them, only the first
/// can report a change, and it does exactly when no close was buffered.
pub proof fn lemma_second_close_is_silent(before: PendingEvent)
    ensures
        before.changed_by(WindowEvent::Close) == !before.close,
        !before.queued(WindowEvent::Close).changed_by(WindowEvent::Close),
        before.queued(WindowEvent::Close).queued(WindowEvent::Close) == before.queued(
            WindowEvent::Close,
        ),
{
}

/// The same holds of decoration refreshes.
pub proof fn lemma_second_refresh_is_silent(before: PendingEvent)
    ensures
        before.changed_by(WindowEvent::Refresh) == !before.refresh_decorations,
        !before.queued(WindowEvent::Refresh).changed_by(WindowEvent::Refresh),
{
}

/// The first notification after a drain always asks for a wake-up: from
/// an empty aggregator every close, every refresh and every configure is a
/// change.
pub proof fn lemma_first_event_wakes(evt: WindowEvent)
    ensures
        PendingEvent::empty().changed_by(evt),
{
}

/// Merging never forgets: what was buffered stays buffered until a drain.
pub proof fn lemma_queue_keeps_flags(before: PendingEvent, evt: WindowEvent)
    ensures
        before.close ==> before.queued(evt).close,
        before.refresh_decorations ==> before.queued(evt).refresh_decorations,
        before.had_configure_event ==> before.queued(evt).had_configure_event,
        before.configure.is_some() ==> before.queued(evt).configure.is_some(),
        before.full_screen.is_some() ==> before.queued(evt).full_screen.is_some(),
        before.queued(evt).dpi == before.dpi,
{
}

} // verus!
