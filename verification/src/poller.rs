use vstd::prelude::*;

verus! {

/// The number of consecutive clipboard-read failures after which the poller
/// asks for a fresh clipboard handle.
pub const MAX_CONSECUTIVE_ERRORS: u64 = 10;

/// What one clipboard read attempt produced. The read itself is the host's
/// business; the poller only decides on the outcome.
pub enum ClipboardRead {
    /// The clipboard held this text.
    Text(String),
    /// The clipboard was empty or held no readable format.
    EmptyOrUnavailable,
    /// The read failed for any other reason.
    Failure,
}

/// What the poller asks its host to do after a tick.
pub enum PollerAction {
    /// Store this text as a new history entry and, on successful
    /// persistence, notify the interface.
    CaptureText(String),
    /// Discard the clipboard handle and create a fresh one.
    RecreateHandle,
    /// Nothing.
    Idle,
}

/// The decision core of the clipboard-polling loop: equality-based
/// de-duplication against the last seen text, a pause flag that takes effect
/// on the next tick, and a consecutive-failure counter that triggers a
/// handle recreation at the threshold.
pub struct ClipboardPoller {
    enabled: bool,
    last_text: Option<String>,
    error_count: u64,
    empty_count: u64,
}

impl ClipboardPoller {
    /// Whether capturing is enabled.
    pub closed spec fn spec_enabled(&self) -> bool {
        self.enabled
    }

    /// The clipboard text most recently captured.
    pub closed spec fn spec_last_text(&self) -> Option<String> {
        self.last_text
    }

    /// The consecutive-failure count.
    pub closed spec fn spec_error_count(&self) -> u64 {
        self.error_count
    }

    /// The count of consecutive empty or unreadable clipboard states.
    pub closed spec fn spec_empty_count(&self) -> u64 {
        self.empty_count
    }

    /// The poller invariant: the failure count never passes the threshold.
    pub open spec fn wf(&self) -> bool {
        self.spec_error_count() <= MAX_CONSECUTIVE_ERRORS
    }

    /// A poller that is enabled, has seen nothing, and counts no errors.
    pub fn new() -> (r: Self)
        ensures
            r.spec_enabled(),
            r.spec_last_text() is None,
            r.spec_error_count() == 0,
            r.spec_empty_count() == 0,
            r.wf(),
    {
        ClipboardPoller { enabled: true, last_text: None, error_count: 0, empty_count: 0 }
    }

    /// Whether capturing is enabled; a paused poller skips reading.
    pub fn status(&self) -> (r: bool)
        ensures
            r == self.spec_enabled(),
    {
        self.enabled
    }

    /// Disables capturing from the next tick on.
    pub fn pause(&mut self) -> (r: bool)
        ensures
            !final(self).spec_enabled(),
            r == false,
            final(self).spec_last_text() == old(self).spec_last_text(),
            final(self).spec_error_count() == old(self).spec_error_count(),
            final(self).spec_empty_count() == old(self).spec_empty_count(),
    {
        self.enabled = false;
        false
    }

    /// Enables capturing from the next tick on.
    pub fn resume(&mut self) -> (r: bool)
        ensures
            final(self).spec_enabled(),
            r == true,
            final(self).spec_last_text() == old(self).spec_last_text(),
            final(self).spec_error_count() == old(self).spec_error_count(),
            final(self).spec_empty_count() == old(self).spec_empty_count(),
    {
        self.enabled = true;
        true
    }

    /// Flips the capturing flag and reports the new state.
    pub fn toggle(&mut self) -> (r: bool)
        ensures
            final(self).spec_enabled() == !old(self).spec_enabled(),
            r == final(self).spec_enabled(),
            final(self).spec_last_text() == old(self).spec_last_text(),
            final(self).spec_error_count() == old(self).spec_error_count(),
            final(self).spec_empty_count() == old(self).spec_empty_count(),
    {
        self.enabled = !self.enabled;
        self.enabled
    }

    /// Whether the host should log the current empty-clipboard state: the
    /// first occurrence and every hundredth after that.
    pub fn should_log_empty(&self) -> (r: bool)
        ensures
            r == (self.spec_empty_count() == 1 || self.spec_empty_count() % 100 == 0),
    {
        self.empty_count == 1 || self.empty_count % 100 == 0
    }

    /// One tick of the polling loop. A paused poller does nothing. A
    /// successful read resets both counters and captures the text exactly
    /// when it is non-empty and differs from the last seen text. An empty or
    /// unreadable clipboard only counts. Any other failure counts towards
    /// the threshold, at which the poller asks for a fresh handle.
    pub fn on_tick(&mut self, read: ClipboardRead) -> (a: PollerAction)
        requires
            old(self).wf(),
        ensures
            final(self).wf(),
            final(self).spec_enabled() == old(self).spec_enabled(),
            !old(self).spec_enabled() ==> *final(self) == *old(self) && a is Idle,
            old(self).spec_enabled() ==> match read {
                ClipboardRead::Text(t) => {
                    &&& final(self).spec_error_count() == 0
                    &&& final(self).spec_empty_count() == 0
                    &&& if t@.len() > 0 && (match old(self).spec_last_text() {
                        Some(prev) => prev@ != t@,
                        None => true,
                    }) {
                        &&& a is CaptureText
                        &&& a->CaptureText_0@ == t@
                        &&& final(self).spec_last_text() is Some
                        &&& final(self).spec_last_text().unwrap()@ == t@
                    } else {
                        &&& a is Idle
                        &&& final(self).spec_last_text() == old(self).spec_last_text()
                    }
                },
                ClipboardRead::EmptyOrUnavailable => {
                    &&& a is Idle
                    &&& final(self).spec_last_text() == old(self).spec_last_text()
                    &&& final(self).spec_error_count() == old(self).spec_error_count()
                    &&& final(self).spec_empty_count() == if old(self).spec_empty_count()
                        < u64::MAX {
                        old(self).spec_empty_count() + 1
                    } else {
                        u64::MAX as int
                    }
                },
                ClipboardRead::Failure => {
                    &&& final(self).spec_last_text() == old(self).spec_last_text()
                    &&& final(self).spec_empty_count() == old(self).spec_empty_count()
                    &&& final(self).spec_error_count() == if old(self).spec_error_count()
                        < MAX_CONSECUTIVE_ERRORS {
                        old(self).spec_error_count() + 1
                    } else {
                        MAX_CONSECUTIVE_ERRORS as int
                    }
                    &&& a == if final(self).spec_error_count() == MAX_CONSECUTIVE_ERRORS {
                        PollerAction::RecreateHandle
                    } else {
                        PollerAction::Idle
                    }
                },
            },
    {
        if !self.enabled {
            return PollerAction::Idle;
        }
        match read {
            ClipboardRead::Text(t) => {
                self.error_count = 0;
                self.empty_count = 0;
                let changed = match &self.last_text {
                    Some(prev) => !crate::text::str_eq(prev.as_str(), t.as_str()),
                    None => true,
                };
                if !t.as_str().is_empty() && changed {
                    let captured = t.clone();
                    self.last_text = Some(t);
                    PollerAction::CaptureText(captured)
                } else {
                    PollerAction::Idle
                }
            },
            ClipboardRead::EmptyOrUnavailable => {
                if self.empty_count < u64::MAX {
                    self.empty_count = self.empty_count + 1;
                }
                PollerAction::Idle
            },
            ClipboardRead::Failure => {
                if self.error_count < MAX_CONSECUTIVE_ERRORS {
                    self.error_count = self.error_count + 1;
                }
                if self.error_count == MAX_CONSECUTIVE_ERRORS {
                    PollerAction::RecreateHandle
                } else {
                    PollerAction::Idle
                }
            },
        }
    }

    /// The outcome of a handle recreation: success clears the failure count
    /// and the loop goes on; failure ends the polling loop, leaving the rest
    /// of the application running.
    pub fn on_handle_recreated(&mut self, success: bool) -> (keep_running: bool)
        requires
            old(self).wf(),
        ensures
            final(self).spec_enabled() == old(self).spec_enabled(),
            final(self).spec_last_text() == old(self).spec_last_text(),
            final(self).spec_empty_count() == old(self).spec_empty_count(),
            success ==> keep_running && final(self).spec_error_count() == 0,
            !success ==> !keep_running && final(self).spec_error_count() == old(
                self,
            ).spec_error_count(),
            final(self).wf(),
    {
        if success {
            self.error_count = 0;
            true
        } else {
            false
        }
    }
}

} // verus!
