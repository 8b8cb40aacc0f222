//! How the window's mirror of the linked session follows the session's
//! lifecycle: a new connection state, or a new (or withdrawn) QR code.
//!
//! Each transition updates the mirror and the window's pending work in
//! place and returns the side effects the window performs afterwards:
//! cancelling requests in flight, stopping tickers, reloading data.

use vstd::prelude::*;
use crate::model::ContactSummary;
use crate::pairing::SessionState;
use crate::root::{self, ErrorKind};

verus! {

/// The phone-number lookup of the new-chat panel.
#[derive(Debug)]
pub enum PhoneLookup {
    Idle,
    Checking,
    Registered(ContactSummary),
    NotRegistered,
    Failed(String),
}

/// The window's copy of the session and pairing state.
#[derive(Debug)]
pub struct SessionMirror {
    pub state: SessionState,
    pub connected_once: bool,
    pub qr_code: Option<String>,
    /// When the shown QR code expires, in the window clock's milliseconds.
    pub qr_deadline_ms: Option<u64>,
    pub pairing_requesting: bool,
    pub pairing_error: Option<String>,
    pub use_phone_pairing: bool,
    pub phone_pair_code: Option<String>,
    pub phone_pair_deadline_ms: Option<u64>,
    pub phone_pair_requesting: bool,
    pub phone_pair_error: Option<String>,
}

/// Work of the window that a lost connection interrupts.
#[derive(Debug)]
pub struct PendingWork {
    pub phone_lookup: PhoneLookup,
    pub group_creating: bool,
    pub group_creation_uncertain: bool,
    pub group_creation_error: Option<String>,
    /// Whether the running group request adds members to an existing group
    /// (rather than creating one).
    pub adding_members: bool,
}

/// What happens to the join requests of the open group.
#[derive(Clone, Copy, Debug, PartialEq, Eq, Structural)]
pub enum MembershipRefresh {
    Load,
    Reset,
    Keep,
}

/// Side effects of a session-state change.
#[derive(Clone, Copy, Debug, PartialEq, Eq, Structural)]
pub struct StateEffects {
    /// Invalidate the phone-pairing request and its countdown.
    pub cancel_phone_pairing: bool,
    /// Forget every incoming typing indicator.
    pub clear_typing: bool,
    /// Invalidate the phone lookup in flight.
    pub cancel_phone_lookup: bool,
    /// Invalidate the group request in flight.
    pub cancel_group_creation: bool,
    /// Stop the QR countdown.
    pub stop_qr_ticker: bool,
    /// Invalidate the QR pairing request in flight.
    pub cancel_pairing_request: bool,
    pub membership: MembershipRefresh,
}

/// Copy shown when a connection drops during a phone lookup.
pub const LOOKUP_CONNECTION_LOST: &'static str = "Connection lost. Reconnect, then try again.";

/// Copy shown when a connection drops while members are being added.
pub const ADD_MEMBERS_CONNECTION_LOST: &'static str =
    "Connection lost while adding members. Refresh the group after reconnecting before retrying.";

/// Copy shown when a connection drops while a group is being created.
pub const CREATE_GROUP_CONNECTION_LOST: &'static str =
    "Connection lost while creating the group. Check Chats after reconnecting.";

/// Side effects of a QR update.
#[derive(Clone, Copy, Debug, PartialEq, Eq, Structural)]
pub struct QrEffects {
    /// Start the countdown of the new code.
    pub start_countdown: bool,
    /// Stop the countdown of the withdrawn code.
    pub stop_ticker: bool,
    /// Ask for a fresh code: the shown one lapsed while pairing by QR.
    pub restart_pairing: bool,
}

impl SessionMirror {
    /// Follows the session into `state`.
    ///
    /// Connecting clears any phone-pairing code; losing the connection
    /// forgets typing, fails a phone lookup in flight and marks a group
    /// request in flight as uncertain; leaving pairing withdraws the QR
    /// code; connecting (or trying to) ends a QR request. The open group's
    /// join requests load when connected with the panel open and reset when
    /// not connected.
    pub fn apply_state(&mut self, work: &mut PendingWork, state: SessionState, panel_open: bool) -> (e:
        StateEffects)
        ensures
            final(self).state == state,
            final(self).connected_once == (old(self).connected_once || state
                == SessionState::Connected),
            e.cancel_phone_pairing == (state == SessionState::Connected),
            state == SessionState::Connected ==> {
                &&& final(self).phone_pair_code is None
                &&& final(self).phone_pair_deadline_ms is None
                &&& !final(self).phone_pair_requesting
                &&& final(self).phone_pair_error is None
            },
            state != SessionState::Connected ==> {
                &&& final(self).phone_pair_code == old(self).phone_pair_code
                &&& final(self).phone_pair_deadline_ms == old(self).phone_pair_deadline_ms
                &&& final(self).phone_pair_requesting == old(self).phone_pair_requesting
                &&& final(self).phone_pair_error == old(self).phone_pair_error
            },
            e.clear_typing == (state != SessionState::Connected),
            e.cancel_phone_lookup == (state != SessionState::Connected && old(work).phone_lookup is Checking),
            e.cancel_phone_lookup ==> (final(work).phone_lookup matches PhoneLookup::Failed(m) && m@
                == LOOKUP_CONNECTION_LOST@),
            !e.cancel_phone_lookup ==> final(work).phone_lookup == old(work).phone_lookup,
            e.cancel_group_creation == (state != SessionState::Connected && old(work).group_creating),
            e.cancel_group_creation ==> {
                &&& !final(work).group_creating
                &&& final(work).group_creation_uncertain
                &&& final(work).group_creation_error matches Some(m) && m@ == (if old(
                    work,
                ).adding_members {
                    ADD_MEMBERS_CONNECTION_LOST@
                } else {
                    CREATE_GROUP_CONNECTION_LOST@
                })
            },
            !e.cancel_group_creation ==> {
                &&& final(work).group_creating == old(work).group_creating
                &&& final(work).group_creation_uncertain == old(work).group_creation_uncertain
                &&& final(work).group_creation_error == old(work).group_creation_error
            },
            final(work).adding_members == old(work).adding_members,
            e.stop_qr_ticker == (old(self).qr_deadline_ms is Some && state != SessionState::Pairing),
            e.stop_qr_ticker ==> final(self).qr_code is None && final(self).qr_deadline_ms is None,
            !e.stop_qr_ticker ==> final(self).qr_code == old(self).qr_code
                && final(self).qr_deadline_ms == old(self).qr_deadline_ms,
            e.cancel_pairing_request == (state == SessionState::Connecting || state
                == SessionState::Connected),
            e.cancel_pairing_request ==> !final(self).pairing_requesting
                && final(self).pairing_error is None,
            !e.cancel_pairing_request ==> final(self).pairing_requesting
                == old(self).pairing_requesting && final(self).pairing_error
                == old(self).pairing_error,
            final(self).use_phone_pairing == old(self).use_phone_pairing,
            e.membership == (if state == SessionState::Connected {
                if panel_open {
                    MembershipRefresh::Load
                } else {
                    MembershipRefresh::Keep
                }
            } else {
                MembershipRefresh::Reset
            }),
    {
        let connected = state.is_connected();
        let mut effects = StateEffects {
            cancel_phone_pairing: false,
            clear_typing: false,
            cancel_phone_lookup: false,
            cancel_group_creation: false,
            stop_qr_ticker: false,
            cancel_pairing_request: false,
            membership: MembershipRefresh::Keep,
        };
        if connected {
            self.connected_once = true;
            effects.cancel_phone_pairing = true;
            self.phone_pair_code = None;
            self.phone_pair_deadline_ms = None;
            self.phone_pair_requesting = false;
            self.phone_pair_error = None;
        } else {
            effects.clear_typing = true;
            if matches!(work.phone_lookup, PhoneLookup::Checking) {
                effects.cancel_phone_lookup = true;
                work.phone_lookup = PhoneLookup::Failed(LOOKUP_CONNECTION_LOST.to_owned());
            }
            if work.group_creating {
                effects.cancel_group_creation = true;
                work.group_creating = false;
                work.group_creation_uncertain = true;
                work.group_creation_error = Some(
                    if work.adding_members {
                        ADD_MEMBERS_CONNECTION_LOST.to_owned()
                    } else {
                        CREATE_GROUP_CONNECTION_LOST.to_owned()
                    },
                );
            }
        }
        if self.qr_deadline_ms.is_some() && state != SessionState::Pairing {
            effects.stop_qr_ticker = true;
            self.qr_code = None;
            self.qr_deadline_ms = None;
        }
        if state == SessionState::Connecting || state == SessionState::Connected {
            effects.cancel_pairing_request = true;
            self.pairing_requesting = false;
            self.pairing_error = None;
        }
        self.state = state;
        effects.membership = if connected {
            if panel_open {
                MembershipRefresh::Load
            } else {
                MembershipRefresh::Keep
            }
        } else {
            MembershipRefresh::Reset
        };
        effects
    }

    /// Shows a new QR code (`Some`: the code and when it expires), or
    /// withdraws the shown one (`None`).
    ///
    /// A new code ends the request for it; a withdrawn code that lapsed
    /// while the user waits on the QR panel is replaced by asking again.
    pub fn apply_qr(&mut self, qr: Option<(String, u64)>) -> (e: QrEffects)
        ensures
            final(self).state == old(self).state,
            final(self).use_phone_pairing == old(self).use_phone_pairing,
            final(self).connected_once == old(self).connected_once,
            final(self).phone_pair_code == old(self).phone_pair_code,
            final(self).phone_pair_requesting == old(self).phone_pair_requesting,
            match qr {
                Some((code, deadline)) => {
                    &&& final(self).qr_code matches Some(c) && c@ == code@
                    &&& final(self).qr_deadline_ms == Some(deadline)
                    &&& !final(self).pairing_requesting
                    &&& final(self).pairing_error is None
                    &&& e == QrEffects { start_countdown: true, stop_ticker: false, restart_pairing: false }
                },
                None => {
                    &&& final(self).qr_code is None
                    &&& final(self).qr_deadline_ms is None
                    &&& final(self).pairing_requesting == old(self).pairing_requesting
                    &&& final(self).pairing_error == old(self).pairing_error
                    &&& !e.start_countdown
                    &&& e.stop_ticker
                    &&& e.restart_pairing == ((old(self).qr_code is Some || old(
                        self,
                    ).qr_deadline_ms is Some) && !old(self).pairing_requesting
                        && !old(self).use_phone_pairing && old(self).state
                        == SessionState::Pairing)
                },
            },
    {
        match qr {
            Some((code, deadline)) => {
                self.qr_code = Some(code);
                self.qr_deadline_ms = Some(deadline);
                self.pairing_requesting = false;
                self.pairing_error = None;
                QrEffects { start_countdown: true, stop_ticker: false, restart_pairing: false }
            },
            None => {
                let had_qr = self.qr_code.is_some() || self.qr_deadline_ms.is_some();
                self.qr_code = None;
                self.qr_deadline_ms = None;
                let restart = had_qr && !self.pairing_requesting && !self.use_phone_pairing
                    && self.state == SessionState::Pairing;
                QrEffects { start_countdown: false, stop_ticker: true, restart_pairing: restart }
            },
        }
    }
}

/// What checking the typed phone number does.
#[derive(Debug)]
pub enum LookupPlan {
    /// The input is no phone number: nothing to check.
    Skip,
    /// Offline: show why the number cannot be checked.
    Fail(&'static str),
    /// Check these canonical digits.
    Check(String),
}

/// Shown when a number is to be checked while offline.
pub const LOOKUP_OFFLINE: &'static str = "Connect to check whether this number has an account.";

/// What checking the typed input does while `connected` (or not).
pub fn plan_phone_lookup(input: &str, connected: bool) -> (p: LookupPlan)
    ensures
        match root::canonical_phone(input@) {
            None => p is Skip,
            Some(d) => if connected {
                p matches LookupPlan::Check(s) && s@ == d
            } else {
                p == LookupPlan::Fail(LOOKUP_OFFLINE)
            },
        },
{
    match root::phone_number_digits(input) {
        None => LookupPlan::Skip,
        Some(digits) => if connected {
            LookupPlan::Check(digits)
        } else {
            LookupPlan::Fail(LOOKUP_OFFLINE)
        },
    }
}

/// How the answer to a phone check reads: a registered contact, no
/// account, or the failure's explanation.
#[derive(Debug)]
pub enum LookupAnswer {
    Registered(ContactSummary),
    NotRegistered,
}

/// The lookup state after the session answered a check.
pub fn lookup_result(answer: Result<LookupAnswer, ErrorKind>) -> (r: PhoneLookup)
    ensures
        match answer {
            Ok(LookupAnswer::Registered(c)) => r == PhoneLookup::Registered(c),
            Ok(LookupAnswer::NotRegistered) => r is NotRegistered,
            Err(kind) => r matches PhoneLookup::Failed(m) && m@ == (if kind == ErrorKind::RateLimited {
                "Too many checks. Wait a little, then try again."@
            } else if kind == ErrorKind::Timeout {
                "The check timed out. Try again."@
            } else if kind == ErrorKind::NotConnected {
                "Connection lost. Reconnect, then try again."@
            } else {
                "Couldn’t check this number. Try again."@
            }),
        },
{
    match answer {
        Ok(LookupAnswer::Registered(c)) => PhoneLookup::Registered(c),
        Ok(LookupAnswer::NotRegistered) => PhoneLookup::NotRegistered,
        Err(kind) => PhoneLookup::Failed(
            match kind {
                ErrorKind::RateLimited => String::from_str(
                    "Too many checks. Wait a little, then try again.",
                ),
                ErrorKind::Timeout => String::from_str("The check timed out. Try again."),
                ErrorKind::NotConnected => String::from_str(
                    "Connection lost. Reconnect, then try again.",
                ),
                _ => String::from_str("Couldn’t check this number. Try again."),
            },
        ),
    }
}

/// What a countdown tick decides.
#[derive(Clone, Copy, Debug, PartialEq, Eq, Structural)]
pub enum Tick {
    /// No code is shown any more: the countdown stops.
    Stop,
    /// The code is still valid: tick again.
    Continue,
    /// The code lapsed and was withdrawn; `renew` asks for a fresh one
    /// (QR pairing) or `cancel` withdraws the request (phone pairing).
    Expired { renew: bool, cancel: bool },
}

/// Shown when a phone-pairing code lapsed.
pub const PHONE_CODE_EXPIRED: &'static str = "This code expired. Request a new one.";

impl SessionMirror {
    /// One tick of the QR countdown at `now_ms`: a lapsed code is withdrawn,
    /// and a fresh one is requested while pairing by QR.
    pub fn qr_tick(&mut self, now_ms: u64) -> (t: Tick)
        ensures
            match old(self).qr_deadline_ms {
                Some(d) => if d <= now_ms {
                    &&& t == Tick::Expired {
                        renew: old(self).state == SessionState::Pairing
                            && !old(self).use_phone_pairing,
                        cancel: false,
                    }
                    &&& final(self).qr_code is None
                    &&& final(self).qr_deadline_ms is None
                } else {
                    t == Tick::Continue && *final(self) == *old(self)
                },
                None => t == Tick::Stop && *final(self) == *old(self),
            },
            final(self).state == old(self).state,
            final(self).pairing_requesting == old(self).pairing_requesting,
            final(self).phone_pair_code == old(self).phone_pair_code,
            final(self).phone_pair_deadline_ms == old(self).phone_pair_deadline_ms,
    {
        match self.qr_deadline_ms {
            Some(d) => if d <= now_ms {
                self.qr_code = None;
                self.qr_deadline_ms = None;
                Tick::Expired {
                    renew: self.state == SessionState::Pairing && !self.use_phone_pairing,
                    cancel: false,
                }
            } else {
                Tick::Continue
            },
            None => Tick::Stop,
        }
    }

    /// One tick of the phone-code countdown at `now_ms`: a lapsed code is
    /// withdrawn with an explanation, and its request cancelled.
    pub fn phone_code_tick(&mut self, now_ms: u64) -> (t: Tick)
        ensures
            match old(self).phone_pair_deadline_ms {
                Some(d) => if d <= now_ms {
                    &&& t == Tick::Expired { renew: false, cancel: true }
                    &&& final(self).phone_pair_code is None
                    &&& final(self).phone_pair_deadline_ms is None
                    &&& final(self).phone_pair_error matches Some(m) && m@ == PHONE_CODE_EXPIRED@
                } else {
                    t == Tick::Continue && *final(self) == *old(self)
                },
                None => t == Tick::Stop && *final(self) == *old(self),
            },
            final(self).state == old(self).state,
            final(self).qr_code == old(self).qr_code,
            final(self).qr_deadline_ms == old(self).qr_deadline_ms,
            final(self).phone_pair_requesting == old(self).phone_pair_requesting,
    {
        match self.phone_pair_deadline_ms {
            Some(d) => if d <= now_ms {
                self.phone_pair_code = None;
                self.phone_pair_deadline_ms = None;
                self.phone_pair_error = Some(String::from_str(PHONE_CODE_EXPIRED));
                Tick::Expired { renew: false, cancel: true }
            } else {
                Tick::Continue
            },
            None => Tick::Stop,
        }
    }

    /// Asks for a pairing QR code: not while one is requested or the
    /// session refuses commands. The QR shown so far and the last error are
    /// dropped. `true` when the request is to be sent.
    pub fn begin_qr_pairing(&mut self, commands_accepted: bool) -> (send: bool)
        ensures
            send == (!old(self).pairing_requesting && commands_accepted),
            send ==> {
                &&& final(self).pairing_requesting
                &&& final(self).qr_code is None
                &&& final(self).qr_deadline_ms is None
                &&& final(self).pairing_error is None
                &&& final(self).state == old(self).state
                &&& final(self).use_phone_pairing == old(self).use_phone_pairing
            },
            !send ==> *final(self) == *old(self),
    {
        if self.pairing_requesting || !commands_accepted {
            return false;
        }
        self.qr_code = None;
        self.qr_deadline_ms = None;
        self.pairing_requesting = true;
        self.pairing_error = None;
        true
    }

    /// The session answered a pairing request. A failure is shown only
    /// while no QR code arrived meanwhile and the session is neither
    /// connecting nor connected.
    pub fn qr_pairing_answered(&mut self, answer: Result<(), String>)
        ensures
            !final(self).pairing_requesting,
            final(self).state == old(self).state,
            final(self).qr_code == old(self).qr_code,
            final(self).qr_deadline_ms == old(self).qr_deadline_ms,
            match answer {
                Err(e) => if old(self).qr_code is None && old(self).state != SessionState::Connecting
                    && old(self).state != SessionState::Connected {
                    final(self).pairing_error matches Some(m) && m@ == e@
                } else {
                    final(self).pairing_error == old(self).pairing_error
                },
                Ok(()) => final(self).pairing_error == old(self).pairing_error,
            },
    {
        self.pairing_requesting = false;
        if let Err(e) = answer {
            let quiet = match self.state {
                SessionState::Connecting | SessionState::Connected => true,
                _ => false,
            };
            if self.qr_code.is_none() && !quiet {
                self.pairing_error = Some(e);
            }
        }
    }

    /// Goes back from phone pairing to the QR code: the phone code, its
    /// countdown, its request and its error are dropped.
    pub fn show_qr_pairing(&mut self)
        ensures
            !final(self).use_phone_pairing,
            final(self).phone_pair_code is None,
            final(self).phone_pair_deadline_ms is None,
            !final(self).phone_pair_requesting,
            final(self).phone_pair_error is None,
            final(self).state == old(self).state,
            final(self).qr_code == old(self).qr_code,
            final(self).pairing_requesting == old(self).pairing_requesting,
    {
        self.use_phone_pairing = false;
        self.phone_pair_code = None;
        self.phone_pair_deadline_ms = None;
        self.phone_pair_requesting = false;
        self.phone_pair_error = None;
    }

    /// Asks for a phone-pairing code: not while one is requested or the
    /// session refuses commands; an invalid number (`invalid` holds why)
    /// only shows why. `true` when the request is to be sent.
    pub fn begin_phone_pairing(&mut self, commands_accepted: bool, invalid: Option<&str>) -> (send: bool)
        ensures
            send == (!old(self).phone_pair_requesting && commands_accepted && invalid is None),
            send ==> {
                &&& final(self).phone_pair_requesting
                &&& final(self).phone_pair_code is None
                &&& final(self).phone_pair_deadline_ms is None
                &&& final(self).phone_pair_error is None
            },
            !old(self).phone_pair_requesting && commands_accepted && invalid is Some ==> {
                &&& final(self).phone_pair_error matches Some(m) && m@ == invalid->0@
                &&& final(self).phone_pair_requesting == old(self).phone_pair_requesting
                &&& final(self).phone_pair_code == old(self).phone_pair_code
            },
            (old(self).phone_pair_requesting || !commands_accepted) ==> *final(self) == *old(self),
            final(self).state == old(self).state,
            final(self).qr_code == old(self).qr_code,
    {
        if self.phone_pair_requesting || !commands_accepted {
            return false;
        }
        if let Some(reason) = invalid {
            self.phone_pair_error = Some(reason.to_owned());
            return false;
        }
        self.phone_pair_code = None;
        self.phone_pair_deadline_ms = None;
        self.phone_pair_requesting = true;
        self.phone_pair_error = None;
        true
    }

    /// The session answered a phone-pairing request: the code and when it
    /// lapses, or why it failed. `true` when the countdown starts.
    pub fn phone_pairing_answered(&mut self, answer: Result<(String, u64), String>) -> (start_countdown:
        bool)
        ensures
            !final(self).phone_pair_requesting,
            final(self).state == old(self).state,
            final(self).qr_code == old(self).qr_code,
            match answer {
                Ok((code, deadline)) => {
                    &&& start_countdown
                    &&& final(self).phone_pair_code matches Some(c) && c@ == code@
                    &&& final(self).phone_pair_deadline_ms == Some(deadline)
                    &&& final(self).phone_pair_error == old(self).phone_pair_error
                },
                Err(e) => {
                    &&& !start_countdown
                    &&& final(self).phone_pair_error matches Some(m) && m@ == e@
                    &&& final(self).phone_pair_code == old(self).phone_pair_code
                    &&& final(self).phone_pair_deadline_ms == old(self).phone_pair_deadline_ms
                },
            },
    {
        self.phone_pair_requesting = false;
        match answer {
            Ok((code, deadline)) => {
                self.phone_pair_code = Some(code);
                self.phone_pair_deadline_ms = Some(deadline);
                true
            },
            Err(e) => {
                self.phone_pair_error = Some(e);
                false
            },
        }
    }
}

} // verus!
