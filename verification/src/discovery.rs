//! The decisions taken while identifying the firmware of a miner.
//!
//! Every discovery command is sent at once; each reply may identify a
//! firmware. The first identification wins, except that a stock firmware
//! gives a short window to a non-stock firmware answering on another
//! command. Identification stops at the overall timeout or when every
//! command has answered. The loop that sends the commands and waits for
//! the replies feeds this state machine with what it sees and does what it
//! is told.
use vstd::prelude::*;

verus! {

/// Where discovery stands.
#[derive(Debug, Clone, Copy, PartialEq, Eq, Structural)]
pub enum DiscoveryPhase {
    /// Waiting for the first identification.
    Searching,
    /// A stock firmware was identified; waiting briefly for a non-stock one.
    AwaitingUpgrade,
    /// Discovery is over.
    Done,
}

/// A firmware some reply identified: its position in the registry and
/// whether it is the miner's stock firmware.
#[derive(Debug, Clone, Copy, PartialEq, Eq, Structural)]
pub struct Identified {
    pub firmware: usize,
    pub is_stock: bool,
}

/// What the waiting loop observed.
#[derive(Debug, Clone, Copy, PartialEq, Eq, Structural)]
pub enum DiscoveryEvent {
    /// A discovery command finished; it identified a firmware or not.
    TaskFinished(Option<Identified>),
    /// The overall identification timeout expired.
    IdentificationTimeout,
    /// The window left to a non-stock firmware expired.
    UpgradeWindowElapsed,
}

/// What the waiting loop must do next.
#[derive(Debug, Clone, Copy, PartialEq, Eq, Structural)]
pub enum DiscoveryAction {
    /// Keep waiting for events.
    Wait,
    /// Start the short window for a non-stock firmware, then keep waiting.
    OpenUpgradeWindow,
    /// Stop every command still running and build the miner of this
    /// firmware, if one was found.
    Finish(Option<usize>),
}

/// The state of discovery: its phase, the firmware found so far and the
/// number of discovery commands still running.
#[derive(Debug, Clone, Copy, PartialEq, Eq, Structural)]
pub struct Discovery {
    pub phase: DiscoveryPhase,
    pub found: Option<Identified>,
    pub pending: usize,
}

impl Discovery {
    /// The consistency of a state: a found firmware is stock while waiting
    /// for an upgrade, nothing is found while searching.
    pub open spec fn wf(self) -> bool {
        &&& (self.phase == DiscoveryPhase::Searching ==> self.found is None)
        &&& (self.phase == DiscoveryPhase::AwaitingUpgrade ==> (self.found matches Some(f)
            && f.is_stock))
    }

    /// The firmware the search settles on when it ends in this state.
    pub open spec fn outcome(self) -> Option<usize> {
        match self.found {
            Some(f) => Some(f.firmware),
            None => None,
        }
    }

    /// The state and first action when `pending` commands were sent: with
    /// no command there is nothing to wait for.
    pub open spec fn start_spec(pending: usize) -> (Discovery, DiscoveryAction) {
        if pending == 0 {
            (
                Discovery { phase: DiscoveryPhase::Done, found: None, pending },
                DiscoveryAction::Finish(None),
            )
        } else {
            (
                Discovery { phase: DiscoveryPhase::Searching, found: None, pending },
                DiscoveryAction::Wait,
            )
        }
    }

    /// Starts discovery after sending `pending` commands.
    pub fn start(pending: usize) -> (r: (Discovery, DiscoveryAction))
        ensures
            r == Self::start_spec(pending),
            r.0.wf(),
    {
        if pending == 0 {
            (
                Discovery { phase: DiscoveryPhase::Done, found: None, pending },
                DiscoveryAction::Finish(None),
            )
        } else {
            (
                Discovery { phase: DiscoveryPhase::Searching, found: None, pending },
                DiscoveryAction::Wait,
            )
        }
    }

    /// The ending of discovery with what was found.
    pub open spec fn finish(found: Option<Identified>, pending: usize) -> (
        Discovery,
        DiscoveryAction,
    ) {
        let d = Discovery { phase: DiscoveryPhase::Done, found, pending };
        (d, DiscoveryAction::Finish(d.outcome()))
    }

    /// The next state and action after an event.
    pub open spec fn step_spec(self, event: DiscoveryEvent) -> (Discovery, DiscoveryAction) {
        match self.phase {
            DiscoveryPhase::Done => (self, DiscoveryAction::Finish(self.outcome())),
            DiscoveryPhase::Searching => match event {
                DiscoveryEvent::TaskFinished(result) => {
                    let pending = if self.pending > 0 {
                        (self.pending - 1) as usize
                    } else {
                        0
                    };
                    match result {
                        Some(f) => if !f.is_stock || pending == 0 {
                            Self::finish(Some(f), pending)
                        } else {
                            (
                                Discovery {
                                    phase: DiscoveryPhase::AwaitingUpgrade,
                                    found: Some(f),
                                    pending,
                                },
                                DiscoveryAction::OpenUpgradeWindow,
                            )
                        },
                        None => if pending == 0 {
                            Self::finish(None, pending)
                        } else {
                            (Discovery { pending, ..self }, DiscoveryAction::Wait)
                        },
                    }
                },
                DiscoveryEvent::IdentificationTimeout => Self::finish(self.found, self.pending),
                DiscoveryEvent::UpgradeWindowElapsed => (self, DiscoveryAction::Wait),
            },
            DiscoveryPhase::AwaitingUpgrade => match event {
                DiscoveryEvent::TaskFinished(result) => {
                    let pending = if self.pending > 0 {
                        (self.pending - 1) as usize
                    } else {
                        0
                    };
                    match result {
                        Some(f) if !f.is_stock => Self::finish(Some(f), pending),
                        _ => if pending == 0 {
                            Self::finish(self.found, pending)
                        } else {
                            (Discovery { pending, ..self }, DiscoveryAction::Wait)
                        },
                    }
                },
                DiscoveryEvent::IdentificationTimeout => Self::finish(self.found, self.pending),
                DiscoveryEvent::UpgradeWindowElapsed => Self::finish(self.found, self.pending),
            },
        }
    }

    /// Takes one event into account.
    pub fn step(self, event: DiscoveryEvent) -> (r: (Discovery, DiscoveryAction))
        requires
            self.wf(),
        ensures
            r == self.step_spec(event),
            r.0.wf(),
    {
        match self.phase {
            DiscoveryPhase::Done => (self, DiscoveryAction::Finish(self.found_firmware())),
            DiscoveryPhase::Searching => match event {
                DiscoveryEvent::TaskFinished(result) => {
                    let pending = if self.pending > 0 {
                        self.pending - 1
                    } else {
                        0
                    };
                    match result {
                        Some(f) => if !f.is_stock || pending == 0 {
                            Self::finished(Some(f), pending)
                        } else {
                            (
                                Discovery {
                                    phase: DiscoveryPhase::AwaitingUpgrade,
                                    found: Some(f),
                                    pending,
                                },
                                DiscoveryAction::OpenUpgradeWindow,
                            )
                        },
                        None => if pending == 0 {
                            Self::finished(None, pending)
                        } else {
                            (Discovery { pending, ..self }, DiscoveryAction::Wait)
                        },
                    }
                },
                DiscoveryEvent::IdentificationTimeout => Self::finished(self.found, self.pending),
                DiscoveryEvent::UpgradeWindowElapsed => (self, DiscoveryAction::Wait),
            },
            DiscoveryPhase::AwaitingUpgrade => match event {
                DiscoveryEvent::TaskFinished(result) => {
                    let pending = if self.pending > 0 {
                        self.pending - 1
                    } else {
                        0
                    };
                    match result {
                        Some(f) if !f.is_stock => Self::finished(Some(f), pending),
                        _ => if pending == 0 {
                            Self::finished(self.found, pending)
                        } else {
                            (Discovery { pending, ..self }, DiscoveryAction::Wait)
                        },
                    }
                },
                DiscoveryEvent::IdentificationTimeout => Self::finished(self.found, self.pending),
                DiscoveryEvent::UpgradeWindowElapsed => Self::finished(self.found, self.pending),
            },
        }
    }

    fn finished(found: Option<Identified>, pending: usize) -> (r: (Discovery, DiscoveryAction))
        ensures
            r == Self::finish(found, pending),
    {
        let firmware = match found {
            Some(f) => Some(f.firmware),
            None => None,
        };
        (Discovery { phase: DiscoveryPhase::Done, found, pending }, DiscoveryAction::Finish(firmware))
    }

    /// The firmware found so far, by registry position.
    pub fn found_firmware(&self) -> (r: Option<usize>)
        ensures
            r == self.outcome(),
    {
        match self.found {
            Some(f) => Some(f.firmware),
            None => None,
        }
    }
}

/// Once discovery is over, every further event leaves it as it is and
/// repeats the final answer.
pub proof fn lemma_done_is_final(d: Discovery, event: DiscoveryEvent)
    requires
        d.phase == DiscoveryPhase::Done,
    ensures
        d.step_spec(event) == (d, DiscoveryAction::Finish(d.outcome())),
{
}

/// A non-stock firmware identified before discovery is over ends it, and
/// the miner is built for that firmware.
pub proof fn lemma_non_stock_wins(d: Discovery, f: Identified)
    requires
        d.wf(),
        d.phase != DiscoveryPhase::Done,
        !f.is_stock,
    ensures
        d.step_spec(DiscoveryEvent::TaskFinished(Some(f))).0.phase == DiscoveryPhase::Done,
        d.step_spec(DiscoveryEvent::TaskFinished(Some(f))).1 == DiscoveryAction::Finish(
            Some(f.firmware),
        ),
{
}

/// A stock firmware identified first is kept: while commands are still
/// running, the search waits for a non-stock firmware, and whatever ends
/// the wait other than a non-stock identification settles on the stock one.
pub proof fn lemma_stock_kept_unless_upgraded(d: Discovery, f: Identified, event: DiscoveryEvent)
    requires
        d.wf(),
        d.phase == DiscoveryPhase::Searching,
        f.is_stock,
        d.pending > 1,
    ensures
        ({
            let (w, a) = d.step_spec(DiscoveryEvent::TaskFinished(Some(f)));
            &&& w.phase == DiscoveryPhase::AwaitingUpgrade
            &&& a == DiscoveryAction::OpenUpgradeWindow
            &&& (!(event matches DiscoveryEvent::TaskFinished(Some(g)) && !g.is_stock) ==> (
            w.step_spec(event).0.outcome() == Some(f.firmware)))
        }),
{
}

/// Each step keeps the state consistent, never loses a found firmware
/// except to a non-stock one, and lowers the count of running commands
/// when a command finishes.
pub proof fn lemma_step_progress(d: Discovery, event: DiscoveryEvent)
    requires
        d.wf(),
        d.phase != DiscoveryPhase::Done,
    ensures
        d.step_spec(event).0.wf(),
        event is TaskFinished && d.pending > 0 ==> d.step_spec(event).0.pending == d.pending - 1,
        d.found is Some ==> (d.step_spec(event).0.found == d.found || (
        event matches DiscoveryEvent::TaskFinished(Some(g)) && !g.is_stock
            && d.step_spec(event).0.found == Some(g))),
        d.step_spec(event).1 matches DiscoveryAction::Finish(o) ==> o
            == d.step_spec(event).0.outcome(),
{
}

/// Whether an event is a command that identified a non-stock firmware.
pub open spec fn identifies_non_stock(event: DiscoveryEvent) -> bool {
    match event {
        DiscoveryEvent::TaskFinished(Some(g)) => !g.is_stock,
        _ => false,
    }
}

/// While a stock firmware waits for a non-stock one, only three things end
/// the wait: a non-stock identification, the last running command
/// finishing, or a timeout. Any other finished command (one that
/// identified nothing, or another stock firmware) while others still run
/// keeps waiting, with the stock firmware kept and one command fewer.
pub proof fn lemma_upgrade_window_stays_open(d: Discovery, event: DiscoveryEvent)
    requires
        d.wf(),
        d.phase == DiscoveryPhase::AwaitingUpgrade,
    ensures
        ({
            let (n, a) = d.step_spec(event);
            let ends = event is IdentificationTimeout || event is UpgradeWindowElapsed || (
            event matches DiscoveryEvent::TaskFinished(Some(g)) && !g.is_stock) || (event is TaskFinished
                && d.pending <= 1);
            &&& (a is Finish <==> ends)
            &&& (ends ==> n.phase == DiscoveryPhase::Done && a == DiscoveryAction::Finish(n.outcome()))
            &&& (event matches DiscoveryEvent::TaskFinished(Some(g)) ==> (!g.is_stock ==> n.found
                == Some(g)))
            &&& (!identifies_non_stock(event) ==> n.found == d.found)
            &&& (!ends ==> n.phase == DiscoveryPhase::AwaitingUpgrade && a == DiscoveryAction::Wait
                && n.found == d.found && n.pending == d.pending - 1)
        }),
{
}

/// While nothing is identified, the search ends only on a non-stock
/// identification, the last running command finishing, or the overall
/// timeout; a stock identification with commands still running opens the
/// window for a non-stock firmware; anything else keeps searching with one
/// command fewer when a command finished. An identified firmware is the one
/// kept, and a finished search reports what it kept.
pub proof fn lemma_search_continues(d: Discovery, event: DiscoveryEvent)
    requires
        d.wf(),
        d.phase == DiscoveryPhase::Searching,
    ensures
        ({
            let (n, a) = d.step_spec(event);
            let ends = event is IdentificationTimeout || (event matches DiscoveryEvent::TaskFinished(
                Some(g),
            ) && !g.is_stock) || (event is TaskFinished && d.pending <= 1);
            let opens = event matches DiscoveryEvent::TaskFinished(Some(g)) && g.is_stock && d.pending
                > 1;
            &&& (a is Finish <==> ends)
            &&& (a is OpenUpgradeWindow <==> opens)
            &&& (opens ==> n.phase == DiscoveryPhase::AwaitingUpgrade && n.found == Some(
                event->TaskFinished_0->0,
            ) && n.pending == d.pending - 1)
            &&& (event matches DiscoveryEvent::TaskFinished(Some(g)) ==> n.found == Some(g))
            &&& (!(event matches DiscoveryEvent::TaskFinished(Some(_))) ==> n.found is None)
            &&& (a matches DiscoveryAction::Finish(o) ==> o == n.outcome())
            &&& (!ends && !opens ==> n.phase == DiscoveryPhase::Searching && a
                == DiscoveryAction::Wait && n.found is None && (event is TaskFinished ==> n.pending
                == d.pending - 1) && (!(event is TaskFinished) ==> n.pending == d.pending))
        }),
{
}

/// Discovery starts by waiting, with nothing found and every command
/// counted as running, unless no command was sent: then it is over at
/// once, with no firmware.
pub proof fn lemma_start_waits_for_commands(pending: usize)
    ensures
        ({
            let (d, a) = Discovery::start_spec(pending);
            &&& d.wf()
            &&& d.found is None
            &&& d.pending == pending
            &&& (pending > 0 ==> d.phase == DiscoveryPhase::Searching && a == DiscoveryAction::Wait)
            &&& (pending == 0 ==> d.phase == DiscoveryPhase::Done && a == DiscoveryAction::Finish(
                None,
            ))
        }),
{
}

} // verus!
