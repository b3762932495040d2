//! The one-shot background-fetch handoff.
//!
//! A worker thread (run by the host) sleeps out a simulated latency, builds
//! the synthetic row list and sends it once over an unbounded channel. The
//! render loop polls the receiving end without blocking every frame: while
//! nothing has arrived a loading placeholder is shown, and the first payload
//! replaces it for good with a freshly animated row list. Channel failures are
//! silently ignored, as is a payload too long for its stagger delays to fit in
//! 64-bit milliseconds.
//!
//! Spawning the worker and sleeping are the host's business; everything the
//! library does here is decide, from the current state and the poll's outcome,
//! what the next state and the host's next step are.

use crate::list::{fresh_list, AnimatedRowList};
use crate::row::RowData;
use vstd::prelude::*;

verus! {

/// Duration of one row's slide, in milliseconds.
pub const ANIMATION_DURATION_MS: u64 = 1000;

/// Delay between two neighbouring rows' starts, in milliseconds.
pub const STAGGER_DELAY_MS: u64 = 100;

/// Simulated backend latency the worker sleeps for, in milliseconds.
pub const FETCH_LATENCY_MS: u64 = 5000;

/// Number of rows in the synthetic payload the worker builds.
pub const SYNTHETIC_ROW_COUNT: usize = 100;

/// Longest row list whose stagger delays all fit in 64-bit milliseconds.
pub const MAX_STAGGERED_ROWS: u64 = u64::MAX / STAGGER_DELAY_MS;

#[verifier::external_type_specification]
#[verifier::external_body]
#[verifier::reject_recursive_types(T)]
pub struct ExSender<T>(crossbeam_channel::Sender<T>);

#[verifier::external_type_specification]
#[verifier::external_body]
#[verifier::reject_recursive_types(T)]
pub struct ExReceiver<T>(crossbeam_channel::Receiver<T>);

/// Relies on crossbeam_channel::unbounded: builds a channel of unbounded
/// capacity and returns its sending and receiving endpoints.
#[verifier::external_body]
fn rows_channel() -> (endpoints: (
    crossbeam_channel::Sender<Vec<RowData>>,
    crossbeam_channel::Receiver<Vec<RowData>>,
)) {
    crossbeam_channel::unbounded()
}

/// Relies on crossbeam_channel::Receiver::try_recv: returns a pending message
/// without blocking, or nothing when the channel is empty or disconnected.
/// What arrives, if anything, is decided by the sending side, so nothing is
/// promised of the payload.
#[verifier::external_body]
fn try_recv_rows(receiver: &crossbeam_channel::Receiver<Vec<RowData>>) -> (msg: Option<
    Vec<RowData>,
>) {
    receiver.try_recv().ok()
}

/// What the render loop is showing: the loading placeholder (with the
/// receiving end of the worker's channel, once a worker was started), or the
/// animated list built from the payload that arrived.
pub enum RowState {
    Fetching(Option<crossbeam_channel::Receiver<Vec<RowData>>>),
    Displaying(AnimatedRowList),
}

/// What the host must do after one per-frame update.
pub enum UpdateAction {
    /// Spawn a worker that builds the payload and sends it through the given
    /// endpoint; the placeholder stays up meanwhile.
    StartWorker(crossbeam_channel::Sender<Vec<RowData>>),
    /// Nothing arrived yet: keep the placeholder and poll again soon.
    KeepWaiting,
    /// The payload arrived this frame and the animated list replaced the
    /// placeholder: repaint at once.
    Arrived,
    /// The list is up: paint it.
    ShowList,
}

/// The fetch-then-display application state.
pub struct App {
    pub state: RowState,
}

/// The application displays a list freshly animated from `now_ms`, built from
/// some payload with the library's duration and stagger constants.
pub open spec fn displays_fresh(app: App, now_ms: u64) -> bool {
    match app.state {
        RowState::Displaying(l) => exists|rows: Seq<RowData>|
            fresh_list(l, rows, now_ms, ANIMATION_DURATION_MS, STAGGER_DELAY_MS),
        RowState::Fetching(_) => false,
    }
}

impl App {
    /// A fresh application: nothing fetched, no worker started yet.
    pub fn new() -> (app: App)
        ensures
            app.state matches RowState::Fetching(r) && r is None,
    {
        App { state: RowState::Fetching(None) }
    }

    /// Opens a fresh channel for one fetch cycle and hands back its sending
    /// end for the host to move into a worker; polling resumes from scratch.
    pub fn start_fetch(&mut self) -> (sender: crossbeam_channel::Sender<Vec<RowData>>)
        ensures
            final(self).state matches RowState::Fetching(r) && r is Some,
    {
        let (sender, receiver) = rows_channel();
        self.state = RowState::Fetching(Some(receiver));
        sender
    }

    /// One per-frame step of the fetch state machine.
    ///
    /// Before a worker exists it opens the channel and asks the host to start
    /// one. While fetching it polls the channel: no message leaves the state
    /// untouched, and the first payload replaces the placeholder with a row
    /// list freshly animated from `now_ms` (a payload longer than
    /// `MAX_STAGGERED_ROWS` is ignored like a failed receive). Once a list is
    /// displayed the state never goes back to the placeholder by itself.
    pub fn update(&mut self, now_ms: u64) -> (action: UpdateAction)
        ensures
            action is StartWorker <==> (old(self).state matches RowState::Fetching(r)
                && r is None),
            action is ShowList <==> old(self).state is Displaying,
            old(self).state matches RowState::Fetching(r) && r is None
                ==> (final(self).state matches RowState::Fetching(nr) && nr is Some),
            old(self).state matches RowState::Fetching(r) && r is Some ==> {
                ||| (action is KeepWaiting && *final(self) == *old(self))
                ||| (action is Arrived && displays_fresh(*final(self), now_ms))
            },
            old(self).state is Displaying ==> action is ShowList && *final(self) == *old(self),
    {
        let mut needs_start = false;
        let mut received: Option<Vec<RowData>> = None;
        match &self.state {
            RowState::Displaying(_) => {
                return UpdateAction::ShowList;
            },
            RowState::Fetching(receiver_opt) => {
                match receiver_opt {
                    None => {
                        needs_start = true;
                    },
                    Some(receiver) => {
                        received = try_recv_rows(receiver);
                    },
                }
            },
        }
        if needs_start {
            return UpdateAction::StartWorker(self.start_fetch());
        }
        match received {
            Some(rows) => {
                let ghost payload = rows@;
                let action = self.apply_payload(rows, now_ms);
                proof {
                    if payload.len() <= MAX_STAGGERED_ROWS {
                        let l = self.state->Displaying_0;
                        assert(exists|sent: Seq<RowData>|
                            fresh_list(l, sent, now_ms, ANIMATION_DURATION_MS, STAGGER_DELAY_MS))
                            by {
                            assert(fresh_list(
                                l,
                                payload,
                                now_ms,
                                ANIMATION_DURATION_MS,
                                STAGGER_DELAY_MS,
                            ));
                        }
                    }
                }
                action
            },
            None => UpdateAction::KeepWaiting,
        }
    }

    /// Installs a received payload: the loading placeholder is replaced by a
    /// row list freshly animated from `now_ms`, built from exactly these rows.
    /// A payload longer than `MAX_STAGGERED_ROWS` is ignored like a failed
    /// receive: the state is left alone and the host keeps waiting.
    pub fn apply_payload(&mut self, rows: Vec<RowData>, now_ms: u64) -> (action: UpdateAction)
        ensures
            rows@.len() <= MAX_STAGGERED_ROWS ==> (action is Arrived
                && (final(self).state matches RowState::Displaying(l)
                    && fresh_list(l, rows@, now_ms, ANIMATION_DURATION_MS, STAGGER_DELAY_MS))),
            rows@.len() > MAX_STAGGERED_ROWS ==> action is KeepWaiting && *final(self) == *old(
                self,
            ),
    {
        if rows.len() as u64 <= MAX_STAGGERED_ROWS {
            let list = AnimatedRowList::new(rows, now_ms, ANIMATION_DURATION_MS, STAGGER_DELAY_MS);
            self.state = RowState::Displaying(list);
            proof {
                assert(self.state->Displaying_0 == list);
            }
            UpdateAction::Arrived
        } else {
            UpdateAction::KeepWaiting
        }
    }

    /// Whether the loading placeholder is what the host should paint.
    pub fn is_loading(&self) -> (loading: bool)
        ensures
            loading <==> self.state is Fetching,
    {
        matches!(&self.state, RowState::Fetching(_))
    }

    /// The displayed list, once one has arrived.
    pub fn displayed(&self) -> (list: Option<&AnimatedRowList>)
        ensures
            list is Some <==> self.state is Displaying,
            list matches Some(l) ==> self.state matches RowState::Displaying(sl) && *l == sl,
    {
        match &self.state {
            RowState::Displaying(list) => Some(list),
            RowState::Fetching(_) => None,
        }
    }
}

} // verus!
