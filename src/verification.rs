//! The interactive verification flow between two parties, as a state
//! machine: requested, ready once methods are agreed, in progress, and then
//! done or cancelled.

use vstd::prelude::*;
use crate::error::TrustError;
use crate::keys::VerificationRecord;

verus! {

/// A sub-protocol that a party can run to verify another.
#[derive(Debug, Clone, Copy, PartialEq, Eq, Structural)]
pub enum VerificationMethod {
    /// Short authentication strings.
    SasV1,
    /// Scanning a QR code.
    QrCodeScanV1,
    /// Showing a QR code.
    QrCodeShowV1,
    /// Confirming a scanned QR code.
    ReciprocateV1,
}

/// Where the flow's messages travel.
#[derive(Debug, Clone, Copy, PartialEq, Eq, Structural)]
pub enum FlowContext {
    /// Between devices, by direct messages.
    ToDevice,
    /// Inside a room, starting from the request event.
    InRoom { room_id: u64, event_id: u64 },
}

/// Where a verification flow stands.
#[derive(Debug, Clone, Copy, PartialEq, Eq, Structural)]
pub enum VerificationPhase {
    Requested,
    Ready,
    InProgress,
    Done,
    Cancelled,
    TimedOut,
}

/// The phases from which no transition leads on.
pub open spec fn is_terminal(p: VerificationPhase) -> bool {
    p == VerificationPhase::Done || p == VerificationPhase::Cancelled || p
        == VerificationPhase::TimedOut
}

/// The methods of `ours` that `theirs` supports too, in the order of `ours`.
pub open spec fn shared_methods(ours: Seq<VerificationMethod>, theirs: Seq<VerificationMethod>) -> Seq<VerificationMethod>
    decreases ours.len(),
{
    if ours.len() == 0 {
        Seq::empty()
    } else {
        let rest = shared_methods(ours.drop_last(), theirs);
        if theirs.contains(ours.last()) {
            rest.push(ours.last())
        } else {
            rest
        }
    }
}

/// Every method that a flow can offer, the choice where none is given.
pub open spec fn all_methods() -> Seq<VerificationMethod> {
    seq![
        VerificationMethod::SasV1,
        VerificationMethod::QrCodeScanV1,
        VerificationMethod::QrCodeShowV1,
        VerificationMethod::ReciprocateV1,
    ]
}

/// The methods offered when `methods` is the caller's choice.
pub open spec fn offered_methods(methods: Option<Vec<VerificationMethod>>) -> Seq<VerificationMethod> {
    match methods {
        Some(m) => m@,
        None => all_methods(),
    }
}

/// The caller's methods, or every method where none are given.
pub fn methods_or_all(methods: Option<Vec<VerificationMethod>>) -> (r: Vec<VerificationMethod>)
    ensures
        r@ == offered_methods(methods),
{
    match methods {
        Some(m) => m,
        None => {
            let r = vec![
                VerificationMethod::SasV1,
                VerificationMethod::QrCodeScanV1,
                VerificationMethod::QrCodeShowV1,
                VerificationMethod::ReciprocateV1,
            ];
            assert(r@ =~= all_methods());
            r
        },
    }
}

/// A copy of `methods`.
pub fn copy_methods(methods: &Vec<VerificationMethod>) -> (r: Vec<VerificationMethod>)
    ensures
        r@ == methods@,
{
    let mut r: Vec<VerificationMethod> = Vec::new();
    let mut i: usize = 0;
    while i < methods.len()
        invariant
            i <= methods@.len(),
            r@ == methods@.subrange(0, i as int),
        decreases methods@.len() - i,
    {
        r.push(methods[i]);
        i = i + 1;
        assert(r@ =~= methods@.subrange(0, i as int));
    }
    assert(methods@.subrange(0, methods@.len() as int) =~= methods@);
    r
}

fn supports(methods: &Vec<VerificationMethod>, m: VerificationMethod) -> (r: bool)
    ensures
        r == methods@.contains(m),
{
    let mut i: usize = 0;
    while i < methods.len()
        invariant
            i <= methods@.len(),
            forall|j: int| 0 <= j < i ==> methods@[j] != m,
        decreases methods@.len() - i,
    {
        if methods[i] == m {
            return true;
        }
        i = i + 1;
    }
    false
}

/// The negotiated method list: what both sides support, never the union.
pub fn negotiate_methods(ours: &Vec<VerificationMethod>, theirs: &Vec<VerificationMethod>) -> (r: Vec<VerificationMethod>)
    ensures
        r@ == shared_methods(ours@, theirs@),
{
    let mut r: Vec<VerificationMethod> = Vec::new();
    let mut i: usize = 0;
    while i < ours.len()
        invariant
            i <= ours@.len(),
            r@ == shared_methods(ours@.subrange(0, i as int), theirs@),
        decreases ours@.len() - i,
    {
        let m = ours[i];
        assert(ours@.subrange(0, i + 1).drop_last() =~= ours@.subrange(0, i as int));
        if supports(theirs, m) {
            r.push(m);
        }
        i = i + 1;
    }
    assert(ours@.subrange(0, ours@.len() as int) =~= ours@);
    r
}

/// What the other side, the sub-protocol or the clock reports to a flow.
#[derive(Debug)]
pub enum VerificationEvent {
    /// The other side answers with the methods it supports.
    Accepted(Vec<VerificationMethod>),
    /// The chosen sub-protocol starts.
    Started,
    /// The sub-protocol succeeded.
    Completed,
    /// Either side cancels.
    Cancelled(TrustError),
    /// No answer came in time.
    TimedOut,
}

/// The state of a flow, as its contracts see it.
pub struct FlowView {
    pub other_user_id: u64,
    pub master_key: u64,
    pub flow: FlowContext,
    pub our_methods: Seq<VerificationMethod>,
    pub common_methods: Seq<VerificationMethod>,
    pub phase: VerificationPhase,
    pub cancel_reason: Option<TrustError>,
}

/// The state of a flow after `e`. A terminal flow stays as it is; an event
/// that does not fit the phase changes nothing.
pub open spec fn next_state(v: FlowView, e: VerificationEvent) -> FlowView {
    if is_terminal(v.phase) {
        v
    } else {
        match e {
            VerificationEvent::Accepted(theirs) => if v.phase == VerificationPhase::Requested {
                let common = shared_methods(v.our_methods, theirs@);
                if common.len() > 0 {
                    FlowView { common_methods: common, phase: VerificationPhase::Ready, ..v }
                } else {
                    FlowView {
                        common_methods: common,
                        phase: VerificationPhase::Cancelled,
                        cancel_reason: Some(TrustError::NoCommonMethod),
                        ..v
                    }
                }
            } else {
                v
            },
            VerificationEvent::Started => if v.phase == VerificationPhase::Ready {
                FlowView { phase: VerificationPhase::InProgress, ..v }
            } else {
                v
            },
            VerificationEvent::Completed => if v.phase == VerificationPhase::InProgress {
                FlowView { phase: VerificationPhase::Done, ..v }
            } else {
                v
            },
            VerificationEvent::Cancelled(reason) => FlowView {
                phase: VerificationPhase::Cancelled,
                cancel_reason: Some(reason),
                ..v
            },
            VerificationEvent::TimedOut => FlowView { phase: VerificationPhase::TimedOut, ..v },
        }
    }
}

/// What a flow hands out on `e`: a record of the verified master key, only
/// when the sub-protocol of a flow in progress succeeds.
pub open spec fn effect(v: FlowView, e: VerificationEvent) -> Option<VerificationRecord> {
    if v.phase == VerificationPhase::InProgress && e is Completed {
        Some(VerificationRecord { user_id: v.other_user_id, master_key: v.master_key })
    } else {
        None
    }
}

/// One interactive verification with another user, or with another device
/// of our own user.
#[derive(Debug)]
pub struct VerificationRequest {
    other_user_id: u64,
    master_key: u64,
    flow: FlowContext,
    our_methods: Vec<VerificationMethod>,
    common_methods: Vec<VerificationMethod>,
    phase: VerificationPhase,
    cancel_reason: Option<TrustError>,
}

impl View for VerificationRequest {
    type V = FlowView;

    closed spec fn view(&self) -> FlowView {
        FlowView {
            other_user_id: self.other_user_id,
            master_key: self.master_key,
            flow: self.flow,
            our_methods: self.our_methods@,
            common_methods: self.common_methods@,
            phase: self.phase,
            cancel_reason: self.cancel_reason,
        }
    }
}

impl VerificationRequest {
    /// A flow in its first phase.
    pub fn new(other_user_id: u64, master_key: u64, flow: FlowContext, our_methods: Vec<VerificationMethod>) -> (r: VerificationRequest)
        ensures
            r@ == (FlowView {
                other_user_id,
                master_key,
                flow,
                our_methods: our_methods@,
                common_methods: Seq::empty(),
                phase: VerificationPhase::Requested,
                cancel_reason: None,
            }),
    {
        let r = VerificationRequest {
            other_user_id,
            master_key,
            flow,
            our_methods,
            common_methods: Vec::new(),
            phase: VerificationPhase::Requested,
            cancel_reason: None,
        };
        assert(r@.common_methods =~= Seq::empty());
        r
    }

    /// The user whose identity is being verified.
    pub fn other_user_id(&self) -> (r: u64)
        ensures
            r == self@.other_user_id,
    {
        self.other_user_id
    }

    /// The master key of that user when the flow began: the one that a
    /// successful flow vouches for.
    pub fn master_key(&self) -> (r: u64)
        ensures
            r == self@.master_key,
    {
        self.master_key
    }

    pub fn flow(&self) -> (r: FlowContext)
        ensures
            r == self@.flow,
    {
        self.flow
    }

    /// The methods that we offer.
    pub fn our_methods(&self) -> (r: &Vec<VerificationMethod>)
        ensures
            r@ == self@.our_methods,
    {
        &self.our_methods
    }

    /// The methods that both sides support, once the other side answered.
    pub fn common_methods(&self) -> (r: &Vec<VerificationMethod>)
        ensures
            r@ == self@.common_methods,
    {
        &self.common_methods
    }

    pub fn phase(&self) -> (r: VerificationPhase)
        ensures
            r == self@.phase,
    {
        self.phase
    }

    /// Why the flow was cancelled, where it was.
    pub fn cancel_reason(&self) -> (r: Option<TrustError>)
        ensures
            r == self@.cancel_reason,
    {
        self.cancel_reason
    }

    /// The other side answers with the methods it supports. With at least
    /// one method in common the flow is ready; with none it is cancelled with
    /// `NoCommonMethod`. Outside the first phase nothing changes.
    pub fn accept(&mut self, their_methods: &Vec<VerificationMethod>) -> (r: Result<(), TrustError>)
        ensures
            final(self)@ == next_state(old(self)@, VerificationEvent::Accepted(*their_methods)),
            r is Err <==> (old(self)@.phase == VerificationPhase::Requested && final(self)@.phase
                == VerificationPhase::Cancelled),
            r is Err ==> r == Err::<(), TrustError>(TrustError::NoCommonMethod),
    {
        if self.phase != VerificationPhase::Requested {
            return Ok(());
        }
        let common = negotiate_methods(&self.our_methods, their_methods);
        let empty = common.len() == 0;
        self.common_methods = common;
        if empty {
            self.phase = VerificationPhase::Cancelled;
            self.cancel_reason = Some(TrustError::NoCommonMethod);
            Err(TrustError::NoCommonMethod)
        } else {
            self.phase = VerificationPhase::Ready;
            Ok(())
        }
    }

    /// The chosen sub-protocol starts: a ready flow moves on, and a flow in
    /// any other phase stays where it is.
    pub fn start(&mut self)
        ensures
            final(self)@ == next_state(old(self)@, VerificationEvent::Started),
    {
        if self.phase == VerificationPhase::Ready {
            self.phase = VerificationPhase::InProgress;
        }
    }

    /// The sub-protocol succeeded. Only a flow in progress reaches the end,
    /// and only then does it hand out a record of the verified master key.
    pub fn complete(&mut self) -> (r: Option<VerificationRecord>)
        ensures
            final(self)@ == next_state(old(self)@, VerificationEvent::Completed),
            r == effect(old(self)@, VerificationEvent::Completed),
    {
        if self.phase == VerificationPhase::InProgress {
            self.phase = VerificationPhase::Done;
            Some(VerificationRecord { user_id: self.other_user_id, master_key: self.master_key })
        } else {
            None
        }
    }

    /// Cancels the flow from any phase that is not terminal; on a terminal
    /// one it does nothing, so that cancelling twice is no error.
    pub fn cancel(&mut self, reason: TrustError)
        ensures
            final(self)@ == next_state(old(self)@, VerificationEvent::Cancelled(reason)),
    {
        if !(self.phase == VerificationPhase::Done || self.phase == VerificationPhase::Cancelled
            || self.phase == VerificationPhase::TimedOut) {
            self.phase = VerificationPhase::Cancelled;
            self.cancel_reason = Some(reason);
        }
    }

    /// The flow ran out of time: from a phase that is not terminal it ends
    /// timed out, without a record.
    pub fn time_out(&mut self)
        ensures
            final(self)@ == next_state(old(self)@, VerificationEvent::TimedOut),
    {
        if !(self.phase == VerificationPhase::Done || self.phase == VerificationPhase::Cancelled
            || self.phase == VerificationPhase::TimedOut) {
            self.phase = VerificationPhase::TimedOut;
        }
    }

    /// Feeds `event` to the flow and returns what it hands out.
    pub fn handle(&mut self, event: VerificationEvent) -> (r: Option<VerificationRecord>)
        ensures
            final(self)@ == next_state(old(self)@, event),
            r == effect(old(self)@, event),
    {
        match event {
            VerificationEvent::Accepted(theirs) => {
                let _ = self.accept(&theirs);
                None
            },
            VerificationEvent::Started => {
                self.start();
                None
            },
            VerificationEvent::Completed => self.complete(),
            VerificationEvent::Cancelled(reason) => {
                self.cancel(reason);
                None
            },
            VerificationEvent::TimedOut => {
                self.time_out();
                None
            },
        }
    }
}

/// No event hands out a record unless it brings the flow to `Done`.
pub proof fn lemma_record_only_when_done(v: FlowView, e: VerificationEvent)
    ensures
        effect(v, e) is Some ==> next_state(v, e).phase == VerificationPhase::Done,
{
}

/// Disjoint method sets share nothing.
proof fn lemma_disjoint_share_nothing(ours: Seq<VerificationMethod>, theirs: Seq<VerificationMethod>)
    requires
        forall|m: VerificationMethod| ours.contains(m) ==> !theirs.contains(m),
    ensures
        shared_methods(ours, theirs).len() == 0,
    decreases ours.len(),
{
    if ours.len() > 0 {
        assert(ours.contains(ours.last()));
        assert forall|m: VerificationMethod| ours.drop_last().contains(m) implies !theirs.contains(m) by {
            let k = choose|k: int| 0 <= k < ours.drop_last().len() && ours.drop_last()[k] == m;
            assert(ours[k] == m);
        }
        lemma_disjoint_share_nothing(ours.drop_last(), theirs);
    }
}

/// A requested flow whose methods and the other side's are disjoint goes
/// straight to `Cancelled` with `NoCommonMethod`, hands out no record, and
/// no later event gets a record out of it either.
pub proof fn lemma_disjoint_methods_cancel(v: FlowView, theirs: Vec<VerificationMethod>)
    requires
        v.phase == VerificationPhase::Requested,
        forall|m: VerificationMethod| v.our_methods.contains(m) ==> !theirs@.contains(m),
    ensures
        next_state(v, VerificationEvent::Accepted(theirs)).phase == VerificationPhase::Cancelled,
        next_state(v, VerificationEvent::Accepted(theirs)).cancel_reason == Some(
            TrustError::NoCommonMethod,
        ),
        effect(v, VerificationEvent::Accepted(theirs)) is None,
        forall|e: VerificationEvent| #[trigger]
            effect(next_state(v, VerificationEvent::Accepted(theirs)), e) is None,
{
    lemma_disjoint_share_nothing(v.our_methods, theirs@);
}

} // verus!
