use vstd::prelude::*;
use vstd::pervasive::unreached;
use vstd::string::StringExecFns;

use crate::domain::Domain;
use crate::domain::domain_allowed;
use crate::identity::EvidenceView;
use crate::identity::HypervisorEvidence;
use crate::identity::InstanceIdentity;
use crate::identity::platform_trusted;
use crate::identity::valid_instance_id;
use crate::identity::verify_platform;
use crate::reason::Reason;
use crate::signer::SignerIdentity;
use crate::signer::signer_text;
use crate::zone::AvailabilityZone;
use crate::zone::valid_zone;

verus! {

/// Raw key material fetched for one local user, held only long enough to
/// be written out by the surrounding program.
#[derive(Debug, PartialEq, Eq)]
pub struct ManagedKeySet {
    pub text: String,
}

impl View for ManagedKeySet {
    type V = Seq<char>;

    open spec fn view(&self) -> Seq<char> {
        self.text@
    }
}

/// What one metadata fetch came back with.
#[derive(Debug)]
pub enum MetaResult {
    /// The path resolved to this string value.
    Value(String),
    /// The path does not exist.
    NotFound,
    /// The transport failed before any value arrived.
    NetworkError,
}

/// Mathematical image of [`MetaResult`].
pub ghost enum MetaView {
    Value(Seq<char>),
    NotFound,
    NetworkError,
}

impl View for MetaResult {
    type V = MetaView;

    open spec fn view(&self) -> MetaView {
        match self {
            MetaResult::Value(v) => MetaView::Value(v@),
            MetaResult::NotFound => MetaView::NotFound,
            MetaResult::NetworkError => MetaView::NetworkError,
        }
    }
}

/// What the surrounding program hands the state machine: the answer to
/// the last requested action, or the expiry of the external deadline.
#[derive(Debug)]
pub enum Event {
    /// The response to the metadata fetch that was asked for.
    Metadata(MetaResult),
    /// What the local platform evidence surfaces showed.
    Evidence(HypervisorEvidence),
    /// The external deadline elapsed before the answer arrived.
    DeadlineExpired,
}

/// Mathematical image of [`Event`].
pub ghost enum EventView {
    Metadata(MetaView),
    Evidence(EvidenceView),
    DeadlineExpired,
}

impl View for Event {
    type V = EventView;

    open spec fn view(&self) -> EventView {
        match self {
            Event::Metadata(m) => EventView::Metadata(m@),
            Event::Evidence(e) => EventView::Evidence(e@),
            Event::DeadlineExpired => EventView::DeadlineExpired,
        }
    }
}

/// The decision of a finished pipeline.
#[derive(Debug, PartialEq, Eq)]
pub enum Outcome {
    /// Every check passed; the fetched keys may be emitted.
    Authorized(ManagedKeySet),
    /// Some check failed, or the deadline fired; nothing is emitted.
    Denied(Reason),
}

/// Mathematical image of [`Outcome`].
pub ghost enum OutcomeView {
    Authorized(Seq<char>),
    Denied(Reason),
}

impl View for Outcome {
    type V = OutcomeView;

    open spec fn view(&self) -> OutcomeView {
        match self {
            Outcome::Authorized(k) => OutcomeView::Authorized(k@),
            Outcome::Denied(r) => OutcomeView::Denied(*r),
        }
    }
}

/// What the state machine asks the surrounding program to do next.
#[derive(Debug, PartialEq, Eq)]
pub enum Action {
    /// Fetch the instance identifier from the metadata service.
    FetchInstanceId,
    /// Probe the local platform evidence surfaces.
    ProbeEvidence,
    /// Fetch the availability zone from the metadata service.
    FetchZone,
    /// Fetch the service domain from the metadata service.
    FetchDomain,
    /// Fetch the managed keys under exactly this metadata path.
    FetchKeys(String),
    /// Write this key material to standard output, then stop.
    Emit(ManagedKeySet),
    /// Emit nothing; the reason is for the system log alone.
    Deny(Reason),
    /// The pipeline had already finished; there is nothing left to do.
    Finished,
}

/// Mathematical image of [`Action`].
pub ghost enum ActionView {
    FetchInstanceId,
    ProbeEvidence,
    FetchZone,
    FetchDomain,
    FetchKeys(Seq<char>),
    Emit(Seq<char>),
    Deny(Reason),
    Finished,
}

impl View for Action {
    type V = ActionView;

    open spec fn view(&self) -> ActionView {
        match self {
            Action::FetchInstanceId => ActionView::FetchInstanceId,
            Action::ProbeEvidence => ActionView::ProbeEvidence,
            Action::FetchZone => ActionView::FetchZone,
            Action::FetchDomain => ActionView::FetchDomain,
            Action::FetchKeys(p) => ActionView::FetchKeys(p@),
            Action::Emit(k) => ActionView::Emit(k@),
            Action::Deny(r) => ActionView::Deny(*r),
            Action::Finished => ActionView::Finished,
        }
    }
}

/// Where the pipeline stands: which check is waiting for its input, or
/// the decision it has come to.
pub enum Stage {
    AwaitInstanceId,
    AwaitEvidence { id: InstanceIdentity },
    AwaitZone { id: InstanceIdentity },
    AwaitDomain { id: InstanceIdentity, zone: AvailabilityZone },
    AwaitKeys { id: InstanceIdentity, signer: SignerIdentity },
    Done { outcome: Outcome },
}

/// Mathematical image of [`Stage`].
pub ghost enum StageView {
    AwaitInstanceId,
    AwaitEvidence { id: Seq<char> },
    AwaitZone { id: Seq<char> },
    AwaitDomain { id: Seq<char>, zone: Seq<char> },
    AwaitKeys { id: Seq<char>, signer: Seq<char> },
    Done { outcome: OutcomeView },
}

impl View for Stage {
    type V = StageView;

    open spec fn view(&self) -> StageView {
        match self {
            Stage::AwaitInstanceId => StageView::AwaitInstanceId,
            Stage::AwaitEvidence { id } => StageView::AwaitEvidence { id: id@ },
            Stage::AwaitZone { id } => StageView::AwaitZone { id: id@ },
            Stage::AwaitDomain { id, zone } => StageView::AwaitDomain { id: id@, zone: zone@ },
            Stage::AwaitKeys { id, signer } => StageView::AwaitKeys { id: id@, signer: signer@ },
            Stage::Done { outcome } => StageView::Done { outcome: outcome@ },
        }
    }
}

/// One login decision in flight: the user being authorized and the stage
/// the checks have reached.
pub struct Pipeline {
    user: String,
    stage: Stage,
}

/// Mathematical image of [`Pipeline`].
pub ghost struct PipelineView {
    pub user: Seq<char>,
    pub stage: StageView,
}

impl View for Pipeline {
    type V = PipelineView;

    closed spec fn view(&self) -> PipelineView {
        PipelineView { user: self.user@, stage: self.stage@ }
    }
}

/// Metadata path that scopes the key request to exactly one local user.
pub open spec fn key_path(user: Seq<char>) -> Seq<char> {
    "/managed-ssh-keys/active-keys/"@ + user + "/"@
}

/// Build the per-user key request path.
pub fn key_request_path(user: &str) -> (r: String)
    ensures
        r@ == key_path(user@),
{
    let mut out = String::new();
    out.append("/managed-ssh-keys/active-keys/");
    out.append(user);
    out.append("/");
    proof {
        assert(out@ =~= key_path(user@));
    }
    out
}

/// Which events the machine accepts in each stage: the deadline may
/// always fire, a metadata response answers a metadata fetch, the
/// evidence probe answers the evidence stage, and a finished pipeline
/// absorbs anything that still arrives.
pub open spec fn event_permitted(stage: StageView, ev: EventView) -> bool {
    match ev {
        EventView::DeadlineExpired => true,
        EventView::Metadata(_) => match stage {
            StageView::AwaitEvidence { .. } => false,
            _ => true,
        },
        EventView::Evidence(_) => match stage {
            StageView::AwaitEvidence { .. } => true,
            StageView::Done { .. } => true,
            _ => false,
        },
    }
}

/// The pipeline that has come to this denial, and the matching action.
pub open spec fn spec_deny(p: PipelineView, r: Reason) -> (PipelineView, ActionView) {
    (
        PipelineView { user: p.user, stage: StageView::Done { outcome: OutcomeView::Denied(r) } },
        ActionView::Deny(r),
    )
}

/// The complete transition table of the pipeline.  A finished pipeline
/// never moves again; the deadline ends any unfinished pipeline with the
/// generic timeout denial; otherwise each stage consumes its answer,
/// validates it, and either advances or denies with the named reason.
pub open spec fn spec_step(p: PipelineView, ev: EventView) -> (PipelineView, ActionView) {
    match (p.stage, ev) {
        (StageView::Done { .. }, _) => (p, ActionView::Finished),
        (_, EventView::DeadlineExpired) => spec_deny(p, Reason::Timeout),
        (StageView::AwaitInstanceId, EventView::Metadata(m)) => match m {
            MetaView::Value(v) => if valid_instance_id(v) {
                (
                    PipelineView { user: p.user, stage: StageView::AwaitEvidence { id: v } },
                    ActionView::ProbeEvidence,
                )
            } else {
                spec_deny(p, Reason::InvalidIdentity)
            },
            MetaView::NotFound => spec_deny(p, Reason::NotFound),
            MetaView::NetworkError => spec_deny(p, Reason::NetworkError),
        },
        (StageView::AwaitEvidence { id }, EventView::Evidence(e)) => if platform_trusted(e, id) {
            (
                PipelineView { user: p.user, stage: StageView::AwaitZone { id } },
                ActionView::FetchZone,
            )
        } else {
            spec_deny(p, Reason::UntrustedPlatform)
        },
        (StageView::AwaitZone { id }, EventView::Metadata(m)) => match m {
            MetaView::Value(v) => if valid_zone(v) {
                (
                    PipelineView { user: p.user, stage: StageView::AwaitDomain { id, zone: v } },
                    ActionView::FetchDomain,
                )
            } else {
                spec_deny(p, Reason::InvalidZone)
            },
            MetaView::NotFound => spec_deny(p, Reason::NotFound),
            MetaView::NetworkError => spec_deny(p, Reason::NetworkError),
        },
        (StageView::AwaitDomain { id, zone }, EventView::Metadata(m)) => match m {
            MetaView::Value(v) => if domain_allowed(v) {
                (
                    PipelineView {
                        user: p.user,
                        stage: StageView::AwaitKeys { id, signer: signer_text(zone, v) },
                    },
                    ActionView::FetchKeys(key_path(p.user)),
                )
            } else {
                spec_deny(p, Reason::UntrustedDomain)
            },
            MetaView::NotFound => spec_deny(p, Reason::NotFound),
            MetaView::NetworkError => spec_deny(p, Reason::NetworkError),
        },
        (StageView::AwaitKeys { .. }, EventView::Metadata(m)) => match m {
            MetaView::Value(v) => (
                PipelineView {
                    user: p.user,
                    stage: StageView::Done { outcome: OutcomeView::Authorized(v) },
                },
                ActionView::Emit(v),
            ),
            MetaView::NotFound => spec_deny(p, Reason::NotFound),
            MetaView::NetworkError => spec_deny(p, Reason::NetworkError),
        },
        _ => (p, ActionView::Finished),
    }
}

/// The start of a pipeline: with a user, the machine asks for the
/// instance identifier first; with none, the decision is immediate and no
/// metadata is ever requested.
pub open spec fn spec_init(user: Option<Seq<char>>) -> (PipelineView, ActionView) {
    match user {
        Option::Some(u) => (
            PipelineView { user: u, stage: StageView::AwaitInstanceId },
            ActionView::FetchInstanceId,
        ),
        Option::None => (
            PipelineView {
                user: Seq::empty(),
                stage: StageView::Done { outcome: OutcomeView::Denied(Reason::UnknownUser) },
            },
            ActionView::Deny(Reason::UnknownUser),
        ),
    }
}

/// The machine driven over a whole sequence of events, in order.
pub open spec fn spec_run(p: PipelineView, evs: Seq<EventView>) -> PipelineView
    decreases evs.len(),
{
    if evs.len() == 0 {
        p
    } else {
        spec_run(spec_step(p, evs[0]).0, evs.drop_first())
    }
}

impl Pipeline {
    /// Start a pipeline for the given local user, returning the machine
    /// and the first action to perform.
    pub fn new(user: Option<String>) -> (r: (Pipeline, Action))
        ensures
            user matches Some(u) ==> (r.0@, r.1@) == spec_init(Option::Some(u@)),
            user is None ==> (r.0@, r.1@) == spec_init(Option::<Seq<char>>::None),
    {
        match user {
            Option::Some(u) => (
                Pipeline { user: u, stage: Stage::AwaitInstanceId },
                Action::FetchInstanceId,
            ),
            Option::None => (
                Pipeline {
                    user: String::new(),
                    stage: Stage::Done { outcome: Outcome::Denied(Reason::UnknownUser) },
                },
                Action::Deny(Reason::UnknownUser),
            ),
        }
    }

    /// Consume one event and move to the next stage, exactly as the
    /// transition table says.
    pub fn step(self, ev: Event) -> (r: (Pipeline, Action))
        requires
            event_permitted(self@.stage, ev@),
        ensures
            (r.0@, r.1@) == spec_step(self@, ev@),
    {
        let Pipeline { user, stage } = self;
        match stage {
            Stage::Done { outcome } => (Pipeline { user, stage: Stage::Done { outcome } }, Action::Finished),
            Stage::AwaitInstanceId => match ev {
                Event::DeadlineExpired => (
                    Pipeline { user, stage: Stage::Done { outcome: Outcome::Denied(Reason::Timeout) } },
                    Action::Deny(Reason::Timeout),
                ),
                Event::Metadata(m) => match m {
                    MetaResult::Value(v) => match InstanceIdentity::parse(v.as_str()) {
                        Ok(id) => (
                            Pipeline { user, stage: Stage::AwaitEvidence { id } },
                            Action::ProbeEvidence,
                        ),
                        Err(r) => (
                            Pipeline { user, stage: Stage::Done { outcome: Outcome::Denied(r) } },
                            Action::Deny(r),
                        ),
                    },
                    MetaResult::NotFound => (
                        Pipeline { user, stage: Stage::Done { outcome: Outcome::Denied(Reason::NotFound) } },
                        Action::Deny(Reason::NotFound),
                    ),
                    MetaResult::NetworkError => (
                        Pipeline {
                            user,
                            stage: Stage::Done { outcome: Outcome::Denied(Reason::NetworkError) },
                        },
                        Action::Deny(Reason::NetworkError),
                    ),
                },
                Event::Evidence(_) => unreached(),
            },
            Stage::AwaitEvidence { id } => match ev {
                Event::DeadlineExpired => (
                    Pipeline { user, stage: Stage::Done { outcome: Outcome::Denied(Reason::Timeout) } },
                    Action::Deny(Reason::Timeout),
                ),
                Event::Evidence(e) => match verify_platform(&e, &id) {
                    Ok(()) => (Pipeline { user, stage: Stage::AwaitZone { id } }, Action::FetchZone),
                    Err(r) => (
                        Pipeline { user, stage: Stage::Done { outcome: Outcome::Denied(r) } },
                        Action::Deny(r),
                    ),
                },
                Event::Metadata(_) => unreached(),
            },
            Stage::AwaitZone { id } => match ev {
                Event::DeadlineExpired => (
                    Pipeline { user, stage: Stage::Done { outcome: Outcome::Denied(Reason::Timeout) } },
                    Action::Deny(Reason::Timeout),
                ),
                Event::Metadata(m) => match m {
                    MetaResult::Value(v) => match AvailabilityZone::parse(v.as_str()) {
                        Ok(zone) => (
                            Pipeline { user, stage: Stage::AwaitDomain { id, zone } },
                            Action::FetchDomain,
                        ),
                        Err(r) => (
                            Pipeline { user, stage: Stage::Done { outcome: Outcome::Denied(r) } },
                            Action::Deny(r),
                        ),
                    },
                    MetaResult::NotFound => (
                        Pipeline { user, stage: Stage::Done { outcome: Outcome::Denied(Reason::NotFound) } },
                        Action::Deny(Reason::NotFound),
                    ),
                    MetaResult::NetworkError => (
                        Pipeline {
                            user,
                            stage: Stage::Done { outcome: Outcome::Denied(Reason::NetworkError) },
                        },
                        Action::Deny(Reason::NetworkError),
                    ),
                },
                Event::Evidence(_) => unreached(),
            },
            Stage::AwaitDomain { id, zone } => match ev {
                Event::DeadlineExpired => (
                    Pipeline { user, stage: Stage::Done { outcome: Outcome::Denied(Reason::Timeout) } },
                    Action::Deny(Reason::Timeout),
                ),
                Event::Metadata(m) => match m {
                    MetaResult::Value(v) => match Domain::parse(v.as_str()) {
                        Ok(domain) => {
                            let signer = SignerIdentity::resolve(&zone, &domain);
                            let path = key_request_path(user.as_str());
                            (
                                Pipeline { user, stage: Stage::AwaitKeys { id, signer } },
                                Action::FetchKeys(path),
                            )
                        },
                        Err(r) => (
                            Pipeline { user, stage: Stage::Done { outcome: Outcome::Denied(r) } },
                            Action::Deny(r),
                        ),
                    },
                    MetaResult::NotFound => (
                        Pipeline { user, stage: Stage::Done { outcome: Outcome::Denied(Reason::NotFound) } },
                        Action::Deny(Reason::NotFound),
                    ),
                    MetaResult::NetworkError => (
                        Pipeline {
                            user,
                            stage: Stage::Done { outcome: Outcome::Denied(Reason::NetworkError) },
                        },
                        Action::Deny(Reason::NetworkError),
                    ),
                },
                Event::Evidence(_) => unreached(),
            },
            Stage::AwaitKeys { id, signer } => match ev {
                Event::DeadlineExpired => (
                    Pipeline { user, stage: Stage::Done { outcome: Outcome::Denied(Reason::Timeout) } },
                    Action::Deny(Reason::Timeout),
                ),
                Event::Metadata(m) => match m {
                    MetaResult::Value(v) => {
                        let emitted = v.clone();
                        (
                            Pipeline {
                                user,
                                stage: Stage::Done {
                                    outcome: Outcome::Authorized(ManagedKeySet { text: v }),
                                },
                            },
                            Action::Emit(ManagedKeySet { text: emitted }),
                        )
                    },
                    MetaResult::NotFound => (
                        Pipeline { user, stage: Stage::Done { outcome: Outcome::Denied(Reason::NotFound) } },
                        Action::Deny(Reason::NotFound),
                    ),
                    MetaResult::NetworkError => (
                        Pipeline {
                            user,
                            stage: Stage::Done { outcome: Outcome::Denied(Reason::NetworkError) },
                        },
                        Action::Deny(Reason::NetworkError),
                    ),
                },
                Event::Evidence(_) => unreached(),
            },
        }
    }
}

/// The external deadline always wins: it ends any unfinished pipeline at
/// once with the generic timeout denial, it moves a finished pipeline
/// nowhere, and it never causes key material to be emitted.
pub proof fn lemma_deadline_wins(p: PipelineView)
    ensures
        !(p.stage is Done) ==> spec_step(p, EventView::DeadlineExpired) == spec_deny(
            p,
            Reason::Timeout,
        ),
        spec_step(p, EventView::DeadlineExpired).0.stage is Done,
        !(spec_step(p, EventView::DeadlineExpired).1 is Emit),
{
}

/// Key material leaves the machine only on the one transition that
/// authorizes it, and the emitted keys are exactly the authorized ones;
/// a denied pipeline never asks for anything to be emitted.
pub proof fn lemma_no_emission_when_denied(p: PipelineView, ev: EventView)
    ensures
        spec_step(p, ev).1 matches ActionView::Emit(k) ==> spec_step(p, ev).0.stage
            == (StageView::Done { outcome: OutcomeView::Authorized(k) }),
        spec_step(p, ev).0.stage matches StageView::Done { outcome: OutcomeView::Denied(r) }
            ==> !(spec_step(p, ev).1 is Emit),
{
}

/// A pipeline without a user performs no metadata fetch at all: its very
/// first action is already the denial.
pub proof fn lemma_missing_user_fetches_nothing()
    ensures
        spec_init(Option::<Seq<char>>::None).0.stage == (StageView::Done {
            outcome: OutcomeView::Denied(Reason::UnknownUser),
        }),
        spec_init(Option::<Seq<char>>::None).1 == ActionView::Deny(Reason::UnknownUser),
{
}

/// Replaying the same events from the same start ends the same way: the
/// machine is a function of the handed-in responses alone, and carries no
/// hidden state from one run to the next.
pub proof fn lemma_rerun_identical(p: PipelineView, evs1: Seq<EventView>, evs2: Seq<EventView>)
    requires
        evs1 == evs2,
    ensures
        spec_run(p, evs1) == spec_run(p, evs2),
{
}

/// The one-shot decision over the five responses of a full run,
/// short-circuiting at the first failed check.
pub open spec fn decide(
    id_r: MetaView,
    ev: EvidenceView,
    zone_r: MetaView,
    dom_r: MetaView,
    keys_r: MetaView,
) -> OutcomeView {
    match id_r {
        MetaView::NotFound => OutcomeView::Denied(Reason::NotFound),
        MetaView::NetworkError => OutcomeView::Denied(Reason::NetworkError),
        MetaView::Value(id) => if !valid_instance_id(id) {
            OutcomeView::Denied(Reason::InvalidIdentity)
        } else if !platform_trusted(ev, id) {
            OutcomeView::Denied(Reason::UntrustedPlatform)
        } else {
            match zone_r {
                MetaView::NotFound => OutcomeView::Denied(Reason::NotFound),
                MetaView::NetworkError => OutcomeView::Denied(Reason::NetworkError),
                MetaView::Value(z) => if !valid_zone(z) {
                    OutcomeView::Denied(Reason::InvalidZone)
                } else {
                    match dom_r {
                        MetaView::NotFound => OutcomeView::Denied(Reason::NotFound),
                        MetaView::NetworkError => OutcomeView::Denied(Reason::NetworkError),
                        MetaView::Value(d) => if !domain_allowed(d) {
                            OutcomeView::Denied(Reason::UntrustedDomain)
                        } else {
                            match keys_r {
                                MetaView::NotFound => OutcomeView::Denied(Reason::NotFound),
                                MetaView::NetworkError => OutcomeView::Denied(
                                    Reason::NetworkError,
                                ),
                                MetaView::Value(k) => OutcomeView::Authorized(k),
                            }
                        },
                    }
                },
            }
        },
    }
}

/// Feeding the machine the full, ordered set of responses drives it to
/// `Done` with exactly the one-shot decision over those responses; once
/// a check fails, the later responses no longer matter.
pub proof fn lemma_run_complete(
    user: Seq<char>,
    id_r: MetaView,
    ev: EvidenceView,
    zone_r: MetaView,
    dom_r: MetaView,
    keys_r: MetaView,
)
    ensures
        ({
            let evs = seq![
                EventView::Metadata(id_r),
                EventView::Evidence(ev),
                EventView::Metadata(zone_r),
                EventView::Metadata(dom_r),
                EventView::Metadata(keys_r),
            ];
            spec_run(spec_init(Option::Some(user)).0, evs).stage == (StageView::Done {
                outcome: decide(id_r, ev, zone_r, dom_r, keys_r),
            })
        }),
{
    let evs = seq![
        EventView::Metadata(id_r),
        EventView::Evidence(ev),
        EventView::Metadata(zone_r),
        EventView::Metadata(dom_r),
        EventView::Metadata(keys_r),
    ];
    let p0 = spec_init(Option::Some(user)).0;
    let p1 = spec_step(p0, evs[0]).0;
    let p2 = spec_step(p1, evs[1]).0;
    let p3 = spec_step(p2, evs[2]).0;
    let p4 = spec_step(p3, evs[3]).0;
    let p5 = spec_step(p4, evs[4]).0;
    let t1 = evs.drop_first();
    let t2 = t1.drop_first();
    let t3 = t2.drop_first();
    let t4 = t3.drop_first();
    let t5 = t4.drop_first();
    assert(t5.len() == 0);
    assert(t1[0] == evs[1] && t2[0] == evs[2] && t3[0] == evs[3] && t4[0] == evs[4]);
    assert(spec_run(p0, evs) == spec_run(p1, t1));
    assert(spec_run(p1, t1) == spec_run(p2, t2));
    assert(spec_run(p2, t2) == spec_run(p3, t3));
    assert(spec_run(p3, t3) == spec_run(p4, t4));
    assert(spec_run(p4, t4) == spec_run(p5, t5));
    assert(spec_run(p5, t5) == p5);
}

} // verus!
