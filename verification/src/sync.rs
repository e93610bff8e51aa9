//! The sync: what the device does, in order, when the host announces an image.
//!
//! A sync pulls the image through the loopback proxy, points the service's reference at it,
//! restarts the container, proves that the restart adopted the image, records the digest, and
//! rewrites the active-image pointer. [`SyncRun`] decides which of these comes next; the caller
//! performs it and hands back what came of it.
use vstd::prelude::*;
use crate::json;
use crate::serve;
use crate::settings;
use crate::state;
use crate::state::AgentState;
use crate::text;
use crate::wire::{DeviceFrame, HostFrame, Status};

verus! {

/// The file name of the active-image pointer.
pub const ACTIVE_IMAGE_FILE: &'static str = "active-image.json";

/// The state that a device reports when a sync failed.
pub const SYNC_FAILED: &'static str = "sync_failed";

// ---------------------------------------------------------------------------
// The active-image pointer.
// ---------------------------------------------------------------------------

/// The active-image pointer: the image that the device now runs.
#[derive(Debug, Clone, PartialEq, Eq)]
pub struct ActiveImage {
    pub image: String,
    pub tag: String,
    pub digest: String,
}

/// The JSON text of a pointer to `digest`, which came as `image:tag`.
pub open spec fn pointer_text(image: Seq<char>, tag: Seq<char>, digest: Seq<char>) -> Seq<char> {
    "{\n  \"image\": "@ + (json::json_string(image) + (",\n  \"tag\": "@ + (json::json_string(tag) + (
    ",\n  \"digest\": "@ + (json::json_string(digest) + "\n}"@)))))
}

impl ActiveImage {
    /// The JSON text of this pointer, indented.
    pub fn to_json(&self) -> (r: String)
        ensures
            r@ == pointer_text(self.image@, self.tag@, self.digest@),
    {
        let tail = json::json_text(self.digest.as_str()).concat("\n}");
        let tail = ",\n  \"digest\": ".to_string().concat(tail.as_str());
        let tail = json::json_text(self.tag.as_str()).concat(tail.as_str());
        let tail = ",\n  \"tag\": ".to_string().concat(tail.as_str());
        let tail = json::json_text(self.image.as_str()).concat(tail.as_str());
        "{\n  \"image\": ".to_string().concat(tail.as_str())
    }
}

/// Nothing is lost in the pointer file: two pointers with the same text are equal.
pub proof fn law_pointer_reads_back(
    a_image: Seq<char>,
    a_tag: Seq<char>,
    a_digest: Seq<char>,
    b_image: Seq<char>,
    b_tag: Seq<char>,
    b_digest: Seq<char>,
)
    requires
        pointer_text(a_image, a_tag, a_digest) == pointer_text(b_image, b_tag, b_digest),
    ensures
        a_image == b_image,
        a_tag == b_tag,
        a_digest == b_digest,
{
    let a3 = json::json_string(a_digest) + "\n}"@;
    let b3 = json::json_string(b_digest) + "\n}"@;
    let a2 = json::json_string(a_tag) + (",\n  \"digest\": "@ + a3);
    let b2 = json::json_string(b_tag) + (",\n  \"digest\": "@ + b3);
    let a1 = json::json_string(a_image) + (",\n  \"tag\": "@ + a2);
    let b1 = json::json_string(b_image) + (",\n  \"tag\": "@ + b2);
    json::lemma_cut("{\n  \"image\": "@, a1, b1);
    json::law_json_string_reads_back(
        a_image,
        b_image,
        ",\n  \"tag\": "@ + a2,
        ",\n  \"tag\": "@ + b2,
    );
    json::lemma_cut(",\n  \"tag\": "@, a2, b2);
    json::law_json_string_reads_back(
        a_tag,
        b_tag,
        ",\n  \"digest\": "@ + a3,
        ",\n  \"digest\": "@ + b3,
    );
    json::lemma_cut(",\n  \"digest\": "@, a3, b3);
    json::law_json_string_reads_back(a_digest, b_digest, "\n}"@, "\n}"@);
}

/// The path of the active-image pointer below `writable_root`.
pub fn active_image_path(writable_root: &str) -> (r: String)
    ensures
        r@ == text::joined(writable_root@, ACTIVE_IMAGE_FILE@),
{
    text::join_path(writable_root, ACTIVE_IMAGE_FILE)
}

// ---------------------------------------------------------------------------
// References.
// ---------------------------------------------------------------------------

/// The reference of `digest` in the loopback registry on `port`.
pub open spec fn pinned(port: u16, image: Seq<char>, digest: Seq<char>) -> Seq<char> {
    serve::bound_to(port) + "/"@ + image + "@"@ + digest
}

/// The reference that the engine pulls, pinned to the digest. The engine trusts `127.0.0.1` of
/// itself, so the pull goes through the loopback proxy.
pub fn loopback_reference(port: u16, image: &str, digest: &str) -> (r: String)
    ensures
        r@ == pinned(port, image@, digest@),
{
    serve::loopback_address(port).concat("/").concat(image).concat("@").concat(digest)
}

/// The reference that the container's service names.
pub open spec fn service_ref(image: Seq<char>, tag: Seq<char>) -> Seq<char> {
    image + ":"@ + tag
}

/// The reference that the container's service names.
pub fn service_reference(image: &str, tag: &str) -> (r: String)
    ensures
        r@ == service_ref(image@, tag@),
{
    image.to_string().concat(":").concat(tag)
}

// ---------------------------------------------------------------------------
// The job.
// ---------------------------------------------------------------------------

/// How the device syncs: the port that the engine pulls from, the container to restart, and the
/// directory that holds the pointer.
#[derive(Debug, Clone, PartialEq, Eq)]
pub struct SyncConfig {
    pub loopback_port: u16,
    pub container: String,
    pub writable_root: String,
}

impl SyncConfig {
    /// The configuration that the three settings give.
    pub fn from_settings(
        port: Option<&str>,
        container: Option<&str>,
        state_root: Option<&str>,
    ) -> (r: SyncConfig)
        ensures
            r.loopback_port == settings::chosen_port(settings::text_of(port)),
            r.container@ == settings::or_default(
                settings::set_value(settings::text_of(container)),
                settings::DEFAULT_CONTAINER@,
            ),
            r.writable_root@ == settings::or_default(
                settings::text_of(state_root),
                settings::WRITABLE_ROOT@,
            ),
    {
        SyncConfig {
            loopback_port: settings::loopback_port(port),
            container: settings::container_name(container),
            writable_root: settings::writable_root(state_root),
        }
    }
}

/// What one sync is about: the configuration, and the image that the host announced.
pub ghost struct Job {
    pub port: u16,
    pub container: Seq<char>,
    pub root: Seq<char>,
    pub image: Seq<char>,
    pub tag: Seq<char>,
    pub digest: Seq<char>,
}

impl Job {
    /// What is pulled.
    pub open spec fn reference(self) -> Seq<char> {
        pinned(self.port, self.image, self.digest)
    }

    /// The reference that the container's service names.
    pub open spec fn service(self) -> Seq<char> {
        service_ref(self.image, self.tag)
    }
}

/// What came of an action: what it answered, where it answers anything, or why it failed.
pub type Came = Result<Option<String>, String>;

/// The text of what came of an action.
pub open spec fn came(outcome: Came) -> Result<Option<Seq<char>>, Seq<char>> {
    match outcome {
        Ok(answer) => Ok(settings::string_of(answer)),
        Err(e) => Err(e@),
    }
}

/// Where a sync stands.
pub ghost enum Stage {
    /// The image is being pulled.
    Pulling,
    /// The pulled image is being tagged.
    Tagging,
    /// The container is being restarted.
    Restarting,
    /// The image that the container should run is being looked up.
    Resolving,
    /// The image that the container does run is being looked up; the other one is known.
    Probing(Option<Seq<char>>),
    /// The digest is recorded, and the pointer is being written.
    Pointing,
    /// The sync took effect; says whether the pointer could be written.
    Complete(bool),
    /// The sync failed, and why.
    Failed(Seq<char>),
}

/// Whether what the container runs contradicts what it should run. An unknown image on either
/// side is no contradiction: the container may not be there yet.
pub open spec fn contradicts(wanted: Option<Seq<char>>, running: Option<Seq<char>>) -> bool {
    wanted is Some && running is Some && wanted->0 != running->0
}

/// Why a sync fails whose restart kept the old image.
pub open spec fn not_adopted(container: Seq<char>, wanted: Seq<char>, running: Seq<char>) -> Seq<
    char,
> {
    "restart did not adopt the pulled image: container "@ + container + " still runs image "@
        + running + ", expected "@ + wanted + ". `"@ + container
        + "` restarts the existing container object, which stays bound to its create-time image id; set "@
        + settings::SERVICE_ENV@
        + " to the systemd unit that owns the container so the restart re-runs it and re-resolves the tag"@
}

/// Where the sync stands after `outcome` came of the action of `stage`.
pub open spec fn after(
    job: Job,
    stage: Stage,
    outcome: Result<Option<Seq<char>>, Seq<char>>,
) -> Stage {
    match (stage, outcome) {
        (Stage::Pulling, Ok(_)) => Stage::Tagging,
        (Stage::Pulling, Err(e)) => Stage::Failed(
            "pulling "@ + job.reference() + " through loopback proxy"@ + ": "@ + e,
        ),
        (Stage::Tagging, Ok(_)) => Stage::Restarting,
        (Stage::Tagging, Err(e)) => Stage::Failed(
            "tagging "@ + job.reference() + " as "@ + job.service() + ": "@ + e,
        ),
        (Stage::Restarting, Ok(_)) => Stage::Resolving,
        (Stage::Restarting, Err(e)) => Stage::Failed(
            "restarting container "@ + job.container + ": "@ + e,
        ),
        (Stage::Resolving, Ok(wanted)) => Stage::Probing(wanted),
        (Stage::Resolving, Err(e)) => Stage::Failed(
            "resolving the image id of "@ + job.service() + ": "@ + e,
        ),
        (Stage::Probing(wanted), Ok(running)) => if contradicts(wanted, running) {
            Stage::Failed(not_adopted(job.container, wanted->0, running->0))
        } else {
            Stage::Pointing
        },
        (Stage::Probing(_), Err(e)) => Stage::Failed(
            "reading the image id running in "@ + job.container + ": "@ + e,
        ),
        (Stage::Pointing, _) => Stage::Complete(outcome is Ok),
        (Stage::Complete(written), _) => Stage::Complete(written),
        (Stage::Failed(why), _) => Stage::Failed(why),
    }
}

/// Whether the digest is recorded when a sync goes from `before` to `after`.
pub open spec fn records(before: Stage, after: Stage) -> bool {
    before is Probing && after is Pointing
}

/// The digest that a device reports when a sync goes from `from` to `to`, where it reported
/// `digest`.
pub open spec fn digest_next(job: Job, digest: Seq<char>, from: Stage, to: Stage) -> Seq<char> {
    if records(from, to) {
        job.digest
    } else {
        digest
    }
}

/// What the caller is to do next.
#[derive(Debug, Clone, PartialEq, Eq)]
pub enum SyncAction {
    /// Have the engine pull the reference.
    Pull { reference: String },
    /// Have the engine point `target` at `source`.
    Tag { source: String, target: String },
    /// Restart the container.
    Restart { container: String },
    /// Ask the engine which image the reference resolves to.
    ResolveImageId { reference: String },
    /// Ask the engine which image the container runs.
    RunningImageId { container: String },
    /// Write `text` to the file `path`, making its directory where there is none.
    WritePointer { path: String, text: String },
    /// Nothing more: the sync is over.
    Nothing,
}

/// Whether `action` is what a sync at `stage` asks for.
pub open spec fn asks(job: Job, stage: Stage, action: SyncAction) -> bool {
    match (stage, action) {
        (Stage::Pulling, SyncAction::Pull { reference }) => reference@ == job.reference(),
        (Stage::Tagging, SyncAction::Tag { source, target }) => source@ == job.reference()
            && target@ == job.service(),
        (Stage::Restarting, SyncAction::Restart { container }) => container@ == job.container,
        (Stage::Resolving, SyncAction::ResolveImageId { reference }) => reference@
            == job.service(),
        (Stage::Probing(_), SyncAction::RunningImageId { container }) => container@
            == job.container,
        (Stage::Pointing, SyncAction::WritePointer { path, text }) => path@ == text::joined(
            job.root,
            ACTIVE_IMAGE_FILE@,
        ) && text@ == pointer_text(job.image, job.tag, job.digest),
        (Stage::Complete(_), SyncAction::Nothing) => true,
        (Stage::Failed(_), SyncAction::Nothing) => true,
        _ => false,
    }
}

// ---------------------------------------------------------------------------
// The run.
// ---------------------------------------------------------------------------

#[derive(Debug)]
enum Step {
    Pulling,
    Tagging,
    Restarting,
    Resolving,
    Probing(Option<String>),
    Pointing,
    Complete(bool),
    Failed(String),
}

impl Step {
    spec fn stage(self) -> Stage {
        match self {
            Step::Pulling => Stage::Pulling,
            Step::Tagging => Stage::Tagging,
            Step::Restarting => Stage::Restarting,
            Step::Resolving => Stage::Resolving,
            Step::Probing(wanted) => Stage::Probing(settings::string_of(wanted)),
            Step::Pointing => Stage::Pointing,
            Step::Complete(written) => Stage::Complete(written),
            Step::Failed(why) => Stage::Failed(why@),
        }
    }
}

/// One sync, from the host's announcement to its end.
#[derive(Debug)]
pub struct SyncRun {
    cfg: SyncConfig,
    active: ActiveImage,
    step: Step,
}

/// The job of syncing `image:tag` at `digest` under `cfg`.
pub open spec fn job_of(
    cfg: SyncConfig,
    image: Seq<char>,
    tag: Seq<char>,
    digest: Seq<char>,
) -> Job {
    Job {
        port: cfg.loopback_port,
        container: cfg.container@,
        root: cfg.writable_root@,
        image,
        tag,
        digest,
    }
}

fn failed(what: String, cause: &str) -> (r: String)
    ensures
        r@ == what@ + ": "@ + cause@,
{
    what.concat(": ").concat(cause)
}

fn adoption_failure(container: &str, wanted: &str, running: &str) -> (r: String)
    ensures
        r@ == not_adopted(container@, wanted@, running@),
{
    "restart did not adopt the pulled image: container ".to_string().concat(container).concat(
        " still runs image ",
    ).concat(running).concat(", expected ").concat(wanted).concat(". `").concat(container).concat(
        "` restarts the existing container object, which stays bound to its create-time image id; set ",
    ).concat(settings::SERVICE_ENV).concat(
        " to the systemd unit that owns the container so the restart re-runs it and re-resolves the tag",
    )
}

impl SyncRun {
    /// What this sync is about.
    pub closed spec fn job(self) -> Job {
        job_of(self.cfg, self.active.image@, self.active.tag@, self.active.digest@)
    }

    /// Where this sync stands.
    pub closed spec fn stage(self) -> Stage {
        self.step.stage()
    }

    /// Begins to sync `image:tag` at `digest`.
    pub fn begin(cfg: SyncConfig, image: &str, tag: &str, digest: &str) -> (r: SyncRun)
        ensures
            r.job() == job_of(cfg, image@, tag@, digest@),
            r.stage() == Stage::Pulling,
    {
        SyncRun {
            cfg,
            active: ActiveImage {
                image: image.to_string(),
                tag: tag.to_string(),
                digest: digest.to_string(),
            },
            step: Step::Pulling,
        }
    }

    /// What the caller is to do next.
    pub fn action(&self) -> (r: SyncAction)
        ensures
            asks(self.job(), self.stage(), r),
    {
        let image = self.active.image.as_str();
        let tag = self.active.tag.as_str();
        let digest = self.active.digest.as_str();
        match &self.step {
            Step::Pulling => SyncAction::Pull {
                reference: loopback_reference(self.cfg.loopback_port, image, digest),
            },
            Step::Tagging => SyncAction::Tag {
                source: loopback_reference(self.cfg.loopback_port, image, digest),
                target: service_reference(image, tag),
            },
            Step::Restarting => SyncAction::Restart {
                container: self.cfg.container.as_str().to_string(),
            },
            Step::Resolving => SyncAction::ResolveImageId {
                reference: service_reference(image, tag),
            },
            Step::Probing(_) => SyncAction::RunningImageId {
                container: self.cfg.container.as_str().to_string(),
            },
            Step::Pointing => SyncAction::WritePointer {
                path: active_image_path(self.cfg.writable_root.as_str()),
                text: self.active.to_json(),
            },
            Step::Complete(_) => SyncAction::Nothing,
            Step::Failed(_) => SyncAction::Nothing,
        }
    }

    /// Takes in what came of the action, and records the digest in `state` once the container is
    /// known to run it.
    ///
    /// The digest is recorded before the pointer is written: at that moment the container does
    /// run it, and a directory that cannot be written must not keep the device from saying so.
    pub fn advance(&mut self, outcome: Came, state: &mut AgentState)
        ensures
            final(self).job() == old(self).job(),
            final(self).stage() == after(old(self).job(), old(self).stage(), came(outcome)),
            final(state).device_id == old(state).device_id,
            final(state).rebootstrap == old(state).rebootstrap,
            final(state).running_digest@ == digest_next(
                old(self).job(),
                old(state).running_digest@,
                old(self).stage(),
                final(self).stage(),
            ),
    {
        let reference = loopback_reference(
            self.cfg.loopback_port,
            self.active.image.as_str(),
            self.active.digest.as_str(),
        );
        let service = service_reference(self.active.image.as_str(), self.active.tag.as_str());
        let container = self.cfg.container.as_str().to_string();
        let mut step = Step::Pointing;
        std::mem::swap(&mut step, &mut self.step);
        let next = match (step, outcome) {
            (Step::Pulling, Ok(_)) => Step::Tagging,
            (Step::Pulling, Err(e)) => Step::Failed(
                failed(
                    "pulling ".to_string().concat(reference.as_str()).concat(
                        " through loopback proxy",
                    ),
                    e.as_str(),
                ),
            ),
            (Step::Tagging, Ok(_)) => Step::Restarting,
            (Step::Tagging, Err(e)) => Step::Failed(
                failed(
                    "tagging ".to_string().concat(reference.as_str()).concat(" as ").concat(
                        service.as_str(),
                    ),
                    e.as_str(),
                ),
            ),
            (Step::Restarting, Ok(_)) => Step::Resolving,
            (Step::Restarting, Err(e)) => Step::Failed(
                failed(
                    "restarting container ".to_string().concat(container.as_str()),
                    e.as_str(),
                ),
            ),
            (Step::Resolving, Ok(wanted)) => Step::Probing(wanted),
            (Step::Resolving, Err(e)) => Step::Failed(
                failed(
                    "resolving the image id of ".to_string().concat(service.as_str()),
                    e.as_str(),
                ),
            ),
            (Step::Probing(Some(wanted)), Ok(Some(running))) => if wanted == running {
                state.record_digest(self.active.digest.as_str());
                Step::Pointing
            } else {
                Step::Failed(
                    adoption_failure(container.as_str(), wanted.as_str(), running.as_str()),
                )
            },
            (Step::Probing(_), Ok(_)) => {
                state.record_digest(self.active.digest.as_str());
                Step::Pointing
            },
            (Step::Probing(_), Err(e)) => Step::Failed(
                failed(
                    "reading the image id running in ".to_string().concat(container.as_str()),
                    e.as_str(),
                ),
            ),
            (Step::Pointing, Ok(_)) => Step::Complete(true),
            (Step::Pointing, Err(_)) => Step::Complete(false),
            (Step::Complete(written), _) => Step::Complete(written),
            (Step::Failed(why), _) => Step::Failed(why),
        };
        self.step = next;
    }

    /// How the sync ended: whether the pointer was written, or why it failed; `None` while it is
    /// still going on.
    pub fn result(&self) -> (r: Option<Result<bool, String>>)
        ensures
            match self.stage() {
                Stage::Complete(written) => r is Some && r->0 == Ok::<bool, String>(written),
                Stage::Failed(why) => r is Some && r->0 is Err && r->0->Err_0@ == why,
                _ => r is None,
            },
    {
        match &self.step {
            Step::Complete(written) => Some(Ok(*written)),
            Step::Failed(why) => Some(Err(why.as_str().to_string())),
            _ => None,
        }
    }

    /// What the host is told of this sync: that it failed and why, or nothing.
    ///
    /// A failure that was only logged would leave the host to believe that the device runs what
    /// it announced.
    pub fn report(&self, device_id: &str) -> (r: Option<DeviceFrame>)
        ensures
            match self.stage() {
                Stage::Failed(why) => r is Some && state::reports(
                    r->0,
                    device_id@,
                    SYNC_FAILED@,
                    failure_detail(self.job(), why),
                ),
                _ => r is None,
            },
    {
        match &self.step {
            Step::Failed(why) => {
                let detail = service_reference(
                    self.active.image.as_str(),
                    self.active.tag.as_str(),
                ).concat(" @ ").concat(self.active.digest.as_str()).concat(": ").concat(
                    why.as_str(),
                );
                Some(
                    DeviceFrame::Status(
                        Status {
                            device_id: device_id.to_string(),
                            state: SYNC_FAILED.to_string(),
                            detail: Some(detail),
                        },
                    ),
                )
            },
            _ => None,
        }
    }
}

/// Begins what a host frame asks for: the sync of the image that it announces.
pub fn handle_host_frame(frame: &HostFrame, cfg: SyncConfig) -> (r: SyncRun)
    ensures
        r.job() == match *frame {
            HostFrame::Sync { image, tag, digest } => job_of(cfg, image@, tag@, digest@),
        },
        r.stage() == Stage::Pulling,
{
    match frame {
        HostFrame::Sync { image, tag, digest } => {
            SyncRun::begin(cfg, image.as_str(), tag.as_str(), digest.as_str())
        },
    }
}

/// What the host is told of a sync that failed because of `why`.
pub open spec fn failure_detail(job: Job, why: Seq<char>) -> Seq<char> {
    job.service() + " @ "@ + job.digest + ": "@ + why
}

// ---------------------------------------------------------------------------
// Laws.
// ---------------------------------------------------------------------------

/// Where a sync stands after `outcomes` came of its actions, one after the other.
pub open spec fn stage_after(
    job: Job,
    outcomes: Seq<Result<Option<Seq<char>>, Seq<char>>>,
) -> Stage
    decreases outcomes.len(),
{
    if outcomes.len() == 0 {
        Stage::Pulling
    } else {
        after(job, stage_after(job, outcomes.drop_last()), outcomes.last())
    }
}

/// The digest that a device reports after `outcomes` came of a sync's actions, where it reported
/// `before` when the sync began.
pub open spec fn digest_after(
    job: Job,
    before: Seq<char>,
    outcomes: Seq<Result<Option<Seq<char>>, Seq<char>>>,
) -> Seq<char>
    decreases outcomes.len(),
{
    if outcomes.len() == 0 {
        before
    } else {
        digest_next(
            job,
            digest_after(job, before, outcomes.drop_last()),
            stage_after(job, outcomes.drop_last()),
            stage_after(job, outcomes),
        )
    }
}

/// Whether the first `n` actions all succeeded.
pub open spec fn succeeded(outcomes: Seq<Result<Option<Seq<char>>, Seq<char>>>, n: int) -> bool {
    n <= outcomes.len() && forall|i: int| 0 <= i < n ==> (#[trigger] outcomes[i]) is Ok
}

/// Whether a sync took effect: pull, tag and restart succeeded, both images could be looked up,
/// and they do not contradict each other.
pub open spec fn took_effect(outcomes: Seq<Result<Option<Seq<char>>, Seq<char>>>) -> bool {
    succeeded(outcomes, 5) && !contradicts(outcomes[3]->Ok_0, outcomes[4]->Ok_0)
}

/// The order is fixed: a sync asks for an action only once every action before it has succeeded.
/// The tag comes after the pull, the restart after the tag, the two lookups after the restart, and
/// the pointer is written only after a sync that took effect.
pub proof fn law_actions_come_in_order(
    job: Job,
    outcomes: Seq<Result<Option<Seq<char>>, Seq<char>>>,
)
    ensures
        stage_after(job, outcomes) is Pulling <==> outcomes.len() == 0,
        stage_after(job, outcomes) is Tagging <==> outcomes.len() == 1 && succeeded(outcomes, 1),
        stage_after(job, outcomes) is Restarting <==> outcomes.len() == 2 && succeeded(outcomes, 2),
        stage_after(job, outcomes) is Resolving <==> outcomes.len() == 3 && succeeded(outcomes, 3),
        stage_after(job, outcomes) is Probing <==> outcomes.len() == 4 && succeeded(outcomes, 4),
        stage_after(job, outcomes) is Probing ==> stage_after(job, outcomes)->Probing_0
            == outcomes[3]->Ok_0,
        stage_after(job, outcomes) is Pointing <==> outcomes.len() == 5 && took_effect(outcomes),
        stage_after(job, outcomes) is Complete <==> outcomes.len() >= 6 && took_effect(outcomes),
        stage_after(job, outcomes) is Complete ==> stage_after(job, outcomes)->Complete_0
            == outcomes[5] is Ok,
    decreases outcomes.len(),
{
    if outcomes.len() > 0 {
        let before = outcomes.drop_last();
        law_actions_come_in_order(job, before);
        assert forall|n: int| 0 <= n < outcomes.len() implies succeeded(outcomes, n) == succeeded(
            before,
            n,
        ) by {
            assert(forall|i: int| 0 <= i < n ==> outcomes[i] == before[i]);
        }
        let n = outcomes.len() as int;
        assert(succeeded(outcomes, n) <==> succeeded(before, n - 1) && outcomes.last() is Ok) by {
            if succeeded(outcomes, n) {
                assert(outcomes[n - 1] is Ok);
            }
        }
        if n > 5 {
            assert(took_effect(outcomes) == took_effect(before));
        }
    }
}

/// A sync either took effect, and then the device reports the new digest, or it changed nothing:
/// a failed pull, tag, restart or lookup, or a restart that kept the old image, leaves the digest
/// as it was.
pub proof fn law_digest_is_reported_once_it_runs(
    job: Job,
    before: Seq<char>,
    outcomes: Seq<Result<Option<Seq<char>>, Seq<char>>>,
)
    ensures
        digest_after(job, before, outcomes) == if took_effect(outcomes) {
            job.digest
        } else {
            before
        },
    decreases outcomes.len(),
{
    law_actions_come_in_order(job, outcomes);
    if outcomes.len() > 0 {
        let sooner = outcomes.drop_last();
        law_actions_come_in_order(job, sooner);
        law_digest_is_reported_once_it_runs(job, before, sooner);
        if outcomes.len() > 5 {
            assert(forall|i: int| 0 <= i < 5 ==> outcomes[i] == sooner[i]);
            assert(took_effect(outcomes) == took_effect(sooner)) by {
                if took_effect(sooner) {
                    assert(forall|i: int| 0 <= i < 5 ==> (#[trigger] sooner[i]) is Ok);
                }
                if took_effect(outcomes) {
                    assert(forall|i: int| 0 <= i < 5 ==> (#[trigger] outcomes[i]) is Ok);
                }
            }
        } else if outcomes.len() == 5 {
            assert(!took_effect(sooner));
            if took_effect(outcomes) {
                assert(succeeded(sooner, 4)) by {
                    assert(forall|i: int| 0 <= i < 4 ==> sooner[i] == outcomes[i]);
                }
            }
        }
    }
}

/// The pointer never runs ahead of the device: when it is to be written, the device already
/// reports the digest that it will name.
pub proof fn law_pointer_names_the_running_digest(
    job: Job,
    before: Seq<char>,
    outcomes: Seq<Result<Option<Seq<char>>, Seq<char>>>,
    action: SyncAction,
)
    requires
        asks(job, stage_after(job, outcomes), action),
        action is WritePointer,
    ensures
        took_effect(outcomes),
        action->text@ == pointer_text(job.image, job.tag, digest_after(job, before, outcomes)),
{
    law_actions_come_in_order(job, outcomes);
    law_digest_is_reported_once_it_runs(job, before, outcomes);
}

/// A failed sync stays failed and asks for nothing more, whatever else is handed to it.
pub proof fn law_failure_is_final(
    job: Job,
    outcomes: Seq<Result<Option<Seq<char>>, Seq<char>>>,
    more: Seq<Result<Option<Seq<char>>, Seq<char>>>,
    action: SyncAction,
)
    requires
        stage_after(job, outcomes) is Failed,
        asks(job, stage_after(job, outcomes + more), action),
    ensures
        stage_after(job, outcomes + more) == stage_after(job, outcomes),
        action is Nothing,
{
    lemma_failure_stays(job, outcomes, more);
}

proof fn lemma_failure_stays(
    job: Job,
    outcomes: Seq<Result<Option<Seq<char>>, Seq<char>>>,
    more: Seq<Result<Option<Seq<char>>, Seq<char>>>,
)
    requires
        stage_after(job, outcomes) is Failed,
    ensures
        stage_after(job, outcomes + more) == stage_after(job, outcomes),
    decreases more.len(),
{
    if more.len() == 0 {
        assert(outcomes + more =~= outcomes);
    } else {
        assert((outcomes + more).drop_last() =~= outcomes + more.drop_last());
        lemma_failure_stays(job, outcomes, more.drop_last());
    }
}

/// Every sync ends: six actions at most, and then it is complete, which it is exactly where it
/// took effect, whether or not the pointer could be written, or it has failed.
pub proof fn law_every_sync_ends(job: Job, outcomes: Seq<Result<Option<Seq<char>>, Seq<char>>>)
    requires
        outcomes.len() >= 6,
    ensures
        stage_after(job, outcomes) is Complete <==> took_effect(outcomes),
        stage_after(job, outcomes) is Failed <==> !took_effect(outcomes),
{
    law_actions_come_in_order(job, outcomes);
}

/// An image is pulled from the loopback registry and nowhere else, and pinned to the digest that
/// the host announced.
pub proof fn law_pulls_are_pinned_to_the_loopback_registry(
    job: Job,
    outcomes: Seq<Result<Option<Seq<char>>, Seq<char>>>,
    action: SyncAction,
)
    requires
        asks(job, stage_after(job, outcomes), action),
        action is Pull,
    ensures
        outcomes.len() == 0,
        serve::bound_to(job.port).is_prefix_of(action->Pull_reference@),
        ("@"@ + job.digest).is_suffix_of(action->Pull_reference@),
{
    law_actions_come_in_order(job, outcomes);
    let reference = action->Pull_reference@;
    let bound = serve::bound_to(job.port);
    assert(reference =~= bound + ("/"@ + job.image + "@"@ + job.digest));
    let before = bound + "/"@ + job.image;
    assert(reference =~= before + ("@"@ + job.digest));
}

/// The next `hello` after a sync that took effect carries the synced digest, and after one that
/// did not it carries the digest of before.
pub proof fn law_hello_carries_what_runs(
    job: Job,
    before: Seq<char>,
    outcomes: Seq<Result<Option<Seq<char>>, Seq<char>>>,
    state: AgentState,
    arch: Seq<char>,
    frame: DeviceFrame,
)
    requires
        state.running_digest@ == digest_after(job, before, outcomes),
        state.greets(arch, frame),
    ensures
        frame is Hello,
        frame->Hello_0.running_digest@ == if took_effect(outcomes) {
            job.digest
        } else {
            before
        },
{
    law_digest_is_reported_once_it_runs(job, before, outcomes);
}

/// The pointer lies below the writable root: its path is the root's, continued.
pub proof fn law_pointer_lies_below_the_root(root: Seq<char>)
    ensures
        root.is_prefix_of(text::joined(root, ACTIVE_IMAGE_FILE@)),
        text::joined(root, ACTIVE_IMAGE_FILE@).len() > root.len(),
{
    reveal_strlit("active-image.json");
}

} // verus!
