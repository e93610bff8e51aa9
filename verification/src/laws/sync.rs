//! Laws of the sync.
use vstd::prelude::*;
use crate::json;
use crate::settings::{container_name, loopback_port, writable_root};
use crate::state::AgentState;
use crate::sync;
use crate::sync::{
    active_image_path, handle_host_frame, loopback_reference, service_reference, ActiveImage, Came,
    Stage, SyncAction, SyncConfig, SyncRun,
};
use crate::text;
use crate::wire::{DeviceFrame, HostFrame};

verus! {

// ---------------------------------------------------------------------------
// References and the pointer.
// ---------------------------------------------------------------------------

/// Whether `r` is the whole of `image`, a colon and the whole of `tag`.
pub open spec fn names(r: Seq<char>, image: Seq<char>, tag: Seq<char>) -> bool {
    &&& image.is_prefix_of(r)
    &&& tag.is_suffix_of(r)
    &&& r.len() == image.len() + 1 + tag.len()
    &&& r[image.len() as int] == ':'
}

/// Whether `r` is the loopback address with `port`, a slash, the whole of `image`, an at sign and
/// the whole of `digest`.
pub open spec fn pins(r: Seq<char>, port: u16, image: Seq<char>, digest: Seq<char>) -> bool {
    let host = "127.0.0.1:"@ + text::decimal(port as nat) + "/"@;
    &&& (host + image).is_prefix_of(r)
    &&& digest.is_suffix_of(r)
    &&& r.len() == host.len() + image.len() + 1 + digest.len()
    &&& r[(host.len() + image.len()) as int] == '@'
}

proof fn lemma_names(image: Seq<char>, tag: Seq<char>)
    ensures
        names(sync::service_ref(image, tag), image, tag),
{
    reveal_strlit(":");
    let r = sync::service_ref(image, tag);
    assert(r.take(image.len() as int) =~= image);
    assert(r.skip(image.len() as int + 1) =~= tag);
}

proof fn lemma_pins(port: u16, image: Seq<char>, digest: Seq<char>)
    ensures
        pins(sync::pinned(port, image, digest), port, image, digest),
{
    reveal_strlit("@");
    let host = "127.0.0.1:"@ + text::decimal(port as nat) + "/"@;
    let r = sync::pinned(port, image, digest);
    assert(r =~= host + image + "@"@ + digest);
    assert(r.take((host + image).len() as int) =~= host + image);
    assert(r.skip((host + image).len() as int + 1) =~= digest);
}

/// The reference that a service names is the whole image name, a colon and the whole tag.
pub proof fn law_the_service_names_the_whole_image(image: &str, tag: &str, r: String)
    requires
        call_ensures(service_reference, (image, tag), r),
    ensures
        names(r@, image@, tag@),
{
    lemma_names(image@, tag@);
}

/// Two images never share a reference under one tag, nor two tags of one image.
pub proof fn law_different_images_have_different_references(
    a: &str,
    b: &str,
    s: &str,
    t: &str,
    r: String,
    q: String,
)
    requires
        call_ensures(service_reference, (a, s), r),
        call_ensures(service_reference, (b, t), q),
        r@ == q@,
    ensures
        s@ == t@ ==> a@ == b@,
        a@ == b@ ==> s@ == t@,
{
    lemma_names(a@, s@);
    lemma_names(b@, t@);
    assert(a@ =~= r@.take(a@.len() as int));
    assert(b@ =~= q@.take(b@.len() as int));
    assert(s@ =~= r@.skip(r@.len() - s@.len()));
    assert(t@ =~= q@.skip(q@.len() - t@.len()));
}

/// What is pulled is on this host's own registry, is the whole announced image, and is pinned to
/// the whole announced digest.
pub proof fn law_the_pull_is_pinned_to_image_and_digest(
    port: u16,
    image: &str,
    digest: &str,
    r: String,
)
    requires
        call_ensures(loopback_reference, (port, image, digest), r),
    ensures
        pins(r@, port, image@, digest@),
{
    lemma_pins(port, image@, digest@);
}

/// The pointer lies directly in the writable root, under its one name.
pub proof fn law_the_pointer_lies_in_the_root(root: &str, r: String)
    requires
        call_ensures(active_image_path, (root,), r),
    ensures
        root@.is_prefix_of(r@),
        "active-image.json"@.is_suffix_of(r@),
        root@.len() == 0 || root@.last() == '/' ==> r@.len() == root@.len()
            + "active-image.json"@.len(),
        root@.len() > 0 && root@.last() != '/' ==> r@.len() == root@.len() + 1
            + "active-image.json"@.len() && r@[root@.len() as int] == '/',
{
    assert(r@.take(root@.len() as int) =~= root@);
    assert(r@.skip(r@.len() - "active-image.json"@.len()) =~= "active-image.json"@);
}

/// The pointer's text holds the image, the tag and the digest, each whole and under its name, and
/// no two pointers have one text.
pub proof fn law_the_pointer_holds_all_three(
    a: ActiveImage,
    b: ActiveImage,
    r: String,
    q: String,
)
    requires
        call_ensures(ActiveImage::to_json, (&a,), r),
        call_ensures(ActiveImage::to_json, (&b,), q),
    ensures
        r@ == "{\n  \"image\": "@ + json::json_string(a.image@) + ",\n  \"tag\": "@
            + json::json_string(a.tag@) + ",\n  \"digest\": "@ + json::json_string(a.digest@)
            + "\n}"@,
        r@ == q@ ==> a.image@ == b.image@ && a.tag@ == b.tag@ && a.digest@ == b.digest@,
{
    assert(r@ =~= "{\n  \"image\": "@ + json::json_string(a.image@) + ",\n  \"tag\": "@
        + json::json_string(a.tag@) + ",\n  \"digest\": "@ + json::json_string(a.digest@)
        + "\n}"@);
    if r@ == q@ {
        sync::law_pointer_reads_back(a.image@, a.tag@, a.digest@, b.image@, b.tag@, b.digest@);
    }
}

/// A sync is configured by the three settings, each by its own.
pub proof fn law_a_sync_is_configured_by_its_settings(
    port: Option<&str>,
    container: Option<&str>,
    root: Option<&str>,
    p: u16,
    c: String,
    w: String,
    r: SyncConfig,
)
    requires
        call_ensures(loopback_port, (port,), p),
        call_ensures(container_name, (container,), c),
        call_ensures(writable_root, (root,), w),
        call_ensures(SyncConfig::from_settings, (port, container, root), r),
    ensures
        r.loopback_port == p,
        r.container@ == c@,
        r.writable_root@ == w@,
{
}

// ---------------------------------------------------------------------------
// The run.
// ---------------------------------------------------------------------------

/// Whether `run` syncs `image:tag` at `digest` under `cfg`.
pub open spec fn is_about(
    run: SyncRun,
    cfg: SyncConfig,
    image: Seq<char>,
    tag: Seq<char>,
    digest: Seq<char>,
) -> bool {
    &&& run.job().port == cfg.loopback_port
    &&& run.job().container == cfg.container@
    &&& run.job().root == cfg.writable_root@
    &&& run.job().image == image
    &&& run.job().tag == tag
    &&& run.job().digest == digest
}

/// A sync begins with its pull and is about what it was begun for; so is the sync of a frame.
pub proof fn law_a_sync_is_about_what_was_announced(
    cfg: SyncConfig,
    image: &str,
    tag: &str,
    digest: &str,
    run: SyncRun,
    frame: HostFrame,
    q: SyncRun,
)
    requires
        call_ensures(SyncRun::begin, (cfg, image, tag, digest), run),
        call_ensures(handle_host_frame, (&frame, cfg), q),
    ensures
        is_about(run, cfg, image@, tag@, digest@),
        run.stage() == Stage::Pulling,
        frame matches HostFrame::Sync { image: i, tag: t, digest: d } ==> is_about(
            q,
            cfg,
            i@,
            t@,
            d@,
        ),
        q.stage() == Stage::Pulling,
{
}

/// What a sync asks for at each stage, in terms of what was announced.
pub proof fn law_each_stage_asks_for_its_action(
    run: SyncRun,
    cfg: SyncConfig,
    image: Seq<char>,
    tag: Seq<char>,
    digest: Seq<char>,
    a: SyncAction,
)
    requires
        is_about(run, cfg, image, tag, digest),
        call_ensures(SyncRun::action, (&run,), a),
    ensures
        run.stage() is Pulling ==> a is Pull && pins(
            a->Pull_reference@,
            cfg.loopback_port,
            image,
            digest,
        ),
        run.stage() is Tagging ==> a is Tag && pins(a->source@, cfg.loopback_port, image, digest)
            && names(a->target@, image, tag),
        run.stage() is Restarting ==> a is Restart && a->Restart_container@ == cfg.container@,
        run.stage() is Resolving ==> a is ResolveImageId && names(
            a->ResolveImageId_reference@,
            image,
            tag,
        ),
        run.stage() is Probing ==> a is RunningImageId && a->RunningImageId_container@
            == cfg.container@,
        run.stage() is Pointing ==> a is WritePointer,
        run.stage() is Complete || run.stage() is Failed ==> a is Nothing,
{
    lemma_names(image, tag);
    lemma_pins(cfg.loopback_port, image, digest);
}

/// The pointer is written under the configured root, and records the image, the tag and the digest
/// that were announced.
pub proof fn law_the_pointer_records_what_was_announced(
    run: SyncRun,
    cfg: SyncConfig,
    image: Seq<char>,
    tag: Seq<char>,
    digest: Seq<char>,
    a: SyncAction,
)
    requires
        run.stage() is Pointing,
        is_about(run, cfg, image, tag, digest),
        call_ensures(SyncRun::action, (&run,), a),
    ensures
        a is WritePointer,
        cfg.writable_root@.is_prefix_of(a->path@),
        "active-image.json"@.is_suffix_of(a->path@),
        a->path@.len() <= cfg.writable_root@.len() + 1 + "active-image.json"@.len(),
        a->text@ == "{\n  \"image\": "@ + json::json_string(image) + ",\n  \"tag\": "@
            + json::json_string(tag) + ",\n  \"digest\": "@ + json::json_string(digest) + "\n}"@,
{
    let path = a->path@;
    let root = cfg.writable_root@;
    assert(path.take(root.len() as int) =~= root);
    assert(path.skip(path.len() - "active-image.json"@.len()) =~= "active-image.json"@);
}

/// From the announcement to the tag: once the pull has succeeded, the whole announced image under
/// the whole announced tag is pointed at what was pulled, and nothing else is.
pub proof fn law_the_pulled_image_is_tagged_as_the_service_names_it(
    cfg: SyncConfig,
    image: &str,
    tag: &str,
    digest: &str,
    begun: SyncRun,
    run: &mut SyncRun,
    came: Option<String>,
    state: &mut AgentState,
    u: (),
    pulled: SyncAction,
    a: SyncAction,
)
    requires
        call_ensures(SyncRun::begin, (cfg, image, tag, digest), begun),
        call_ensures(SyncRun::action, (&begun,), pulled),
        *old(run) == begun,
        call_ensures(SyncRun::advance, (run, Ok(came), state), u),
        call_ensures(SyncRun::action, (final(run),), a),
    ensures
        pulled is Pull,
        pins(pulled->Pull_reference@, cfg.loopback_port, image@, digest@),
        a is Tag,
        a->source@ == pulled->Pull_reference@,
        names(a->target@, image@, tag@),
{
    lemma_names(image@, tag@);
    lemma_pins(cfg.loopback_port, image@, digest@);
}

/// What a sync does with what came of its action. A success goes on to the next stage and a
/// failure ends the sync, with a text that names what was being done and ends in the cause; the
/// device is who it was, and what the sync is about never changes.
pub proof fn law_a_failure_ends_the_sync_and_names_its_cause(
    run: &mut SyncRun,
    came: Came,
    state: &mut AgentState,
    u: (),
)
    requires
        call_ensures(SyncRun::advance, (run, came, state), u),
    ensures
        final(run).job() == old(run).job(),
        final(state).device_id == old(state).device_id,
        final(state).rebootstrap == old(state).rebootstrap,
        old(run).stage() is Pulling && came is Ok ==> final(run).stage() is Tagging,
        old(run).stage() is Tagging && came is Ok ==> final(run).stage() is Restarting,
        old(run).stage() is Restarting && came is Ok ==> final(run).stage() is Resolving,
        old(run).stage() is Resolving && came is Ok ==> final(run).stage() is Probing,
        old(run).stage() is Pointing ==> final(run).stage() == Stage::Complete(came is Ok),
        old(run).stage() is Complete || old(run).stage() is Failed ==> final(run).stage()
            == old(run).stage(),
        (old(run).stage() is Pulling || old(run).stage() is Tagging || old(run).stage() is Restarting
            || old(run).stage() is Resolving || old(run).stage() is Probing) && came is Err ==> {
            &&& final(run).stage() is Failed
            &&& came->Err_0@.is_suffix_of(final(run).stage()->Failed_0)
            &&& final(state).running_digest@ == old(state).running_digest@
        },
        old(run).stage() is Pulling && came is Err ==> "pulling "@.is_prefix_of(
            final(run).stage()->Failed_0,
        ),
        old(run).stage() is Tagging && came is Err ==> "tagging "@.is_prefix_of(
            final(run).stage()->Failed_0,
        ),
        old(run).stage() is Restarting && came is Err ==> ("restarting container "@
            + old(run).job().container + ": "@).is_prefix_of(final(run).stage()->Failed_0),
        old(run).stage() is Resolving && came is Err ==> "resolving the image id of "@.is_prefix_of(
            final(run).stage()->Failed_0,
        ),
        old(run).stage() is Probing && came is Err ==> ("reading the image id running in "@
            + old(run).job().container + ": "@).is_prefix_of(final(run).stage()->Failed_0),
{
    if came is Err {
        let e = came->Err_0@;
        let why = final(run).stage()->Failed_0;
        let job = old(run).job();
        match old(run).stage() {
            Stage::Pulling => {
                let head = "pulling "@ + job.reference() + " through loopback proxy"@ + ": "@;
                assert(why =~= head + e);
                assert(why =~= "pulling "@ + (job.reference() + " through loopback proxy"@ + ": "@
                    + e));
            },
            Stage::Tagging => {
                let head = "tagging "@ + job.reference() + " as "@ + job.service() + ": "@;
                assert(why =~= head + e);
                assert(why =~= "tagging "@ + (job.reference() + " as "@ + job.service() + ": "@
                    + e));
            },
            Stage::Restarting => {
                assert(why =~= ("restarting container "@ + job.container + ": "@) + e);
            },
            Stage::Resolving => {
                let head = "resolving the image id of "@ + job.service() + ": "@;
                assert(why =~= head + e);
                assert(why =~= "resolving the image id of "@ + (job.service() + ": "@ + e));
            },
            Stage::Probing(_) => {
                assert(why =~= ("reading the image id running in "@ + job.container + ": "@) + e);
            },
            _ => {},
        }
    }
}

/// Each failed action says what it was and what it was about.
pub proof fn law_a_failed_action_says_what_it_was(
    run: &mut SyncRun,
    e: String,
    state: &mut AgentState,
    u: (),
    before: SyncRun,
    a: SyncAction,
)
    requires
        *old(run) == before,
        call_ensures(SyncRun::action, (&before,), a),
        call_ensures(SyncRun::advance, (run, Err(e), state), u),
    ensures
        a is Pull ==> final(run).stage() == Stage::Failed(
            "pulling "@ + a->Pull_reference@ + " through loopback proxy"@ + ": "@ + e@,
        ),
        a is Tag ==> final(run).stage() == Stage::Failed(
            "tagging "@ + a->source@ + " as "@ + a->target@ + ": "@ + e@,
        ),
        a is ResolveImageId ==> final(run).stage() == Stage::Failed(
            "resolving the image id of "@ + a->ResolveImageId_reference@ + ": "@ + e@,
        ),
        a is Restart ==> final(run).stage() == Stage::Failed(
            "restarting container "@ + a->Restart_container@ + ": "@ + e@,
        ),
        a is RunningImageId ==> final(run).stage() == Stage::Failed(
            "reading the image id running in "@ + a->RunningImageId_container@ + ": "@ + e@,
        ),
{
}

/// The restart is proved to have adopted the image, not taken on trust: the digest is recorded
/// exactly where both images could be looked up and do not differ, or one of them is unknown; and
/// where they differ the sync fails, keeps the old digest and names both images and the setting
/// that mends it.
pub proof fn law_the_digest_is_recorded_only_after_adoption(
    a: &mut SyncRun,
    wanted: Option<String>,
    running: Option<String>,
    state: &mut AgentState,
    b: &mut SyncRun,
    later: &mut AgentState,
    u: (),
)
    requires
        old(a).stage() is Resolving,
        call_ensures(SyncRun::advance, (a, Ok(wanted), state), u),
        *old(b) == *final(a),
        *old(later) == *final(state),
        call_ensures(SyncRun::advance, (b, Ok(running), later), u),
    ensures
        final(state).running_digest@ == old(state).running_digest@,
        wanted is Some && running is Some && wanted->0@ != running->0@ ==> {
            &&& final(b).stage() is Failed
            &&& final(later).running_digest@ == old(state).running_digest@
            &&& final(b).stage()->Failed_0 == "restart did not adopt the pulled image: container "@
                + old(a).job().container + " still runs image "@ + running->0@ + ", expected "@
                + wanted->0@ + ". `"@ + old(a).job().container
                + "` restarts the existing container object, which stays bound to its create-time image id; set "@
                + "AVOCADO_CONTAINER_DEV_SERVICE"@
                + " to the systemd unit that owns the container so the restart re-runs it and re-resolves the tag"@
        },
        wanted is None || running is None || wanted->0@ == running->0@ ==> {
            &&& final(b).stage() is Pointing
            &&& final(later).running_digest@ == old(a).job().digest
        },
{
}

/// No other step of a sync touches the digest.
pub proof fn law_no_other_step_touches_the_digest(
    run: &mut SyncRun,
    came: Came,
    state: &mut AgentState,
    u: (),
)
    requires
        call_ensures(SyncRun::advance, (run, came, state), u),
        !(old(run).stage() is Probing) || !(final(run).stage() is Pointing),
    ensures
        final(state).running_digest@ == old(state).running_digest@,
{
}

/// A sync is over exactly where it is complete or has failed, and says which; the host is told of a
/// failure, in the device's name, with the image, the tag, the digest and the cause, each whole;
/// and of nothing else.
pub proof fn law_a_failed_sync_is_reported_whole(
    run: SyncRun,
    device: &str,
    result: Option<Result<bool, String>>,
    report: Option<DeviceFrame>,
)
    requires
        call_ensures(SyncRun::result, (&run,), result),
        call_ensures(SyncRun::report, (&run, device), report),
    ensures
        result is Some <==> run.stage() is Complete || run.stage() is Failed,
        run.stage() matches Stage::Complete(written) ==> result->0 == Ok::<bool, String>(written),
        run.stage() matches Stage::Failed(why) ==> result->0 is Err && result->0->Err_0@ == why,
        report is Some <==> run.stage() is Failed,
        report is Some ==> {
            &&& report->0 is Status
            &&& report->0->Status_0.device_id@ == device@
            &&& report->0->Status_0.state@ == "sync_failed"@
            &&& report->0->Status_0.detail is Some
            &&& report->0->Status_0.detail->0@ == run.job().image + ":"@ + run.job().tag + " @ "@
                + run.job().digest + ": "@ + result->0->Err_0@
        },
{
}

} // verus!
