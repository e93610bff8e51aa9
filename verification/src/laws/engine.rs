//! Laws of finding the container engine and of calling it.
use vstd::prelude::*;
use crate::engine;
use crate::engine::{
    asks_for_output, engine_came, engine_candidates, engine_on_path, engine_output,
    ensure_engine_available, is_unsupported_engine, run_engine, warn_if_unsupported_engine,
    ChildEnd, CommandEngine, CommandLine, FileProbe,
};
use crate::laws::text as text_laws;
use crate::settings::{engine_binary, owning_service, setting_value};
use crate::sync::{Came, SyncAction};
use crate::text;
use crate::text::join_path;

verus! {

/// An engine is unsupported where `podman` stands anywhere in its name, and only there, and it is
/// warned about exactly then.
pub proof fn law_podman_is_unsupported_under_any_name(
    binary: &str,
    r: bool,
    warning: Option<&'static str>,
    before: Seq<char>,
    after: Seq<char>,
)
    requires
        call_ensures(is_unsupported_engine, (binary,), r),
        call_ensures(warn_if_unsupported_engine, (binary,), warning),
    ensures
        binary@ == before + "podman"@ + after ==> r,
        r ==> exists|a: Seq<char>, b: Seq<char>| binary@ == #[trigger] (a + "podman"@ + b),
        warning is Some <==> r,
        warning is Some ==> warning->0@
            == "podman is not supported under the container-agent-dev systemd unit (its sandbox denies the privileges rootful podman needs); expect pulls to fail unless this agent is running outside that unit"@,
{
    let p = "podman"@;
    if binary@ == before + p + after {
        let at = before.len() as int;
        assert(binary@.subrange(at, at + p.len()) =~= p);
        assert(text::occurs_at(binary@, p, at));
    }
    if r {
        let at = choose|at: int| text::occurs_at(binary@, p, at);
        assert(binary@ =~= binary@.take(at) + p + binary@.skip(at + p.len()));
    }
}

/// A binary that is a path is looked for at that path alone, whatever the search path; a bare name
/// without a search path is looked for nowhere.
pub proof fn law_a_path_is_its_own_candidate(binary: &str, path: Option<&str>, r: Vec<String>)
    requires
        call_ensures(engine_candidates, (binary, path), r),
    ensures
        binary@.contains('/') ==> r@.len() == 1 && r@[0]@ == binary@,
        !binary@.contains('/') && path is None ==> r@.len() == 0,
{
    if binary@.contains('/') {
        assert(text::texts(r@).len() == 1);
        assert(text::texts(r@)[0] == r@[0]@);
    } else if path is None {
        assert(text::texts(r@).len() == 0);
    }
}

proof fn lemma_search_push(path: Seq<char>, dir: Seq<char>)
    requires
        !dir.contains(':'),
    ensures
        engine::search_dirs(path.push(':') + dir) == if dir.len() > 0 {
            engine::search_dirs(path).push(dir)
        } else {
            engine::search_dirs(path)
        },
{
    text_laws::lemma_split_push(path, ':', dir);
    let keep = |d: Seq<char>| d.len() > 0;
    let pieces = text::split_on(path, ':');
    reveal(Seq::filter);
    assert(pieces.push(dir).drop_last() =~= pieces);
    assert(pieces.push(dir).last() == dir);
}

proof fn lemma_search_one(dir: Seq<char>)
    requires
        !dir.contains(':'),
    ensures
        engine::search_dirs(dir) == if dir.len() > 0 {
            seq![dir]
        } else {
            Seq::empty()
        },
{
    text_laws::lemma_split_whole(dir, ':');
    reveal_with_fuel(Seq::filter, 2);
    reveal(Seq::filter);
    let keep = |d: Seq<char>| d.len() > 0;
    let one = seq![dir];
    assert(one.drop_last() =~= Seq::<Seq<char>>::empty());
    assert(one.drop_last().filter(keep) =~= Seq::<Seq<char>>::empty());
    assert(engine::search_dirs(dir) =~= if dir.len() > 0 {
        seq![dir]
    } else {
        Seq::empty()
    });
}

/// A bare name is looked for in every directory of the search path, in order: one more directory
/// at the end of the path is one more candidate at the end, that name joined to it, and an empty
/// one is none.
pub proof fn law_each_directory_is_one_candidate(
    binary: &str,
    path: &str,
    dir: &str,
    longer: &str,
    alone: Vec<String>,
    before: Vec<String>,
    r: Vec<String>,
    joined: String,
)
    requires
        !binary@.contains('/'),
        !dir@.contains(':'),
        longer@ == path@.push(':') + dir@,
        call_ensures(engine_candidates, (binary, Some(dir)), alone),
        call_ensures(engine_candidates, (binary, Some(path)), before),
        call_ensures(engine_candidates, (binary, Some(longer)), r),
        call_ensures(join_path, (dir, binary), joined),
    ensures
        dir@.len() == 0 ==> alone@.len() == 0 && text_laws::views(r@) == text_laws::views(before@),
        dir@.len() > 0 ==> alone@.len() == 1 && alone@[0]@ == joined@,
        dir@.len() > 0 ==> text_laws::views(r@) == text_laws::views(before@).push(joined@),
{
    lemma_search_push(path@, dir@);
    lemma_search_one(dir@);
    assert(text::texts(r@) =~= text_laws::views(r@));
    assert(text::texts(before@) =~= text_laws::views(before@));
    let to_file = |d: Seq<char>| text::joined(d, binary@);
    let dirs = engine::search_dirs(path@);
    assert(dirs.push(dir@).map_values(to_file) =~= dirs.map_values(to_file).push(joined@));
    assert(text::texts(alone@).len() == alone@.len());
    if dir@.len() > 0 {
        assert(text::texts(alone@)[0] == joined@);
        assert(text::texts(alone@)[0] == alone@[0]@);
    }
}

/// The engine is there where some candidate is a regular file that somebody may execute, and only
/// there: one more candidate of that sort makes it found, and any other changes nothing.
pub proof fn law_one_runnable_file_is_enough(
    probes: Vec<Option<FileProbe>>,
    one: Option<FileProbe>,
    more: Vec<Option<FileProbe>>,
    r: bool,
    q: bool,
)
    requires
        call_ensures(engine_on_path, (&probes,), r),
        call_ensures(engine_on_path, (&more,), q),
        more@ == probes@.push(one),
    ensures
        probes@.len() == 0 ==> !r,
        one is Some && one->0.is_file && one->0.mode & 0o111 != 0 ==> q,
        one is None || !one->0.is_file || one->0.mode & 0o111 == 0 ==> q == r,
{
    let n = probes@.len() as int;
    assert(more@[n] == one);
    if one is Some && one->0.is_file && one->0.mode & 0o111 != 0 {
        assert(engine::runnable(more@[n]));
    }
    if r {
        let i = choose|i: int| 0 <= i < probes@.len() && engine::runnable(#[trigger] probes@[i]);
        assert(more@[i] == probes@[i]);
        assert(engine::runnable(more@[i]));
    }
    if q {
        let i = choose|i: int| 0 <= i < more@.len() && engine::runnable(#[trigger] more@[i]);
        if i < n {
            assert(more@[i] == probes@[i]);
            assert(engine::runnable(probes@[i]));
        }
    }
}

/// The agent starts exactly where the engine was found; else it says which engine is missing and
/// which setting names another.
pub proof fn law_a_missing_engine_is_named(binary: &str, found: bool, r: Result<(), String>)
    requires
        call_ensures(ensure_engine_available, (binary, found), r),
    ensures
        r is Ok <==> found,
        r is Err ==> r->Err_0@ == "container engine `"@ + binary@
            + "` was not found on PATH. The agent execs it directly on every sync, so there is nothing it can do without it - install the `docker` extension in this runtime, or set "@
            + "AVOCADO_CONTAINER_DEV_ENGINE"@ + " to an engine that is present."@,
{
}

/// The words of a command: the program and its arguments.
pub open spec fn says(line: CommandLine, words: Seq<Seq<char>>) -> bool {
    &&& words.len() == line.args@.len() + 1
    &&& line.program@ == words[0]
    &&& forall|i: int| 0 <= i < line.args@.len() ==> (#[trigger] line.args@[i])@ == words[i + 1]
}

proof fn lemma_says(line: CommandLine, words: Seq<Seq<char>>)
    requires
        line.words() == words,
    ensures
        says(line, words),
{
    let all = line.words();
    assert(all[0] == line.program@);
    assert forall|i: int| 0 <= i < line.args@.len() implies (#[trigger] line.args@[i])@ == words[i
        + 1] by {
        assert(all[i + 1] == text::texts(line.args@)[i]);
    }
}

/// Where a unit owns the container, a restart is `systemctl restart` of that unit, whatever the
/// container and the engine; where none does, it is the engine's own restart of the container.
pub proof fn law_the_owning_unit_is_restarted(
    e: CommandEngine,
    container: String,
    name: &str,
    r: Option<CommandLine>,
    own: CommandLine,
)
    requires
        name@ == container@,
        call_ensures(CommandEngine::command, (&e, &SyncAction::Restart { container }), r),
        call_ensures(CommandEngine::restart, (&e, name), own),
    ensures
        r is Some,
        e.service is Some ==> says(r->0, seq!["systemctl"@, "restart"@, e.service->0@]),
        e.service is None ==> says(r->0, seq![e.binary@, "restart"@, container@]),
        e.service is Some ==> says(own, seq!["systemctl"@, "restart"@, e.service->0@]),
        e.service is None ==> says(own, seq![e.binary@, "restart"@, container@]),
{
    if e.service is Some {
        lemma_says(r->0, seq!["systemctl"@, "restart"@, e.service->0@]);
        lemma_says(own, seq!["systemctl"@, "restart"@, e.service->0@]);
    } else {
        lemma_says(r->0, seq![e.binary@, "restart"@, container@]);
        lemma_says(own, seq![e.binary@, "restart"@, container@]);
    }
}

/// The other actions of the engine are its own commands, with the whole of each reference and name
/// as one argument; an owning unit changes none of them.
pub proof fn law_each_action_is_one_engine_command(
    e: CommandEngine,
    action: SyncAction,
    r: Option<CommandLine>,
)
    requires
        call_ensures(CommandEngine::command, (&e, &action), r),
    ensures
        action matches SyncAction::Pull { reference } ==> r is Some && says(
            r->0,
            seq![e.binary@, "pull"@, reference@],
        ),
        action matches SyncAction::Tag { source, target } ==> r is Some && says(
            r->0,
            seq![e.binary@, "tag"@, source@, target@],
        ),
        action matches SyncAction::RunningImageId { container } ==> r is Some && says(
            r->0,
            seq![e.binary@, "inspect"@, container@, "--format"@, "{{.Image}}"@],
        ),
        action matches SyncAction::ResolveImageId { reference } ==> r is Some && says(
            r->0,
            seq![e.binary@, "image"@, "inspect"@, reference@, "--format"@, "{{.Id}}"@],
        ),
        action is WritePointer || action is Nothing ==> r is None,
{
    if r is Some {
        lemma_says(r->0, r->0.words());
    }
}

/// The engine's own methods give the commands of the actions that they are named after.
pub proof fn law_each_method_is_its_actions_command(
    e: CommandEngine,
    a: &str,
    b: &str,
    pull: CommandLine,
    tag: CommandLine,
    running: CommandLine,
    resolve: CommandLine,
)
    requires
        call_ensures(CommandEngine::pull, (&e, a), pull),
        call_ensures(CommandEngine::tag, (&e, a, b), tag),
        call_ensures(CommandEngine::running_image_id, (&e, a), running),
        call_ensures(CommandEngine::resolve_image_id, (&e, a), resolve),
    ensures
        says(pull, seq![e.binary@, "pull"@, a@]),
        says(tag, seq![e.binary@, "tag"@, a@, b@]),
        says(running, seq![e.binary@, "inspect"@, a@, "--format"@, "{{.Image}}"@]),
        says(resolve, seq![e.binary@, "image"@, "inspect"@, a@, "--format"@, "{{.Id}}"@]),
{
    lemma_says(pull, seq![e.binary@, "pull"@, a@]);
    lemma_says(tag, seq![e.binary@, "tag"@, a@, b@]);
    lemma_says(running, seq![e.binary@, "inspect"@, a@, "--format"@, "{{.Image}}"@]);
    lemma_says(resolve, seq![e.binary@, "image"@, "inspect"@, a@, "--format"@, "{{.Id}}"@]);
}

/// The engine is made of the two settings that name it and the unit.
pub proof fn law_the_engine_is_the_configured_one(
    engine: Option<&str>,
    service: Option<&str>,
    binary: String,
    unit: Option<String>,
    r: CommandEngine,
)
    requires
        call_ensures(engine_binary, (engine,), binary),
        call_ensures(owning_service, (service,), unit),
        call_ensures(CommandEngine::from_settings, (engine, service), r),
    ensures
        r.binary@ == binary@,
        r.service is Some <==> unit is Some,
        r.service is Some ==> r.service->0@ == unit->0@,
{
}

/// Only the two lookups are asked for what they print.
pub proof fn law_only_lookups_are_asked_for_output(action: SyncAction, r: bool)
    requires
        call_ensures(asks_for_output, (&action,), r),
    ensures
        action is RunningImageId || action is ResolveImageId ==> r,
        action is Pull || action is Tag || action is Restart || action is WritePointer
            || action is Nothing ==> !r,
{
}

proof fn lemma_spaced(words: Seq<Seq<char>>, word: Seq<char>)
    ensures
        words.len() > 0 ==> engine::spaced(words.push(word)) == engine::spaced(words) + " "@ + word,
        words.len() == 0 ==> engine::spaced(words.push(word)) == word,
{
    assert(words.push(word).drop_last() =~= words);
}

/// A command that was run for its effect succeeded exactly where it ran and exited well; else the
/// error quotes the program and ends in the cause: why it could not be started, or how it exited.
pub proof fn law_only_a_good_exit_is_a_success(
    line: CommandLine,
    end: ChildEnd,
    r: Result<(), String>,
)
    requires
        call_ensures(run_engine, (&line, end), r),
    ensures
        r is Ok <==> end is Exited && end->success,
        end matches ChildEnd::NotSpawned(why) ==> why@.is_suffix_of(r->Err_0@) && ("spawning `"@
            + line.program@ + " "@).is_prefix_of(r->Err_0@),
        end is Exited && !end->success ==> end->status@.is_suffix_of(r->Err_0@) && ("`"@
            + line.program@ + " "@).is_prefix_of(r->Err_0@),
{
    let mid = engine::spaced(text::texts(line.args@)) + "`"@;
    let head = "`"@ + line.program@ + " "@;
    assert(line.quoted() =~= head + mid);
    match end {
        ChildEnd::NotSpawned(why) => {
            reveal_strlit("spawning ");
            reveal_strlit("`");
            reveal_strlit("spawning `");
            assert("spawning `"@ =~= "spawning "@ + "`"@);
            let text = r->Err_0@;
            let long = "spawning `"@ + line.program@ + " "@;
            assert(text =~= long + (mid + ": "@ + why@));
            assert(text =~= ("spawning "@ + line.quoted() + ": "@) + why@);
        },
        ChildEnd::Exited { success, status, stdout } => {
            if !success {
                let text = r->Err_0@;
                assert(text =~= head + (mid + " exited with "@ + status@));
                assert(text =~= (line.quoted() + " exited with "@) + status@);
            }
        },
    }
}

/// The words of a command line are quoted with one space between them: one more argument adds one
/// space and that argument to what is quoted.
pub proof fn law_every_argument_is_quoted(
    line: CommandLine,
    longer: CommandLine,
    arg: String,
    status: String,
    out: Vec<u8>,
    r: Result<(), String>,
    q: Result<(), String>,
)
    requires
        longer.program@ == line.program@,
        longer.args@ == line.args@.push(arg),
        line.args@.len() > 0,
        call_ensures(
            run_engine,
            (&line, ChildEnd::Exited { success: false, status, stdout: out }),
            r,
        ),
        call_ensures(
            run_engine,
            (&longer, ChildEnd::Exited { success: false, status, stdout: out }),
            q,
        ),
    ensures
        q->Err_0@.len() == r->Err_0@.len() + 1 + arg@.len(),
        q->Err_0@ == r->Err_0@.take(r->Err_0@.len() - ("` exited with "@ + status@).len()) + " "@
            + arg@ + "` exited with "@ + status@,
{
    reveal_strlit(" ");
    reveal_strlit("`");
    reveal_strlit(" exited with ");
    reveal_strlit("` exited with ");
    assert("` exited with "@ =~= "`"@ + " exited with "@);
    assert(text::texts(longer.args@) =~= text::texts(line.args@).push(arg@));
    lemma_spaced(text::texts(line.args@), arg@);
    let start = "`"@ + line.program@ + " "@ + engine::spaced(text::texts(line.args@));
    let tail = "` exited with "@ + status@;
    assert(r->Err_0@ =~= start + tail);
    assert(r->Err_0@.take(r->Err_0@.len() - tail.len()) =~= start);
    assert(q->Err_0@ =~= start + " "@ + arg@ + "` exited with "@ + status@);
}

/// A lookup that exits well answers what it printed, white space around it aside, and nothing where
/// it printed nothing; one that does not exit well answers nothing; and only one that could not be
/// started is an error.
pub proof fn law_a_lookup_answers_what_it_printed(
    line: CommandLine,
    end: ChildEnd,
    before: Seq<char>,
    id: Seq<char>,
    after: Seq<char>,
    r: Result<Option<String>, String>,
)
    requires
        call_ensures(engine_output, (&line, end), r),
        text_laws::blank(before),
        text_laws::blank(after),
        text_laws::bare(id),
    ensures
        r is Err <==> end is NotSpawned,
        end matches ChildEnd::NotSpawned(why) ==> why@.is_suffix_of(r->Err_0@),
        end is Exited && !end->success ==> r->Ok_0 is None,
        end is Exited && end->success && end->stdout@ == vstd::utf8::encode_utf8(
            before + id + after,
        ) ==> r->Ok_0 is Some && r->Ok_0->0@ == id,
        end is Exited && end->success && end->stdout@ == vstd::utf8::encode_utf8(before)
            ==> r->Ok_0 is None,
{
    let whole = before + id + after;
    text_laws::lemma_trimmed(before, id, after);
    text_laws::lemma_trimmed_blank(before);
    vstd::utf8::encode_utf8_valid_utf8(whole);
    vstd::utf8::encode_utf8_decode_utf8(whole);
    vstd::utf8::encode_utf8_valid_utf8(before);
    vstd::utf8::encode_utf8_decode_utf8(before);
    if let ChildEnd::NotSpawned(why) = end {
        assert(r->Err_0@ =~= ("spawning "@ + line.quoted() + ": "@) + why@);
    }
}

/// What came of an action is what came of its command: a lookup's answer or error is that of its
/// output, and any other action answers nothing and fails where its command does.
pub proof fn law_an_action_comes_to_what_its_command_does(
    action: SyncAction,
    line: CommandLine,
    end: ChildEnd,
    asked: Result<Option<String>, String>,
    ran: Result<(), String>,
    r: Came,
)
    requires
        call_ensures(engine_output, (&line, end), asked),
        call_ensures(run_engine, (&line, end), ran),
        call_ensures(engine_came, (&action, &line, end), r),
    ensures
        action is RunningImageId || action is ResolveImageId ==> {
            &&& r is Ok <==> asked is Ok
            &&& r is Ok ==> (r->Ok_0 is Some <==> asked->Ok_0 is Some)
            &&& r is Ok && r->Ok_0 is Some ==> r->Ok_0->0@ == asked->Ok_0->0@
            &&& r is Err ==> r->Err_0@ == asked->Err_0@
        },
        !(action is RunningImageId) && !(action is ResolveImageId) ==> {
            &&& r is Ok <==> ran is Ok
            &&& r is Ok ==> r->Ok_0 is None
            &&& r is Err ==> r->Err_0@ == ran->Err_0@
        },
{
    let text = crate::sync::came(r);
    assert(r is Ok <==> text is Ok);
}

/// A command of one argument is quoted as the program, a space and that argument; and a command
/// that could not be started is quoted as one that exited badly is.
pub proof fn law_a_command_is_quoted_alike_however_it_failed(
    line: CommandLine,
    status: String,
    out: Vec<u8>,
    why: String,
    r: Result<(), String>,
    q: Result<(), String>,
    asked: Result<Option<String>, String>,
)
    requires
        call_ensures(
            run_engine,
            (&line, ChildEnd::Exited { success: false, status, stdout: out }),
            r,
        ),
        call_ensures(run_engine, (&line, ChildEnd::NotSpawned(why)), q),
        call_ensures(engine_output, (&line, ChildEnd::NotSpawned(why)), asked),
    ensures
        line.args@.len() == 0 ==> r->Err_0@ == "`"@ + line.program@ + " "@ + "`"@ + " exited with "@
            + status@,
        line.args@.len() == 1 ==> r->Err_0@ == "`"@ + line.program@ + " "@ + line.args@[0]@ + "`"@
            + " exited with "@ + status@,
        q->Err_0@ == "spawning "@ + r->Err_0@.take(
            r->Err_0@.len() - (" exited with "@ + status@).len(),
        ) + ": "@ + why@,
        asked->Err_0@ == q->Err_0@,
{
    let words = text::texts(line.args@);
    assert(words.len() == line.args@.len());
    if words.len() == 1 {
        assert(words[0] == line.args@[0]@);
    }
    assert(r->Err_0@ =~= line.quoted() + (" exited with "@ + status@));
    assert(r->Err_0@.take(r->Err_0@.len() - (" exited with "@ + status@).len()) =~= line.quoted());
    if words.len() == 0 {
        assert(r->Err_0@ =~= "`"@ + line.program@ + " "@ + "`"@ + " exited with "@ + status@);
    }
}

/// Whatever a lookup that exits well prints, its answer is what a setting of the decoded text
/// holds.
pub proof fn law_a_lookup_reads_its_output_as_a_setting(
    line: CommandLine,
    status: String,
    out: Vec<u8>,
    printed: &str,
    value: Option<String>,
    r: Result<Option<String>, String>,
)
    requires
        printed@ == engine::lossy_text(out@),
        call_ensures(setting_value, (Some(printed),), value),
        call_ensures(
            engine_output,
            (&line, ChildEnd::Exited { success: true, status, stdout: out }),
            r,
        ),
    ensures
        r is Ok,
        r->Ok_0 is Some <==> value is Some,
        value is Some ==> r->Ok_0->0@ == value->0@,
{
    let said = crate::settings::string_of(r->Ok_0);
    assert(said is Some <==> r->Ok_0 is Some);
    let held = crate::settings::string_of(value);
    assert(held is Some <==> value is Some);
}

} // verus!
