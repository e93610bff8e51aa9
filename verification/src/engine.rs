//! Which container engine the agent runs, whether it is there, and how it is called.
use vstd::prelude::*;
use crate::settings;
use crate::sync::{Came, SyncAction};
use crate::sync;
use crate::text;

verus! {

/// Whether `binary` names an engine that the shipped systemd unit cannot run: podman, under any
/// path and in any variant.
pub open spec fn unsupported(binary: Seq<char>) -> bool {
    text::occurs_in(binary, "podman"@)
}

/// Whether `binary` names an engine that the shipped systemd unit cannot run.
pub fn is_unsupported_engine(binary: &str) -> (r: bool)
    ensures
        r == unsupported(binary@),
{
    text::contains_text(binary, "podman")
}

/// What is said at startup of an engine that the shipped unit cannot run.
pub const UNSUPPORTED_ENGINE_WARNING: &'static str =
    "podman is not supported under the container-agent-dev systemd unit (its sandbox denies the privileges rootful podman needs); expect pulls to fail unless this agent is running outside that unit";

/// The warning to give, once, where the configured engine cannot work under the shipped unit.
///
/// A warning and no refusal: the restriction is the unit's, so an agent that runs outside it is
/// not affected.
pub fn warn_if_unsupported_engine(binary: &str) -> (r: Option<&'static str>)
    ensures
        r is Some <==> unsupported(binary@),
        r is Some ==> r->0@ == UNSUPPORTED_ENGINE_WARNING@,
{
    if is_unsupported_engine(binary) {
        Some(UNSUPPORTED_ENGINE_WARNING)
    } else {
        None
    }
}

// ---------------------------------------------------------------------------
// Looking the engine up.
// ---------------------------------------------------------------------------

/// The directories that a search path names; empty pieces name none.
pub open spec fn search_dirs(path_var: Seq<char>) -> Seq<Seq<char>> {
    text::split_on(path_var, ':').filter(|dir: Seq<char>| dir.len() > 0)
}

/// The files that `binary` may be, in the order in which they are tried: itself where it is a
/// path, else that name in each directory of the search path.
pub open spec fn candidates(binary: Seq<char>, path_var: Option<Seq<char>>) -> Seq<Seq<char>> {
    if binary.contains('/') {
        seq![binary]
    } else {
        match path_var {
            Some(path) => search_dirs(path).map_values(|dir: Seq<char>| text::joined(dir, binary)),
            None => Seq::empty(),
        }
    }
}

/// The files that `binary` may be, in the order in which they are tried.
pub fn engine_candidates(binary: &str, path_var: Option<&str>) -> (r: Vec<String>)
    ensures
        text::texts(r@) == candidates(binary@, settings::text_of(path_var)),
{
    let mut r: Vec<String> = Vec::new();
    if text::contains_char(binary, '/') {
        r.push(binary.to_string());
        assert(text::texts(r@) =~= seq![binary@]);
        return r;
    }
    let path = match path_var {
        Some(path) => path,
        None => {
            assert(text::texts(r@) =~= Seq::<Seq<char>>::empty());
            return r;
        },
    };
    let dirs = text::split(path, ':');
    let ghost all = text::split_on(path@, ':');
    let ghost keep = |dir: Seq<char>| dir.len() > 0;
    let ghost to_file = |dir: Seq<char>| text::joined(dir, binary@);
    let mut i: usize = 0;
    proof {
        reveal(Seq::filter);
        assert(all.take(0).filter(keep) =~= Seq::<Seq<char>>::empty());
        assert(text::texts(r@) =~= all.take(0).filter(keep).map_values(to_file));
    }
    while i < dirs.len()
        invariant
            text::texts(dirs@) == all,
            i <= dirs.len(),
            keep == (|dir: Seq<char>| dir.len() > 0),
            to_file == (|dir: Seq<char>| text::joined(dir, binary@)),
            text::texts(r@) == all.take(i as int).filter(keep).map_values(to_file),
        decreases dirs.len() - i,
    {
        let dir = dirs[i].as_str();
        let ghost before = text::texts(r@);
        assert(dir@ == all[i as int]);
        proof {
            reveal(Seq::filter);
            assert(all.take(i + 1).drop_last() =~= all.take(i as int));
            assert(all.take(i + 1).last() == dir@);
        }
        if !dir.is_empty() {
            r.push(text::join_path(dir, binary));
            assert(text::texts(r@) =~= before.push(to_file(dir@)));
            assert(all.take(i + 1).filter(keep).map_values(to_file) =~= before.push(to_file(dir@)));
        }
        i = i + 1;
    }
    assert(all.take(i as int) =~= all);
    r
}

/// What the file system says of one file.
#[derive(Debug, Clone, Copy, PartialEq, Eq)]
pub struct FileProbe {
    /// Whether it is a regular file.
    pub is_file: bool,
    /// Its permission bits.
    pub mode: u32,
}

/// Whether a file can be run: it is there, it is a regular file, and somebody may execute it.
pub open spec fn runnable(probe: Option<FileProbe>) -> bool {
    match probe {
        Some(p) => p.is_file && p.mode & 0o111 != 0,
        None => false,
    }
}

/// Whether one of `probes` can be run.
pub open spec fn any_runnable(probes: Seq<Option<FileProbe>>) -> bool {
    exists|i: int| 0 <= i < probes.len() && runnable(#[trigger] probes[i])
}

/// Whether the engine was found: whether one of its candidates, as the file system described
/// them, can be run.
pub fn engine_on_path(probes: &Vec<Option<FileProbe>>) -> (r: bool)
    ensures
        r == any_runnable(probes@),
        r == exists|i: int| 0 <= i < probes@.len() && runnable(#[trigger] probes@[i]),
{
    let mut i: usize = 0;
    while i < probes.len()
        invariant
            i <= probes.len(),
            forall|k: int| 0 <= k < i ==> !runnable(#[trigger] probes@[k]),
        decreases probes.len() - i,
    {
        match probes[i] {
            Some(p) => {
                if p.is_file && p.mode & 0o111 != 0 {
                    assert(runnable(probes@[i as int]));
                    return true;
                }
            },
            None => {},
        }
        i = i + 1;
    }
    false
}

/// Why the agent does not start without its engine.
pub open spec fn missing_engine(binary: Seq<char>) -> Seq<char> {
    "container engine `"@ + binary
        + "` was not found on PATH. The agent execs it directly on every sync, so there is nothing it can do without it - install the `docker` extension in this runtime, or set "@
        + settings::ENGINE_ENV@ + " to an engine that is present."@
}

/// Refuses to start where the configured engine is not there.
pub fn ensure_engine_available(binary: &str, found: bool) -> (r: Result<(), String>)
    ensures
        r is Ok <==> found,
        r is Err ==> r->Err_0@ == missing_engine(binary@),
{
    if found {
        Ok(())
    } else {
        Err(
            "container engine `".to_string().concat(binary).concat(
                "` was not found on PATH. The agent execs it directly on every sync, so there is nothing it can do without it - install the `docker` extension in this runtime, or set ",
            ).concat(settings::ENGINE_ENV).concat(" to an engine that is present."),
        )
    }
}

// ---------------------------------------------------------------------------
// Calling the engine.
// ---------------------------------------------------------------------------

/// A program to run and its arguments.
#[derive(Debug, Clone, PartialEq, Eq)]
pub struct CommandLine {
    pub program: String,
    pub args: Vec<String>,
}

/// Words with one space between them.
pub open spec fn spaced(words: Seq<Seq<char>>) -> Seq<char>
    decreases words.len(),
{
    if words.len() == 0 {
        Seq::empty()
    } else if words.len() == 1 {
        words[0]
    } else {
        spaced(words.drop_last()) + " "@ + words.last()
    }
}

fn spaced_text(words: &Vec<String>) -> (r: String)
    ensures
        r@ == spaced(text::texts(words@)),
{
    let ghost all = text::texts(words@);
    let mut r = String::new();
    let mut i: usize = 0;
    while i < words.len()
        invariant
            i <= words.len(),
            all == text::texts(words@),
            r@ == spaced(all.take(i as int)),
        decreases words.len() - i,
    {
        proof {
            assert(all.take(i + 1).drop_last() =~= all.take(i as int));
            assert(all.take(i + 1).last() == words@[i as int]@);
        }
        if i == 0 {
            r = words[i].as_str().to_string();
        } else {
            r.append(" ");
            r.append(words[i].as_str());
        }
        i = i + 1;
    }
    assert(all.take(i as int) =~= all);
    r
}

impl CommandLine {
    /// The words of this command line.
    pub open spec fn words(self) -> Seq<Seq<char>> {
        seq![self.program@] + text::texts(self.args@)
    }

    /// This command line as it is quoted in a message.
    pub open spec fn quoted(self) -> Seq<char> {
        "`"@ + self.program@ + " "@ + spaced(text::texts(self.args@)) + "`"@
    }

    fn quote(&self) -> (r: String)
        ensures
            r@ == self.quoted(),
    {
        "`".to_string().concat(self.program.as_str()).concat(" ").concat(
            spaced_text(&self.args).as_str(),
        ).concat("`")
    }
}

/// How a child process ended.
#[derive(Debug, Clone, PartialEq, Eq)]
pub enum ChildEnd {
    /// It could not be started, and why.
    NotSpawned(String),
    /// It ran: whether it succeeded, its exit status in words, and what it wrote.
    Exited { success: bool, status: String, stdout: Vec<u8> },
}

/// The text that `String::from_utf8_lossy` makes of bytes.
pub uninterp spec fn lossy_text(bytes: Seq<u8>) -> Seq<char>;

/// Decodes bytes with `String::from_utf8_lossy`, which depends on the bytes alone and decodes
/// those that are UTF-8 to the text that they encode. Of other bytes only the name is said.
#[verifier::external_body]
fn decoded(bytes: &Vec<u8>) -> (r: String)
    ensures
        r@ == lossy_text(bytes@),
        vstd::utf8::valid_utf8(bytes@) ==> r@ == vstd::utf8::decode_utf8(bytes@),
{
    String::from_utf8_lossy(bytes).into_owned()
}

/// Why running `line` failed, where it did.
pub open spec fn run_failure(line: CommandLine, end: ChildEnd) -> Option<Seq<char>> {
    match end {
        ChildEnd::NotSpawned(why) => Some("spawning "@ + line.quoted() + ": "@ + why@),
        ChildEnd::Exited { success: false, status, .. } => Some(
            line.quoted() + " exited with "@ + status@,
        ),
        _ => None,
    }
}

/// What came of a command that is run for its effect: any failure to start it and any unsuccessful
/// exit is an error.
pub fn run_engine(line: &CommandLine, end: ChildEnd) -> (r: Result<(), String>)
    ensures
        r is Ok <==> run_failure(*line, end) is None,
        r is Err ==> Some(r->Err_0@) == run_failure(*line, end),
{
    match end {
        ChildEnd::NotSpawned(why) => Err(
            "spawning ".to_string().concat(line.quote().as_str()).concat(": ").concat(
                why.as_str(),
            ),
        ),
        ChildEnd::Exited { success, status, stdout: _ } => if success {
            Ok(())
        } else {
            Err(line.quote().concat(" exited with ").concat(status.as_str()))
        },
    }
}

/// What came of a command that is run for its output: the output without the white space around
/// it. An unsuccessful exit means that there is no such object, which is an answer and no error;
/// so is an empty output.
pub fn engine_output(line: &CommandLine, end: ChildEnd) -> (r: Result<Option<String>, String>)
    ensures
        match end {
            ChildEnd::NotSpawned(_) => r is Err && Some(r->Err_0@) == run_failure(*line, end),
            ChildEnd::Exited { success, status: _, stdout } => r is Ok && settings::string_of(
                r->Ok_0,
            ) == if success {
                settings::set_value(Some(lossy_text(stdout@)))
            } else {
                None
            },
        },
        end is Exited && end->success && vstd::utf8::valid_utf8(end->stdout@) ==> r is Ok
            && settings::string_of(r->Ok_0) == settings::set_value(
            Some(vstd::utf8::decode_utf8(end->stdout@)),
        ),
{
    match end {
        ChildEnd::NotSpawned(why) => Err(
            "spawning ".to_string().concat(line.quote().as_str()).concat(": ").concat(
                why.as_str(),
            ),
        ),
        ChildEnd::Exited { success, status: _, stdout } => if success {
            Ok(settings::setting_value(Some(decoded(&stdout).as_str())))
        } else {
            Ok(None)
        },
    }
}

/// The program that restarts a systemd unit.
pub const SYSTEMCTL: &'static str = "systemctl";

/// The container engine as it is called: its command-line binary, and the systemd unit that owns
/// the container, where one does.
#[derive(Debug, Clone, PartialEq, Eq)]
pub struct CommandEngine {
    pub binary: String,
    pub service: Option<String>,
}

/// The words that the engine `binary` is called with for `action`, where `service` is the unit that
/// owns the container.
///
/// Restarting a container runs its object again, which stays bound to the image that it was
/// created from; so where a systemd unit owns the container, that unit is restarted instead.
pub open spec fn engine_words(
    binary: Seq<char>,
    service: Option<Seq<char>>,
    action: SyncAction,
) -> Option<Seq<Seq<char>>> {
    match action {
        SyncAction::Pull { reference } => Some(seq![binary, "pull"@, reference@]),
        SyncAction::Tag { source, target } => Some(seq![binary, "tag"@, source@, target@]),
        SyncAction::Restart { container } => Some(
            match service {
                Some(unit) => seq![SYSTEMCTL@, "restart"@, unit],
                None => seq![binary, "restart"@, container@],
            },
        ),
        SyncAction::RunningImageId { container } => Some(
            seq![binary, "inspect"@, container@, "--format"@, "{{.Image}}"@],
        ),
        SyncAction::ResolveImageId { reference } => Some(
            seq![binary, "image"@, "inspect"@, reference@, "--format"@, "{{.Id}}"@],
        ),
        _ => None,
    }
}

impl CommandEngine {
    /// The engine that the two settings give.
    pub fn from_settings(engine: Option<&str>, service: Option<&str>) -> (r: CommandEngine)
        ensures
            r.binary@ == settings::or_default(
                settings::set_value(settings::text_of(engine)),
                settings::DEFAULT_ENGINE@,
            ),
            settings::string_of(r.service) == settings::set_value(settings::text_of(service)),
    {
        CommandEngine {
            binary: settings::engine_binary(engine),
            service: settings::owning_service(service),
        }
    }

    fn line(&self, args: Vec<String>) -> (r: CommandLine)
        ensures
            r.program@ == self.binary@,
            r.args == args,
    {
        CommandLine { program: self.binary.as_str().to_string(), args }
    }

    /// Pulls `reference`.
    pub fn pull(&self, reference: &str) -> (r: CommandLine)
        ensures
            r.words() == seq![self.binary@, "pull"@, reference@],
    {
        let r = self.line(vec!["pull".to_string(), reference.to_string()]);
        assert(r.words() =~= seq![self.binary@, "pull"@, reference@]);
        r
    }

    /// Points `target` at `source`.
    pub fn tag(&self, source: &str, target: &str) -> (r: CommandLine)
        ensures
            r.words() == seq![self.binary@, "tag"@, source@, target@],
    {
        let r = self.line(vec!["tag".to_string(), source.to_string(), target.to_string()]);
        assert(r.words() =~= seq![self.binary@, "tag"@, source@, target@]);
        r
    }

    /// Restarts the unit that owns the container where there is one, else `container`.
    pub fn restart(&self, container: &str) -> (r: CommandLine)
        ensures
            r.words() == match settings::string_of(self.service) {
                Some(unit) => seq![SYSTEMCTL@, "restart"@, unit],
                None => seq![self.binary@, "restart"@, container@],
            },
    {
        match &self.service {
            Some(unit) => {
                let r = CommandLine {
                    program: SYSTEMCTL.to_string(),
                    args: vec!["restart".to_string(), unit.as_str().to_string()],
                };
                assert(r.words() =~= seq![SYSTEMCTL@, "restart"@, unit@]);
                r
            },
            None => {
                let r = self.line(vec!["restart".to_string(), container.to_string()]);
                assert(r.words() =~= seq![self.binary@, "restart"@, container@]);
                r
            },
        }
    }

    /// Prints the id of the image that `container` runs.
    pub fn running_image_id(&self, container: &str) -> (r: CommandLine)
        ensures
            r.words() == seq![self.binary@, "inspect"@, container@, "--format"@, "{{.Image}}"@],
    {
        let r = self.line(
            vec![
                "inspect".to_string(),
                container.to_string(),
                "--format".to_string(),
                "{{.Image}}".to_string(),
            ],
        );
        assert(r.words() =~= seq![
            self.binary@,
            "inspect"@,
            container@,
            "--format"@,
            "{{.Image}}"@,
        ]);
        r
    }

    /// Prints the id of the image that `reference` resolves to.
    pub fn resolve_image_id(&self, reference: &str) -> (r: CommandLine)
        ensures
            r.words() == seq![
                self.binary@,
                "image"@,
                "inspect"@,
                reference@,
                "--format"@,
                "{{.Id}}"@,
            ],
    {
        let r = self.line(
            vec![
                "image".to_string(),
                "inspect".to_string(),
                reference.to_string(),
                "--format".to_string(),
                "{{.Id}}".to_string(),
            ],
        );
        assert(r.words() =~= seq![
            self.binary@,
            "image"@,
            "inspect"@,
            reference@,
            "--format"@,
            "{{.Id}}"@,
        ]);
        r
    }

    /// The command to run for `action`; `None` where the action is not one of the engine's.
    pub fn command(&self, action: &SyncAction) -> (r: Option<CommandLine>)
        ensures
            match r {
                Some(line) => Some(line.words()) == engine_words(
                    self.binary@,
                    settings::string_of(self.service),
                    *action,
                ),
                None => action is WritePointer || action is Nothing,
            },
    {
        match action {
            SyncAction::Pull { reference } => Some(self.pull(reference.as_str())),
            SyncAction::Tag { source, target } => Some(self.tag(source.as_str(), target.as_str())),
            SyncAction::Restart { container } => Some(self.restart(container.as_str())),
            SyncAction::RunningImageId { container } => Some(
                self.running_image_id(container.as_str()),
            ),
            SyncAction::ResolveImageId { reference } => Some(
                self.resolve_image_id(reference.as_str()),
            ),
            SyncAction::WritePointer { .. } => None,
            SyncAction::Nothing => None,
        }
    }
}

/// Whether `action` is asked for its answer rather than its effect.
pub open spec fn is_question(action: SyncAction) -> bool {
    action is RunningImageId || action is ResolveImageId
}

/// Whether `action` is asked for its answer, so that what its command prints must be kept.
pub fn asks_for_output(action: &SyncAction) -> (r: bool)
    ensures
        r == is_question(*action),
{
    match action {
        SyncAction::RunningImageId { .. } => true,
        SyncAction::ResolveImageId { .. } => true,
        _ => false,
    }
}

/// What came of `action`, given how its command ended.
pub fn engine_came(action: &SyncAction, line: &CommandLine, end: ChildEnd) -> (r: Came)
    ensures
        sync::came(r) == match end {
            ChildEnd::NotSpawned(_) => Err(run_failure(*line, end)->0),
            ChildEnd::Exited { success, status: _, stdout } => if success && is_question(*action) {
                Ok(settings::set_value(Some(lossy_text(stdout@))))
            } else if success || is_question(*action) {
                Ok(None)
            } else {
                Err(run_failure(*line, end)->0)
            },
        },
        is_question(*action) && end is Exited && end->success && vstd::utf8::valid_utf8(
            end->stdout@,
        ) ==> sync::came(r) is Ok && sync::came(r)->Ok_0 == settings::set_value(
            Some(vstd::utf8::decode_utf8(end->stdout@)),
        ),
{
    if asks_for_output(action) {
        engine_output(line, end)
    } else {
        match run_engine(line, end) {
            Ok(()) => Ok(None),
            Err(e) => Err(e),
        }
    }
}

} // verus!
