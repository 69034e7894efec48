//! One run of a user command: its identity, where its directory lies, what
//! has to exist before it starts, how its process is launched, and what is
//! recorded when the process has ended.
use crate::captured::Captured;
use crate::error::{invalid_input, CoreError, IoKind};
use crate::json::{Json, JsonValue};
use crate::path::{join, joined};
use crate::shell::{quotable, shell_join, shell_joined};
use crate::stamp::{
    format_rfc3339, format_utc_date, format_utc_time, hms_text, id_text,
    lemma_millis_in_range, millis_of, rfc3339_text, second_of_day, ulid_timestamp_ms,
    ulid_to_string, utc_date_text, TIME_LIMIT,
};
use crate::text::{clone_words, from_utf8_lossy, utf8_lossy};
use crate::views;
use vstd::prelude::*;

verus! {

/// A run: a unique, time-ordered identifier, a name for people, and the
/// command line to execute. `Dir` is `()` until the run has a directory.
#[derive(Debug, Clone, PartialEq, Eq)]
pub struct Run<Dir> {
    pub id: u128,
    pub name: String,
    pub command: Vec<String>,
    pub run_dir: Dir,
}

/// A run that has no directory yet.
pub type UnpreparedRun = Run<()>;

/// A run bound to its directory.
pub type PreparedRun = Run<String>;

impl<Dir> Run<Dir> {
    /// What follows the time in the name of the run's directory.
    pub open spec fn leaf_rest(&self) -> Seq<char> {
        "-"@ + self.name@ + "--"@ + id_text(self.id)
    }

    /// The name of the run's directory: the time of day at which the run was
    /// created, its name, and its identifier.
    pub open spec fn leaf(&self) -> Seq<char> {
        hms_text(second_of_day(millis_of(self.id))) + self.leaf_rest()
    }

    /// The run's directory under the vault at `vault`: a directory for the
    /// day, and in it the directory of the run.
    pub open spec fn spec_run_dir(&self, vault: Seq<char>) -> Seq<char> {
        joined(joined(vault, utc_date_text(millis_of(self.id))), self.leaf())
    }

    /// The time at which the run was created, in milliseconds since the Unix
    /// epoch, read from its identifier.
    pub fn timestamp(&self) -> (ms: u64)
        ensures
            ms == millis_of(self.id),
            ms < TIME_LIMIT,
    {
        proof {
            lemma_millis_in_range(self.id);
        }
        ulid_timestamp_ms(self.id)
    }

    /// The run's directory under the vault at `vault_dir`. Nothing is read
    /// or created: the path depends on the identifier, the name and the
    /// vault alone.
    pub fn run_dir(&self, vault_dir: &str) -> (dir: String)
        ensures
            dir@ == self.spec_run_dir(vault_dir@),
    {
        let ms = self.timestamp();
        let date = format_utc_date(ms);
        let mut leaf = format_utc_time(ms);
        leaf.append("-");
        leaf.append(self.name.as_str());
        leaf.append("--");
        leaf.append(ulid_to_string(self.id).as_str());
        assert(leaf@ =~= self.leaf());
        let day_dir = join(vault_dir, date.as_str());
        join(day_dir.as_str(), leaf.as_str())
    }
}

/// The directory of a run depends on its identifier, its name and the vault
/// alone: two runs that agree in these lie in the same place, whatever
/// their commands are and whether or not they are bound already.
pub proof fn lemma_run_dir_by_identity<A, B>(a: Run<A>, b: Run<B>, vault: Seq<char>)
    requires
        a.id == b.id,
        a.name@ == b.name@,
    ensures
        a.leaf() == b.leaf(),
        a.spec_run_dir(vault) == b.spec_run_dir(vault),
{
}

/// The path of a run's directory ends with the run's identifier.
pub proof fn lemma_run_dir_ends_with_id<A>(a: Run<A>, vault: Seq<char>)
    ensures
        a.spec_run_dir(vault).len() >= 26,
        a.spec_run_dir(vault).subrange(
            a.spec_run_dir(vault).len() - 26,
            a.spec_run_dir(vault).len() as int,
        ) == id_text(a.id),
{
    let leaf = a.leaf();
    let hms = hms_text(second_of_day(millis_of(a.id)));
    assert(hms[0] == crate::text::digit_char(second_of_day(millis_of(a.id)) / 3600 / 10));
    assert(leaf[0] == hms[0]);
    assert(!crate::path::is_absolute(leaf));
    let dir = a.spec_run_dir(vault);
    assert(leaf.subrange(leaf.len() - 26, leaf.len() as int) =~= id_text(a.id));
    assert(dir.subrange(dir.len() - 26, dir.len() as int) =~= leaf.subrange(
        leaf.len() - 26,
        leaf.len() as int,
    ));
}

/// No two runs share a directory: directories that are the same belong to
/// runs with the same identifier, whatever vaults they lie in.
pub proof fn lemma_run_dir_collision_free<A, B>(
    a: Run<A>,
    b: Run<B>,
    vault_a: Seq<char>,
    vault_b: Seq<char>,
)
    requires
        a.spec_run_dir(vault_a) == b.spec_run_dir(vault_b),
    ensures
        a.id == b.id,
{
    lemma_run_dir_ends_with_id(a, vault_a);
    lemma_run_dir_ends_with_id(b, vault_b);
    crate::stamp::lemma_id_text_injective(a.id, b.id);
}

/// How the names of two run directories sort: by the second of the day at
/// which each run was created, and within one second by what follows the
/// time in the name.
pub proof fn lemma_leaf_order<A, B>(a: Run<A>, b: Run<B>)
    ensures
        crate::text::lex_lt(a.leaf(), b.leaf()) == {
            let sa = second_of_day(millis_of(a.id));
            let sb = second_of_day(millis_of(b.id));
            sa < sb || (sa == sb && crate::text::lex_lt(a.leaf_rest(), b.leaf_rest()))
        },
{
    let sa = second_of_day(millis_of(a.id));
    let sb = second_of_day(millis_of(b.id));
    crate::stamp::lemma_hms_order(sa, sb);
    crate::text::lemma_lex_lt_by_prefix(hms_text(sa), a.leaf_rest(), hms_text(sb), b.leaf_rest());
}

/// Of two runs created on the same UTC day and not within the same second,
/// the one created first has the directory name that sorts first.
pub proof fn lemma_leaf_sorts_by_time<A, B>(a: Run<A>, b: Run<B>)
    requires
        millis_of(a.id) < millis_of(b.id),
        crate::stamp::day_of(millis_of(a.id)) == crate::stamp::day_of(millis_of(b.id)),
        millis_of(a.id) / 1000 != millis_of(b.id) / 1000,
    ensures
        crate::text::lex_lt(a.leaf(), b.leaf()),
        !crate::text::lex_lt(b.leaf(), a.leaf()),
{
    let ta = millis_of(a.id) as int;
    let tb = millis_of(b.id) as int;
    let day = ta / 86_400_000;
    assert(ta / 1000 < tb / 1000);
    assert((ta / 1000) / 86400 == day && (tb / 1000) / 86400 == day) by {
        assert(ta / 1000 / 86400 == ta / 86_400_000) by (nonlinear_arith)
            requires
                ta >= 0,
        ;
        assert(tb / 1000 / 86400 == tb / 86_400_000) by (nonlinear_arith)
            requires
                tb >= 0,
        ;
    }
    assert(second_of_day(millis_of(a.id)) < second_of_day(millis_of(b.id)));
    lemma_leaf_order(a, b);
    lemma_leaf_order(b, a);
}

/// The documents for a list of words.
pub open spec fn word_docs(words: Seq<Seq<char>>) -> Seq<Json> {
    Seq::new(words.len(), |i: int| Json::String(words[i]))
}

/// A list of words as a document.
fn words_json(words: &Vec<String>) -> (doc: JsonValue)
    ensures
        doc@ == Json::Array(word_docs(views(words@))),
{
    let mut items: Vec<JsonValue> = Vec::new();
    let mut i: usize = 0;
    while i < words.len()
        invariant
            i <= words.len(),
            items@.len() == i,
            forall|j: int| 0 <= j < i ==> items@[j]@ == Json::String(words@[j]@),
        decreases words.len() - i,
    {
        items.push(JsonValue::string(words[i].as_str()));
        i = i + 1;
    }
    assert(views(items@) =~= word_docs(views(words@)));
    JsonValue::array(items)
}

impl<Dir> Run<Dir> {
    /// The fields that every record of a run starts with: its identifier
    /// in text form, its name, its command line, and the time of its
    /// creation in RFC 3339 form.
    pub open spec fn identity_fields(&self) -> Seq<(Seq<char>, Json)> {
        seq![
            ("id"@, Json::String(id_text(self.id))),
            ("name"@, Json::String(self.name@)),
            ("command"@, Json::Array(word_docs(views(self.command@)))),
            ("timestamp"@, Json::String(rfc3339_text(millis_of(self.id)))),
        ]
    }

    /// The fields that every record of a run starts with.
    fn identity(&self) -> (fields: Vec<(String, JsonValue)>)
        ensures
            crate::json::field_views(fields@) == self.identity_fields(),
    {
        let ms = self.timestamp();
        let mut fields: Vec<(String, JsonValue)> = Vec::new();
        fields.push((String::from_str("id"), JsonValue::String(ulid_to_string(self.id))));
        fields.push((String::from_str("name"), JsonValue::string(self.name.as_str())));
        fields.push((String::from_str("command"), words_json(&self.command)));
        fields.push((String::from_str("timestamp"), JsonValue::String(format_rfc3339(ms))));
        proof {
            crate::json::lemma_field_views(fields@);
            assert(crate::json::field_views(fields@) =~= self.identity_fields());
        }
        fields
    }
}

impl Captured for Run<()> {
    /// The record of a run that is not bound yet.
    open spec fn json(&self) -> Json {
        Json::Object(self.identity_fields())
    }

    fn to_json(&self) -> (doc: JsonValue) {
        JsonValue::object(self.identity())
    }
}

impl Captured for Run<String> {
    /// The record of a bound run: as before it was bound, and its directory.
    open spec fn json(&self) -> Json {
        Json::Object(self.identity_fields().push(("run_dir"@, Json::String(self.run_dir@))))
    }

    fn to_json(&self) -> (doc: JsonValue) {
        let mut fields = self.identity();
        let ghost before = crate::json::field_views(fields@);
        proof {
            crate::json::lemma_field_views(fields@);
        }
        fields.push((String::from_str("run_dir"), JsonValue::string(self.run_dir.as_str())));
        proof {
            crate::json::lemma_field_views(fields@);
            assert(crate::json::field_views(fields@) =~= before.push(
                ("run_dir"@, Json::String(self.run_dir@)),
            ));
        }
        JsonValue::object(fields)
    }
}

/// Something to do to the file system, in full.
#[derive(Debug, Clone, PartialEq, Eq)]
pub enum FsStep {
    /// Create the directory and every missing directory above it.
    CreateDirAll { path: String },
    /// Write a file with these contents.
    WriteFile { path: String, contents: String },
}

/// An `FsStep` as mathematics sees it.
pub enum FsStepView {
    CreateDirAll { path: Seq<char> },
    WriteFile { path: Seq<char>, contents: Seq<char> },
}

impl View for FsStep {
    type V = FsStepView;

    open spec fn view(&self) -> FsStepView {
        match self {
            FsStep::CreateDirAll { path } => FsStepView::CreateDirAll { path: path@ },
            FsStep::WriteFile { path, contents } => FsStepView::WriteFile {
                path: path@,
                contents: contents@,
            },
        }
    }
}

/// The contents of the file that keeps a vault out of version control.
pub open spec fn ignore_text() -> Seq<char> {
    "# Automatically generated by Capsula\n*"@
}

/// What has to be done so that a vault exists at `path`: nothing where
/// something is there already; otherwise the directory, and in it a file
/// that tells version control to ignore everything.
pub open spec fn vault_steps(path: Seq<char>, exists: bool) -> Seq<FsStepView> {
    if exists {
        Seq::empty()
    } else {
        seq![
            FsStepView::CreateDirAll { path },
            FsStepView::WriteFile { path: joined(path, ".gitignore"@), contents: ignore_text() },
        ]
    }
}

/// The directories that exist once `steps` have been carried out, given
/// those that existed before.
pub open spec fn dirs_after(steps: Seq<FsStepView>, dirs: Set<Seq<char>>) -> Set<Seq<char>>
    decreases steps.len(),
{
    if steps.len() == 0 {
        dirs
    } else {
        let rest = dirs_after(steps.drop_last(), dirs);
        match steps.last() {
            FsStepView::CreateDirAll { path } => rest.insert(path),
            FsStepView::WriteFile { .. } => rest,
        }
    }
}

/// The steps that make sure a vault exists at `path`, given whether
/// something exists there now.
pub fn setup_vault(path: &str, exists: bool) -> (steps: Vec<FsStep>)
    ensures
        views(steps@) == vault_steps(path@, exists),
{
    let mut steps: Vec<FsStep> = Vec::new();
    if !exists {
        steps.push(FsStep::CreateDirAll { path: String::from_str(path) });
        steps.push(
            FsStep::WriteFile {
                path: join(path, ".gitignore"),
                contents: String::from_str("# Automatically generated by Capsula\n*"),
            },
        );
    }
    assert(views(steps@) =~= vault_steps(path@, exists));
    steps
}

/// Setting up a vault twice does nothing the second time: once the steps
/// for `path` have been carried out, there are no more steps for it, and
/// where the vault was there from the start nothing is ever done.
pub proof fn lemma_setup_vault_idempotent(path: Seq<char>, dirs: Set<Seq<char>>)
    ensures
        ({
            let after = dirs_after(vault_steps(path, dirs.contains(path)), dirs);
            &&& after.contains(path)
            &&& vault_steps(path, after.contains(path)).len() == 0
            &&& dirs_after(vault_steps(path, after.contains(path)), after) == after
        }),
        dirs.contains(path) ==> dirs_after(vault_steps(path, true), dirs) == dirs,
{
    let steps = vault_steps(path, dirs.contains(path));
    if !dirs.contains(path) {
        reveal_with_fuel(dirs_after, 3);
        assert(steps.drop_last() =~= seq![FsStepView::CreateDirAll { path }]);
        assert(steps.drop_last().drop_last() =~= Seq::<FsStepView>::empty());
    }
}

/// What binding a run to its directory comes to: the steps to carry out, in
/// order, and the run as it is once they have succeeded.
#[derive(Debug, Clone, PartialEq, Eq)]
pub struct Preparation {
    pub steps: Vec<FsStep>,
    pub run: Run<String>,
}

impl Run<()> {
    /// Binds the run to its directory under the vault at `vault_dir`:
    /// first whatever the vault itself still needs, then the run's
    /// directory. The caller carries the steps out and stops at the first
    /// that fails.
    pub fn setup_run_dir(&self, vault_dir: &str, vault_exists: bool) -> (prep: Preparation)
        ensures
            views(prep.steps@) == vault_steps(vault_dir@, vault_exists).push(
                FsStepView::CreateDirAll { path: self.spec_run_dir(vault_dir@) },
            ),
            prep.run.id == self.id,
            prep.run.name@ == self.name@,
            views(prep.run.command@) == views(self.command@),
            prep.run.run_dir@ == self.spec_run_dir(vault_dir@),
    {
        let mut steps = setup_vault(vault_dir, vault_exists);
        let ghost before = views(steps@);
        let dir = self.run_dir(vault_dir);
        steps.push(FsStep::CreateDirAll { path: dir.clone() });
        assert(views(steps@) =~= before.push(
            FsStepView::CreateDirAll { path: self.spec_run_dir(vault_dir@) },
        ));
        Preparation {
            steps,
            run: Run {
                id: self.id,
                name: self.name.clone(),
                command: clone_words(&self.command),
                run_dir: dir,
            },
        }
    }
}

/// How to start the process of a run.
#[derive(Debug, Clone, PartialEq, Eq)]
pub struct Launch {
    /// The program to start.
    pub program: String,
    /// Its arguments.
    pub args: Vec<String>,
    /// Variables to add to its environment, by name and value.
    pub env: Vec<(String, String)>,
}

/// Names and values as mathematics sees them.
pub open spec fn pairs(env: Seq<(String, String)>) -> Seq<(Seq<char>, Seq<char>)> {
    Seq::new(env.len(), |i: int| (env[i].0@, env[i].1@))
}

impl Run<String> {
    /// The variables by which the process learns of its own run: always its
    /// identifier, name, directory and time of creation; and the command
    /// line as shell text, unless one of its words cannot be quoted.
    pub open spec fn spec_env(&self) -> Seq<(Seq<char>, Seq<char>)> {
        let fixed = seq![
            ("CAPSULA_RUN_ID"@, id_text(self.id)),
            ("CAPSULA_RUN_NAME"@, self.name@),
            ("CAPSULA_RUN_DIRECTORY"@, self.run_dir@),
            ("CAPSULA_RUN_TIMESTAMP"@, rfc3339_text(millis_of(self.id))),
        ];
        if forall|i: int| 0 <= i < self.command.len() ==> quotable(#[trigger] self.command[i]@) {
            fixed.push(("CAPSULA_RUN_COMMAND"@, shell_joined(views(self.command@))))
        } else {
            fixed
        }
    }

    /// How to start the run's process. A run without a command is refused
    /// before anything is started; otherwise the first word is the program,
    /// the rest are its arguments, and the environment gains the variables
    /// of `spec_env`.
    pub fn exec(&self) -> (r: Result<Launch, CoreError>)
        ensures
            self.command.len() == 0 ==> (r matches Err(e) && e@ == invalid_input(
                "empty command"@,
            )),
            self.command.len() > 0 ==> (r matches Ok(launch) && {
                &&& launch.program@ == self.command[0]@
                &&& views(launch.args@) == views(self.command@).skip(1)
                &&& pairs(launch.env@) == self.spec_env()
            }),
    {
        if self.command.len() == 0 {
            return Err(CoreError::io(IoKind::InvalidInput, "empty command"));
        }
        let program = self.command[0].clone();
        let mut args: Vec<String> = Vec::new();
        let mut i: usize = 1;
        while i < self.command.len()
            invariant
                1 <= i <= self.command.len(),
                args.len() == i - 1,
                forall|j: int| 0 <= j < i - 1 ==> args[j]@ == self.command[j + 1]@,
            decreases self.command.len() - i,
        {
            args.push(self.command[i].clone());
            i = i + 1;
        }
        assert(views(args@) =~= views(self.command@).skip(1));

        let ms = self.timestamp();
        let mut env: Vec<(String, String)> = Vec::new();
        env.push((String::from_str("CAPSULA_RUN_ID"), ulid_to_string(self.id)));
        env.push((String::from_str("CAPSULA_RUN_NAME"), self.name.clone()));
        env.push((String::from_str("CAPSULA_RUN_DIRECTORY"), self.run_dir.clone()));
        env.push((String::from_str("CAPSULA_RUN_TIMESTAMP"), format_rfc3339(ms)));
        assert(self.command.deep_view() =~= views(self.command@));
        match shell_join(&self.command) {
            Some(line) => {
                env.push((String::from_str("CAPSULA_RUN_COMMAND"), line));
            },
            None => {},
        }
        assert(pairs(env@) =~= self.spec_env());
        Ok(Launch { program, args, env })
    }
}

/// What the host does with a chunk it has read from one of the process's
/// streams.
#[derive(Debug, Clone, Copy, PartialEq, Eq, Structural)]
pub enum TeeStep {
    /// Write the chunk to the console stream now, then read on.
    Relay,
    /// The stream has ended: flush the console stream and stop.
    Finish,
}

/// Everything read so far from one stream of the process.
#[derive(Debug, Clone, PartialEq, Eq)]
pub struct StreamCapture {
    pub bytes: Vec<u8>,
}

impl StreamCapture {
    /// A capture that holds nothing yet.
    pub fn new() -> (capture: StreamCapture)
        ensures
            capture.bytes@ == Seq::<u8>::empty(),
    {
        StreamCapture { bytes: Vec::new() }
    }

    /// Takes in the first `n` bytes of `buffer`, as one read has filled it.
    /// They go to the end of what is held, in the order read. A read of
    /// nothing ends the stream.
    pub fn absorb(&mut self, buffer: &[u8], n: usize) -> (step: TeeStep)
        requires
            n <= buffer@.len(),
        ensures
            final(self).bytes@ == old(self).bytes@ + buffer@.subrange(0, n as int),
            step == (if n == 0 {
                TeeStep::Finish
            } else {
                TeeStep::Relay
            }),
    {
        let mut i: usize = 0;
        while i < n
            invariant
                i <= n <= buffer@.len(),
                self.bytes@ == old(self).bytes@ + buffer@.subrange(0, i as int),
            decreases n - i,
        {
            self.bytes.push(buffer[i]);
            assert(buffer@.subrange(0, i + 1) =~= buffer@.subrange(0, i as int).push(buffer@[i as int]));
            i = i + 1;
        }
        if n == 0 {
            TeeStep::Finish
        } else {
            TeeStep::Relay
        }
    }
}

/// What a capture holds after it has taken in `chunks` one after another.
pub open spec fn absorbed(held: Seq<u8>, chunks: Seq<Seq<u8>>) -> Seq<u8>
    decreases chunks.len(),
{
    if chunks.len() == 0 {
        held
    } else {
        absorbed(held, chunks.drop_last()) + chunks.last()
    }
}

/// A capture holds exactly the bytes it was given, in the order given:
/// taking in one more chunk appends it, and what was held before is never
/// touched.
pub proof fn lemma_capture_is_verbatim(held: Seq<u8>, chunks: Seq<Seq<u8>>)
    ensures
        absorbed(held, chunks) == held + chunks.flatten(),
        absorbed(held, chunks).len() >= held.len(),
        absorbed(held, chunks).subrange(0, held.len() as int) == held,
    decreases chunks.len(),
{
    if chunks.len() == 0 {
        assert(chunks.flatten() =~= Seq::<u8>::empty());
        assert(held + chunks.flatten() =~= held);
    } else {
        let front = chunks.drop_last();
        lemma_capture_is_verbatim(held, front);
        assert(chunks =~= front.push(chunks.last()));
        front.lemma_flatten_push(chunks.last());
        assert(absorbed(held, chunks) =~= held + chunks.flatten());
    }
    assert(absorbed(held, chunks).subrange(0, held.len() as int) =~= held);
}

/// The exit code recorded for a process: its own where it exited, 128 plus
/// the signal's number where a signal ended it, and 1 where neither is known.
pub open spec fn exit_code_of(code: Option<i32>, signal: Option<i32>) -> int {
    match (code, signal) {
        (Some(c), _) => c as int,
        (None, Some(s)) => 128 + s,
        (None, None) => 1,
    }
}

/// The exit code recorded for a process that ended with `code`, or was
/// ended by `signal`.
pub fn exit_code_from_status(code: Option<i32>, signal: Option<i32>) -> (exit: i32)
    requires
        exit_code_of(code, signal) <= i32::MAX,
    ensures
        exit == exit_code_of(code, signal),
{
    match code {
        Some(c) => c,
        None => match signal {
            Some(s) => 128 + s,
            None => 1,
        },
    }
}

/// What is recorded of a run once its process has ended.
#[derive(Debug, Clone, PartialEq, Eq)]
pub struct RunOutput {
    pub exit_code: i32,
    pub stdout: String,
    pub stderr: String,
    /// Whole seconds of wall-clock time from start to end.
    pub duration_secs: u64,
    /// The rest of that time in nanoseconds, below one second.
    pub duration_nanos: u32,
}

impl Captured for RunOutput {
    /// The record of what a process left: its exit code, its two streams as
    /// text, and its duration in whole seconds and nanoseconds.
    open spec fn json(&self) -> Json {
        Json::Object(
            seq![
                ("exit_code"@, Json::integer(self.exit_code as int)),
                ("stdout"@, Json::String(self.stdout@)),
                ("stderr"@, Json::String(self.stderr@)),
                (
                    "duration"@,
                    Json::Object(
                        seq![
                            ("secs"@, Json::UInt(self.duration_secs)),
                            ("nanos"@, Json::UInt(self.duration_nanos as u64)),
                        ],
                    ),
                ),
            ],
        )
    }

    fn to_json(&self) -> (doc: JsonValue) {
        let mut duration: Vec<(String, JsonValue)> = Vec::new();
        duration.push((String::from_str("secs"), JsonValue::UInt(self.duration_secs)));
        duration.push((String::from_str("nanos"), JsonValue::UInt(self.duration_nanos as u64)));
        proof {
            crate::json::lemma_field_views(duration@);
            assert(crate::json::field_views(duration@) =~= seq![
                ("secs"@, Json::UInt(self.duration_secs)),
                ("nanos"@, Json::UInt(self.duration_nanos as u64)),
            ]);
        }
        let mut fields: Vec<(String, JsonValue)> = Vec::new();
        fields.push((String::from_str("exit_code"), JsonValue::integer(self.exit_code as i64)));
        fields.push((String::from_str("stdout"), JsonValue::string(self.stdout.as_str())));
        fields.push((String::from_str("stderr"), JsonValue::string(self.stderr.as_str())));
        fields.push((String::from_str("duration"), JsonValue::object(duration)));
        proof {
            crate::json::lemma_field_views(fields@);
            assert(crate::json::field_views(fields@) =~= self.json()->Object_0);
        }
        JsonValue::object(fields)
    }
}

impl RunOutput {
    /// The record of a process that has ended: its exit code, what its two
    /// streams held, read as text, and how long it ran.
    pub fn collect(
        code: Option<i32>,
        signal: Option<i32>,
        stdout: &StreamCapture,
        stderr: &StreamCapture,
        duration_secs: u64,
        duration_nanos: u32,
    ) -> (out: RunOutput)
        requires
            exit_code_of(code, signal) <= i32::MAX,
        ensures
            out.exit_code == exit_code_of(code, signal),
            out.stdout@ == utf8_lossy(stdout.bytes@),
            out.stderr@ == utf8_lossy(stderr.bytes@),
            vstd::utf8::valid_utf8(stdout.bytes@) ==> out.stdout@ == vstd::utf8::decode_utf8(
                stdout.bytes@,
            ),
            vstd::utf8::valid_utf8(stderr.bytes@) ==> out.stderr@ == vstd::utf8::decode_utf8(
                stderr.bytes@,
            ),
            out.duration_secs == duration_secs,
            out.duration_nanos == duration_nanos,
    {
        RunOutput {
            exit_code: exit_code_from_status(code, signal),
            stdout: from_utf8_lossy(stdout.bytes.as_slice()),
            stderr: from_utf8_lossy(stderr.bytes.as_slice()),
            duration_secs,
            duration_nanos,
        }
    }
}

} // verus!
