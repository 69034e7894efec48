//! The provider of files: which files match a pattern, what they hash to,
//! and where in the run's directory their copies lie.
use crate::captured::Captured;
use crate::context::{
    failed, host_failure, outcome_of, unexpected, unexpected_observation, Context,
    ContextFactory, Observation, ObservationView, Outcome, Probe, ProbeView, Progress,
    RuntimeParams, RuntimeParamsView,
};
use crate::error::{invalid_data, invalid_input, CoreError, CoreErrorView, CoreResult, IoKind};
use crate::json::{item_views, lemma_field_views, lemma_item_views, Json, JsonValue};
use crate::path::{file_name, file_name_of, join, joined};
use crate::text::same_text;
use crate::views;
use sha2::Digest;
use vstd::prelude::*;

verus! {

/// The type key of this provider.
pub const KEY: &'static str = "file";

/// What is done with a file that matches.
#[derive(Debug, Clone, Copy, PartialEq, Eq, Structural)]
pub enum CaptureMode {
    /// It is copied into the run's directory.
    Copy,
    /// It is moved into the run's directory.
    Move,
    /// It stays where it is.
    Keep,
}

impl Default for CaptureMode {
    fn default() -> (mode: CaptureMode)
        ensures
            mode == CaptureMode::Copy,
    {
        CaptureMode::Copy
    }
}

/// How a file that matches is hashed.
#[derive(Debug, Clone, Copy, PartialEq, Eq, Structural)]
pub enum HashAlgorithm {
    Sha256,
    /// It is not hashed.
    Unhashed,
}

impl Default for HashAlgorithm {
    fn default() -> (hash: HashAlgorithm)
        ensures
            hash == HashAlgorithm::Sha256,
    {
        HashAlgorithm::Sha256
    }
}

/// Captures the files under the project's root that match a pattern.
#[derive(Debug, Clone, PartialEq, Eq)]
pub struct FileContext {
    pub glob: String,
    pub mode: CaptureMode,
    pub hash: HashAlgorithm,
}

/// One file, as captured.
#[derive(Debug, Clone, PartialEq, Eq)]
pub struct FileCapturedPerFile {
    pub path: String,
    /// Where the file lies in the run's directory, if it went there.
    pub copied_path: Option<String>,
    /// The algorithm and the digest of the contents, if they were hashed.
    pub hash: Option<String>,
}

/// One captured file as mathematics sees it.
pub struct PerFileView {
    pub path: Seq<char>,
    pub copied_path: Option<Seq<char>>,
    pub hash: Option<Seq<char>>,
}

impl View for FileCapturedPerFile {
    type V = PerFileView;

    open spec fn view(&self) -> PerFileView {
        PerFileView {
            path: self.path@,
            copied_path: match self.copied_path {
                Some(p) => Some(p@),
                None => None,
            },
            hash: match self.hash {
                Some(h) => Some(h@),
                None => None,
            },
        }
    }
}

/// The files that matched, as captured.
#[derive(Debug, Clone, PartialEq, Eq)]
pub struct FileCaptured {
    pub files: Vec<FileCapturedPerFile>,
}

/// A text where there is one, and null where there is none.
pub open spec fn text_or_null(text: Option<Seq<char>>) -> Json {
    match text {
        Some(t) => Json::String(t),
        None => Json::Null,
    }
}

/// The document for one captured file.
pub open spec fn per_file_json(file: PerFileView) -> Json {
    Json::Object(
        seq![
            ("path"@, Json::String(file.path)),
            ("copied_path"@, text_or_null(file.copied_path)),
            ("hash"@, text_or_null(file.hash)),
        ],
    )
}

/// The document for the captured files.
pub open spec fn file_json(files: Seq<PerFileView>) -> Json {
    Json::Object(
        seq![
            ("type"@, Json::String("file"@)),
            ("files"@, Json::Array(Seq::new(files.len(), |i: int| per_file_json(files[i])))),
        ],
    )
}

/// A text as a document, or null.
fn json_text_or_null(text: &Option<String>) -> (doc: JsonValue)
    ensures
        doc@ == text_or_null(
            match text {
                Some(t) => Some(t@),
                None => None,
            },
        ),
{
    match text {
        Some(t) => JsonValue::string(t.as_str()),
        None => JsonValue::Null,
    }
}

impl FileCapturedPerFile {
    /// Writes the file down as a document.
    pub fn to_json(&self) -> (doc: JsonValue)
        ensures
            doc@ == per_file_json(self@),
    {
        let mut fields: Vec<(String, JsonValue)> = Vec::new();
        fields.push((String::from_str("path"), JsonValue::string(self.path.as_str())));
        fields.push((String::from_str("copied_path"), json_text_or_null(&self.copied_path)));
        fields.push((String::from_str("hash"), json_text_or_null(&self.hash)));
        proof {
            lemma_field_views(fields@);
            assert(crate::json::field_views(fields@) =~= seq![
                ("path"@, Json::String(self@.path)),
                ("copied_path"@, text_or_null(self@.copied_path)),
                ("hash"@, text_or_null(self@.hash)),
            ]);
        }
        JsonValue::object(fields)
    }
}

impl Captured for FileCaptured {
    open spec fn json(&self) -> Json {
        file_json(views(self.files@))
    }

    fn to_json(&self) -> (doc: JsonValue) {
        let mut items: Vec<JsonValue> = Vec::new();
        let mut i: usize = 0;
        while i < self.files.len()
            invariant
                i <= self.files.len(),
                items@.len() == i,
                forall|j: int| 0 <= j < i ==> items@[j]@ == per_file_json(self.files@[j]@),
            decreases self.files.len() - i,
        {
            items.push(self.files[i].to_json());
            i = i + 1;
        }
        let ghost files = views(self.files@);
        proof {
            assert(views(items@) =~= Seq::new(files.len(), |i: int| per_file_json(files[i])));
        }
        let mut fields: Vec<(String, JsonValue)> = Vec::new();
        fields.push((String::from_str("type"), JsonValue::string(KEY)));
        fields.push((String::from_str("files"), JsonValue::array(items)));
        proof {
            lemma_field_views(fields@);
            assert(crate::json::field_views(fields@) =~= seq![
                ("type"@, Json::String("file"@)),
                ("files"@, Json::Array(Seq::new(files.len(), |i: int| per_file_json(files[i])))),
            ]);
        }
        JsonValue::object(fields)
    }
}

/// The SHA-256 digest of a sequence of bytes, in lower-case hexadecimal
/// digits, as the `sha2` crate computes it.
pub uninterp spec fn sha256_hex(bytes: Seq<u8>) -> Seq<char>;

/// `sha2::Sha256::digest`, written out with the `{:x}` format: the SHA-256
/// digest of the bytes in lower-case hexadecimal digits. The result is only
/// named.
#[verifier::external_body]
fn sha256_hex_of(bytes: &[u8]) -> (digest: String)
    ensures
        digest@ == sha256_hex(bytes@),
{
    format!("{:x}", sha2::Sha256::digest(bytes))
}

/// The SHA-256 digest of a file's contents, in hexadecimal digits.
pub fn file_digest_sha256(contents: &[u8]) -> (digest: String)
    ensures
        digest@ == sha256_hex(contents@),
{
    sha256_hex_of(contents)
}

/// What is recorded as the hash of a file with these contents.
pub open spec fn hash_text(contents: Seq<u8>) -> Seq<char> {
    "sha256:"@ + sha256_hex(contents)
}

/// The error for a file that is to go to the run's directory when there is
/// no run.
pub open spec fn run_dir_required() -> CoreErrorView {
    invalid_input("run_dir is required for Copy or Move mode"@)
}

/// The error for a path that names no file.
pub open spec fn invalid_file_name() -> CoreErrorView {
    invalid_input("Invalid file name"@)
}

/// Where the capture of one file stands.
pub enum FileStep {
    /// The host has to be asked for this.
    Ask(ProbeView),
    /// The capture has failed.
    Failed(CoreErrorView),
    /// The file is captured, and this many observations were used for it.
    Captured { file: PerFileView, used: int },
}

/// The second half of capturing a file, its hash being known: where it is
/// to go to the run's directory, a run's directory and a file name are
/// needed, and the host is asked to copy or move it there.
pub open spec fn transfer(
    mode: CaptureMode,
    run_dir: Option<Seq<char>>,
    path: Seq<char>,
    hash: Option<Seq<char>>,
    seen: Seq<ObservationView>,
    used: int,
) -> FileStep {
    if mode == CaptureMode::Keep {
        FileStep::Captured { file: PerFileView { path, copied_path: None, hash }, used }
    } else {
        match run_dir {
            None => FileStep::Failed(run_dir_required()),
            Some(dir) => match file_name_of(path) {
                None => FileStep::Failed(invalid_file_name()),
                Some(name) => {
                    let to = joined(dir, name);
                    if seen.len() == 0 {
                        FileStep::Ask(
                            if mode == CaptureMode::Copy {
                                ProbeView::CopyFile { from: path, to }
                            } else {
                                ProbeView::MoveFile { from: path, to }
                            },
                        )
                    } else {
                        match seen[0] {
                            ObservationView::Done => FileStep::Captured {
                                file: PerFileView { path, copied_path: Some(to), hash },
                                used: used + 1,
                            },
                            ObservationView::Failed { kind, message } => FileStep::Failed(
                                host_failure(kind, message),
                            ),
                            _ => FileStep::Failed(unexpected_observation()),
                        }
                    }
                },
            },
        }
    }
}

/// Capturing one file: first its hash, for which its contents are read,
/// unless it is not to be hashed; then its transfer.
pub open spec fn capture_file_step(
    mode: CaptureMode,
    hash: HashAlgorithm,
    run_dir: Option<Seq<char>>,
    path: Seq<char>,
    seen: Seq<ObservationView>,
) -> FileStep {
    if hash == HashAlgorithm::Unhashed {
        transfer(mode, run_dir, path, None, seen, 0)
    } else if seen.len() == 0 {
        FileStep::Ask(ProbeView::ReadFile { path })
    } else {
        match seen[0] {
            ObservationView::Bytes(contents) => transfer(
                mode,
                run_dir,
                path,
                Some(hash_text(contents)),
                seen.skip(1),
                1,
            ),
            ObservationView::Failed { kind, message } => FileStep::Failed(
                host_failure(kind, message),
            ),
            _ => FileStep::Failed(unexpected_observation()),
        }
    }
}

/// Capturing the files from the `k`-th on, one after another, those before
/// it being captured as `done`. The first that asks or fails decides.
pub open spec fn capture_from(
    mode: CaptureMode,
    hash: HashAlgorithm,
    run_dir: Option<Seq<char>>,
    paths: Seq<Seq<char>>,
    k: int,
    seen: Seq<ObservationView>,
    done: Seq<PerFileView>,
) -> Outcome
    decreases paths.len() - k,
{
    if k < 0 || k >= paths.len() {
        Outcome::Captured(file_json(done))
    } else {
        match capture_file_step(mode, hash, run_dir, paths[k], seen) {
            FileStep::Ask(probe) => Outcome::Ask(probe),
            FileStep::Failed(e) => Outcome::Failed(e),
            FileStep::Captured { file, used } => capture_from(
                mode,
                hash,
                run_dir,
                paths,
                k + 1,
                seen.skip(used),
                done.push(file),
            ),
        }
    }
}

/// Where the capture of one file stands.
#[derive(Debug, PartialEq, Eq)]
pub enum FileProgress {
    Ask(Probe),
    Failed(CoreError),
    Captured { file: FileCapturedPerFile, used: usize },
}

impl View for FileProgress {
    type V = FileStep;

    open spec fn view(&self) -> FileStep {
        match self {
            FileProgress::Ask(probe) => FileStep::Ask(probe@),
            FileProgress::Failed(e) => FileStep::Failed(e@),
            FileProgress::Captured { file, used } => FileStep::Captured {
                file: file@,
                used: *used as int,
            },
        }
    }
}

impl FileContext {
    /// The second half of capturing a file: its transfer.
    fn transfer_file(
        &self,
        path: &String,
        hash: Option<String>,
        params: &RuntimeParams,
        seen: &Vec<Observation>,
        at: usize,
        used: usize,
    ) -> (step: FileProgress)
        requires
            at <= seen@.len(),
            used <= at,
        ensures
            step@ == transfer(
                self.mode,
                params@.run_dir,
                path@,
                match hash {
                    Some(h) => Some(h@),
                    None => None,
                },
                views(seen@).skip(at as int),
                used as int,
            ),
            step matches FileProgress::Captured { used: n, .. } ==> at - used + n <= seen@.len(),
    {
        let ghost rest = views(seen@).skip(at as int);
        let move_it = match self.mode {
            CaptureMode::Keep => {
                return FileProgress::Captured {
                    file: FileCapturedPerFile { path: path.clone(), copied_path: None, hash },
                    used,
                };
            },
            CaptureMode::Copy => false,
            CaptureMode::Move => true,
        };
        let dir = match &params.run_dir {
            Some(dir) => dir,
            None => {
                return FileProgress::Failed(
                    CoreError::io(
                        IoKind::InvalidInput,
                        "run_dir is required for Copy or Move mode",
                    ),
                );
            },
        };
        let name = match file_name(path.as_str()) {
            Some(name) => name,
            None => {
                return FileProgress::Failed(
                    CoreError::io(IoKind::InvalidInput, "Invalid file name"),
                );
            },
        };
        let to = join(dir.as_str(), name.as_str());
        if at >= seen.len() {
            return FileProgress::Ask(
                if move_it {
                    Probe::MoveFile { from: path.clone(), to }
                } else {
                    Probe::CopyFile { from: path.clone(), to }
                },
            );
        }
        assert(rest[0] == seen@[at as int]@);
        match &seen[at] {
            Observation::Done => FileProgress::Captured {
                file: FileCapturedPerFile { path: path.clone(), copied_path: Some(to), hash },
                used: used + 1,
            },
            Observation::Failed { kind, message } => FileProgress::Failed(
                CoreError::Io { path: None, kind: *kind, message: message.clone() },
            ),
            _ => FileProgress::Failed(
                CoreError::io(IoKind::InvalidData, "unexpected observation"),
            ),
        }
    }

    /// Captures the file at `path`, with the observations from `at` on: its
    /// hash first, then its transfer.
    pub fn capture_file(
        &self,
        path: &String,
        params: &RuntimeParams,
        seen: &Vec<Observation>,
        at: usize,
    ) -> (step: FileProgress)
        requires
            at <= seen@.len(),
        ensures
            step@ == capture_file_step(
                self.mode,
                self.hash,
                params@.run_dir,
                path@,
                views(seen@).skip(at as int),
            ),
            step matches FileProgress::Captured { used, .. } ==> at + used <= seen@.len(),
    {
        let ghost rest = views(seen@).skip(at as int);
        match self.hash {
            HashAlgorithm::Unhashed => self.transfer_file(path, None, params, seen, at, 0),
            HashAlgorithm::Sha256 => {
                if at >= seen.len() {
                    return FileProgress::Ask(Probe::ReadFile { path: path.clone() });
                }
                assert(rest[0] == seen@[at as int]@);
                match &seen[at] {
                    Observation::Bytes(contents) => {
                        let mut hash = String::from_str("sha256:");
                        hash.append(file_digest_sha256(contents.as_slice()).as_str());
                        assert(rest.skip(1) =~= views(seen@).skip(at + 1));
                        self.transfer_file(path, Some(hash), params, seen, at + 1, 1)
                    },
                    Observation::Failed { kind, message } => FileProgress::Failed(
                        CoreError::Io { path: None, kind: *kind, message: message.clone() },
                    ),
                    _ => FileProgress::Failed(
                        CoreError::io(IoKind::InvalidData, "unexpected observation"),
                    ),
                }
            },
        }
    }
}

impl Context for FileContext {
    type Output = FileCaptured;

    /// Asks for the files directly under the project's root that match the
    /// pattern, then captures them one after another, in the order found.
    open spec fn outcome(&self, params: RuntimeParamsView, seen: Seq<ObservationView>) -> Outcome {
        if seen.len() == 0 {
            Outcome::Ask(
                ProbeView::Glob { root: params.project_root, pattern: self.glob@, max_depth: 1 },
            )
        } else {
            match seen[0] {
                ObservationView::Files(paths) => capture_from(
                    self.mode,
                    self.hash,
                    params.run_dir,
                    paths,
                    0,
                    seen.skip(1),
                    Seq::empty(),
                ),
                ObservationView::Failed { kind, message } => Outcome::Failed(
                    host_failure(kind, message),
                ),
                _ => Outcome::Failed(unexpected_observation()),
            }
        }
    }

    fn run(&self, params: &RuntimeParams, seen: &Vec<Observation>) -> (progress: Progress<
        FileCaptured,
    >) {
        if seen.len() == 0 {
            return Progress::Ask(
                Probe::Glob {
                    root: params.project_root.clone(),
                    pattern: self.glob.clone(),
                    max_depth: 1,
                },
            );
        }
        assert(views(seen@)[0] == seen@[0]@);
        let paths = match &seen[0] {
            Observation::Files(paths) => paths,
            Observation::Failed { kind, message } => {
                return failed(*kind, message);
            },
            _ => {
                return unexpected();
            },
        };
        let ghost all = views(seen@);
        let ghost names = views(paths@);
        let ghost goal = self.outcome(params@, all);
        let mut files: Vec<FileCapturedPerFile> = Vec::new();
        let mut at: usize = 1;
        let mut k: usize = 0;
        assert(views(files@) =~= Seq::<PerFileView>::empty());
        while k < paths.len()
            invariant
                k <= paths.len(),
                1 <= at <= seen@.len() <= usize::MAX,
                all == views(seen@),
                names == views(paths@),
                goal == self.outcome(params@, all),
                goal == capture_from(
                    self.mode,
                    self.hash,
                    params@.run_dir,
                    names,
                    k as int,
                    all.skip(at as int),
                    views(files@),
                ),
            decreases paths.len() - k,
        {
            let ghost done = views(files@);
            match self.capture_file(&paths[k], params, seen, at) {
                FileProgress::Ask(probe) => {
                    return Progress::Ask(probe);
                },
                FileProgress::Failed(e) => {
                    return Progress::Done(Err(e));
                },
                FileProgress::Captured { file, used } => {
                    proof {
                        assert(all.skip(at as int).skip(used as int) =~= all.skip(at + used));
                    }
                    files.push(file);
                    proof {
                        assert(views(files@) =~= done.push(file@));
                    }
                    at = at + used;
                },
            }
            k = k + 1;
        }
        let captured = FileCaptured { files };
        assert(captured.json() == file_json(views(captured.files@)));
        Progress::Done(Ok(captured))
    }
}

/// The settings of a `FileContext`, as mathematics sees them.
pub struct FileSettings {
    pub glob: Seq<char>,
    pub mode: CaptureMode,
    pub hash: HashAlgorithm,
}

/// The error for a setting that names none of the choices there are.
pub open spec fn unknown_variant(key: Seq<char>) -> CoreErrorView {
    invalid_data("unknown variant for field `"@ + key + "`"@)
}

/// The capture mode that a word stands for.
pub open spec fn mode_of(word: Seq<char>) -> Option<CaptureMode> {
    if word == "copy"@ {
        Some(CaptureMode::Copy)
    } else if word == "move"@ {
        Some(CaptureMode::Move)
    } else if word == "none"@ {
        Some(CaptureMode::Keep)
    } else {
        None
    }
}

/// The hash algorithm that a word stands for.
pub open spec fn algorithm_of(word: Seq<char>) -> Option<HashAlgorithm> {
    if word == "sha256"@ {
        Some(HashAlgorithm::Sha256)
    } else if word == "none"@ {
        Some(HashAlgorithm::Unhashed)
    } else {
        None
    }
}

/// The settings that a configuration holds: a `glob`, which has to be
/// there; a `mode`, which is to copy unless it says otherwise; and a
/// `hash`, which is SHA-256 unless it says otherwise.
pub open spec fn file_settings(config: Json) -> Result<FileSettings, CoreErrorView> {
    match config.required_text("glob"@) {
        Err(e) => Err(e),
        Ok(glob) => match config.optional_text("mode"@, "copy"@) {
            Err(e) => Err(e),
            Ok(mode_word) => match mode_of(mode_word) {
                None => Err(unknown_variant("mode"@)),
                Some(mode) => match config.optional_text("hash"@, "sha256"@) {
                    Err(e) => Err(e),
                    Ok(hash_word) => match algorithm_of(hash_word) {
                        None => Err(unknown_variant("hash"@)),
                        Some(hash) => Ok(FileSettings { glob, mode, hash }),
                    },
                },
            },
        },
    }
}

/// The error for a setting that names none of the choices there are.
fn unknown_variant_error(key: &str) -> (e: CoreError)
    ensures
        e@ == unknown_variant(key@),
{
    let mut message = String::from_str("unknown variant for field `");
    message.append(key);
    message.append("`");
    CoreError::Io { path: None, kind: IoKind::InvalidData, message }
}

/// Makes `FileContext` providers.
#[derive(Debug, Clone, Copy, PartialEq, Eq, Default)]
pub struct FileContextFactory;

impl ContextFactory for FileContextFactory {
    type Provider = FileContext;

    open spec fn spec_key(&self) -> Seq<char> {
        "file"@
    }

    open spec fn accepts(&self, config: Json, project_root: Seq<char>) -> bool {
        file_settings(config) is Ok
    }

    open spec fn rejection(&self, config: Json, project_root: Seq<char>) -> CoreErrorView {
        file_settings(config)->Err_0
    }

    open spec fn makes(&self, config: Json, project_root: Seq<char>, provider: FileContext) -> bool {
        file_settings(config) matches Ok(settings) && {
            &&& provider.glob@ == settings.glob
            &&& provider.mode == settings.mode
            &&& provider.hash == settings.hash
        }
    }

    fn key(&self) -> (key: &'static str) {
        KEY
    }

    fn create_context(&self, config: &JsonValue, project_root: &str) -> (made: CoreResult<
        FileContext,
    >) {
        let glob = match config.required_text("glob") {
            Ok(glob) => glob,
            Err(e) => {
                return Err(e);
            },
        };
        let mode_word = match config.optional_text("mode", "copy") {
            Ok(word) => word,
            Err(e) => {
                return Err(e);
            },
        };
        let mode = if same_text(mode_word.as_str(), "copy") {
            CaptureMode::Copy
        } else if same_text(mode_word.as_str(), "move") {
            CaptureMode::Move
        } else if same_text(mode_word.as_str(), "none") {
            CaptureMode::Keep
        } else {
            return Err(unknown_variant_error("mode"));
        };
        let hash_word = match config.optional_text("hash", "sha256") {
            Ok(word) => word,
            Err(e) => {
                return Err(e);
            },
        };
        let hash = if same_text(hash_word.as_str(), "sha256") {
            HashAlgorithm::Sha256
        } else if same_text(hash_word.as_str(), "none") {
            HashAlgorithm::Unhashed
        } else {
            return Err(unknown_variant_error("hash"));
        };
        Ok(FileContext { glob, mode, hash })
    }
}

/// The factory of this provider.
pub fn create_factory() -> (factory: FileContextFactory)
    ensures
        factory.spec_key() == "file"@,
{
    FileContextFactory
}

} // verus!
