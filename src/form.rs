use crate::error::Error;
use vstd::prelude::*;
use vstd::string::{StrSliceExecFns, StringExecFns};
use vstd::utf8::{decode_utf8, valid_utf8};

verus! {

/// A form field that carried no filename, decoded as UTF-8.
#[derive(Debug, Clone, PartialEq, Eq)]
pub struct TextPart {
    pub key: String,
    pub value: String,
}

/// A form field that carried a filename; its bytes sit in a staged file.
#[derive(Debug, Clone, PartialEq, Eq)]
pub struct FilePart {
    pub name: String,
    pub path: String,
    pub filename: String,
    pub content_type: Option<String>,
}

/// The parts of one request, in the order they came on the wire.
#[derive(Debug, Clone, PartialEq, Eq)]
pub struct MultipartDatas {
    pub texts: Vec<TextPart>,
    pub files: Vec<FilePart>,
}

pub struct TextPartView {
    pub key: Seq<char>,
    pub value: Seq<char>,
}

pub struct FilePartView {
    pub name: Seq<char>,
    pub path: Seq<char>,
    pub filename: Seq<char>,
    pub content_type: Option<Seq<char>>,
}

pub open spec fn opt_view(o: Option<String>) -> Option<Seq<char>> {
    match o {
        Some(s) => Some(s@),
        None => None,
    }
}

impl View for TextPart {
    type V = TextPartView;

    open spec fn view(&self) -> TextPartView {
        TextPartView { key: self.key@, value: self.value@ }
    }
}

impl View for FilePart {
    type V = FilePartView;

    open spec fn view(&self) -> FilePartView {
        FilePartView {
            name: self.name@,
            path: self.path@,
            filename: self.filename@,
            content_type: opt_view(self.content_type),
        }
    }
}

pub open spec fn texts_view(v: Seq<TextPart>) -> Seq<TextPartView> {
    v.map_values(|t: TextPart| t@)
}

pub open spec fn files_view(v: Seq<FilePart>) -> Seq<FilePartView> {
    v.map_values(|f: FilePart| f@)
}

/// What the driver of a parse hands back: a piece of the request body, or
/// how the last file-system action went.
#[derive(Debug, Clone, PartialEq, Eq)]
pub enum Event {
    /// The headers of the next part.
    Part { name: String, filename: Option<String>, content_type: Option<String> },
    /// The next bytes of the current part; empty at its end.
    Data(Vec<u8>),
    /// Reading the current part failed.
    ReadFailed(String),
    /// The body holds no further part.
    BodyEnd,
    /// The body could not be split into parts.
    BodyFailed(String),
    /// The staged file was created.
    Created,
    /// The bytes were written to the staged file.
    Written,
    /// The staged file was removed.
    Removed,
    /// Creating, writing or removing the staged file failed.
    IoFailed(String),
}

/// What the parse asks its driver to do next.
#[derive(Debug, Clone, PartialEq, Eq)]
pub enum Action {
    /// Read the headers of the next part.
    ReadPart,
    /// Read the next bytes of the current part.
    ReadData,
    /// Create an empty staged file.
    Create { path: String },
    /// Append bytes to the staged file.
    Write { path: String, bytes: Vec<u8> },
    /// Remove the staged file.
    Remove { path: String },
    /// The parse is over.
    Done,
}

pub enum ActionView {
    ReadPart,
    ReadData,
    Create { path: Seq<char> },
    Write { path: Seq<char>, bytes: Seq<u8> },
    Remove { path: Seq<char> },
    Done,
}

impl View for Action {
    type V = ActionView;

    open spec fn view(&self) -> ActionView {
        match self {
            Action::ReadPart => ActionView::ReadPart,
            Action::ReadData => ActionView::ReadData,
            Action::Create { path } => ActionView::Create { path: path@ },
            Action::Write { path, bytes } => ActionView::Write { path: path@, bytes: bytes@ },
            Action::Remove { path } => ActionView::Remove { path: path@ },
            Action::Done => ActionView::Done,
        }
    }
}

/// Where a parse stands.
pub enum Stage {
    /// Waiting for the headers of the next part.
    Between,
    /// Collecting the bytes of a text part.
    Text { key: String, bytes: Vec<u8> },
    /// Waiting for the staged file of a file part to be created.
    Creating { part: FilePart },
    /// Waiting for the next bytes of a file part.
    Copying { part: FilePart },
    /// Waiting for bytes of a file part to be written.
    Writing { part: FilePart, bytes: Vec<u8> },
    /// Waiting for a partly written staged file to be removed.
    Cleaning { path: String, error: Error },
    /// Over, with the error that ended it if any.
    Finished { failure: Option<Error> },
}

pub enum StageView {
    Between,
    Text { key: Seq<char>, bytes: Seq<u8> },
    Creating { part: FilePartView },
    Copying { part: FilePartView },
    Writing { part: FilePartView, bytes: Seq<u8> },
    Cleaning { path: Seq<char>, error: Error },
    Finished { failure: Option<Error> },
}

impl View for Stage {
    type V = StageView;

    open spec fn view(&self) -> StageView {
        match self {
            Stage::Between => StageView::Between,
            Stage::Text { key, bytes } => StageView::Text { key: key@, bytes: bytes@ },
            Stage::Creating { part } => StageView::Creating { part: part@ },
            Stage::Copying { part } => StageView::Copying { part: part@ },
            Stage::Writing { part, bytes } => StageView::Writing { part: part@, bytes: bytes@ },
            Stage::Cleaning { path, error } => StageView::Cleaning { path: path@, error: *error },
            Stage::Finished { failure } => StageView::Finished { failure: *failure },
        }
    }
}

/// `name` joined to the directory `dir` as a Unix path: an absolute name
/// stands alone, else a separator goes between the two unless `dir` is
/// empty or already ends with one.
pub open spec fn joined(dir: Seq<char>, name: Seq<char>) -> Seq<char> {
    if name.len() > 0 && name[0] == '/' {
        name
    } else if dir.len() == 0 || dir.last() == '/' {
        dir + name
    } else {
        dir + seq!['/'] + name
    }
}

/// `name` joined to the directory `dir`.
fn join_path(dir: &str, name: &str) -> (r: String)
    ensures
        r@ == joined(dir@, name@),
{
    let n = name.unicode_len();
    if n > 0 && name.get_char(0) == '/' {
        return String::from_str(name);
    }
    let d = dir.unicode_len();
    if d == 0 || dir.get_char(d - 1) == '/' {
        String::from_str(dir).concat(name)
    } else {
        let sep = "/";
        proof {
            reveal_strlit("/");
        }
        String::from_str(dir).concat(sep).concat(name)
    }
}

impl FilePart {
    /// Where persisting the staged file into the directory `dir` copies it:
    /// the part's filename inside `dir`.
    pub fn persist_target(&self, dir: &str) -> (r: String)
        ensures
            r@ == joined(dir@, self.filename@),
    {
        join_path(dir, self.filename.as_str())
    }
}

/// A multipart parse, one event at a time. Text parts are collected in
/// memory; the bytes of a file part go, chunk by chunk, to a staged file
/// named after the part's filename inside the staging directory. The name is
/// the client's: two requests that stage the same filename at once write to
/// the same file.
pub struct FormParser {
    staging_dir: String,
    stage: Stage,
    texts: Vec<TextPart>,
    files: Vec<FilePart>,
}

pub struct FormParserView {
    pub staging_dir: Seq<char>,
    pub stage: StageView,
    pub texts: Seq<TextPartView>,
    pub files: Seq<FilePartView>,
}

impl View for FormParser {
    type V = FormParserView;

    closed spec fn view(&self) -> FormParserView {
        FormParserView {
            staging_dir: self.staging_dir@,
            stage: self.stage@,
            texts: texts_view(self.texts@),
            files: files_view(self.files@),
        }
    }
}

/// The action that a parse in stage `s` waits on.
pub open spec fn pending(s: StageView) -> ActionView {
    match s {
        StageView::Between => ActionView::ReadPart,
        StageView::Text { .. } => ActionView::ReadData,
        StageView::Creating { part } => ActionView::Create { path: part.path },
        StageView::Copying { .. } => ActionView::ReadData,
        StageView::Writing { part, bytes } => ActionView::Write { path: part.path, bytes },
        StageView::Cleaning { path, .. } => ActionView::Remove { path },
        StageView::Finished { .. } => ActionView::Done,
    }
}

/// The file part that a part header with a filename opens.
pub open spec fn staged_part(
    dir: Seq<char>,
    name: Seq<char>,
    filename: Seq<char>,
    content_type: Option<Seq<char>>,
) -> FilePartView {
    FilePartView { name, path: joined(dir, filename), filename, content_type }
}

pub open spec fn with_stage(p: FormParserView, stage: StageView) -> FormParserView {
    FormParserView { stage, ..p }
}

/// One step of a parse. An event that the current stage does not wait on
/// changes nothing; a finished parse stays as it is.
pub open spec fn step(p: FormParserView, ev: Event) -> FormParserView {
    match p.stage {
        StageView::Between => match ev {
            Event::Part { name, filename, content_type } => match filename {
                None => with_stage(p, StageView::Text { key: name@, bytes: seq![] }),
                Some(f) => with_stage(
                    p,
                    StageView::Creating {
                        part: staged_part(p.staging_dir, name@, f@, opt_view(content_type)),
                    },
                ),
            },
            Event::BodyEnd => with_stage(p, StageView::Finished { failure: None }),
            Event::BodyFailed(m) => with_stage(p, StageView::Finished { failure: Some(Error::Read(m)) }),
            _ => p,
        },
        StageView::Text { key, bytes } => match ev {
            Event::Data(d) => if d@.len() > 0 {
                with_stage(p, StageView::Text { key, bytes: bytes + d@ })
            } else if valid_utf8(bytes) {
                FormParserView {
                    stage: StageView::Between,
                    texts: p.texts.push(TextPartView { key, value: decode_utf8(bytes) }),
                    ..p
                }
            } else {
                with_stage(p, StageView::Finished { failure: Some(Error::Encoding) })
            },
            Event::ReadFailed(m) => with_stage(p, StageView::Finished { failure: Some(Error::Read(m)) }),
            _ => p,
        },
        StageView::Creating { part } => match ev {
            Event::Created => with_stage(p, StageView::Copying { part }),
            Event::IoFailed(m) => with_stage(p, StageView::Finished { failure: Some(Error::Write(m)) }),
            _ => p,
        },
        StageView::Copying { part } => match ev {
            Event::Data(d) => if d@.len() > 0 {
                with_stage(p, StageView::Writing { part, bytes: d@ })
            } else {
                FormParserView { stage: StageView::Between, files: p.files.push(part), ..p }
            },
            Event::ReadFailed(m) => with_stage(
                p,
                StageView::Cleaning { path: part.path, error: Error::Read(m) },
            ),
            _ => p,
        },
        StageView::Writing { part, .. } => match ev {
            Event::Written => with_stage(p, StageView::Copying { part }),
            Event::IoFailed(m) => with_stage(
                p,
                StageView::Cleaning { path: part.path, error: Error::Write(m) },
            ),
            _ => p,
        },
        StageView::Cleaning { error, .. } => match ev {
            Event::Removed | Event::IoFailed(_) => with_stage(
                p,
                StageView::Finished { failure: Some(error) },
            ),
            _ => p,
        },
        StageView::Finished { .. } => p,
    }
}

/// A parse run through the events in order.
pub open spec fn run(p: FormParserView, evs: Seq<Event>) -> FormParserView
    decreases evs.len(),
{
    if evs.len() == 0 {
        p
    } else {
        run(step(p, evs[0]), evs.drop_first())
    }
}

/// A finished parse ignores whatever comes after.
pub proof fn lemma_finished_stays(p: FormParserView, evs: Seq<Event>)
    requires
        p.stage is Finished,
    ensures
        run(p, evs) == p,
    decreases evs.len(),
{
    if evs.len() > 0 {
        lemma_finished_stays(step(p, evs[0]), evs.drop_first());
    }
}

/// A text part whose bytes are not valid UTF-8 fails the whole parse with an
/// encoding error when it ends, and no later part is read: whatever events
/// follow, the parse stays over with that error, asks for nothing more, and
/// keeps only the parts completed before.
pub proof fn lemma_invalid_text_fails_parse(
    p: FormParserView,
    key: Seq<char>,
    bytes: Seq<u8>,
    end: Event,
    rest: Seq<Event>,
)
    requires
        p.stage == (StageView::Text { key, bytes }),
        !valid_utf8(bytes),
        end matches Event::Data(d) && d@.len() == 0,
    ensures
        run(step(p, end), rest) == with_stage(p, StageView::Finished { failure: Some(Error::Encoding) }),
        pending(run(step(p, end), rest).stage) == ActionView::Done,
{
    lemma_finished_stays(step(p, end), rest);
}

/// When writing a staged file fails, however many bytes went to it before,
/// the parse asks for that file to be removed; once the removal was tried it
/// is over with the write error, and the part is not among the files handed
/// back.
pub proof fn lemma_failed_write_removes_staged_file(
    p: FormParserView,
    part: FilePartView,
    bytes: Seq<u8>,
    m: String,
    removal: Event,
    rest: Seq<Event>,
)
    requires
        p.stage == (StageView::Writing { part, bytes }),
        removal is Removed || removal is IoFailed,
    ensures
        pending(step(p, Event::IoFailed(m)).stage) == (ActionView::Remove { path: part.path }),
        run(step(step(p, Event::IoFailed(m)), removal), rest) == with_stage(
            p,
            StageView::Finished { failure: Some(Error::Write(m)) },
        ),
{
    lemma_finished_stays(step(step(p, Event::IoFailed(m)), removal), rest);
}

/// Likewise when reading the bytes of a file part fails midway.
pub proof fn lemma_failed_read_removes_staged_file(
    p: FormParserView,
    part: FilePartView,
    m: String,
    removal: Event,
    rest: Seq<Event>,
)
    requires
        p.stage == (StageView::Copying { part }),
        removal is Removed || removal is IoFailed,
    ensures
        pending(step(p, Event::ReadFailed(m)).stage) == (ActionView::Remove { path: part.path }),
        run(step(step(p, Event::ReadFailed(m)), removal), rest) == with_stage(
            p,
            StageView::Finished { failure: Some(Error::Read(m)) },
        ),
{
    lemma_finished_stays(step(step(p, Event::ReadFailed(m)), removal), rest);
}

/// Relies on String::from_utf8: the bytes are taken as a string exactly when
/// they are valid UTF-8, and the string holds the characters they encode.
#[verifier::external_body]
fn decode_text(bytes: Vec<u8>) -> (r: Option<String>)
    ensures
        r is Some <==> valid_utf8(bytes@),
        r matches Some(s) ==> s@ == decode_utf8(bytes@),
{
    String::from_utf8(bytes).ok()
}

impl Action {
    fn waited_on(stage: &Stage) -> (r: Action)
        ensures
            r@ == pending(stage@),
    {
        match stage {
            Stage::Between => Action::ReadPart,
            Stage::Text { .. } => Action::ReadData,
            Stage::Creating { part } => Action::Create { path: part.path.clone() },
            Stage::Copying { .. } => Action::ReadData,
            Stage::Writing { part, bytes } => Action::Write {
                path: part.path.clone(),
                bytes: bytes.clone(),
            },
            Stage::Cleaning { path, .. } => Action::Remove { path: path.clone() },
            Stage::Finished { .. } => Action::Done,
        }
    }
}

impl FormParser {
    /// A parse that has read nothing yet and stages each file part under
    /// `staging_dir`, at its filename joined to that directory.
    pub fn new(staging_dir: String) -> (r: FormParser)
        ensures
            r@.staging_dir == staging_dir@,
            r@.stage == StageView::Between,
            r@.texts == Seq::<TextPartView>::empty(),
            r@.files == Seq::<FilePartView>::empty(),
    {
        let r = FormParser { staging_dir, stage: Stage::Between, texts: Vec::new(), files: Vec::new() };
        proof {
            assert(texts_view(r.texts@) =~= Seq::<TextPartView>::empty());
            assert(files_view(r.files@) =~= Seq::<FilePartView>::empty());
        }
        r
    }

    /// What the parse waits on.
    pub fn action(&self) -> (r: Action)
        ensures
            r@ == pending(self@.stage),
    {
        Action::waited_on(&self.stage)
    }

    /// Whether the parse is over.
    pub fn is_finished(&self) -> (r: bool)
        ensures
            r == self@.stage is Finished,
    {
        match &self.stage {
            Stage::Finished { .. } => true,
            _ => false,
        }
    }

    /// Takes the outcome of the action waited on and answers with the next one.
    pub fn handle(&mut self, ev: Event) -> (r: Action)
        ensures
            final(self)@ == step(old(self)@, ev),
            r@ == pending(final(self)@.stage),
    {
        let mut stage = Stage::Between;
        std::mem::swap(&mut self.stage, &mut stage);
        let next = match stage {
            Stage::Between => match ev {
                Event::Part { name, filename, content_type } => match filename {
                    None => Stage::Text { key: name, bytes: Vec::new() },
                    Some(f) => {
                        let path = join_path(self.staging_dir.as_str(), f.as_str());
                        Stage::Creating { part: FilePart { name, path, filename: f, content_type } }
                    },
                },
                Event::BodyEnd => Stage::Finished { failure: None },
                Event::BodyFailed(m) => Stage::Finished { failure: Some(Error::Read(m)) },
                _ => Stage::Between,
            },
            Stage::Text { key, mut bytes } => match ev {
                Event::Data(d) => {
                    if d.len() > 0 {
                        let ghost old_bytes = bytes@;
                        bytes.extend_from_slice(d.as_slice());
                        assert(bytes@ =~= old_bytes + d@);
                        Stage::Text { key, bytes }
                    } else {
                        match decode_text(bytes) {
                            Some(value) => {
                                let ghost old_texts = self.texts@;
                                let t = TextPart { key, value };
                                self.texts.push(t);
                                proof {
                                    assert(texts_view(self.texts@) =~= texts_view(old_texts).push(
                                        t@,
                                    ));
                                }
                                Stage::Between
                            },
                            None => Stage::Finished { failure: Some(Error::Encoding) },
                        }
                    }
                },
                Event::ReadFailed(m) => Stage::Finished { failure: Some(Error::Read(m)) },
                _ => Stage::Text { key, bytes },
            },
            Stage::Creating { part } => match ev {
                Event::Created => Stage::Copying { part },
                Event::IoFailed(m) => Stage::Finished { failure: Some(Error::Write(m)) },
                _ => Stage::Creating { part },
            },
            Stage::Copying { part } => match ev {
                Event::Data(d) => {
                    if d.len() > 0 {
                        Stage::Writing { part, bytes: d }
                    } else {
                        let ghost old_files = self.files@;
                        let ghost pv = part@;
                        self.files.push(part);
                        proof {
                            assert(files_view(self.files@) =~= files_view(old_files).push(pv));
                        }
                        Stage::Between
                    }
                },
                Event::ReadFailed(m) => Stage::Cleaning { path: part.path, error: Error::Read(m) },
                _ => Stage::Copying { part },
            },
            Stage::Writing { part, bytes } => match ev {
                Event::Written => Stage::Copying { part },
                Event::IoFailed(m) => Stage::Cleaning { path: part.path, error: Error::Write(m) },
                _ => Stage::Writing { part, bytes },
            },
            Stage::Cleaning { path, error } => match ev {
                Event::Removed | Event::IoFailed(_) => Stage::Finished { failure: Some(error) },
                _ => Stage::Cleaning { path, error },
            },
            Stage::Finished { failure } => Stage::Finished { failure },
        };
        self.stage = next;
        Action::waited_on(&self.stage)
    }

    /// The parts read so far, with the error that ended the parse if any.
    /// On an error, the file parts already completed are handed back too: the
    /// caller disposes of their staged files.
    pub fn finish(self) -> (r: (MultipartDatas, Option<Error>))
        requires
            self@.stage is Finished,
        ensures
            texts_view(r.0.texts@) == self@.texts,
            files_view(r.0.files@) == self@.files,
            self@.stage matches StageView::Finished { failure } && r.1 == failure,
    {
        match self.stage {
            Stage::Finished { failure } => (MultipartDatas { texts: self.texts, files: self.files }, failure),
            _ => (MultipartDatas { texts: self.texts, files: self.files }, None),
        }
    }
}

} // verus!
