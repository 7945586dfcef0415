//! The update run: read the script path from the configuration, start the
//! script, wait for it, and answer the client. The reads, the process and the
//! wait are done by the caller; this module decides each next step and the
//! answer, one typed stage after the other.

use vstd::prelude::*;

verus! {

/// The status code of a refused update.
#[derive(Clone, Copy, Debug, PartialEq, Eq, Structural)]
pub enum UpdateCode {
    /// The script path could not be read from the configuration.
    NotFound,
    /// The script could not be started, or waiting for it failed.
    Aborted,
}

/// A refused update: its status code and the text of the failure.
pub struct UpdateError {
    pub code: UpdateCode,
    pub message: String,
}

/// The view of an update answer: success, or the code and text of the failure.
pub type AnswerView = Result<(), (UpdateCode, Seq<char>)>;

/// The view of an answer.
pub open spec fn answer_view(answer: Result<(), UpdateError>) -> AnswerView {
    match answer {
        Ok(()) => Ok(()),
        Err(e) => Err((e.code, e.message@)),
    }
}

/// The view of a failure text.
pub open spec fn failure_view<T>(r: Result<T, String>) -> Result<T, Seq<char>> {
    match r {
        Ok(v) => Ok(v),
        Err(m) => Err(m@),
    }
}

/// The view of an outcome that yields a text or the text of a failure.
pub open spec fn text_view(r: Result<String, String>) -> Result<Seq<char>, Seq<char>> {
    match r {
        Ok(t) => Ok(t@),
        Err(m) => Err(m@),
    }
}

/// After the script path was read (or the text of why not): the script to
/// start, or the refusal `NotFound`.
pub open spec fn spec_script_read(read: Result<Seq<char>, Seq<char>>) -> Result<
    Seq<char>,
    (UpdateCode, Seq<char>),
> {
    match read {
        Ok(path) => Ok(path),
        Err(m) => Err((UpdateCode::NotFound, m)),
    }
}

/// After starting the script (or the text of why it failed): wait for it, or
/// the refusal `Aborted`.
pub open spec fn spec_started(started: Result<(), Seq<char>>) -> AnswerView {
    match started {
        Ok(()) => Ok(()),
        Err(m) => Err((UpdateCode::Aborted, m)),
    }
}

/// After the script ended with an exit code, if any (or the text of why
/// waiting failed): success whatever the exit code, or the refusal `Aborted`.
pub open spec fn spec_exited(exited: Result<Option<i32>, Seq<char>>) -> AnswerView {
    match exited {
        Ok(_) => Ok(()),
        Err(m) => Err((UpdateCode::Aborted, m)),
    }
}

/// The answer to an update request, given the outcome of reading the script
/// path, of starting the script, and of waiting for it. Each later outcome
/// counts only when the earlier steps succeeded.
pub open spec fn spec_update_answer(
    read: Result<Seq<char>, Seq<char>>,
    started: Result<(), Seq<char>>,
    exited: Result<Option<i32>, Seq<char>>,
) -> AnswerView {
    match spec_script_read(read) {
        Err(e) => Err(e),
        Ok(_) => match spec_started(started) {
            Err(e) => Err(e),
            Ok(()) => spec_exited(exited),
        },
    }
}

/// `Handle` for other parts of code to interact with `Updater` services:
/// the path of the configuration file.
pub struct Handle {
    pub config: String,
}

/// The first stage: the script path is being read from the configuration
/// file at `config`.
pub struct ReadingScript {
    pub config: String,
}

/// The second stage: `script` is being started.
pub struct StartingScript {
    pub script: String,
}

/// The last stage: the started script is being waited for.
pub struct WaitingForScript {}

impl Handle {
    /// Create a new `Updater` services `Handle`.
    pub fn new(path: &str) -> (handle: Self)
        ensures
            handle.config@ == path@,
    {
        Handle { config: String::from_str(path) }
    }

    /// Begin an update: read the script path from this handle's configuration.
    pub fn start_update(&self) -> (stage: ReadingScript)
        ensures
            stage.config@ == self.config@,
    {
        ReadingScript { config: self.config.clone() }
    }
}

impl ReadingScript {
    /// Next step once the script path was read (or the text of why not):
    /// start that script, or answer `NotFound`.
    pub fn script_read(self, read: Result<String, String>) -> (next: Result<
        StartingScript,
        UpdateError,
    >)
        ensures
            match (read, next) {
                (Ok(path), Ok(stage)) => spec_script_read(Ok(path@)) == Ok::<_, (UpdateCode, Seq<char>)>(
                    stage.script@,
                ),
                (Err(m), Err(e)) => spec_script_read(Err(m@)) == Err::<Seq<char>, _>(
                    (e.code, e.message@),
                ),
                _ => false,
            },
    {
        match read {
            Ok(path) => Ok(StartingScript { script: path }),
            Err(message) => Err(UpdateError { code: UpdateCode::NotFound, message }),
        }
    }
}

impl StartingScript {
    /// Next step once starting the script succeeded (or the text of why
    /// not): wait for it, or answer `Aborted`.
    pub fn started(self, started: Result<(), String>) -> (next: Result<
        WaitingForScript,
        UpdateError,
    >)
        ensures
            match (started, next) {
                (Ok(()), Ok(_)) => spec_started(Ok(())) is Ok,
                (Err(m), Err(e)) => spec_started(Err(m@)) == Err::<(), _>((e.code, e.message@)),
                _ => false,
            },
    {
        match started {
            Ok(()) => Ok(WaitingForScript {  }),
            Err(message) => Err(UpdateError { code: UpdateCode::Aborted, message }),
        }
    }
}

impl WaitingForScript {
    /// The answer once the script ended with `exit_code` (or the text of why
    /// waiting failed): success whatever the exit code, or `Aborted`.
    pub fn exited(self, exited: Result<Option<i32>, String>) -> (answer: Result<(), UpdateError>)
        ensures
            match (exited, answer) {
                (Ok(code), Ok(())) => spec_exited(Ok(code)) is Ok,
                (Err(m), Err(e)) => spec_exited(Err(m@)) == Err::<(), _>((e.code, e.message@)),
                _ => false,
            },
    {
        match exited {
            Ok(_) => Ok(()),
            Err(message) => Err(UpdateError { code: UpdateCode::Aborted, message }),
        }
    }
}

/// Each stage hands on exactly what its step produced: the script that is
/// started is the path as read, and a failed step is refused with that
/// step's own text, as `NotFound` for the path read and `Aborted` after.
pub proof fn lemma_stages_pass_outcomes_on(path: Seq<char>, message: Seq<char>, code: Option<i32>)
    ensures
        spec_script_read(Ok(path)) == Ok::<_, (UpdateCode, Seq<char>)>(path),
        spec_script_read(Err(message)) == Err::<Seq<char>, _>((UpdateCode::NotFound, message)),
        spec_started(Ok(())) == Ok::<(), (UpdateCode, Seq<char>)>(()),
        spec_started(Err(message)) == Err::<(), _>((UpdateCode::Aborted, message)),
        spec_exited(Ok(code)) == Ok::<(), (UpdateCode, Seq<char>)>(()),
        spec_exited(Err(message)) == Err::<(), _>((UpdateCode::Aborted, message)),
        spec_update_answer(Ok(path), Err(message), Ok(code)) == Err::<(), _>(
            (UpdateCode::Aborted, message),
        ),
        spec_update_answer(Ok(path), Ok(()), Err(message)) == Err::<(), _>(
            (UpdateCode::Aborted, message),
        ),
{
}

/// An update succeeds exactly when the script path was read, the script
/// started, and waiting for it ended without failure.
pub proof fn lemma_update_succeeds_iff_all_steps_succeed(
    read: Result<Seq<char>, Seq<char>>,
    started: Result<(), Seq<char>>,
    exited: Result<Option<i32>, Seq<char>>,
)
    ensures
        spec_update_answer(read, started, exited) is Ok <==> (read is Ok && started is Ok
            && exited is Ok),
{
}

/// The exit code of a script that ran to its end does not change the
/// answer: a script that fails still counts as a successful update.
pub proof fn lemma_exit_code_not_consulted(
    read: Result<Seq<char>, Seq<char>>,
    started: Result<(), Seq<char>>,
    first: Option<i32>,
    second: Option<i32>,
)
    ensures
        spec_update_answer(read, started, Ok(first)) == spec_update_answer(
            read,
            started,
            Ok(second),
        ),
{
}

/// A refusal is `NotFound` exactly when the script path could not be read,
/// and it carries the text of that failure; every other refusal is `Aborted`.
pub proof fn lemma_refusal_codes(
    read: Result<Seq<char>, Seq<char>>,
    started: Result<(), Seq<char>>,
    exited: Result<Option<i32>, Seq<char>>,
)
    ensures
        read matches Err(m) ==> spec_update_answer(read, started, exited) == Err::<(), _>((
            UpdateCode::NotFound,
            m,
        )),
        spec_update_answer(read, started, exited) matches Err((code, _)) ==> (code
            == UpdateCode::NotFound <==> read is Err),
{
}

} // verus!
