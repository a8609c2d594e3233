//! The life of a remote code-generation task as the client follows it:
//! submit, follow the log, poll the status, fetch the patch.
//!
//! The client never changes a task's state; it reacts to what the service
//! reports. `DevSession` holds the decisions: each event that the caller
//! brings back from the service yields the next action to perform.
use vstd::prelude::*;
use vstd::string::*;

verus! {

/// A status snapshot of a task.
#[derive(Debug)]
pub struct TaskStatus {
    pub status: String,
    pub patch: Option<String>,
}

/// What fetching a task's artifact comes to.
#[derive(Debug)]
pub enum ArtifactOutcome {
    /// The task is done: the patch, the file to save it in, and the notice to print.
    Ready { file_name: String, patch: String, message: String },
    /// Not available yet: the current status, to print.
    NotReady { message: String },
}

/// A request to create a task.
#[derive(Debug)]
pub struct TaskRequest {
    pub repo: String,
    pub token: String,
    pub description: String,
}

/// The status that marks a finished task.
pub open spec fn done_marker() -> Seq<char> {
    seq!['D', 'O', 'N', 'E']
}

pub open spec fn artifact_name(task_id: Seq<char>) -> Seq<char> {
    task_id + ".diff"@
}

pub open spec fn completion_notice(task_id: Seq<char>, file_name: Seq<char>) -> Seq<char> {
    "task "@ + task_id + " done. saved patch into "@ + file_name
}

pub open spec fn status_notice(task_id: Seq<char>, status: Seq<char>) -> Seq<char> {
    "task "@ + task_id + "'s status is "@ + status
}

pub open spec fn accepted_text(task_id: Seq<char>) -> Seq<char> {
    "TASK "@ + task_id + " is accepted...\nDisplaying the log of AI thoughts...\n"@
}

/// The artifact is ready exactly when the status is the done marker and a
/// patch is present; the patch is then handed over unchanged.
pub open spec fn artifact_outcome(task_id: Seq<char>, st: TaskStatus, r: ArtifactOutcome) -> bool {
    if st.status@ == done_marker() && st.patch is Some {
        r matches ArtifactOutcome::Ready { file_name, patch, message } && patch == st.patch->0
            && file_name@ == artifact_name(task_id) && message@ == completion_notice(
            task_id,
            artifact_name(task_id),
        )
    } else {
        r matches ArtifactOutcome::NotReady { message } && message@ == status_notice(
            task_id,
            st.status@,
        )
    }
}

/// The name of the file that a task's patch is saved in.
pub fn artifact_file_name(task_id: &str) -> (r: String)
    ensures
        r@ == artifact_name(task_id@),
{
    let mut r = String::from_str(task_id);
    r.append(".diff");
    r
}

/// The notice printed once a task has been accepted.
pub fn accepted_notice(task_id: &str) -> (r: String)
    ensures
        r@ == accepted_text(task_id@),
{
    let mut r = String::from_str("TASK ");
    r.append(task_id);
    r.append(" is accepted...\nDisplaying the log of AI thoughts...\n");
    r
}

/// What a status snapshot of a task yields: its patch, or the status to show.
pub fn fetch_artifact(task_id: &str, st: TaskStatus) -> (r: ArtifactOutcome)
    ensures
        artifact_outcome(task_id@, st, r),
        r is Ready <==> (st.status@ == done_marker() && st.patch is Some),
{
    let done = String::from_str("DONE");
    proof {
        reveal_strlit("DONE");
        assert(done@ =~= done_marker());
    }
    let is_done = st.status == done;
    match st.patch {
        Some(patch) => {
            if is_done {
                let file_name = artifact_file_name(task_id);
                let mut message = String::from_str("task ");
                message.append(task_id);
                message.append(" done. saved patch into ");
                message.append(file_name.as_str());
                return ArtifactOutcome::Ready { file_name, patch, message };
            }
        },
        None => {},
    }
    let mut message = String::from_str("task ");
    message.append(task_id);
    message.append("'s status is ");
    message.append(st.status.as_str());
    ArtifactOutcome::NotReady { message }
}

/// Fetching the artifact of a done task with a patch hands that patch over
/// verbatim; for a task still running it says the artifact is not ready, which
/// is no error.
pub proof fn lemma_fetch_artifact_outcomes(task_id: Seq<char>, st: TaskStatus, r: ArtifactOutcome)
    requires
        artifact_outcome(task_id, st, r),
    ensures
        st.status@ == done_marker() && st.patch is Some ==> (r matches ArtifactOutcome::Ready {
            patch,
            ..
        } && patch == st.patch->0),
        st.status@ == "RUNNING"@ ==> r is NotReady,
{
    reveal_strlit("RUNNING");
    if st.status@ == "RUNNING"@ {
        assert(st.status@[0] != done_marker()[0]);
    }
}

/// A task request from a description; a missing token is sent empty.
pub fn task_request(repo: String, token: Option<String>, description: String) -> (r: TaskRequest)
    ensures
        r.repo == repo,
        r.description == description,
        token matches Some(t) ==> r.token == t,
        token is None ==> r.token@ == Seq::<char>::empty(),
{
    let token = match token {
        Some(t) => t,
        None => String::new(),
    };
    TaskRequest { repo, token, description }
}

/// Which of the three entry flows a `dev` invocation runs.
#[derive(Debug)]
pub enum DevPlan {
    /// Fetch the patch of an existing task, without following its log.
    FetchArtifact(String),
    /// Follow the log of an existing task.
    Follow(String),
    /// Submit the task described in the given file, follow it, fetch its patch.
    SubmitAndFollow(String),
    /// Nothing to do but show how to use the command.
    Usage,
}

/// A patch id wins over a follow id, which wins over a description file.
pub open spec fn plan_of(
    description_file: Option<String>,
    follow: Option<String>,
    patch: Option<String>,
) -> DevPlan {
    if let Some(id) = patch {
        DevPlan::FetchArtifact(id)
    } else if let Some(id) = follow {
        DevPlan::Follow(id)
    } else if let Some(f) = description_file {
        DevPlan::SubmitAndFollow(f)
    } else {
        DevPlan::Usage
    }
}

pub fn plan_dev(description_file: Option<String>, follow: Option<String>, patch: Option<String>) -> (r: DevPlan)
    ensures
        r == plan_of(description_file, follow, patch),
{
    if let Some(id) = patch {
        DevPlan::FetchArtifact(id)
    } else if let Some(id) = follow {
        DevPlan::Follow(id)
    } else if let Some(f) = description_file {
        DevPlan::SubmitAndFollow(f)
    } else {
        DevPlan::Usage
    }
}

#[derive(Debug)]
pub enum ClientError {
    /// The description could not be read.
    SourceRead(String),
    /// The service refused the task, or could not be reached.
    Submission(String),
    /// The log stream broke off.
    Stream(String),
    /// The status could not be fetched or read.
    Status(String),
    /// An event came that the current stage does not expect.
    OutOfOrder,
}

/// Where a session stands.
#[derive(Debug)]
pub enum Stage {
    Loading,
    Submitting,
    Following { task_id: String, then_fetch: bool },
    Fetching { task_id: String },
    Closed,
}

/// What the caller is to do next.
#[derive(Debug)]
pub enum Action {
    /// Read and parse the description file.
    LoadDescription(String),
    /// Send the creation request.
    Submit(TaskRequest),
    /// Stream the task's log; `announce` asks for the acceptance notice first.
    Follow { task_id: String, announce: bool },
    /// Fetch the task's status once.
    Poll(String),
    /// Show or save what the status came to; the session is over.
    Report(ArtifactOutcome),
    /// Show how to use the command; the session is over.
    ShowUsage,
    /// The session is over.
    Done,
    /// The session failed.
    Fail(ClientError),
}

/// What the caller brings back from the service.
#[derive(Debug)]
pub enum Event {
    DescriptionLoaded(Result<TaskRequest, String>),
    /// The creation request answered with a task id, or failed.
    Submitted(Result<String, String>),
    /// The log stream closed, or broke off.
    LogClosed(Result<(), String>),
    StatusFetched(Result<TaskStatus, String>),
}

#[derive(Debug)]
pub struct DevSession {
    pub stage: Stage,
}

/// The stage that a plan starts in, and the first action.
pub open spec fn start_of(plan: DevPlan) -> (Stage, Action) {
    match plan {
        DevPlan::FetchArtifact(id) => (Stage::Fetching { task_id: id }, Action::Poll(id)),
        DevPlan::Follow(id) => (
            Stage::Following { task_id: id, then_fetch: false },
            Action::Follow { task_id: id, announce: false },
        ),
        DevPlan::SubmitAndFollow(f) => (Stage::Loading, Action::LoadDescription(f)),
        DevPlan::Usage => (Stage::Closed, Action::ShowUsage),
    }
}

/// One step of a session, but for a status that arrives while fetching,
/// which `on_event` settles through `artifact_outcome`.
pub open spec fn step_of(stage: Stage, ev: Event) -> (Stage, Action) {
    match (stage, ev) {
        (Stage::Loading, Event::DescriptionLoaded(Ok(req))) => (Stage::Submitting, Action::Submit(req)),
        (Stage::Loading, Event::DescriptionLoaded(Err(e))) => (
            Stage::Closed,
            Action::Fail(ClientError::SourceRead(e)),
        ),
        (Stage::Submitting, Event::Submitted(Ok(id))) => (
            Stage::Following { task_id: id, then_fetch: true },
            Action::Follow { task_id: id, announce: true },
        ),
        (Stage::Submitting, Event::Submitted(Err(e))) => (
            Stage::Closed,
            Action::Fail(ClientError::Submission(e)),
        ),
        (Stage::Following { task_id, then_fetch }, Event::LogClosed(Ok(()))) => if then_fetch {
            (Stage::Fetching { task_id }, Action::Poll(task_id))
        } else {
            (Stage::Closed, Action::Done)
        },
        (Stage::Following { .. }, Event::LogClosed(Err(e))) => (
            Stage::Closed,
            Action::Fail(ClientError::Stream(e)),
        ),
        (Stage::Fetching { .. }, Event::StatusFetched(Err(e))) => (
            Stage::Closed,
            Action::Fail(ClientError::Status(e)),
        ),
        _ => (Stage::Closed, Action::Fail(ClientError::OutOfOrder)),
    }
}

/// How a session moves from `stage` to `next` on `ev`, answering `r`.
pub open spec fn reacts(stage: Stage, ev: Event, next: Stage, r: Action) -> bool {
    match (stage, ev) {
        (Stage::Fetching { task_id }, Event::StatusFetched(Ok(st))) => {
            &&& next == Stage::Closed
            &&& r matches Action::Report(o) && artifact_outcome(task_id@, st, o)
        },
        _ => (next, r) == step_of(stage, ev),
    }
}

impl DevSession {
    /// Opens a session for a plan and says what to do first.
    pub fn start(plan: DevPlan) -> (r: (DevSession, Action))
        ensures
            (r.0.stage, r.1) == start_of(plan),
    {
        match plan {
            DevPlan::FetchArtifact(id) => {
                let a = Action::Poll(id.clone());
                (DevSession { stage: Stage::Fetching { task_id: id } }, a)
            },
            DevPlan::Follow(id) => {
                let a = Action::Follow { task_id: id.clone(), announce: false };
                (DevSession { stage: Stage::Following { task_id: id, then_fetch: false } }, a)
            },
            DevPlan::SubmitAndFollow(f) => (
                DevSession { stage: Stage::Loading },
                Action::LoadDescription(f),
            ),
            DevPlan::Usage => (DevSession { stage: Stage::Closed }, Action::ShowUsage),
        }
    }

    /// Takes what the service answered and says what to do next.
    pub fn on_event(&mut self, ev: Event) -> (r: Action)
        ensures
            reacts(old(self).stage, ev, final(self).stage, r),
    {
        let mut stage = Stage::Closed;
        std::mem::swap(&mut stage, &mut self.stage);
        match (stage, ev) {
            (Stage::Loading, Event::DescriptionLoaded(Ok(req))) => {
                self.stage = Stage::Submitting;
                Action::Submit(req)
            },
            (Stage::Loading, Event::DescriptionLoaded(Err(e))) => Action::Fail(
                ClientError::SourceRead(e),
            ),
            (Stage::Submitting, Event::Submitted(Ok(id))) => {
                let a = Action::Follow { task_id: id.clone(), announce: true };
                self.stage = Stage::Following { task_id: id, then_fetch: true };
                a
            },
            (Stage::Submitting, Event::Submitted(Err(e))) => Action::Fail(
                ClientError::Submission(e),
            ),
            (Stage::Following { task_id, then_fetch }, Event::LogClosed(Ok(()))) => {
                if then_fetch {
                    let a = Action::Poll(task_id.clone());
                    self.stage = Stage::Fetching { task_id };
                    a
                } else {
                    Action::Done
                }
            },
            (Stage::Following { .. }, Event::LogClosed(Err(e))) => Action::Fail(
                ClientError::Stream(e),
            ),
            (Stage::Fetching { task_id }, Event::StatusFetched(Ok(st))) => Action::Report(
                fetch_artifact(task_id.as_str(), st),
            ),
            (Stage::Fetching { .. }, Event::StatusFetched(Err(e))) => Action::Fail(
                ClientError::Status(e),
            ),
            _ => Action::Fail(ClientError::OutOfOrder),
        }
    }
}

} // verus!
