//! The download queue: the tasks waiting to be downloaded, the results of
//! those processed, and the steps by which one task is processed.
use vstd::prelude::*;

verus! {

/// Where a download task stands.
#[derive(Debug, Clone, Copy, PartialEq, Eq, Structural)]
pub enum DownloadTaskState {
    Pending,
    Paused,
    Cancelled,
    Started,
    Finished,
    Error,
}

impl DownloadTaskState {
    /// The name the database stores for the state.
    pub open spec fn name(self) -> Seq<char> {
        match self {
            DownloadTaskState::Pending => "PENDING"@,
            DownloadTaskState::Paused => "PAUSED"@,
            DownloadTaskState::Cancelled => "CANCELLED"@,
            DownloadTaskState::Started => "STARTED"@,
            DownloadTaskState::Finished => "FINISHED"@,
            DownloadTaskState::Error => "ERROR"@,
        }
    }

    /// The name the database stores for the state.
    pub fn as_str(&self) -> (r: &'static str)
        ensures
            r@ == self.name(),
    {
        match self {
            DownloadTaskState::Pending => "PENDING",
            DownloadTaskState::Paused => "PAUSED",
            DownloadTaskState::Cancelled => "CANCELLED",
            DownloadTaskState::Started => "STARTED",
            DownloadTaskState::Finished => "FINISHED",
            DownloadTaskState::Error => "ERROR",
        }
    }
}

/// The service a track is downloaded from.
#[derive(Debug, Clone, Copy, PartialEq, Eq, Structural)]
pub enum DownloadApiSource {
    Tidal,
    Qobuz,
}

/// The quality a track is downloaded in.
#[derive(Debug, Clone, Copy, PartialEq, Eq, Structural)]
pub enum TrackAudioQuality {
    Low,
    FlacLossless,
    FlacHiRes,
    FlacHighestRes,
}

/// What a task downloads.
#[derive(Debug, Clone, Copy, PartialEq, Eq, Structural)]
pub enum DownloadItem {
    Track { track_id: u64, quality: TrackAudioQuality, source: DownloadApiSource },
    AlbumCover(u64),
    ArtistCover(u64),
}

/// A download task: what to download, where to, and where it stands.
#[derive(Debug, PartialEq)]
pub struct DownloadTask {
    pub id: u64,
    pub state: DownloadTaskState,
    pub item: DownloadItem,
    pub file_path: String,
    pub created: String,
    pub updated: String,
    pub total_bytes: Option<u64>,
}

impl Clone for DownloadTask {
    fn clone(&self) -> (r: Self)
        ensures
            r == *self,
    {
        DownloadTask {
            id: self.id,
            state: self.state,
            item: self.item,
            file_path: self.file_path.clone(),
            created: self.created.clone(),
            updated: self.updated.clone(),
            total_bytes: self.total_bytes,
        }
    }
}

/// Whether two tasks download the same item to the same file.
pub open spec fn same_download(a: DownloadTask, b: DownloadTask) -> bool {
    a.file_path@ == b.file_path@ && a.item == b.item
}

/// Whether two tasks download the same item to the same file.
pub fn is_same_download(a: &DownloadTask, b: &DownloadTask) -> (r: bool)
    ensures
        r == same_download(*a, *b),
{
    a.file_path == b.file_path && a.item == b.item
}

/// What processing a task answers when it succeeds.
#[derive(Debug, Clone, Copy, PartialEq, Eq, Structural)]
pub struct ProcessDownloadTaskResponse {
    pub task_id: u64,
}

/// Why a task's state could not be stored.
#[derive(Debug, Clone, PartialEq)]
pub enum UpdateTaskError {
    /// The database failed.
    Database(String),
    /// The queue has no database.
    NoDatabase,
    /// The database has no row for the task.
    NoRow,
}

/// Why a task, or the queue, could not be processed.
#[derive(Debug, Clone, PartialEq)]
pub enum ProcessDownloadQueueError {
    Db(String),
    Database(String),
    UpdateTask(UpdateTaskError),
    Join(String),
    DownloadTrack(String),
    DownloadAlbum(String),
    NoDatabase,
    NoDownloader,
}

/// The result of processing one task.
pub type ProcessResult = Result<ProcessDownloadTaskResponse, ProcessDownloadQueueError>;

/// The tasks waiting, first in first out, and the results of the tasks processed.
#[derive(Debug)]
pub struct DownloadQueueState {
    tasks: Vec<DownloadTask>,
    results: Vec<ProcessResult>,
}

impl DownloadQueueState {
    /// The tasks waiting, in the order in which they will be processed.
    pub closed spec fn pending(&self) -> Seq<DownloadTask> {
        self.tasks@
    }

    /// The results of the tasks processed, in the order in which they were processed.
    pub closed spec fn processed(&self) -> Seq<ProcessResult> {
        self.results@
    }

    /// A queue with no tasks and no results.
    pub fn new() -> (r: Self)
        ensures
            r.pending().len() == 0,
            r.processed().len() == 0,
    {
        DownloadQueueState { tasks: Vec::new(), results: Vec::new() }
    }

    /// Adds a task at the end of the queue.
    pub fn add_task_to_queue(&mut self, task: DownloadTask)
        ensures
            final(self).pending() == old(self).pending().push(task),
            final(self).processed() == old(self).processed(),
    {
        self.tasks.push(task);
    }

    /// Adds tasks, in order, at the end of the queue.
    pub fn add_tasks_to_queue(&mut self, tasks: Vec<DownloadTask>)
        ensures
            final(self).pending() == old(self).pending() + tasks@,
            final(self).processed() == old(self).processed(),
    {
        let mut tasks = tasks;
        self.tasks.append(&mut tasks);
    }

    /// Removes from the queue every task that downloads the same item to the
    /// same file as `task`; the others keep their order.
    pub fn finish_task(&mut self, task: &DownloadTask)
        ensures
            final(self).pending() == without_download(old(self).pending(), *task),
            final(self).processed() == old(self).processed(),
    {
        let ghost pred = |x: DownloadTask| !same_download(*task, x);
        let ghost old_tasks = self.tasks@;
        let mut kept: Vec<DownloadTask> = Vec::new();
        let mut i: usize = 0;
        assert(old_tasks.take(0).filter(pred) =~= Seq::<DownloadTask>::empty()) by {
            reveal(Seq::filter);
        }
        while i < self.tasks.len()
            invariant
                i <= self.tasks@.len(),
                self.tasks@ == old_tasks,
                kept@ == old_tasks.take(i as int).filter(pred),
                pred == (|x: DownloadTask| !same_download(*task, x)),
            decreases self.tasks@.len() - i,
        {
            assert(old_tasks.take(i + 1).drop_last() == old_tasks.take(i as int));
            assert(old_tasks.take(i + 1).last() == old_tasks[i as int]);
            if !is_same_download(task, &self.tasks[i]) {
                kept.push(self.tasks[i].clone());
            }
            proof {
                reveal(Seq::filter);
            }
            i = i + 1;
        }
        assert(old_tasks.take(old_tasks.len() as int) == old_tasks);
        assert(kept@ == without_download(old_tasks, *task));
        self.tasks = kept;
    }

    /// The task to process next: the first in the queue.
    pub fn next_task(&self) -> (r: Option<DownloadTask>)
        ensures
            self.pending().len() == 0 ==> r is None,
            self.pending().len() > 0 ==> r == Some(self.pending()[0]),
    {
        if self.tasks.len() == 0 {
            None
        } else {
            Some(self.tasks[0].clone())
        }
    }

    /// Records the result of processing `task`, and removes from the queue
    /// every task that downloads the same item to the same file.
    pub fn record(&mut self, task: &DownloadTask, result: ProcessResult)
        ensures
            final(self).processed() == old(self).processed().push(result),
            final(self).pending() == without_download(old(self).pending(), *task),
    {
        self.results.push(result);
        self.finish_task(task);
    }

    /// The tasks waiting.
    pub fn tasks(&self) -> (r: &Vec<DownloadTask>)
        ensures
            r@ == self.pending(),
    {
        &self.tasks
    }

    /// The results of the tasks processed.
    pub fn results(&self) -> (r: &Vec<ProcessResult>)
        ensures
            r@ == self.processed(),
    {
        &self.results
    }
}

/// The tasks of `tasks`, in order, that do not download the same item to the
/// same file as `task`.
pub open spec fn without_download(tasks: Seq<DownloadTask>, task: DownloadTask) -> Seq<DownloadTask> {
    tasks.filter(|x: DownloadTask| !same_download(task, x))
}

/// After a task is recorded, no task left in the queue downloads the same item
/// to the same file, and every task that does not is left.
pub proof fn lemma_recorded_task_leaves_queue(tasks: Seq<DownloadTask>, task: DownloadTask)
    ensures
        forall|i: int| 0 <= i < without_download(tasks, task).len()
            ==> !same_download(task, #[trigger] without_download(tasks, task)[i]),
        forall|i: int| 0 <= i < tasks.len() && !same_download(task, tasks[i])
            ==> #[trigger] without_download(tasks, task).contains(tasks[i]),
        without_download(tasks, task).len() <= tasks.len(),
{
    let pred = |x: DownloadTask| !same_download(task, x);
    tasks.filter_lemma(pred);
}

/// `task` in state `state`.
pub open spec fn with_state(task: DownloadTask, state: DownloadTaskState) -> DownloadTask {
    DownloadTask { state: state, ..task }
}

/// Where the processing of a task stands: which outside step it waits for.
#[derive(Debug, Clone, PartialEq)]
pub enum TaskPhase {
    /// Waits for the task to be stored as `Started`.
    MarkingStarted,
    /// Waits for the download.
    Downloading,
    /// Waits for the task to be stored as `Finished`.
    MarkingFinished,
    /// The task failed with this error; waits for it to be stored as `Error`.
    MarkingError(ProcessDownloadQueueError),
    /// Nothing more to do.
    Over,
}

/// What an outside step reports back.
#[derive(Debug, PartialEq)]
pub enum TaskEvent {
    /// The task's new state was stored, or could not be.
    StateUpdated(Result<(), UpdateTaskError>),
    /// The download finished, or failed.
    Downloaded(Result<(), ProcessDownloadQueueError>),
}

/// What the processing of a task asks for next.
#[derive(Debug, PartialEq)]
pub enum TaskAction {
    /// Store the task's new state, and tell the progress listeners of it.
    UpdateState(DownloadTaskState),
    /// Download the task's item to its file.
    Download,
    /// Record this result in the queue's state, and remove the task from the queue.
    Record(ProcessResult),
    /// Stop processing the queue with this error; nothing is recorded.
    Abort(ProcessDownloadQueueError),
}

/// Whether a task waiting in `phase` can take `event`.
pub open spec fn expects(phase: TaskPhase, event: TaskEvent) -> bool {
    match event {
        TaskEvent::StateUpdated(_) => phase is MarkingStarted || phase is MarkingFinished || phase is MarkingError,
        TaskEvent::Downloaded(_) => phase is Downloading,
    }
}

/// The phase a task goes to, and what it asks for, when `event` comes in
/// `phase`. A failure of any step marks the task `Error` and then records the
/// failure; if the `Error` mark cannot be stored either, processing stops.
pub open spec fn next_step(
    phase: TaskPhase,
    has_database: bool,
    has_downloader: bool,
    task_id: u64,
    event: TaskEvent,
) -> (TaskPhase, TaskAction) {
    match (phase, event) {
        (TaskPhase::MarkingStarted, TaskEvent::StateUpdated(Ok(()))) => if !has_database {
            (TaskPhase::MarkingError(ProcessDownloadQueueError::NoDatabase), TaskAction::UpdateState(DownloadTaskState::Error))
        } else if !has_downloader {
            (TaskPhase::MarkingError(ProcessDownloadQueueError::NoDownloader), TaskAction::UpdateState(DownloadTaskState::Error))
        } else {
            (TaskPhase::Downloading, TaskAction::Download)
        },
        (TaskPhase::MarkingStarted, TaskEvent::StateUpdated(Err(e))) => (
            TaskPhase::MarkingError(ProcessDownloadQueueError::UpdateTask(e)),
            TaskAction::UpdateState(DownloadTaskState::Error),
        ),
        (TaskPhase::Downloading, TaskEvent::Downloaded(Ok(()))) => (
            TaskPhase::MarkingFinished,
            TaskAction::UpdateState(DownloadTaskState::Finished),
        ),
        (TaskPhase::Downloading, TaskEvent::Downloaded(Err(e))) => (
            TaskPhase::MarkingError(e),
            TaskAction::UpdateState(DownloadTaskState::Error),
        ),
        (TaskPhase::MarkingFinished, TaskEvent::StateUpdated(Ok(()))) => (
            TaskPhase::Over,
            TaskAction::Record(Ok(ProcessDownloadTaskResponse { task_id })),
        ),
        (TaskPhase::MarkingFinished, TaskEvent::StateUpdated(Err(e))) => (
            TaskPhase::MarkingError(ProcessDownloadQueueError::UpdateTask(e)),
            TaskAction::UpdateState(DownloadTaskState::Error),
        ),
        (TaskPhase::MarkingError(err), TaskEvent::StateUpdated(Ok(()))) => (TaskPhase::Over, TaskAction::Record(Err(err))),
        (TaskPhase::MarkingError(_), TaskEvent::StateUpdated(Err(e))) => (
            TaskPhase::Over,
            TaskAction::Abort(ProcessDownloadQueueError::UpdateTask(e)),
        ),
        (p, _) => (p, TaskAction::Abort(ProcessDownloadQueueError::NoDatabase)),
    }
}

/// The task as an action leaves it: an `UpdateState` sets its state first.
pub open spec fn task_after(task: DownloadTask, action: TaskAction) -> DownloadTask {
    match action {
        TaskAction::UpdateState(s) => with_state(task, s),
        _ => task,
    }
}

/// The processing of one task, one outside step at a time.
#[derive(Debug)]
pub struct TaskRun {
    task: DownloadTask,
    has_database: bool,
    has_downloader: bool,
    phase: TaskPhase,
}

impl TaskRun {
    /// The task, as the steps so far left it.
    pub closed spec fn current(&self) -> DownloadTask {
        self.task
    }

    /// Where the processing stands.
    pub closed spec fn at(&self) -> TaskPhase {
        self.phase
    }

    /// Whether the queue had a database when processing began.
    pub closed spec fn database_present(&self) -> bool {
        self.has_database
    }

    /// Whether the queue had a downloader when processing began.
    pub closed spec fn downloader_present(&self) -> bool {
        self.has_downloader
    }

    /// Begins processing `task`: it is marked `Started`.
    pub fn start(task: DownloadTask, has_database: bool, has_downloader: bool) -> (r: (Self, TaskAction))
        ensures
            r.0.current() == with_state(task, DownloadTaskState::Started),
            r.0.at() == TaskPhase::MarkingStarted,
            r.0.database_present() == has_database,
            r.0.downloader_present() == has_downloader,
            r.1 == TaskAction::UpdateState(DownloadTaskState::Started),
    {
        let mut task = task;
        task.state = DownloadTaskState::Started;
        (
            TaskRun { task, has_database, has_downloader, phase: TaskPhase::MarkingStarted },
            TaskAction::UpdateState(DownloadTaskState::Started),
        )
    }

    /// The task, as the steps so far left it.
    pub fn task(&self) -> (r: &DownloadTask)
        ensures
            *r == self.current(),
    {
        &self.task
    }

    /// Takes the outcome of the step the processing waited for, and answers
    /// what it asks for next.
    pub fn step(&mut self, event: TaskEvent) -> (action: TaskAction)
        requires
            expects(old(self).at(), event),
        ensures
            (final(self).at(), action) == next_step(
                old(self).at(),
                old(self).database_present(),
                old(self).downloader_present(),
                old(self).current().id,
                event,
            ),
            final(self).current() == task_after(old(self).current(), action),
            old(self).at() is Downloading ==> (event matches TaskEvent::Downloaded(Err(e)) ==> {
                &&& action == TaskAction::UpdateState(DownloadTaskState::Error)
                &&& final(self).current().state == DownloadTaskState::Error
                &&& final(self).at() == TaskPhase::MarkingError(e)
            }),
            final(self).database_present() == old(self).database_present(),
            final(self).downloader_present() == old(self).downloader_present(),
    {
        let mut phase = TaskPhase::Over;
        std::mem::swap(&mut phase, &mut self.phase);
        let (next, action) = match (phase, event) {
            (TaskPhase::MarkingStarted, TaskEvent::StateUpdated(Ok(()))) => if !self.has_database {
                (
                    TaskPhase::MarkingError(ProcessDownloadQueueError::NoDatabase),
                    TaskAction::UpdateState(DownloadTaskState::Error),
                )
            } else if !self.has_downloader {
                (
                    TaskPhase::MarkingError(ProcessDownloadQueueError::NoDownloader),
                    TaskAction::UpdateState(DownloadTaskState::Error),
                )
            } else {
                (TaskPhase::Downloading, TaskAction::Download)
            },
            (TaskPhase::MarkingStarted, TaskEvent::StateUpdated(Err(e))) => (
                TaskPhase::MarkingError(ProcessDownloadQueueError::UpdateTask(e)),
                TaskAction::UpdateState(DownloadTaskState::Error),
            ),
            (TaskPhase::Downloading, TaskEvent::Downloaded(Ok(()))) => (
                TaskPhase::MarkingFinished,
                TaskAction::UpdateState(DownloadTaskState::Finished),
            ),
            (TaskPhase::Downloading, TaskEvent::Downloaded(Err(e))) => (
                TaskPhase::MarkingError(e),
                TaskAction::UpdateState(DownloadTaskState::Error),
            ),
            (TaskPhase::MarkingFinished, TaskEvent::StateUpdated(Ok(()))) => (
                TaskPhase::Over,
                TaskAction::Record(Ok(ProcessDownloadTaskResponse { task_id: self.task.id })),
            ),
            (TaskPhase::MarkingFinished, TaskEvent::StateUpdated(Err(e))) => (
                TaskPhase::MarkingError(ProcessDownloadQueueError::UpdateTask(e)),
                TaskAction::UpdateState(DownloadTaskState::Error),
            ),
            (TaskPhase::MarkingError(err), TaskEvent::StateUpdated(Ok(()))) => (
                TaskPhase::Over,
                TaskAction::Record(Err(err)),
            ),
            (TaskPhase::MarkingError(_), TaskEvent::StateUpdated(Err(e))) => (
                TaskPhase::Over,
                TaskAction::Abort(ProcessDownloadQueueError::UpdateTask(e)),
            ),
            (p, _) => (p, TaskAction::Abort(ProcessDownloadQueueError::NoDatabase)),
        };
        if let TaskAction::UpdateState(s) = &action {
            self.task.state = *s;
        }
        self.phase = next;
        action
    }
}

/// A task whose every outside step succeeds is marked `Started`, downloaded,
/// marked `Finished`, and recorded as a success with its id.
pub proof fn lemma_task_succeeds(task: DownloadTask)
    ensures
        ({
            let (p1, a1) = next_step(TaskPhase::MarkingStarted, true, true, task.id, TaskEvent::StateUpdated(Ok(())));
            let (p2, a2) = next_step(p1, true, true, task.id, TaskEvent::Downloaded(Ok(())));
            let (p3, a3) = next_step(p2, true, true, task.id, TaskEvent::StateUpdated(Ok(())));
            &&& a1 == TaskAction::Download
            &&& a2 == TaskAction::UpdateState(DownloadTaskState::Finished)
            &&& p3 == TaskPhase::Over
            &&& a3 == TaskAction::Record(Ok(ProcessDownloadTaskResponse { task_id: task.id }))
        }),
{
}

/// A step that fails marks the task `Error`; once that mark is stored, the
/// failure is recorded as the task's result, and if it cannot be stored, the
/// processing of the queue stops with that error and records nothing.
pub proof fn lemma_failure_is_recorded_after_error_mark(
    phase: TaskPhase,
    has_database: bool,
    has_downloader: bool,
    task_id: u64,
    event: TaskEvent,
    store_error: UpdateTaskError,
)
    requires
        expects(phase, event),
        !(phase is MarkingError),
        next_step(phase, has_database, has_downloader, task_id, event).0 is MarkingError,
    ensures
        ({
            let (p1, a1) = next_step(phase, has_database, has_downloader, task_id, event);
            let err = p1->MarkingError_0;
            &&& a1 == TaskAction::UpdateState(DownloadTaskState::Error)
            &&& next_step(p1, has_database, has_downloader, task_id, TaskEvent::StateUpdated(Ok(())))
                == (TaskPhase::Over, TaskAction::Record(Err(err)))
            &&& next_step(p1, has_database, has_downloader, task_id, TaskEvent::StateUpdated(Err(store_error)))
                == (TaskPhase::Over, TaskAction::Abort(ProcessDownloadQueueError::UpdateTask(store_error)))
        }),
{
}

/// A download that fails, whatever its error, marks the task `Error` and
/// never `Finished`; once that mark is stored, the result recorded for the
/// task is that very error, so a failed download is never recorded as a
/// success.
pub proof fn lemma_failed_download_is_recorded_as_failure(
    task: DownloadTask,
    has_database: bool,
    has_downloader: bool,
    error: ProcessDownloadQueueError,
    stored: Result<(), UpdateTaskError>,
)
    ensures
        ({
            let (p1, a1) = next_step(TaskPhase::Downloading, has_database, has_downloader, task.id, TaskEvent::Downloaded(Err(error)));
            let (p2, a2) = next_step(p1, has_database, has_downloader, task.id, TaskEvent::StateUpdated(stored));
            &&& a1 == TaskAction::UpdateState(DownloadTaskState::Error)
            &&& task_after(task, a1).state == DownloadTaskState::Error
            &&& a1 != TaskAction::UpdateState(DownloadTaskState::Finished)
            &&& p2 == TaskPhase::Over
            &&& !(a2 matches TaskAction::Record(Ok(_)))
            &&& match stored {
                Ok(()) => a2 == TaskAction::Record(Err(error)),
                Err(e) => a2 == TaskAction::Abort(ProcessDownloadQueueError::UpdateTask(e)),
            }
        }),
{
}

/// Without a database the first step, storing `Started`, already fails in the
/// outside world; with a database but no downloader, the task fails with
/// `NoDownloader` before any download.
pub proof fn lemma_missing_downloader_fails(task_id: u64)
    ensures
        next_step(TaskPhase::MarkingStarted, true, false, task_id, TaskEvent::StateUpdated(Ok(()))) == (
            TaskPhase::MarkingError(ProcessDownloadQueueError::NoDownloader),
            TaskAction::UpdateState(DownloadTaskState::Error),
        ),
{
}

} // verus!
