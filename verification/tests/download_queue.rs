use moosicbox::download::{
    DownloadApiSource, DownloadItem, DownloadQueueState, DownloadTask, DownloadTaskState,
    ProcessDownloadQueueError, ProcessDownloadTaskResponse, ProcessResult, TaskAction, TaskEvent,
    TaskRun, TrackAudioQuality, UpdateTaskError,
};

fn track_task(id: u64, track_id: u64) -> DownloadTask {
    DownloadTask {
        id,
        state: DownloadTaskState::Pending,
        item: DownloadItem::Track {
            track_id,
            source: DownloadApiSource::Tidal,
            quality: TrackAudioQuality::FlacHighestRes,
        },
        file_path: "".into(),
        created: "".into(),
        updated: "".into(),
        total_bytes: None,
    }
}

/// Processes the queue as the download queue does, with a database and a
/// downloader whose every call succeeds; returns the states stored.
fn process_all(state: &mut DownloadQueueState) -> Result<Vec<(u64, DownloadTaskState)>, ProcessDownloadQueueError> {
    let mut stored = vec![];
    while let Some(task) = state.next_task() {
        let (mut run, mut action) = TaskRun::start(task, true, true);
        loop {
            action = match action {
                TaskAction::UpdateState(s) => {
                    stored.push((run.task().id, s));
                    run.step(TaskEvent::StateUpdated(Ok(())))
                }
                TaskAction::Download => run.step(TaskEvent::Downloaded(Ok(()))),
                TaskAction::Record(result) => {
                    let task = run.task().clone();
                    state.record(&task, result);
                    break;
                }
                TaskAction::Abort(e) => return Err(e),
            };
        }
    }
    Ok(stored)
}

fn responses(state: &DownloadQueueState) -> Vec<Option<ProcessDownloadTaskResponse>> {
    state.results().iter().map(|result| result.as_ref().ok().cloned()).collect::<Vec<_>>()
}

#[test]
fn test_can_process_single_track_download_task() {
    let mut state = DownloadQueueState::new();
    state.add_task_to_queue(track_task(1, 1));
    process_all(&mut state).unwrap();
    assert_eq!(responses(&state), vec![Some(ProcessDownloadTaskResponse { task_id: 1 })]);
}

#[test]
fn test_can_process_multiple_track_download_tasks() {
    let mut state = DownloadQueueState::new();
    state.add_tasks_to_queue(vec![track_task(1, 1), track_task(2, 2)]);
    process_all(&mut state).unwrap();
    assert_eq!(
        responses(&state),
        vec![
            Some(ProcessDownloadTaskResponse { task_id: 1 }),
            Some(ProcessDownloadTaskResponse { task_id: 2 })
        ]
    );
}

#[test]
fn test_can_process_duplicate_track_download_tasks() {
    let mut state = DownloadQueueState::new();
    state.add_tasks_to_queue(vec![track_task(1, 1), track_task(1, 1)]);
    process_all(&mut state).unwrap();
    assert_eq!(responses(&state), vec![Some(ProcessDownloadTaskResponse { task_id: 1 })]);
}

#[test]
fn test_can_process_another_track_download_task_after_processing_has_already_started() {
    let mut state = DownloadQueueState::new();
    state.add_task_to_queue(track_task(1, 1));
    // The first task is taken up before the second one is queued.
    let first = state.next_task().unwrap();
    state.add_task_to_queue(track_task(2, 2));
    assert_eq!(first.id, 1);
    process_all(&mut state).unwrap();
    assert_eq!(
        responses(&state),
        vec![
            Some(ProcessDownloadTaskResponse { task_id: 1 }),
            Some(ProcessDownloadTaskResponse { task_id: 2 })
        ]
    );
}

#[test]
fn successful_task_is_marked_started_then_finished() {
    let mut state = DownloadQueueState::new();
    state.add_task_to_queue(track_task(9, 3));
    let stored = process_all(&mut state).unwrap();
    assert_eq!(stored, vec![(9, DownloadTaskState::Started), (9, DownloadTaskState::Finished)]);
    assert!(state.tasks().is_empty());
}

#[test]
fn finish_task_removes_only_same_downloads() {
    let mut state = DownloadQueueState::new();
    let mut other_path = track_task(3, 1);
    other_path.file_path = "elsewhere".into();
    state.add_tasks_to_queue(vec![track_task(1, 1), track_task(2, 2), track_task(5, 1), other_path]);
    state.finish_task(&track_task(7, 1));
    let ids: Vec<u64> = state.tasks().iter().map(|t| t.id).collect();
    assert_eq!(ids, vec![2, 3]);
    assert!(state.results().is_empty());
}

#[test]
fn failed_download_is_marked_error_and_recorded() {
    let (mut run, action) = TaskRun::start(track_task(4, 4), true, true);
    assert_eq!(action, TaskAction::UpdateState(DownloadTaskState::Started));
    assert_eq!(run.task().state, DownloadTaskState::Started);
    assert_eq!(run.step(TaskEvent::StateUpdated(Ok(()))), TaskAction::Download);
    let failure = ProcessDownloadQueueError::DownloadTrack("timeout".into());
    assert_eq!(
        run.step(TaskEvent::Downloaded(Err(failure.clone()))),
        TaskAction::UpdateState(DownloadTaskState::Error)
    );
    assert_eq!(run.task().state, DownloadTaskState::Error);
    let recorded: ProcessResult = Err(failure);
    assert_eq!(run.step(TaskEvent::StateUpdated(Ok(()))), TaskAction::Record(recorded));
}

#[test]
fn missing_downloader_fails_the_task() {
    let (mut run, _) = TaskRun::start(track_task(4, 4), true, false);
    assert_eq!(
        run.step(TaskEvent::StateUpdated(Ok(()))),
        TaskAction::UpdateState(DownloadTaskState::Error)
    );
    assert_eq!(
        run.step(TaskEvent::StateUpdated(Ok(()))),
        TaskAction::Record(Err(ProcessDownloadQueueError::NoDownloader))
    );
}

#[test]
fn missing_database_fails_the_task() {
    let (mut run, _) = TaskRun::start(track_task(4, 4), false, true);
    assert_eq!(
        run.step(TaskEvent::StateUpdated(Ok(()))),
        TaskAction::UpdateState(DownloadTaskState::Error)
    );
    assert_eq!(
        run.step(TaskEvent::StateUpdated(Ok(()))),
        TaskAction::Record(Err(ProcessDownloadQueueError::NoDatabase))
    );
}

#[test]
fn unstorable_error_mark_aborts() {
    let (mut run, _) = TaskRun::start(track_task(4, 4), true, true);
    assert_eq!(
        run.step(TaskEvent::StateUpdated(Err(UpdateTaskError::NoRow))),
        TaskAction::UpdateState(DownloadTaskState::Error)
    );
    assert_eq!(
        run.step(TaskEvent::StateUpdated(Err(UpdateTaskError::NoDatabase))),
        TaskAction::Abort(ProcessDownloadQueueError::UpdateTask(UpdateTaskError::NoDatabase))
    );
}

#[test]
fn failed_finish_mark_is_recorded() {
    let (mut run, _) = TaskRun::start(track_task(4, 4), true, true);
    run.step(TaskEvent::StateUpdated(Ok(())));
    run.step(TaskEvent::Downloaded(Ok(())));
    assert_eq!(
        run.step(TaskEvent::StateUpdated(Err(UpdateTaskError::NoRow))),
        TaskAction::UpdateState(DownloadTaskState::Error)
    );
    assert_eq!(
        run.step(TaskEvent::StateUpdated(Ok(()))),
        TaskAction::Record(Err(ProcessDownloadQueueError::UpdateTask(UpdateTaskError::NoRow)))
    );
}

#[test]
fn state_names() {
    assert_eq!(DownloadTaskState::Pending.as_str(), "PENDING");
    assert_eq!(DownloadTaskState::Started.as_str(), "STARTED");
    assert_eq!(DownloadTaskState::Finished.as_str(), "FINISHED");
    assert_eq!(DownloadTaskState::Error.as_str(), "ERROR");
    assert_eq!(DownloadTaskState::Paused.as_str(), "PAUSED");
    assert_eq!(DownloadTaskState::Cancelled.as_str(), "CANCELLED");
}

#[test]
fn album_and_artist_cover_items_compare_by_id() {
    let mut state = DownloadQueueState::new();
    let mut a = track_task(1, 1);
    a.item = DownloadItem::AlbumCover(5);
    let mut b = track_task(2, 1);
    b.item = DownloadItem::ArtistCover(5);
    state.add_tasks_to_queue(vec![a.clone(), b]);
    state.record(&a, Ok(ProcessDownloadTaskResponse { task_id: 1 }));
    assert_eq!(state.tasks().len(), 1);
    assert_eq!(state.tasks()[0].id, 2);
    assert_eq!(state.results().len(), 1);
}
