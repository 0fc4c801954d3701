use ostui::action::Action;
use ostui::module::host::evac_task::EvacTask;
use ostui::port::types::EvacuateParams;

fn ids(v: &[&str]) -> Vec<String> {
    v.iter().map(|s| s.to_string()).collect()
}

#[test]
fn test_evac_task_idle_to_executing() {
    let mut task = EvacTask::new(ids(&["s1", "s2"]), EvacuateParams::default(), 2);
    assert!(task.is_idle());

    task.start();
    assert!(task.is_executing());

    let actions = task.poll_next();
    assert_eq!(actions.len(), 2);
    assert_eq!(task.in_flight_count(), 2);
}

#[test]
fn test_evac_task_max_concurrent_limit() {
    let mut task = EvacTask::new(ids(&["s1", "s2", "s3"]), EvacuateParams::default(), 2);
    task.start();
    let batch1 = task.poll_next();
    assert_eq!(batch1.len(), 2);
    assert_eq!(task.poll_next().len(), 0);

    task.on_completed("s1", Ok(()));
    let batch2 = task.poll_next();
    assert_eq!(batch2.len(), 1);
}

#[test]
fn test_evac_task_completes_when_all_done() {
    let mut task = EvacTask::new(ids(&["s1"]), EvacuateParams::default(), 2);
    task.start();
    task.poll_next();
    assert!(!task.is_completed());

    task.on_completed("s1", Ok(()));
    assert!(task.is_completed());
    assert_eq!(task.succeeded_count(), 1);
    assert_eq!(task.progress(), (1, 1));
}

#[test]
fn test_evac_task_tracks_failures() {
    let mut task = EvacTask::new(ids(&["s1", "s2"]), EvacuateParams::default(), 2);
    task.start();
    task.poll_next();

    task.on_completed("s1", Ok(()));
    task.on_completed("s2", Err("server locked".into()));

    assert!(task.is_completed());
    assert_eq!(task.succeeded_count(), 1);
    assert_eq!(task.failed_results().len(), 1);
}

#[test]
fn test_evac_task_cancel() {
    let mut task = EvacTask::new(ids(&["s1", "s2", "s3"]), EvacuateParams::default(), 1);
    task.start();
    task.poll_next();
    task.request_cancel();
    assert_eq!(task.poll_next().len(), 0);
    task.on_completed("s1", Ok(()));
    assert!(task.is_completed());
    assert_eq!(task.succeeded_count(), 1);
    assert_eq!(task.failed_results().len(), 2);
}

#[test]
fn test_evac_task_empty_queue() {
    let mut task = EvacTask::new(vec![], EvacuateParams::default(), 2);
    task.start();
    let actions = task.poll_next();
    assert!(actions.is_empty());
    assert!(task.is_completed());
}

#[test]
fn test_evac_task_progress() {
    let mut task = EvacTask::new(ids(&["s1", "s2", "s3"]), EvacuateParams::default(), 1);
    assert_eq!(task.progress(), (0, 3));
    task.start();
    task.poll_next();
    assert_eq!(task.progress(), (0, 3));
    task.on_completed("s1", Ok(()));
    assert_eq!(task.progress(), (1, 3));
}

#[test]
fn test_evac_task_does_not_dispatch_when_idle() {
    let mut task = EvacTask::new(ids(&["s1"]), EvacuateParams::default(), 2);
    let actions = task.poll_next();
    assert!(actions.is_empty());
    assert!(task.is_idle());
}

#[test]
fn test_evac_task_max_concurrent_zero_clamped_to_one() {
    let mut task = EvacTask::new(ids(&["s1", "s2"]), EvacuateParams::default(), 0);
    task.start();
    let batch = task.poll_next();
    assert_eq!(batch.len(), 1);
    assert_eq!(task.in_flight_count(), 1);
}

#[test]
fn test_evac_task_phantom_completion_ignored() {
    let mut task = EvacTask::new(ids(&["s1"]), EvacuateParams::default(), 2);
    task.start();
    task.poll_next();

    task.on_completed("unknown-server", Ok(()));
    assert_eq!(task.in_flight_count(), 1);
    assert_eq!(task.succeeded_count(), 0);

    task.on_completed("s1", Ok(()));
    assert!(task.is_completed());
    assert_eq!(task.succeeded_count(), 1);
}

#[test]
fn dispatched_actions_name_the_queued_servers_in_order() {
    let mut task = EvacTask::new(ids(&["a", "b", "c"]), EvacuateParams::default(), 2);
    task.start();
    let actions = task.poll_next();
    let dispatched: Vec<String> = actions
        .iter()
        .map(|a| match a {
            Action::EvacuateServer { id, .. } => id.clone(),
            _ => panic!("unexpected action"),
        })
        .collect();
    assert_eq!(dispatched, vec!["a".to_string(), "b".to_string()]);
}

#[test]
fn progress_counts_each_server_once_over_a_run() {
    let mut task = EvacTask::new(ids(&["s1", "s2", "s3"]), EvacuateParams::default(), 2);
    task.start();
    task.poll_next();
    assert_eq!(task.progress(), (0, 3));
    task.on_completed("s1", Ok(()));
    task.on_completed("s1", Ok(()));
    task.poll_next();
    task.request_cancel();
    task.on_completed("s2", Err("x".into()));
    task.on_completed("s3", Ok(()));
    assert_eq!(task.progress(), (3, 3));
    let mut seen: Vec<&String> = task.results().iter().map(|r| &r.0).collect();
    seen.sort();
    seen.dedup();
    assert_eq!(seen.len(), 3);
}
