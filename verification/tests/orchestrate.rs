use video_archiver::batch::{Batch, Outcome, DEFAULT_LIMIT};
use video_archiver::error::ErrorKind;
use video_archiver::naming::{dedup_pattern, final_name, temp_name};
use video_archiver::post_info::{Timestamp, VideoInfo};
use video_archiver::workflow::{Action, Stage, Workflow};

fn sample_info(id: &str) -> VideoInfo {
    VideoInfo {
        id: id.to_string(),
        created_at: Timestamp { unix_seconds: 1700000000, nanosecond: 0, offset_hours: 9 },
        date: "20231115".to_string(),
        author: "alice".to_string(),
        download_url: "https://host/v?full_hd=1".to_string(),
    }
}

#[test]
fn final_name_joins_date_id_and_author() {
    assert_eq!(final_name("20230105", "123", "alice"), "20230105_123_alice.mp4");
    assert_eq!(temp_name("20230105_123_alice.mp4"), "20230105_123_alice.mp4.temp");
    assert_eq!(final_name("", "", ""), "__.mp4");
}

#[test]
fn dedup_pattern_finds_an_earlier_download() {
    let pattern = dedup_pattern("alice", "123");
    assert_eq!(pattern, "alice/[0-9]*_123_*.mp4");
    let glob = glob::Pattern::new(&pattern).unwrap();
    assert!(glob.matches("alice/20230101_123_alice.mp4"));
    assert!(!glob.matches("alice/20230101_124_alice.mp4"));
    assert!(!glob.matches("alice/20230101_123_alice.mp4.temp"));
}

#[test]
fn finished_file_is_found_by_the_next_run() {
    let name = final_name("20231115", "123", "alice");
    let path = format!("{}/{}", "alice", name);
    let glob = glob::Pattern::new(&dedup_pattern("alice", "123")).unwrap();
    assert!(glob.matches(&path));
    assert!(!glob.matches(&format!("{}/{}", "alice", temp_name(&name))));
    let mut second = Workflow::new("https://www.tiktok.com/@alice/video/123").unwrap();
    second.on_present(glob.matches(&path));
    assert_eq!(second.outcome(), Some(Outcome::Skipped));
}

#[test]
fn present_file_short_circuits_before_any_fetch() {
    let mut workflow = Workflow::new("https://www.tiktok.com/@alice/video/123").unwrap();
    assert_eq!(workflow.dir, "alice");
    assert_eq!(workflow.id, "123");
    assert_eq!(workflow.pending(), Action::CheckPresent);
    assert_eq!(workflow.dedup_pattern(), "alice/[0-9]*_123_*.mp4");
    workflow.on_present(true);
    assert_eq!(workflow.stage, Stage::Finished(Outcome::Skipped));
    assert_eq!(workflow.pending(), Action::Stop);
    assert_eq!(workflow.outcome(), Some(Outcome::Skipped));
    workflow.on_info(Some(sample_info("123")));
    workflow.on_done();
    assert_eq!(workflow.stage, Stage::Finished(Outcome::Skipped));
    assert!(workflow.info.is_none());
}

#[test]
fn reference_without_handle_is_refused() {
    assert_eq!(
        Workflow::new("https://www.tiktok.com/video/123").unwrap_err(),
        ErrorKind::ProtocolMismatch
    );
    assert_eq!(Workflow::from_parts(None, Some("1".to_string())).unwrap_err(), ErrorKind::ProtocolMismatch);
    assert_eq!(Workflow::from_parts(Some("a".to_string()), None).unwrap_err(), ErrorKind::ProtocolMismatch);
}

#[test]
fn reference_without_digits_has_an_empty_id() {
    let workflow = Workflow::new("/@alice/video/").unwrap();
    assert_eq!(workflow.dir, "alice");
    assert_eq!(workflow.id, "");
}

#[test]
fn workflow_runs_its_steps_in_order() {
    let mut workflow = Workflow::new("/@alice/video/123").unwrap();
    assert!(workflow.final_name().is_none());
    assert!(workflow.modified_time().is_none());
    workflow.on_present(false);
    assert_eq!(workflow.pending(), Action::FetchInfo);
    workflow.on_info(Some(sample_info("123")));
    assert_eq!(workflow.pending(), Action::CreateDir);
    workflow.on_done();
    assert_eq!(workflow.pending(), Action::Download);
    assert_eq!(workflow.download_url(), Some("https://host/v?full_hd=1".to_string()));
    assert_eq!(workflow.temp_name(), Some("20231115_123_alice.mp4.temp".to_string()));
    workflow.on_done();
    assert_eq!(workflow.pending(), Action::Remux);
    assert_eq!(workflow.final_name(), Some("20231115_123_alice.mp4".to_string()));
    workflow.on_remuxed(Some(0));
    assert_eq!(workflow.pending(), Action::RemoveTemp);
    workflow.on_done();
    assert_eq!(workflow.pending(), Action::SetModified);
    assert_eq!(workflow.modified_time(), Some((1700000000, 0)));
    workflow.on_done();
    assert_eq!(workflow.outcome(), Some(Outcome::Completed));
    assert_eq!(workflow.pending(), Action::Stop);
}

#[test]
fn metadata_of_another_post_abandons_the_item() {
    let mut workflow = Workflow::new("/@alice/video/123").unwrap();
    workflow.on_present(false);
    workflow.on_info(Some(sample_info("124")));
    assert_eq!(workflow.outcome(), Some(Outcome::Failed(ErrorKind::ProtocolMismatch)));
    assert!(workflow.info.is_none());
    assert!(workflow.final_name().is_none());
}

#[test]
fn end_of_the_fetch_moves_the_workflow() {
    let mut failed = Workflow::new("/@alice/video/123").unwrap();
    failed.on_present(false);
    failed.on_fetched(Err(ErrorKind::NoVideoUrlFound));
    assert_eq!(failed.outcome(), Some(Outcome::Failed(ErrorKind::NoVideoUrlFound)));

    let mut skipped = Workflow::new("/@alice/video/123").unwrap();
    skipped.on_present(false);
    skipped.on_fetched(Ok(None));
    assert_eq!(skipped.outcome(), Some(Outcome::Skipped));

    let mut going = Workflow::new("/@alice/video/123").unwrap();
    going.on_present(false);
    going.on_fetched(Ok(Some(sample_info("123"))));
    assert_eq!(going.pending(), Action::CreateDir);
    assert_eq!(going.final_name(), Some("20231115_123_alice.mp4".to_string()));

    let mut foreign = Workflow::new("/@alice/video/123").unwrap();
    foreign.on_present(false);
    foreign.on_fetched(Ok(Some(sample_info("9"))));
    assert_eq!(foreign.outcome(), Some(Outcome::Failed(ErrorKind::ProtocolMismatch)));

    let mut early = Workflow::new("/@alice/video/123").unwrap();
    early.on_fetched(Err(ErrorKind::Io));
    assert_eq!(early.pending(), Action::CheckPresent);
}

#[test]
fn missing_info_skips_the_item() {
    let mut workflow = Workflow::new("/@alice/video/123").unwrap();
    workflow.on_present(false);
    workflow.on_info(None);
    assert_eq!(workflow.outcome(), Some(Outcome::Skipped));
}

#[test]
fn remux_failure_abandons_only_its_item() {
    let mut failing = Workflow::new("/@alice/video/1").unwrap();
    let mut other = Workflow::new("/@alice/video/2").unwrap();
    for (workflow, id) in [(&mut failing, "1"), (&mut other, "2")] {
        workflow.on_present(false);
        workflow.on_info(Some(sample_info(id)));
        workflow.on_done();
        workflow.on_done();
    }
    failing.on_remuxed(Some(1));
    other.on_remuxed(Some(0));
    assert_eq!(failing.outcome(), Some(Outcome::Failed(ErrorKind::RemuxFailure)));
    assert_eq!(other.pending(), Action::RemoveTemp);
    other.on_done();
    other.on_done();
    assert_eq!(other.outcome(), Some(Outcome::Completed));

    let mut killed = Workflow::new("/@alice/video/3").unwrap();
    killed.on_present(false);
    killed.on_info(Some(sample_info("3")));
    killed.on_done();
    killed.on_done();
    killed.on_remuxed(None);
    assert_eq!(killed.outcome(), Some(Outcome::Failed(ErrorKind::RemuxFailure)));
}

#[test]
fn step_error_abandons_the_item() {
    let mut workflow = Workflow::new("/@alice/video/1").unwrap();
    workflow.on_present(false);
    workflow.on_info(Some(sample_info("1")));
    workflow.on_error(ErrorKind::Io);
    assert_eq!(workflow.outcome(), Some(Outcome::Failed(ErrorKind::Io)));
    workflow.on_error(ErrorKind::RemuxFailure);
    assert_eq!(workflow.outcome(), Some(Outcome::Failed(ErrorKind::Io)));
}

#[test]
fn at_most_twenty_of_a_hundred_run_at_once() {
    let mut batch = Batch::new(100, DEFAULT_LIMIT);
    assert_eq!(DEFAULT_LIMIT, 20);
    let mut started: Vec<usize> = Vec::new();
    let mut most = 0;
    let mut round = 0;
    while !batch.is_done() {
        while let Some(index) = batch.try_start() {
            started.push(index);
        }
        assert!(batch.in_flight() <= 20);
        assert!(!batch.can_start());
        most = most.max(batch.in_flight());
        // End a varying number of items each round.
        let ending = 1 + round % 7;
        for _ in 0..ending {
            batch.finish(Outcome::Completed);
        }
        round += 1;
    }
    assert_eq!(most, 20);
    assert_eq!(started, (0..100).collect::<Vec<usize>>());
    assert_eq!(batch.completed, 100);
    assert_eq!(batch.in_flight(), 0);
    assert!(!batch.finish(Outcome::Completed));
    assert_eq!(batch.try_start(), None);
}

#[test]
fn failed_item_frees_its_slot() {
    let mut batch = Batch::new(3, 1);
    assert_eq!(batch.try_start(), Some(0));
    assert_eq!(batch.try_start(), None);
    assert!(batch.finish(Outcome::Failed(ErrorKind::RemuxFailure)));
    assert_eq!(batch.try_start(), Some(1));
    assert!(batch.finish(Outcome::Skipped));
    assert_eq!(batch.try_start(), Some(2));
    assert!(batch.finish(Outcome::Completed));
    assert!(batch.is_done());
    assert_eq!((batch.completed, batch.skipped, batch.failed), (1, 1, 1));
}

#[test]
fn empty_batch_is_done_and_zero_limit_starts_nothing() {
    let mut empty = Batch::new(0, 20);
    assert!(empty.is_done());
    assert_eq!(empty.try_start(), None);
    let mut stuck = Batch::new(2, 0);
    assert_eq!(stuck.try_start(), None);
    assert!(!stuck.is_done());
}

#[test]
fn error_kinds_are_classified() {
    let all = [
        ErrorKind::ProtocolMismatch,
        ErrorKind::DeobfuscationFailure,
        ErrorKind::ResolverUnavailable,
        ErrorKind::NoVideoUrlFound,
        ErrorKind::TransientInfoMissing,
        ErrorKind::RemuxFailure,
        ErrorKind::Io,
    ];
    for kind in all {
        assert_eq!(kind.is_retryable(), kind == ErrorKind::TransientInfoMissing);
        assert_eq!(kind.is_fatal_to_batch(), kind == ErrorKind::ResolverUnavailable);
    }
    assert_eq!(ErrorKind::RemuxFailure.name(), "RemuxFailure");
    assert_eq!(ErrorKind::Io.name(), "Io");
}
