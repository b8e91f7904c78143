use rpl::error::Error;
use rpl::leech::{start, Action, Pipeline, SeedSettings, Stage};
use rpl::plan::{plan_chunks, ChunkPlan, PackFile};
use rpl::queue::Job;
use rpl::torrent_parser::{Pack, TorrentPack};

fn files(lengths: &[i64]) -> Vec<PackFile> {
    lengths
        .iter()
        .enumerate()
        .map(|(i, length)| PackFile { path: format!("file{}", i), length: *length })
        .collect()
}

fn plan_of(lengths: &[i64], max: i64) -> ChunkPlan {
    plan_chunks(&files(lengths), max, true).unwrap()
}

fn torrent_pack(lengths: &[i64], max: i64, force: bool) -> TorrentPack {
    let pack = Pack::new(String::from("pack"), lengths.iter().sum(), Some(files(lengths))).unwrap();
    TorrentPack::from_pack(pack, false, String::from("c0ffee"), force).max_size(max)
}

fn run_to_end(pipeline: &mut Pipeline) -> Vec<Action> {
    let mut actions = Vec::new();
    loop {
        let action = pipeline.next(Ok(()));
        let done = action == Action::Finished;
        actions.push(action);
        if done {
            return actions;
        }
    }
}

#[test]
fn chunks_are_worked_on_one_after_the_other() {
    let mut pipeline = Pipeline::new(plan_of(&[4, 1, 1], 5), 0, &SeedSettings::default());
    assert_eq!(pipeline.stage(), Stage::Idle);
    assert_eq!(
        run_to_end(&mut pipeline),
        vec![
            Action::Submit { chunk: 1 },
            Action::SetShareLimit,
            Action::Deprioritize { files: String::from("2") },
            Action::Download { index: 0 },
            Action::Upload { index: 0 },
            Action::Delete,
            Action::Submit { chunk: 2 },
            Action::SetShareLimit,
            Action::Deprioritize { files: String::from("0 | 1") },
            Action::Download { index: 1 },
            Action::Upload { index: 1 },
            Action::Delete,
            Action::Finished,
        ]
    );
    assert_eq!(pipeline.stage(), Stage::Finished);
    assert_eq!(pipeline.position(), 2);
    assert_eq!(pipeline.offset(), 3);
    assert_eq!(pipeline.next(Ok(())), Action::Finished);
}

#[test]
fn single_chunk_with_every_file_disables_nothing() {
    let mut pipeline = Pipeline::new(plan_of(&[1, 1, 1], 5), 0, &SeedSettings::default());
    assert_eq!(
        run_to_end(&mut pipeline),
        vec![
            Action::Submit { chunk: 1 },
            Action::SetShareLimit,
            Action::Download { index: 0 },
            Action::Upload { index: 0 },
            Action::Delete,
            Action::Finished,
        ]
    );
}

#[test]
fn skipped_chunks_count_as_done() {
    let lengths = [4, 1, 1, 5, 2, 2, 2];
    let mut full = Pipeline::new(plan_of(&lengths, 5), 0, &SeedSettings::default());
    let mut offsets = Vec::new();
    loop {
        match full.next(Ok(())) {
            Action::Submit { chunk } => offsets.push((chunk, full.position(), full.offset())),
            Action::Finished => break,
            _ => {}
        }
    }
    assert_eq!(offsets, vec![(1, 0, 0), (2, 1, 2), (3, 2, 3), (4, 3, 4), (5, 4, 6)]);
    for skip in 0..=5u32 {
        let mut resumed = Pipeline::new(plan_of(&lengths, 5), skip, &SeedSettings::default());
        let mut skipped = Vec::new();
        let mut submitted = Vec::new();
        loop {
            match resumed.next(Ok(())) {
                Action::Skip { chunk } => skipped.push(chunk),
                Action::Submit { chunk } => submitted.push((chunk, resumed.position(), resumed.offset())),
                Action::Finished => break,
                _ => {}
            }
        }
        assert_eq!(skipped, (1..=skip as i32).collect::<Vec<i32>>());
        assert_eq!(submitted, offsets[skip as usize..].to_vec());
    }
}

#[test]
fn skipping_more_chunks_than_there_are_skips_all() {
    let mut pipeline = Pipeline::new(plan_of(&[4, 1, 1], 5), 7, &SeedSettings::default());
    assert_eq!(
        run_to_end(&mut pipeline),
        vec![Action::Skip { chunk: 1 }, Action::Skip { chunk: 2 }, Action::Finished]
    );
    assert_eq!(pipeline.offset(), 3);
}

#[test]
fn skipped_chunk_disables_by_the_same_offset() {
    let mut pipeline = Pipeline::new(plan_of(&[4, 1, 1], 5), 1, &SeedSettings::default());
    assert_eq!(pipeline.next(Ok(())), Action::Skip { chunk: 1 });
    assert_eq!(pipeline.next(Ok(())), Action::Submit { chunk: 2 });
    assert_eq!(pipeline.offset(), 2);
    assert_eq!(pipeline.next(Ok(())), Action::SetShareLimit);
    assert_eq!(pipeline.next(Ok(())), Action::Deprioritize { files: String::from("0 | 1") });
    assert_eq!(pipeline.current_job().unwrap().chunk(), 2);
}

#[test]
fn pack_is_seeded_once_all_chunks_are_done() {
    let seed = SeedSettings::new(true, String::from("~/mount"), 20);
    let mut pipeline = Pipeline::new(plan_of(&[1], 5), 0, &seed);
    assert_eq!(
        run_to_end(&mut pipeline),
        vec![
            Action::Submit { chunk: 1 },
            Action::SetShareLimit,
            Action::Download { index: 0 },
            Action::Upload { index: 0 },
            Action::Delete,
            Action::Settle { seconds: 20 },
            Action::SubmitSeed,
            Action::SetShareLimit,
            Action::Resume,
            Action::Finished,
        ]
    );
}

#[test]
fn failure_ends_the_run() {
    let mut pipeline = Pipeline::new(plan_of(&[4, 1, 1], 5), 0, &SeedSettings::default());
    for _ in 0..4 {
        pipeline.next(Ok(()));
    }
    assert_eq!(pipeline.stage(), Stage::Downloading);
    assert_eq!(
        pipeline.next(Err(Error::QbitTorrentErrored)),
        Action::Abort { error: Error::QbitTorrentErrored, completed: 0 }
    );
    assert_eq!(pipeline.stage(), Stage::Finished);
    assert_eq!(pipeline.next(Ok(())), Action::Finished);
    assert_eq!(pipeline.next(Err(Error::MissingCookie)), Action::Finished);
}

#[test]
fn failed_delete_ends_the_run_before_the_next_chunk() {
    let mut pipeline = Pipeline::new(plan_of(&[4, 1, 1], 5), 0, &SeedSettings::default());
    for _ in 0..6 {
        pipeline.next(Ok(()));
    }
    assert_eq!(pipeline.stage(), Stage::Deleting);
    assert_eq!(
        pipeline.next(Err(Error::ReqErr(String::from("timeout")))),
        Action::Abort { error: Error::ReqErr(String::from("timeout")), completed: 0 }
    );
}

#[test]
fn failure_of_a_later_chunk_says_how_many_are_done() {
    let mut pipeline = Pipeline::new(plan_of(&[4, 1, 1], 5), 0, &SeedSettings::default());
    for _ in 0..11 {
        pipeline.next(Ok(()));
    }
    assert_eq!(pipeline.stage(), Stage::Uploading);
    assert_eq!(
        pipeline.next(Err(Error::RcloneStderrCaptureError)),
        Action::Abort { error: Error::RcloneStderrCaptureError, completed: 1 }
    );
}

#[test]
fn failed_seeding_leaves_the_chunks_done() {
    let seed = SeedSettings::new(true, String::from("/mnt"), 3);
    let mut pipeline = Pipeline::new(plan_of(&[1], 5), 0, &seed);
    for _ in 0..7 {
        pipeline.next(Ok(()));
    }
    assert_eq!(pipeline.stage(), Stage::Reseeding);
    assert_eq!(
        pipeline.next(Err(Error::MountPathNotExist)),
        Action::Abort { error: Error::MountPathNotExist, completed: 1 }
    );
}

#[test]
fn queue_without_jobs_finishes_at_once() {
    let mut pipeline = Pipeline::new(plan_of(&[9, 9], 5), 0, &SeedSettings::default());
    assert_eq!(pipeline.next(Ok(())), Action::Finished);
    assert!(pipeline.current_job().is_none());
    assert_eq!(pipeline.queue().no_all_files(), 2);
}

#[test]
fn others_are_the_files_outside_the_chunk() {
    let job = Job::new(1, 10, 2, 0);
    assert_eq!(job.disable_others(0, 3), Some(String::from("2")));
    assert_eq!(job.disable_others(1, 3), Some(String::from("0")));
    assert_eq!(job.disable_others(0, 2), None);
    assert_eq!(job.disable_others(0, 0), None);
    assert_eq!(job.disable_others(0, -4), None);
    assert_eq!(job.disable_others(4, 3), Some(String::from("0 | 1 | 2")));
    assert_eq!(job.disable_others(-1, 3), Some(String::from("1 | 2")));
    assert_eq!(job.disable_others(i32::MAX, 2), Some(String::from("0 | 1")));
    let job = Job::new(2, 10, 1, 1);
    assert_eq!(job.disable_others(1, 4), Some(String::from("0 | 2 | 3")));
    assert_eq!(job.disable_others(10, 13), Some(String::from("0 | 1 | 2 | 3 | 4 | 5 | 6 | 7 | 8 | 9 | 11 | 12")));
}

#[test]
fn seed_settings_are_off_by_default() {
    let seed = SeedSettings::default();
    assert!(!*seed.seed_enable());
    assert_eq!(seed.seed_path(), "");
    assert_eq!(*seed.seed_wait(), 0);
    let seed = SeedSettings::new(true, String::from("~/mount"), 20);
    assert!(*seed.seed_enable());
    assert_eq!(seed.seed_path(), "~/mount");
    assert_eq!(*seed.seed_wait(), 20);
}

#[test]
fn excluded_file_before_the_chunk_is_not_downloaded() {
    const GIB: i64 = 1024 * 1024 * 1024;
    let mut pipeline = start(&torrent_pack(&[6 * GIB, GIB], 5 * GIB, true), 0, &SeedSettings::default()).unwrap();
    assert_eq!(pipeline.offset(), 1);
    assert_eq!(
        run_to_end(&mut pipeline),
        vec![
            Action::Submit { chunk: 1 },
            Action::SetShareLimit,
            Action::Deprioritize { files: String::from("0") },
            Action::Download { index: 0 },
            Action::Upload { index: 0 },
            Action::Delete,
            Action::Finished,
        ]
    );
    assert_eq!(pipeline.offset(), 2);
    assert_eq!(pipeline.queue().job(0).unwrap().file_offset(), 1);
}

#[test]
fn excluded_file_between_the_files_of_a_chunk_is_not_downloaded() {
    let plan = plan_of(&[2, 9, 2, 2], 4);
    let mut pipeline = Pipeline::new(plan, 1, &SeedSettings::default());
    assert_eq!(pipeline.offset(), 0);
    assert_eq!(
        run_to_end(&mut pipeline),
        vec![
            Action::Skip { chunk: 1 },
            Action::Submit { chunk: 2 },
            Action::SetShareLimit,
            Action::Deprioritize { files: String::from("0 | 1 | 2") },
            Action::Download { index: 1 },
            Action::Upload { index: 1 },
            Action::Delete,
            Action::Finished,
        ]
    );
    let mut full = Pipeline::new(plan_of(&[2, 9, 2, 2], 4), 0, &SeedSettings::default());
    let actions = run_to_end(&mut full);
    assert_eq!(actions[2], Action::Deprioritize { files: String::from("1 | 3") });
    assert_eq!(actions[8], Action::Deprioritize { files: String::from("0 | 1 | 2") });
    assert_eq!(full.plan().len(), 4);
}

#[test]
fn offsets_are_the_same_with_and_without_skipping() {
    let lengths = [9, 2, 9, 2, 3, 9, 4, 1, 9];
    let mut offsets = Vec::new();
    let mut full = Pipeline::new(plan_of(&lengths, 4), 0, &SeedSettings::default());
    loop {
        match full.next(Ok(())) {
            Action::Submit { chunk } => offsets.push((chunk, full.offset())),
            Action::Finished => break,
            _ => {}
        }
    }
    assert_eq!(offsets, vec![(1, 1), (2, 4), (3, 6), (4, 7)]);
    assert_eq!(full.offset(), 9);
    for skip in 0..=4u32 {
        let mut resumed = Pipeline::new(plan_of(&lengths, 4), skip, &SeedSettings::default());
        let mut seen = Vec::new();
        loop {
            match resumed.next(Ok(())) {
                Action::Skip { chunk } | Action::Submit { chunk } => seen.push((chunk, resumed.offset())),
                Action::Finished => break,
                _ => {}
            }
        }
        assert_eq!(seen, offsets);
    }
}

#[test]
fn pack_that_cannot_be_planned_starts_no_run() {
    assert_eq!(
        start(&torrent_pack(&[6, 1], 5, false), 0, &SeedSettings::default()).err(),
        Some(Error::MaxSizeAllowedTooSmall)
    );
    assert_eq!(
        start(&torrent_pack(&[], 5, true), 0, &SeedSettings::default()).err(),
        Some(Error::NothingToLeech)
    );
    let mut run = start(&torrent_pack(&[4, 1, 1], 5, false), 1, &SeedSettings::default()).unwrap();
    assert_eq!(run.stage(), Stage::Idle);
    assert_eq!(run.next(Ok(())), Action::Skip { chunk: 1 });
    assert_eq!(run.next(Ok(())), Action::Submit { chunk: 2 });
    assert_eq!(run.offset(), 2);
}
