use rpl::error::Error;
use rpl::rclone::{check_exit, is_progress_line, RcloneClient, TransferSample, TransferStats};

fn sample_of(line: &str) -> Option<TransferSample> {
    let value: serde_json::Value = serde_json::from_str(line).unwrap();
    let stats = value.get("stats")?;
    Some(TransferSample {
        bytes: stats.get("bytes").and_then(|bytes| bytes.as_u64()).unwrap(),
        speed: stats.get("speed").and_then(|speed| speed.as_f64()).map(|speed| speed.ceil() as u64),
        eta: stats.get("eta").and_then(|eta| eta.as_f64()).map(|eta| eta.ceil() as u64),
    })
}

#[test]
fn deser() {
    let mut stats = TransferStats::new();

    let limiter_json = r#"{"level":"info","msg":"Starting bandwidth limiter at 5MBytes/s","source":"accounting/token_bucket.go:95","time":"2021-06-07T08:38:21.80782+07:00"}"#;

    assert!(!is_progress_line(limiter_json));
    match limiter_json.find("ETA") {
        Some(_pos) => {
            let _resp: serde_json::Value = serde_json::from_str(limiter_json).unwrap();
        }
        None => (),
    }

    let waiting_json = r#"{"level":"info","msg":"\nTransferred:   \t         0 / 0 Bytes, -, 0 Bytes/s, ETA -\nTransferred:            0 / 1, 0%\nElapsed time:         5.3s\nTransferring:\n *                                   brazjson.7z: transferring\n\n","source":"accounting/stats.go:417","stats":{"bytes":0,"checks":0,"deletedDirs":0,"deletes":0,"elapsedTime":5.320457947,"errors":0,"eta":null,"fatalError":false,"renames":0,"retryError":false,"speed":0,"totalBytes":0,"totalChecks":0,"totalTransfers":1,"transferTime":3.419050329,"transferring":[{"name":"brazjson.7z","size":14067793}],"transfers":0},"time":"2021-06-07T08:38:27.083348+07:00"}"#;

    assert!(is_progress_line(waiting_json));
    match waiting_json.find("ETA") {
        Some(_pos) => {
            let _resp: serde_json::Value = serde_json::from_str(waiting_json).unwrap();
            assert_eq!(sample_of(waiting_json), Some(TransferSample { bytes: 0, speed: Some(0), eta: None }));
            assert!(!stats.record(sample_of(waiting_json)));
            assert_eq!(stats, TransferStats::new());
        }
        None => (),
    }

    let transferring_json = r#"{"level":"info","msg":"\nTransferred:   \t   11.996M / 13.416 MBytes, 89%, 390.982 kBytes/s, ETA 3s\nTransferred:            0 / 1, 0%\nElapsed time:        33.3s\nTransferring:\n *                                   brazjson.7z: 89% /13.416M, 6.991M/s, 0s\n\n","source":"accounting/stats.go:417","stats":{"bytes":12578816,"checks":0,"deletedDirs":0,"deletes":0,"elapsedTime":33.319626717,"errors":0,"eta":3,"fatalError":false,"renames":0,"retryError":false,"speed":400366.9062339992,"totalBytes":14067793,"totalChecks":0,"totalTransfers":1,"transferTime":31.418221147,"transferring":[{"bytes":12578816,"eta":0,"group":"global_stats","name":"brazjson.7z","percentage":89,"size":14067793,"speed":6519462.239440185,"speedAvg":7330192.215314117}],"transfers":0},"time":"2021-06-07T08:38:55.082601+07:00"}"#;

    assert!(is_progress_line(transferring_json));
    match transferring_json.find("ETA") {
        Some(_pos) => {
            let _resp: serde_json::Value = serde_json::from_str(transferring_json).unwrap();
            assert!(stats.record(sample_of(transferring_json)));
            assert_eq!(
                stats,
                TransferStats { bytes_transferred: 12578816, current_speed: 400367, eta_seconds: Some(3) }
            );
        }
        None => (),
    }

    let finished_json = r#"{"level":"info","msg":"\nTransferred:   \t   13.416M / 13.416 MBytes, 100%, 433.291 kBytes/s, ETA 0s\nTransferred:            1 / 1, 100%\nElapsed time:        33.6s\n\n","source":"accounting/stats.go:417","stats":{"bytes":14067793,"checks":0,"deletedDirs":0,"deletes":0,"elapsedTime":33.607828572,"errors":0,"eta":0,"fatalError":false,"renames":0,"retryError":false,"speed":443690.55219237105,"totalBytes":14067793,"totalChecks":0,"totalTransfers":1,"transferTime":31.706316329,"transfers":1},"time":"2021-06-07T08:38:55.370816+07:00"}"#;

    assert!(is_progress_line(finished_json));
    match finished_json.find("ETA") {
        Some(_pos) => {
            let _resp: serde_json::Value = serde_json::from_str(finished_json).unwrap();
            assert!(stats.record(sample_of(finished_json)));
            assert_eq!(
                stats,
                TransferStats { bytes_transferred: 14067793, current_speed: 443691, eta_seconds: Some(0) }
            );
        }
        None => (),
    }

    let gclone_json = r#"{"level":"info","msg":"\nTransferred:   \t         0 / 26.353 MBytes, 0%, 0 Bytes/s, ETA -\nTransferred:            0 / 6, 0%, 0.00 Files/s\nElapsed time:         1.4s\nTransferring:\n * MP3-daily-2021-June-11…-keep_looking_down.mp3:  0% /8.424M, 0/s, -\n * MP3-daily-2021-June-11…king_down-web-2021.m3u:  0% /96, 0/s, -\n * MP3-daily-2021-June-11…king_down-web-2021.nfo:  0% /813, 0/s, -\n * MP3-daily-2021-June-11…own-web-2021-cover.jpg:  0% /1.567M, 0/s, -\n\n","source":"accounting/stats.go:388","stats":{"bytes":0,"checks":0,"deletes":0,"elapsedTime":1.479027341,"errors":0,"fatalError":false,"renames":0,"retryError":false,"speed":0,"transferring":[{"bytes":0,"eta":null,"group":"global_stats","name":"MP3-daily-2021-June-11-Synthpop/Ritual_Veil-Keep_Looking_Down-WEB-2021-AMOK/00-ritual_veil-keep_looking_down-web-2021-cover.jpg","percentage":0,"size":1643197,"speed":0,"speedAvg":0},{"bytes":0,"eta":null,"group":"global_stats","name":"MP3-daily-2021-June-11-Synthpop/Ritual_Veil-Keep_Looking_Down-WEB-2021-AMOK/00-ritual_veil-keep_looking_down-web-2021.m3u","percentage":0,"size":96,"speed":0,"speedAvg":0},{"bytes":0,"eta":null,"group":"global_stats","name":"MP3-daily-2021-June-11-Synthpop/Ritual_Veil-Keep_Looking_Down-WEB-2021-AMOK/00-ritual_veil-keep_looking_down-web-2021.nfo","percentage":0,"size":813,"speed":0,"speedAvg":0},{"bytes":0,"eta":null,"group":"global_stats","name":"MP3-daily-2021-June-11-Synthpop/Ritual_Veil-Keep_Looking_Down-WEB-2021-AMOK/01-ritual_veil-keep_looking_down.mp3","percentage":0,"size":8833095,"speed":0,"speedAvg":0}],"transfers":0},"time":"2021-06-13T01:00:52.115318+07:00"}"#;

    assert!(is_progress_line(gclone_json));
    match gclone_json.find("ETA") {
        Some(_pos) => {
            let _resp: serde_json::Value = serde_json::from_str(gclone_json).unwrap();
            assert_eq!(sample_of(gclone_json), Some(TransferSample { bytes: 0, speed: Some(0), eta: None }));
            assert!(!stats.record(sample_of(gclone_json)));
            assert_eq!(
                stats,
                TransferStats { bytes_transferred: 14067793, current_speed: 0, eta_seconds: Some(0) }
            );
        }
        None => (),
    }

    let gclone_finish = r#"{"level":"info","msg":"\nTransferred:   \t   26.353M / 26.353 MBytes, 100%, 3.640 MBytes/s, ETA 0s\nTransferred:            6 / 6, 100%, 0.83 Files/s\nElapsed time:         7.2s\n\n","source":"accounting/stats.go:388","stats":{"bytes":27633266,"checks":0,"deletes":0,"elapsedTime":7.240487058,"errors":0,"fatalError":false,"renames":0,"retryError":false,"speed":3816492.69982025,"transfers":6},"time":"2021-06-13T01:00:57.876773+07:00"}"#;

    assert!(is_progress_line(gclone_finish));
    match gclone_finish.find("ETA") {
        Some(_pos) => {
            let _resp: serde_json::Value = serde_json::from_str(gclone_finish).unwrap();
            assert!(stats.record(sample_of(gclone_finish)));
            assert_eq!(
                stats,
                TransferStats { bytes_transferred: 27633266, current_speed: 3816493, eta_seconds: Some(0) }
            );
        }
        None => (),
    }
}

#[test]
fn progress_line_is_one_that_holds_the_marker() {
    assert!(is_progress_line("ETA"));
    assert!(is_progress_line("xxETA"));
    assert!(is_progress_line("ETAxx"));
    assert!(is_progress_line("E ET ETA -"));
    assert!(!is_progress_line(""));
    assert!(!is_progress_line("ET"));
    assert!(!is_progress_line("eta"));
    assert!(!is_progress_line("E TA"));
    assert!(!is_progress_line("ATE"));
    assert!(is_progress_line("\u{2026}ETA\u{2026}"));
}

#[test]
fn shown_bytes_move_only_with_a_speed_and_never_back() {
    let mut stats = TransferStats::new();
    assert!(!stats.record(None));
    assert_eq!(stats, TransferStats { bytes_transferred: 0, current_speed: 0, eta_seconds: None });
    assert!(!stats.record(Some(TransferSample { bytes: 500, speed: Some(0), eta: Some(9) })));
    assert_eq!(stats, TransferStats { bytes_transferred: 0, current_speed: 0, eta_seconds: Some(9) });
    assert!(!stats.record(Some(TransferSample { bytes: 500, speed: None, eta: None })));
    assert_eq!(stats, TransferStats { bytes_transferred: 0, current_speed: 0, eta_seconds: Some(9) });
    assert!(stats.record(Some(TransferSample { bytes: 500, speed: Some(10), eta: None })));
    assert_eq!(stats, TransferStats { bytes_transferred: 500, current_speed: 10, eta_seconds: Some(9) });
    assert!(stats.record(Some(TransferSample { bytes: 300, speed: Some(20), eta: Some(4) })));
    assert_eq!(stats, TransferStats { bytes_transferred: 500, current_speed: 20, eta_seconds: Some(4) });
    assert!(stats.record(Some(TransferSample { bytes: 800, speed: Some(1), eta: None })));
    assert_eq!(stats, TransferStats { bytes_transferred: 800, current_speed: 1, eta_seconds: Some(4) });
    assert!(!stats.record(Some(TransferSample { bytes: 900, speed: None, eta: None })));
    assert_eq!(stats, TransferStats { bytes_transferred: 800, current_speed: 1, eta_seconds: Some(4) });
}

#[test]
fn extra_flags_come_after_the_mandatory_ones() {
    let client = RcloneClient::new(
        String::from("rclone"),
        String::from("/data/rpl"),
        String::from("nugu:/rpl"),
        8,
        64,
        vec![String::from("--exclude"), String::from("RARBG_DO_NOT_MIRROR.exe")],
    );
    assert_eq!(client.variant, "rclone");
    assert_eq!(
        client.command_args(),
        vec![
            "copy",
            "--exclude",
            "*.parts",
            "--exclude",
            "*.!qB",
            "--verbose",
            "--stats",
            "1s",
            "--use-json-log",
            "--transfers",
            "8",
            "--drive-chunk-size",
            "64M",
            "--exclude",
            "RARBG_DO_NOT_MIRROR.exe",
            "/data/rpl",
            "nugu:/rpl",
        ]
    );
}

#[test]
fn upload_without_extra_flags_has_the_mandatory_ones() {
    let client =
        RcloneClient::new(String::from("gclone"), String::from("src"), String::from("dst:"), 0, 65535, vec![]);
    let args = client.command_args();
    assert_eq!(args.len(), 15);
    assert_eq!(args[10], "0");
    assert_eq!(args[12], "65535M");
    assert_eq!(args[13], "src");
    assert_eq!(args[14], "dst:");
    let overriding = RcloneClient::new(
        String::from("rclone"),
        String::from("src"),
        String::from("dst:"),
        4,
        16,
        vec![String::from("--transfers"), String::from("99")],
    );
    let args = overriding.command_args();
    assert_eq!(&args[9..15], ["--transfers", "4", "--drive-chunk-size", "16M", "--transfers", "99"]);
}

#[test]
fn only_exit_code_zero_is_a_success() {
    assert_eq!(check_exit(Some(0)), Ok(()));
    assert_eq!(
        check_exit(Some(1)),
        Err(Error::CommandSpawningError(String::from("the upload tool ended with exit code 1")))
    );
    assert_eq!(
        check_exit(Some(-9)),
        Err(Error::CommandSpawningError(String::from("the upload tool ended with exit code -9")))
    );
    assert_eq!(
        check_exit(None),
        Err(Error::CommandSpawningError(String::from("the upload tool was ended by a signal")))
    );
}
