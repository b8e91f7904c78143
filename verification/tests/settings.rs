use rpl::config::{
    check_clients, check_max_size_requirements, classify_input, ignore_warning_in_force, is_word,
    kind_of_input,
    max_size_allowed, percentage_of, remote_path_in_force, size_from_text, torrent_location, Config,
    Overrides, MAX_SIZE_TEXT,
    RplConfig, RplInputType, RplQbitConfig, RplRcloneConfig, RplRunningConfig, TorrentInput,
};
use rpl::error::Error;
use rpl::leech::SeedSettings;
use rpl::plan::PackFile;
use rpl::text::{contains, decimal_text};
use rpl::torrent_parser::Pack;

fn file_config(percentage: u8, max_size: &str, remote_path: &str) -> Config {
    Config {
        rpl: RplConfig {
            max_size_percentage: percentage,
            max_size: String::from(max_size),
            torrent_client: String::from("qbittorrent"),
            upload_client: String::from("rclone"),
            save_path: String::from("/tmp/rpl"),
            remote_path: String::from(remote_path),
            ignore_warning: false,
        },
        qbittorrent: RplQbitConfig::new(
            String::from("admin"),
            String::from("adminadmin"),
            String::from("http://localhost:8080"),
            0,
            0,
        ),
        seed_settings: SeedSettings::default(),
        rclone: RplRcloneConfig::new(8, 64, vec![]),
    }
}

fn nothing_given() -> Overrides {
    Overrides {
        torrent_client: None,
        upload_client: None,
        max_size_percentage: None,
        max_size: None,
        remote_path: None,
        ignore_warning: false,
    }
}

#[test]
fn percentage_of_the_file_is_zero_to_hundred() {
    assert_eq!(file_config(0, "", "").max_size_percentage_used(), Ok(false));
    assert_eq!(file_config(1, "", "").max_size_percentage_used(), Ok(true));
    assert_eq!(file_config(100, "", "").max_size_percentage_used(), Ok(true));
    assert_eq!(file_config(101, "", "").max_size_percentage_used(), Err(Error::InvalidMaxSizePercentage));
    assert_eq!(file_config(255, "", "").max_size_percentage_used(), Err(Error::InvalidMaxSizePercentage));
}

#[test]
fn empty_paths_are_invalid() {
    assert!(file_config(0, "", "").remote_path_invalid());
    assert!(!file_config(0, "", "nugu:/rpl").remote_path_invalid());
    assert!(!file_config(0, "", "").save_path_is_empty());
    assert_eq!(remote_path_in_force(&file_config(0, "", ""), &nothing_given()), Err(Error::RemotePathEmptyError));
    assert_eq!(
        remote_path_in_force(&file_config(0, "", "nugu:/rpl"), &nothing_given()),
        Ok(String::from("nugu:/rpl"))
    );
    let given = Overrides { remote_path: Some(String::from("other:/x")), ..nothing_given() };
    assert_eq!(remote_path_in_force(&file_config(0, "", ""), &given), Ok(String::from("other:/x")));
    assert_eq!(remote_path_in_force(&file_config(0, "", "nugu:/rpl"), &given), Ok(String::from("other:/x")));
}

#[test]
fn part_of_the_disk_is_rounded_down() {
    assert_eq!(percentage_of(1000, 50), 500);
    assert_eq!(percentage_of(999, 50), 499);
    assert_eq!(percentage_of(199, 1), 1);
    assert_eq!(percentage_of(99, 1), 0);
    assert_eq!(percentage_of(12345, 0), 0);
    assert_eq!(percentage_of(12345, 100), 12345);
    assert_eq!(percentage_of(u64::MAX, 100), u64::MAX);
    assert_eq!(percentage_of(u64::MAX, 50), 9223372036854775807);
    assert_eq!(percentage_of(u64::MAX, 33), 6087425544324152032);
}

#[test]
fn budget_is_taken_from_the_command_line_first() {
    let file = file_config(10, "1 KB", "");
    let given = Overrides {
        max_size_percentage: Some(50),
        max_size: Some(String::from("5 GiB")),
        ..nothing_given()
    };
    assert_eq!(max_size_allowed(&file, &given, 1000), Ok(Some(500)));
    let given = Overrides { max_size: Some(String::from("5 GiB")), ..nothing_given() };
    assert_eq!(max_size_allowed(&file, &given, 1000), Ok(Some(5368709120)));
    assert_eq!(max_size_allowed(&file, &nothing_given(), 1000), Ok(Some(100)));
    assert_eq!(max_size_allowed(&file_config(0, "1 KB", ""), &nothing_given(), 1000), Ok(Some(1000)));
    assert_eq!(max_size_allowed(&file_config(0, "5 GiB", ""), &nothing_given(), 1000), Ok(Some(5368709120)));
    assert_eq!(max_size_allowed(&file_config(0, "1.5 MiB", ""), &nothing_given(), 1000), Ok(Some(1572864)));
}

#[test]
fn budget_that_is_no_size_is_reported() {
    let given = Overrides { max_size: Some(String::from("five gigs")), ..nothing_given() };
    assert_eq!(max_size_allowed(&file_config(10, "1 KB", ""), &given, 1000), Ok(None));
    assert_eq!(max_size_allowed(&file_config(0, "", ""), &nothing_given(), 1000), Ok(None));
}

#[test]
fn only_a_short_text_is_a_size() {
    assert_eq!(size_from_text("5 GiB"), Some(5368709120));
    assert_eq!(size_from_text("18446744073709551615"), Some(u64::MAX));
    assert_eq!(size_from_text("0000000000000000005B"), Some(5));
    assert_eq!(size_from_text("00000000000000000005B"), None);
    assert_eq!(size_from_text("184467440737095516155"), None);
    assert_eq!(size_from_text("18446744073709551616"), None);
    assert_eq!(size_from_text("2 EiB"), Some(2305843009213693952));
    assert_eq!(size_from_text("0.5 KB"), Some(500));
    assert_eq!(size_from_text("-1"), None);
    assert_eq!(MAX_SIZE_TEXT, 20);
}

#[test]
fn percentage_out_of_range_is_an_error() {
    let file = file_config(0, "1 KB", "");
    for percent in [0, 101, u64::MAX] {
        let given = Overrides { max_size_percentage: Some(percent), ..nothing_given() };
        assert_eq!(max_size_allowed(&file, &given, 1000), Err(Error::InvalidMaxSizePercentage));
    }
    for percent in [1, 100] {
        let given = Overrides { max_size_percentage: Some(percent), ..nothing_given() };
        assert_eq!(max_size_allowed(&file, &given, 1000), Ok(Some(10 * percent)));
    }
    assert_eq!(
        max_size_allowed(&file_config(200, "1 KB", ""), &nothing_given(), 1000),
        Err(Error::InvalidMaxSizePercentage)
    );
}

#[test]
fn only_known_clients_are_accepted() {
    let file = file_config(0, "", "");
    assert_eq!(check_clients(&file.rpl, &nothing_given()), Ok(String::from("rclone")));
    for name in ["rclone", "fclone", "gclone", "xclone"] {
        let given = Overrides { upload_client: Some(String::from(name)), ..nothing_given() };
        assert_eq!(check_clients(&file.rpl, &given), Ok(String::from(name)));
    }
    for name in ["", "Rclone", "rclone ", "rsync"] {
        let given = Overrides { upload_client: Some(String::from(name)), ..nothing_given() };
        assert_eq!(check_clients(&file.rpl, &given), Err(Error::UnsupportedRcloneVariant));
    }
    let given = Overrides {
        torrent_client: Some(String::from("transmission")),
        upload_client: Some(String::from("rsync")),
        ..nothing_given()
    };
    assert_eq!(check_clients(&file.rpl, &given), Err(Error::UnsupportedTorrentClient));
    let mut other = file_config(0, "", "");
    other.rpl.torrent_client = String::from("deluge");
    assert_eq!(check_clients(&other.rpl, &nothing_given()), Err(Error::UnsupportedTorrentClient));
    let given = Overrides { torrent_client: Some(String::from("qbittorrent")), ..nothing_given() };
    assert_eq!(check_clients(&other.rpl, &given), Ok(String::from("rclone")));
}

#[test]
fn warning_is_ignored_if_either_side_says_so() {
    let mut file = file_config(0, "", "");
    assert!(!ignore_warning_in_force(&file, &nothing_given()));
    assert!(ignore_warning_in_force(&file, &Overrides { ignore_warning: true, ..nothing_given() }));
    file.rpl.ignore_warning = true;
    assert!(ignore_warning_in_force(&file, &nothing_given()));
}

#[test]
fn largest_file_decides_whether_the_budget_is_enough() {
    let pack = Pack::new(
        String::from("dir"),
        15,
        Some(vec![
            PackFile { path: String::from("a"), length: 4 },
            PackFile { path: String::from("b"), length: 9 },
            PackFile { path: String::from("c"), length: 2 },
        ]),
    )
    .unwrap();
    assert_eq!(check_max_size_requirements(&pack, 9, false), Ok(()));
    assert_eq!(check_max_size_requirements(&pack, 8, false), Err(Error::MaxSizeAllowedTooSmall));
    assert_eq!(check_max_size_requirements(&pack, 8, true), Ok(()));
    assert_eq!(check_max_size_requirements(&pack, -1, true), Ok(()));
}

#[test]
fn input_is_a_path_a_url_or_a_magnet_link() {
    assert_eq!(classify_input("pack.torrent", true), Ok(RplInputType::NormalPath));
    assert_eq!(classify_input("https://example.com/pack.torrent", true), Ok(RplInputType::NormalPath));
    assert_eq!(classify_input("https://example.com/pack.torrent", false), Ok(RplInputType::UrlLink));
    assert_eq!(classify_input("magnet:?xt=urn:btih:c12fe1c0", false), Ok(RplInputType::UrlLink));
    assert_eq!(classify_input("a magnet link", false), Ok(RplInputType::MagnetString));
    assert_eq!(classify_input("pack.torrent", false), Err(Error::RplInvalidInput));
    assert_eq!(classify_input("", false), Err(Error::RplInvalidInput));
    assert_eq!(kind_of_input("a magnet link", false, true), Ok(RplInputType::UrlLink));
    assert_eq!(kind_of_input("a magnet link", true, true), Ok(RplInputType::NormalPath));
    assert_eq!(kind_of_input("a magnet link", false, false), Ok(RplInputType::MagnetString));
    assert_eq!(kind_of_input("a link", false, false), Err(Error::RplInvalidInput));
}

#[test]
fn torrent_location_is_cut_out_of_the_answer() {
    assert_eq!(
        torrent_location("https://itorrents.org/torrent/C12FE1C0.torrent<br>more"),
        Some(String::from("https://itorrents.org/torrent/C12FE1C0.torrent"))
    );
    assert_eq!(
        torrent_location("https://itorrents.org/torrent/a.torrent<x>b.torrent<"),
        Some(String::from("https://itorrents.org/torrent/a.torrent<x>b.torrent"))
    );
    assert_eq!(torrent_location("see https://itorrents.org/torrent/C12FE1C0.torrent<"), None);
    assert_eq!(torrent_location("https://itorrents.org/torrent/C12FE1C0.torrent"), None);
    assert_eq!(torrent_location(""), None);
}

#[test]
fn settings_hold_what_they_were_made_of() {
    let running = RplRunningConfig::new(5, String::from("rclone"), String::from("/s"), String::from("r:"), true);
    assert_eq!(running.max_size, 5);
    assert_eq!(running.upload_client, "rclone");
    assert_eq!(running.save_path, "/s");
    assert_eq!(running.remote_path, "r:");
    assert!(running.ignore_warning);
    let agent = RplQbitConfig::new(String::from("u"), String::from("p"), String::from("a"), 1, 2);
    assert_eq!((agent.username.as_str(), agent.password.as_str(), agent.address.as_str()), ("u", "p", "a"));
    assert_eq!((agent.upload_limit, agent.download_limit), (1, 2));
    let tool = RplRcloneConfig::new(8, 64, vec![String::from("-v")]);
    assert_eq!((tool.transfers, tool.drive_chunk_size), (8, 64));
    assert_eq!(tool.extra_custom_flags, vec!["-v"]);
    let input = TorrentInput::new(vec![1, 2, 3], RplInputType::UrlLink);
    assert_eq!(input.raw_data, vec![1, 2, 3]);
    assert_eq!(input.input_type, RplInputType::UrlLink);
}

#[test]
fn numbers_are_written_in_decimal() {
    assert_eq!(decimal_text(0), "0");
    assert_eq!(decimal_text(7), "7");
    assert_eq!(decimal_text(10), "10");
    assert_eq!(decimal_text(-1), "-1");
    assert_eq!(decimal_text(1234567890), "1234567890");
    assert_eq!(decimal_text(i64::MAX), "9223372036854775807");
    assert_eq!(decimal_text(i64::MIN), "-9223372036854775808");
    for value in [-1000, -999, -10, -9, 9, 99, 100, 101, 65535, 4294967296] {
        assert_eq!(decimal_text(value), value.to_string());
    }
}

#[test]
fn text_is_searched_by_characters() {
    assert!(contains("", ""));
    assert!(contains("abc", ""));
    assert!(contains("abc", "abc"));
    assert!(contains("abc", "bc"));
    assert!(contains("aab", "ab"));
    assert!(!contains("abc", "abcd"));
    assert!(!contains("abc", "ac"));
    assert!(!contains("", "a"));
    assert!(contains("na\u{ef}ve magnet", "magnet"));
    assert!(is_word("rclone", "rclone"));
    assert!(!is_word("rclone", "rclon"));
    assert!(!is_word("", "rclone"));
}

#[test]
fn failures_are_said_in_words() {
    assert_eq!(Error::NothingToLeech.message(), "There is nothing in the pack to leech");
    assert_eq!(Error::MaxSizeAllowedTooSmall.message(), "File size in pack is larger than maximum allowed size");
    assert_eq!(
        Error::QbitTorrentErrored.message(),
        "qBittorrent client: The torrent has encountered an unexpected error"
    );
    assert_eq!(
        Error::QbitTorrentUnimplementedState.message(),
        "qBittorrent client: The torrent has entered unimplemented state!"
    );
    assert_eq!(Error::MissingHeaders.message(), "Header value was not correctly set");
    assert_eq!(Error::MissingCookie.message(), "Cookie value was not correctly set");
    assert_eq!(Error::SliceError.message(), "Could not slice off SID from returned cookie");
    assert_eq!(Error::QbitEmptyTorrentInfo.message(), "qBittorrent returned nothing for the hash provided");
    assert_eq!(Error::RcloneStderrCaptureError.message(), "Unexpected rclone stderr capture error encountered");
    assert_eq!(Error::InvalidMaxSizePercentage.message(), "Invalid max_size_percentage, allowed value are 0-100");
    assert_eq!(Error::UnsupportedTorrentClient.message(), "Config error: Unsupported torrent client");
    assert_eq!(Error::MountPathNotExist.message(), "Config error: mount path does not exist");
    assert_eq!(
        Error::UnsupportedRcloneVariant.message(),
        "Config error: Unsupported rclone variant (only rclone/fclone/gclone/xclone is supported)"
    );
    assert_eq!(
        Error::RplInvalidInput.message(),
        "Input error: rpl could not parse the input (only torrent file, url link and magnet link are supported)"
    );
    assert_eq!(Error::SavePathEmptyError.message(), "Config error: save_path cannot be empty");
    assert_eq!(
        Error::SaveRemoteEmptyError.message(),
        "Config error: save_path and remote_path in config file cannot be empty"
    );
    assert_eq!(Error::RemotePathEmptyError.message(), "Config error: remote_path cannot be empty");
    assert_eq!(
        Error::DiskSpaceReadError.message(),
        "Config error: could not read available disk space from save_path"
    );
    assert_eq!(
        Error::ReqErr(String::from("timed out")).message(),
        "Request Error when talking to qbittorrent: timed out"
    );
    assert_eq!(
        Error::ToStringError(String::from("x")).message(),
        "Could not convert reqwest header to string: x"
    );
    assert_eq!(Error::SerdeJson(String::from("x")).message(), "Serde json could not correctly deserialize: x");
    assert_eq!(Error::SerdeUrl(String::from("x")).message(), "Serde_urlencoded could not serialize the url: x");
    assert_eq!(Error::HeaderError(String::from("x")).message(), "Header value was malformed: x");
    assert_eq!(Error::CommandSpawningError(String::from("x")).message(), "Command io spawning error: x");
}
