use kerr::ordering::version_compare;
use kerr::update::{accepts_update, download_url_for, select_update, update_package_name, versions_url, UpdateError, VersionInfo};
use std::cmp::Ordering;

#[test]
fn test_version_compare() {
    assert_eq!(version_compare("1.0.0", "1.0.0"), std::cmp::Ordering::Equal);
    assert_eq!(version_compare("1.0.1", "1.0.0"), std::cmp::Ordering::Greater);
    assert_eq!(version_compare("1.0.0", "1.0.1"), std::cmp::Ordering::Less);
    assert_eq!(version_compare("2.0.0", "1.9.9"), std::cmp::Ordering::Greater);
    assert_eq!(version_compare("1.10.0", "1.2.0"), std::cmp::Ordering::Greater);
}

#[test]
fn version_compare_pads_missing_parts_with_zero() {
    assert_eq!(version_compare("1.0", "1.0.0"), Ordering::Equal);
    assert_eq!(version_compare("1", "1.0.1"), Ordering::Less);
    assert_eq!(version_compare("", "0.0"), Ordering::Equal);
}

#[test]
fn version_compare_skips_parts_that_are_not_numbers() {
    // "x" is dropped, so "1.x.2" reads as 1.2
    assert_eq!(version_compare("1.x.2", "1.2"), Ordering::Equal);
    assert_eq!(version_compare("1.-1", "1"), Ordering::Equal);
    assert_eq!(version_compare("1.+2", "1.2"), Ordering::Equal);
    assert_eq!(version_compare("4294967296", "0"), Ordering::Equal);
    assert_eq!(version_compare("4294967295", "0"), Ordering::Greater);
}

#[test]
fn version_compare_is_antisymmetric_on_examples() {
    let vs = ["1.0.0", "1.2", "0.9.9", "2", "1.10.0", "abc", "1.0.0.1"];
    for a in vs.iter() {
        for b in vs.iter() {
            assert_eq!(version_compare(a, b), version_compare(b, a).reverse());
        }
        assert_eq!(version_compare(a, a), Ordering::Equal);
    }
}

fn release(v: &str) -> VersionInfo {
    VersionInfo {
        version: v.to_string(),
        urls: vec![("linux_x86_64".to_string(), format!("https://example.com/{}.zip", v))],
    }
}

#[test]
fn select_update_takes_newest_when_newer() {
    let r = select_update(vec![release("1.2.0"), release("1.10.0"), release("1.3.0")], "1.2.5");
    assert_eq!(r.map(|v| v.version), Some("1.10.0".to_string()));
}

#[test]
fn select_update_none_when_current() {
    let r = select_update(vec![release("1.2.0"), release("1.1.0")], "1.2.0");
    assert!(r.is_none());
    let r = select_update(vec![], "0.1.0");
    assert!(r.is_none());
}

#[test]
fn select_update_ties_go_to_last() {
    // "1.2" and "1.2.0" compare equal: max_by keeps the last of equal maxima
    let mut a = release("1.2");
    a.urls = vec![];
    let b = release("1.2.0");
    let r = select_update(vec![a, b], "1.0").unwrap();
    assert_eq!(r.version, "1.2.0");
}

#[test]
fn download_url_is_looked_up_by_platform() {
    let info = release("2.0.0");
    assert_eq!(download_url_for(&info, "linux_x86_64").ok(), Some("https://example.com/2.0.0.zip".to_string()));
    match download_url_for(&info, "mac_aarch64") {
        Err(e) => {
            assert!(matches!(e, UpdateError::NoDownloadUrl { ref platform } if platform == "mac_aarch64"));
            assert_eq!(e.message(), "No download URL for platform: mac_aarch64");
        }
        Ok(_) => panic!("no URL expected"),
    }
}

#[test]
fn package_and_versions_urls() {
    assert_eq!(update_package_name("1.4.2"), "kerr-1.4.2.zip");
    assert_eq!(versions_url("https://example.com"), "https://example.com/versions");
}

#[test]
fn update_prompt_answers() {
    assert!(accepts_update(""));
    assert!(accepts_update("  \n"));
    assert!(accepts_update("y"));
    assert!(accepts_update("Y\n"));
    assert!(accepts_update(" Yes "));
    assert!(!accepts_update("n"));
    assert!(!accepts_update("no"));
    assert!(!accepts_update("yess"));
}

use kerr::updater::{after_sleep, parse_updater_args, update_layout, updater_args, updater_path, wait_step, LockProbe, WaitStep};

#[test]
fn update_package_layout() {
    let l = update_layout("/cache/updates", false);
    assert_eq!(l.extract_dir, "/cache/updates/extracted");
    assert_eq!(l.new_updater, "/cache/updates/extracted/kerr-updater");
    assert_eq!(l.new_main, "/cache/updates/extracted/kerr");
    let w = update_layout("C:/kerr/updates", true);
    assert_eq!(w.new_updater, "C:/kerr/updates/extracted/kerr-updater.exe");
    assert_eq!(w.main_name, "kerr.exe");
    assert_eq!(updater_path("/usr/local/bin", false), "/usr/local/bin/kerr-updater");
    assert_eq!(
        updater_args("/usr/local/bin/kerr", &l),
        vec!["/usr/local/bin/kerr".to_string(), "kerr".to_string(), "/cache/updates/extracted/kerr".to_string()]
    );
}

#[test]
fn updater_waits_at_most_thirty_seconds() {
    assert_eq!(wait_step(0, LockProbe::Released), WaitStep::Proceed { timed_out: false });
    assert_eq!(wait_step(0, LockProbe::Failed), WaitStep::Proceed { timed_out: false });
    assert_eq!(wait_step(29900, LockProbe::Held), WaitStep::Sleep);
    assert_eq!(wait_step(30000, LockProbe::Denied), WaitStep::Proceed { timed_out: true });
    let mut waited = 0u64;
    let mut sleeps = 0;
    let mut dots = 0;
    while wait_step(waited, LockProbe::Held) == WaitStep::Sleep {
        let (w, dot) = after_sleep(waited);
        waited = w;
        sleeps += 1;
        if dot {
            dots += 1;
        }
    }
    assert_eq!((sleeps, dots, waited), (300, 30, 30000));
}

#[test]
fn updater_arguments() {
    let args: Vec<String> = vec!["kerr-updater".into(), "/bin/kerr".into(), "kerr".into(), "/tmp/new/kerr".into()];
    assert_eq!(
        parse_updater_args(&args),
        Some(("/bin/kerr".to_string(), "kerr".to_string(), "/tmp/new/kerr".to_string()))
    );
    assert_eq!(parse_updater_args(&args[..3].to_vec()), None);
}
