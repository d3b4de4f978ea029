//! Theme, settings, typed secrets, and the clock.

use thinwire_core::clock::{Clock, ViewNow};
use thinwire_core::secret_text::SecretText;
use thinwire_core::settings::{Settings, default_path, read_theme};
use thinwire_core::theme::ThemeMode;

#[test]
fn parse_accepts_quoted_and_mixed_case() {
    assert_eq!(ThemeMode::parse(" System "), Some(ThemeMode::System));
    assert_eq!(ThemeMode::parse("\"DARK\""), Some(ThemeMode::Dark));
    assert_eq!(ThemeMode::parse("light"), Some(ThemeMode::Light));
    assert_eq!(ThemeMode::parse("nope"), None);
}

#[test]
fn as_str_round_trips() {
    for mode in ThemeMode::ALL {
        assert_eq!(ThemeMode::parse(mode.as_str()), Some(mode));
    }
}

#[test]
fn a_missing_theme_is_system() {
    assert_eq!(ThemeMode::default(), ThemeMode::System);
    assert_eq!(ThemeMode::parse(""), None);
    assert_eq!(ThemeMode::parse("\"\""), None);
    assert_eq!(ThemeMode::parse("\" dark \""), Some(ThemeMode::Dark));
    assert_eq!(ThemeMode::parse(" \" \" Light \"\" "), Some(ThemeMode::Light));
    assert_eq!(ThemeMode::parse("da rk"), None);
}

#[test]
fn debug_is_redacted() {
    let secret = SecretText::new("+15550100");
    let shown = secret.debug_text();
    assert!(!shown.contains("5550100"));
    assert_eq!(secret.expose(), "+15550100");
    assert!(SecretText::default().is_empty());
    assert_eq!(secret.clone().into_inner(), "+15550100");
}

/// What stands in a file after a worker wrote.
fn run(disk: &mut Option<String>, job: thinwire_core::settings::PersistJob, latest: u64) {
    if let Some(write) = job.run(latest) {
        *disk = Some(write.contents);
    }
}

fn load(disk: &Option<String>) -> Settings {
    Settings::load_from("settings.toml".into(), disk.as_deref())
}

#[test]
fn missing_file_is_system() {
    assert_eq!(load(&None).theme(), ThemeMode::System);
}

#[test]
fn corrupt_or_unknown_theme_is_system() {
    assert_eq!(
        load(&Some("theme = rainbow\n".into())).theme(),
        ThemeMode::System
    );
    assert_eq!(
        load(&Some("no key here\ntheme = dark\n".into())).theme(),
        ThemeMode::System
    );
}

#[test]
fn persist_round_trip() {
    let mut settings = load(&None);
    assert_eq!(settings.theme(), ThemeMode::System);
    settings.set_theme(ThemeMode::Dark);
    assert_eq!(load(&Some(settings.render())).theme(), ThemeMode::Dark);
    settings.set_theme(ThemeMode::Light);
    assert_eq!(load(&Some(settings.render())).theme(), ThemeMode::Light);
    settings.set_theme(ThemeMode::System);
    assert_eq!(load(&Some(settings.render())).theme(), ThemeMode::System);
}

#[test]
fn set_theme_is_memory_only_until_persist_job_runs() {
    let mut disk = None;
    let mut settings = load(&disk);
    settings.set_theme(ThemeMode::Dark);
    assert_eq!(settings.theme(), ThemeMode::Dark);
    assert!(disk.is_none());
    let job = settings.take_persist_job().expect("queued job");
    let latest = job.epoch();
    run(&mut disk, job, latest);
    assert_eq!(load(&disk).theme(), ThemeMode::Dark);
    assert!(settings.take_persist_job().is_none());
}

#[test]
fn stale_persist_job_does_not_overwrite_newer_theme() {
    let mut disk = None;
    let mut settings = load(&disk);
    settings.set_theme(ThemeMode::Dark);
    let stale = settings.take_persist_job().expect("dark job");
    settings.set_theme(ThemeMode::Light);
    let newest = settings.take_persist_job().expect("light job");
    let latest = newest.epoch();
    run(&mut disk, stale, latest);
    assert!(
        disk.is_none() || load(&disk).theme() != ThemeMode::Dark,
        "stale Dark write must not win"
    );
    run(&mut disk, newest, latest);
    assert_eq!(load(&disk).theme(), ThemeMode::Light);
}

#[test]
fn overlapping_persist_jobs_that_pass_pre_io_check_commit_latest() {
    for stale_first in [true, false] {
        let mut disk = None;
        let mut settings = load(&disk);
        settings.set_theme(ThemeMode::Dark);
        let stale = settings.take_persist_job().expect("dark job");
        assert!(stale.is_current(stale.epoch()));
        settings.set_theme(ThemeMode::Light);
        let newest = settings.take_persist_job().expect("light job");
        let latest = newest.epoch();
        if stale_first {
            run(&mut disk, stale, latest);
            run(&mut disk, newest, latest);
        } else {
            run(&mut disk, newest, latest);
            run(&mut disk, stale, latest);
        }
        assert_eq!(load(&disk).theme(), ThemeMode::Light);
    }
}

#[test]
fn in_memory_settings_never_write() {
    let mut settings = Settings::in_memory();
    settings.set_theme(ThemeMode::Dark);
    assert_eq!(settings.theme(), ThemeMode::Dark);
    assert!(settings.take_persist_job().is_none());
}

#[test]
fn a_repeated_theme_asks_for_no_write() {
    let mut settings = load(&None);
    settings.set_theme(ThemeMode::System);
    assert!(settings.take_persist_job().is_none());
}

#[test]
fn settings_text_skips_comments_and_blank_lines() {
    assert_eq!(
        read_theme("# theme = light\r\n\r\n  other = 1\n theme = \"Dark\"\n"),
        Some(ThemeMode::Dark)
    );
    assert_eq!(read_theme("theme = light\ntheme = dark\n"), Some(ThemeMode::Light));
    assert_eq!(read_theme("theme = light"), Some(ThemeMode::Light));
    assert_eq!(read_theme(""), None);
    assert_eq!(
        load(&None).render(),
        "# thinwire appearance. Missing file means System.\ntheme = system\n"
    );
}

#[test]
fn the_settings_file_stands_below_the_config_dir() {
    assert_eq!(
        default_path(Some("/home/ada/.config")),
        "/home/ada/.config/thinwire/settings.toml"
    );
    assert_eq!(default_path(Some("/etc/")), "/etc/thinwire/settings.toml");
    assert_eq!(default_path(None), "./thinwire/settings.toml");
    let loaded = Settings::load(Some("/etc"), Some("theme = dark\n"));
    assert_eq!(loaded.theme(), ThemeMode::Dark);
}

#[test]
fn a_fixed_clock_is_the_same_on_each_call() {
    let clock = Clock::Fixed {
        now: 1_772_445_600,
        utc_offset_secs: 3_600,
    };
    assert_eq!(clock.now(1), clock.now(2));
    let ViewNow::Fixed {
        timestamp,
        utc_offset_secs,
    } = clock.now(1)
    else {
        panic!("fixed");
    };
    assert_eq!(timestamp, 1_772_445_600);
    let zone = chrono::FixedOffset::east_opt(utc_offset_secs).expect("zone");
    let now = chrono::DateTime::from_timestamp(timestamp, 0)
        .expect("time")
        .with_timezone(&zone);
    assert_eq!(now.format("%H:%M").to_string(), "11:00");
}

#[test]
fn a_clock_out_of_range_falls_back() {
    let fixed = |now: i64, utc_offset_secs: i32| {
        Clock::Fixed {
            now,
            utc_offset_secs,
        }
        .now(1)
    };
    let view = |timestamp: i64, utc_offset_secs: i32| ViewNow::Fixed {
        timestamp,
        utc_offset_secs,
    };
    assert_eq!(fixed(5, 86_399), view(5, 86_399));
    assert_eq!(fixed(5, 86_400), view(5, 0), "no zone is a day away");
    assert_eq!(fixed(5, -86_399), view(5, -86_399));
    assert_eq!(fixed(5, -86_400), view(5, 0));
    assert_eq!(fixed(8_210_266_876_799, 0), view(8_210_266_876_799, 0));
    assert_eq!(fixed(8_210_266_876_800, 0), view(0, 0), "after the last year");
    assert_eq!(fixed(-8_334_601_228_800, 0), view(-8_334_601_228_800, 0));
    assert_eq!(fixed(-8_334_601_228_801, 0), view(0, 0), "before the first year");
    assert_eq!(fixed(i64::MAX, i32::MIN), view(0, 0));
    assert_eq!(Clock::fixed_utc(7).now(1), view(7, 0));
    assert_eq!(
        Clock::default().now(1_772_445_600),
        ViewNow::Local {
            timestamp: 1_772_445_600
        }
    );
}
