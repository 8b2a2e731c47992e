use pibot::dropbox::{upload_args, upload_outcome_message};
use pibot::info::{format_size, info_fields};
use pibot::ping::ping_message;
use std::io::Write;

#[test]
fn report_omits_only_the_failed_statistic() {
    let fields = info_fields(
        2_000_000,
        None,
        Some((8 * 1024 * 1024 * 1024, 2 * 1024 * 1024 * 1024)),
        Some((123, 45, 832)),
        Some("48.2°C".to_owned()),
        Some((5 * 1024 * 1024 * 1024, 16 * 1024 * 1024 * 1024)),
    );
    let labels: Vec<&str> = fields.iter().map(|f| f.0.as_str()).collect();
    assert_eq!(
        labels,
        vec!["Memory", "CPU Load", "CPU Temperature", "Disk Usage"]
    );
}

#[test]
fn report_with_every_statistic_has_five_fields() {
    let fields = info_fields(
        2_000_000,
        Some(500_000),
        Some((4096, 1024)),
        Some((100, 200, 700)),
        Some("50°C".to_owned()),
        Some((2048, 4096)),
    );
    assert_eq!(fields.len(), 5);
    assert_eq!(fields[0].0, "Uptime");
    assert_eq!(fields[0].1, "<t:1500000:R>");
    assert_eq!(fields[1].0, "Memory");
    assert_eq!(fields[1].1, "3.0 KiB used / 4.0 KiB total");
    assert_eq!(fields[2].0, "CPU Load");
    assert_eq!(fields[2].1, "System: 10.0%\nUser: 20.0%\nIdle: 70.0%");
    assert_eq!(fields[3].0, "CPU Temperature");
    assert_eq!(fields[3].1, "50°C");
    assert_eq!(fields[4].0, "Disk Usage");
    assert_eq!(fields[4].1, "2.0 KiB used / 4.0 KiB total");
}

#[test]
fn report_with_no_statistics_is_empty() {
    let fields = info_fields(0, None, None, None, None, None);
    assert!(fields.is_empty());
}

#[test]
fn sizes_use_the_largest_reached_unit() {
    assert_eq!(format_size(0), "0 B");
    assert_eq!(format_size(512), "512 B");
    assert_eq!(format_size(1023), "1023 B");
    assert_eq!(format_size(1024), "1.0 KiB");
    assert_eq!(format_size(1536), "1.5 KiB");
    assert_eq!(format_size(1024 * 1024), "1.0 MiB");
    assert_eq!(format_size(3 * 1024 * 1024 * 1024 / 2), "1.5 GiB");
    assert_eq!(format_size(2 * 1024 * 1024 * 1024 * 1024), "2.0 TiB");
}

#[test]
fn ping_reply_carries_the_measured_time() {
    assert_eq!(ping_message(0), ":ping_pong: Pong! `0ms`");
    assert_eq!(ping_message(42), ":ping_pong: Pong! `42ms`");
    assert_eq!(ping_message(12345), ":ping_pong: Pong! `12345ms`");
}

#[test]
fn uploader_arguments_are_ordered() {
    let args = upload_args("/tmp/upload-scratch", "photo.png");
    assert_eq!(
        args,
        vec![
            "upload".to_owned(),
            "/tmp/upload-scratch".to_owned(),
            "photo.png".to_owned()
        ]
    );
}

#[test]
fn uploader_outcome_messages_are_fixed() {
    assert_eq!(upload_outcome_message(true), "File uploaded successfully");
    assert_eq!(upload_outcome_message(false), "Failed to upload file");
}

#[test]
fn relay_scratch_file_is_gone_afterwards() {
    let mut file = tempfile::NamedTempFile::new().unwrap();
    file.write_all(b"attachment bytes").unwrap();
    let path = file.into_temp_path();
    let path_text = path.to_string_lossy().to_string();
    let args = upload_args(&path_text, "attachment.bin");
    assert_eq!(args[1], path_text);
    path.close().unwrap();
    assert!(!std::path::Path::new(&path_text).exists());
}
