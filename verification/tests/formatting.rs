use docker_tui::docker::{
    container_display_names, first_status_or_unknown, image_info_from_record, image_infos,
    image_inspect_details, present_names, ImageRecord, InspectRecord,
};
use docker_tui::format::{
    format_containers_count, format_created, format_image_id, format_image_name, format_size,
    format_time_ago,
};
use docker_tui::text::{join_strings, str_contains, trim_leading, u64_to_string};
use docker_tui::ui_containers::{status_is_running, toggle_action, ToggleAction};
use docker_tui::ui_images::format_inspect_data;

#[test]
fn sizes_use_the_largest_fitting_binary_unit() {
    assert_eq!(format_size(-1), "-");
    assert_eq!(format_size(0), "0 B");
    assert_eq!(format_size(1023), "1023 B");
    assert_eq!(format_size(1024), "1.0 KB");
    assert_eq!(format_size(1536), "1.5 KB");
    assert_eq!(format_size(2_621_440), "2.5 MB");
    assert_eq!(format_size(1_610_612_736), "1.5 GB");
    assert_eq!(format_size(1_099_511_627_776), "1.0 TB");
}

#[test]
fn a_size_just_under_the_next_unit_rounds_within_its_own() {
    assert_eq!(format_size(1_048_575), "1024.0 KB");
}

#[test]
fn ages_use_the_largest_round_unit() {
    let now = 1_700_000_000;
    assert_eq!(format_time_ago(now - 30, now), "< 1m");
    assert_eq!(format_time_ago(now + 500, now), "< 1m");
    assert_eq!(format_time_ago(now - 120, now), "2m");
    assert_eq!(format_time_ago(now - 7_200, now), "2h");
    assert_eq!(format_time_ago(now - 172_800, now), "2d");
    assert_eq!(format_time_ago(now - 5_184_000, now), "2mo");
    assert_eq!(format_time_ago(now - 63_072_000, now), "2y");
}

#[test]
fn container_counts_show_a_dash_when_not_computed() {
    assert_eq!(format_containers_count(3), "3");
    assert_eq!(format_containers_count(0), "0");
    assert_eq!(format_containers_count(-1), "-");
}

#[test]
fn image_names_fall_back_for_untagged_images() {
    assert_eq!(format_image_name(&vec!["nginx:latest".to_string(), "nginx:1".to_string()]), "nginx:latest");
    assert_eq!(format_image_name(&vec![]), "<none>:<none>");
}

#[test]
fn image_ids_drop_the_digest_prefix_and_truncate() {
    let id = "sha256:0123456789abcdef0123456789abcdef".to_string();
    assert_eq!(format_image_id(&id), "0123456789ab...");
    let short = "abc".to_string();
    assert_eq!(format_image_id(&short), "abc");
}

#[test]
fn creation_timestamps_render_in_utc() {
    assert_eq!(
        format_created(&Some("2015-02-18T23:16:09+00:00".to_string())),
        "2015-02-18 23:16:09 UTC"
    );
    assert_eq!(
        format_created(&Some("1996-12-19T16:39:57-08:00".to_string())),
        "1996-12-20 00:39:57 UTC"
    );
    assert_eq!(format_created(&Some("three days ago".to_string())), "three days ago");
    assert_eq!(format_created(&None), "Unknown");
}

#[test]
fn an_image_listing_becomes_fully_formatted_rows() {
    let now = 1_700_000_000;
    let rec = ImageRecord {
        id: "sha256:0123456789abcdef0123456789abcdef".to_string(),
        repo_tags: vec!["nginx:latest".to_string()],
        size: 2_621_440,
        created: now - 172_800,
        containers: 2,
    };
    let info = image_info_from_record(&rec, now);
    assert_eq!(info.id, rec.id);
    assert_eq!(info.display_id, "0123456789ab...");
    assert_eq!(info.repo_tag, "nginx:latest");
    assert_eq!(info.size_formatted, "2.5 MB");
    assert_eq!(info.created_ago, "2d");
    assert_eq!(info.containers_count, "2");

    let rows = image_infos(&vec![rec.clone(), rec], now);
    assert_eq!(rows.len(), 2);
    assert_eq!(rows[1].repo_tag, "nginx:latest");
}

#[test]
fn inspect_replies_fill_in_the_documented_defaults() {
    let d = image_inspect_details(InspectRecord {
        id: None,
        repo_tags: None,
        size: None,
        created: None,
        architecture: None,
        os: None,
        env: None,
        exposed_ports: None,
        working_dir: None,
        entrypoint: None,
        cmd: None,
        labels: None,
    });
    assert_eq!(d.id, "");
    assert!(d.repo_tags.is_empty());
    assert_eq!(d.size_formatted, "0 B");
    assert_eq!(d.created_formatted, "Unknown");
    assert_eq!(d.architecture, "Unknown");
    assert_eq!(d.os, "Unknown");
    assert!(d.env.is_empty());
    assert_eq!(d.working_dir, "");
}

#[test]
fn the_inspect_text_lists_every_present_section() {
    let d = image_inspect_details(InspectRecord {
        id: Some("img-1".to_string()),
        repo_tags: Some(vec!["a:1".to_string(), "b:2".to_string()]),
        size: Some(1536),
        created: Some("2015-02-18T23:16:09+00:00".to_string()),
        architecture: Some("amd64".to_string()),
        os: Some("linux".to_string()),
        env: Some(vec!["A=1".to_string()]),
        exposed_ports: Some(vec!["80/tcp".to_string()]),
        working_dir: Some("/app".to_string()),
        entrypoint: Some(vec!["sh".to_string()]),
        cmd: Some(vec!["-c".to_string(), "ls".to_string()]),
        labels: Some(vec![("k".to_string(), "v".to_string())]),
    });
    let lines = format_inspect_data(&d);
    let expected: Vec<String> = [
        "Basic Information",
        "",
        "ID: img-1",
        "Repository Tags: a:1, b:2",
        "Size: 1.5 KB",
        "Created: 2015-02-18 23:16:09 UTC",
        "Architecture: amd64",
        "OS: linux",
        "",
        "Configuration",
        "",
        "Environment Variables:",
        "  A=1",
        "",
        "Exposed Ports: 80/tcp",
        "Working Directory: /app",
        "Entrypoint: sh",
        "Command: -c ls",
        "",
        "Labels",
        "",
        "k: v",
    ]
    .iter()
    .map(|s| s.to_string())
    .collect();
    assert_eq!(lines, expected);
}

#[test]
fn absent_sections_leave_no_trace_in_the_inspect_text() {
    let d = image_inspect_details(InspectRecord {
        id: Some("img-1".to_string()),
        repo_tags: None,
        size: None,
        created: None,
        architecture: None,
        os: None,
        env: None,
        exposed_ports: None,
        working_dir: None,
        entrypoint: None,
        cmd: None,
        labels: None,
    });
    let lines = format_inspect_data(&d);
    assert!(!lines.contains(&"Labels".to_string()));
    assert!(!lines.contains(&"Environment Variables:".to_string()));
    assert_eq!(lines.len(), 12);
}

#[test]
fn container_listings_reduce_to_trimmed_first_names() {
    let lists = vec![
        vec!["/web".to_string(), "/alias".to_string()],
        vec![],
        vec!["/db".to_string()],
    ];
    assert_eq!(container_display_names(&lists), vec!["web".to_string(), "db".to_string()]);
}

#[test]
fn unnamed_entries_are_skipped_in_listings() {
    let names = vec![Some("bridge".to_string()), None, Some("host".to_string())];
    assert_eq!(present_names(&names), vec!["bridge".to_string(), "host".to_string()]);
}

#[test]
fn the_first_status_or_unknown() {
    assert_eq!(first_status_or_unknown(&vec![]), "Unknown");
    assert_eq!(first_status_or_unknown(&vec![None]), "Unknown");
    assert_eq!(
        first_status_or_unknown(&vec![Some("Up 2 hours".to_string()), Some("Exited".to_string())]),
        "Up 2 hours"
    );
}

#[test]
fn a_running_status_means_stop_and_a_stopped_one_start() {
    assert!(status_is_running(&"Up 2 hours".to_string()));
    assert!(!status_is_running(&"Exited (0) 3 days ago".to_string()));
    assert_eq!(toggle_action(&"Up 2 hours".to_string()), ToggleAction::Stop);
    assert_eq!(toggle_action(&"Created".to_string()), ToggleAction::Start);
}

#[test]
fn decimal_rendering_of_integers() {
    assert_eq!(u64_to_string(0), "0");
    assert_eq!(u64_to_string(42), "42");
    assert_eq!(u64_to_string(18_446_744_073_709_551_615), "18446744073709551615");
}

#[test]
fn joining_and_trimming() {
    assert_eq!(join_strings(&vec![], ", "), "");
    assert_eq!(join_strings(&vec!["a".to_string()], ", "), "a");
    assert_eq!(join_strings(&vec!["a".to_string(), "b".to_string()], ", "), "a, b");
    assert_eq!(trim_leading("//web", '/'), "web");
    assert_eq!(trim_leading("web", '/'), "web");
    assert_eq!(trim_leading("", '/'), "");
    assert!(str_contains("Up 2 hours", "Up"));
    assert!(!str_contains("Exited", "Up"));
    assert!(str_contains("anything", ""));
}
