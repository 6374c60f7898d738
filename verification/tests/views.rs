use docker_tui::docker::{ImageInfo, QueryError};
use docker_tui::input::KeyCode;
use docker_tui::ui_containers::{ContainerCmd, ContainersUI};
use docker_tui::ui_images::{visible_lines, ImageCmd, ImagesUI, InspectModalContent};
use docker_tui::ui_images::can_pull;
use docker_tui::ui_networks::{NetworkCmd, NetworksUI};
use docker_tui::ui_volumes::{VolumeCmd, VolumesUI};

fn image(id: &str, tag: &str) -> ImageInfo {
    ImageInfo {
        id: id.to_string(),
        display_id: id.to_string(),
        repo_tag: tag.to_string(),
        size_formatted: "1.0 KB".to_string(),
        created_ago: "2d".to_string(),
        containers_count: "1".to_string(),
    }
}

fn images_with_rows(n: usize) -> ImagesUI {
    let mut ui = ImagesUI::new(1);
    let rows: Vec<ImageInfo> =
        (0..n).map(|i| image(&format!("sha256:{:064}", i), &format!("img{}:latest", i))).collect();
    ui.apply_refresh(Ok(rows)).unwrap();
    ui
}

#[test]
fn down_moves_the_cursor_and_clamps_at_the_end() {
    let mut ui = ContainersUI::new(0);
    ui.apply_refresh(Ok(vec!["web".to_string(), "db".to_string()])).unwrap();
    assert_eq!(ui.selected_index, 0);
    ui.handle_input(KeyCode::Down);
    assert_eq!(ui.selected_index, 1);
    ui.handle_input(KeyCode::Down);
    assert_eq!(ui.selected_index, 1);
}

#[test]
fn up_moves_the_cursor_and_clamps_at_the_start() {
    let mut ui = ContainersUI::new(0);
    ui.apply_refresh(Ok(vec!["web".to_string(), "db".to_string()])).unwrap();
    ui.handle_input(KeyCode::Down);
    ui.handle_input(KeyCode::Up);
    assert_eq!(ui.selected_index, 0);
    ui.handle_input(KeyCode::Up);
    assert_eq!(ui.selected_index, 0);
}

#[test]
fn a_shorter_listing_clamps_the_cursor_to_its_last_row() {
    let mut ui = images_with_rows(5);
    for _ in 0..4 {
        ui.handle_input(KeyCode::Down);
    }
    assert_eq!(ui.selected_index, 4);
    let three: Vec<ImageInfo> = (0..3).map(|i| image(&format!("id{}", i), "t:1")).collect();
    ui.apply_refresh(Ok(three)).unwrap();
    assert_eq!(ui.selected_index, 2);
}

#[test]
fn an_empty_listing_resets_the_cursor_to_zero() {
    let mut ui = ContainersUI::new(0);
    ui.apply_refresh(Ok(vec!["a".to_string(), "b".to_string(), "c".to_string()])).unwrap();
    ui.handle_input(KeyCode::Down);
    ui.handle_input(KeyCode::Down);
    assert_eq!(ui.selected_index, 2);
    ui.apply_refresh(Ok(vec![])).unwrap();
    assert_eq!(ui.selected_index, 0);
    assert!(ui.containers.is_empty());
}

#[test]
fn a_failed_refresh_leaves_the_rows_and_cursor_untouched() {
    let mut ui = ContainersUI::new(0);
    ui.apply_refresh(Ok(vec!["web".to_string(), "db".to_string()])).unwrap();
    ui.handle_input(KeyCode::Down);
    let err = ui.apply_refresh(Err(QueryError { message: "socket closed".to_string() }));
    match err {
        Err(e) => assert_eq!(e.message, "socket closed"),
        Ok(()) => panic!("a failed query must be handed back"),
    }
    assert_eq!(ui.containers, vec!["web".to_string(), "db".to_string()]);
    assert_eq!(ui.selected_index, 1);
}

#[test]
fn refreshing_twice_with_the_same_listing_changes_nothing_more() {
    let mut ui = ContainersUI::new(0);
    ui.apply_refresh(Ok(vec!["a".to_string(), "b".to_string(), "c".to_string()])).unwrap();
    ui.handle_input(KeyCode::Down);
    ui.apply_refresh(Ok(vec!["a".to_string(), "b".to_string()])).unwrap();
    let rows_once = ui.containers.clone();
    let sel_once = ui.selected_index;
    ui.apply_refresh(Ok(vec!["a".to_string(), "b".to_string()])).unwrap();
    assert_eq!(ui.containers, rows_once);
    assert_eq!(ui.selected_index, sel_once);
}

#[test]
fn container_keys_ask_for_the_selected_row() {
    let mut ui = ContainersUI::new(0);
    ui.apply_refresh(Ok(vec!["web".to_string(), "db".to_string()])).unwrap();
    ui.handle_input(KeyCode::Down);
    assert_eq!(ui.handle_input(KeyCode::Char('s')), (true, ContainerCmd::Toggle("db".to_string())));
    assert_eq!(
        ui.handle_input(KeyCode::Char('l')),
        (true, ContainerCmd::ShowLogs("db".to_string()))
    );
    assert_eq!(ui.handle_input(KeyCode::Char('d')), (true, ContainerCmd::Delete("db".to_string())));
    assert_eq!(ui.handle_input(KeyCode::Char('r')), (true, ContainerCmd::Refresh));
    assert_eq!(ui.handle_input(KeyCode::F(5)), (true, ContainerCmd::Refresh));
    assert_eq!(ui.handle_input(KeyCode::Char('z')), (false, ContainerCmd::Idle));
}

#[test]
fn container_keys_do_nothing_on_an_empty_list() {
    let mut ui = ContainersUI::new(0);
    assert_eq!(ui.handle_input(KeyCode::Char('s')), (true, ContainerCmd::Idle));
    assert_eq!(ui.handle_input(KeyCode::Down), (true, ContainerCmd::Idle));
    assert_eq!(ui.selected_index, 0);
}

#[test]
fn network_and_volume_keys_ask_for_their_work() {
    let mut ui = NetworksUI::new(2);
    ui.apply_refresh(Ok(vec!["bridge".to_string()])).unwrap();
    assert_eq!(ui.handle_input(KeyCode::Char('c')), (true, NetworkCmd::Create));
    assert_eq!(
        ui.handle_input(KeyCode::Char('i')),
        (true, NetworkCmd::Inspect("bridge".to_string()))
    );
    assert_eq!(
        ui.handle_input(KeyCode::Char('d')),
        (true, NetworkCmd::Delete("bridge".to_string()))
    );

    let mut ui = VolumesUI::new(3);
    ui.apply_refresh(Ok(vec!["data".to_string()])).unwrap();
    assert_eq!(ui.handle_input(KeyCode::Char('c')), (true, VolumeCmd::Create));
    assert_eq!(ui.handle_input(KeyCode::Char('i')), (true, VolumeCmd::Inspect("data".to_string())));
    assert_eq!(ui.handle_input(KeyCode::Char('d')), (true, VolumeCmd::Delete("data".to_string())));
}

#[test]
fn opening_the_inspect_modal_shows_loading_until_the_fetch_lands() {
    let mut ui = images_with_rows(1);
    let (handled, cmd) = ui.handle_input(KeyCode::Char('i'));
    assert!(handled);
    match cmd {
        ImageCmd::Inspect(id) => assert_eq!(id, format!("sha256:{:064}", 0)),
        other => panic!("expected an inspect command, got {:?}", other),
    }
    assert!(ui.show_inspect_modal);
    assert_eq!(ui.inspect_scroll, 0);
    assert!(matches!(ui.modal_content(), InspectModalContent::Loading));
}

#[test]
fn a_successful_fetch_fills_the_modal_with_formatted_fields() {
    let mut ui = images_with_rows(1);
    ui.handle_input(KeyCode::Char('i'));
    let details = docker_tui::docker::image_inspect_details(docker_tui::docker::InspectRecord {
        id: Some("img-1".to_string()),
        repo_tags: Some(vec!["a:1".to_string()]),
        size: Some(1536),
        created: None,
        architecture: Some("amd64".to_string()),
        os: Some("linux".to_string()),
        env: None,
        exposed_ports: None,
        working_dir: None,
        entrypoint: None,
        cmd: None,
        labels: None,
    });
    ui.apply_inspect_result(Ok(details));
    assert!(ui.show_inspect_modal);
    match ui.modal_content() {
        InspectModalContent::Details(lines) => {
            assert!(lines.contains(&"ID: img-1".to_string()));
            assert!(lines.contains(&"Size: 1.5 KB".to_string()));
            assert!(lines.contains(&"Created: Unknown".to_string()));
            assert!(lines.contains(&"Architecture: amd64".to_string()));
        }
        InspectModalContent::Loading => panic!("the landed fetch must replace the placeholder"),
    }
}

#[test]
fn a_failed_fetch_closes_the_modal() {
    let mut ui = images_with_rows(1);
    ui.handle_input(KeyCode::Char('i'));
    assert!(ui.show_inspect_modal);
    ui.apply_inspect_result(Err(QueryError { message: "gone".to_string() }));
    assert!(!ui.show_inspect_modal);
}

#[test]
fn closing_the_modal_resets_its_state() {
    let mut ui = images_with_rows(1);
    ui.handle_input(KeyCode::Char('i'));
    let details = docker_tui::docker::image_inspect_details(docker_tui::docker::InspectRecord {
        id: Some("img-1".to_string()),
        repo_tags: None,
        size: None,
        created: None,
        architecture: None,
        os: None,
        env: Some((0..30).map(|i| format!("V{}=x", i)).collect()),
        exposed_ports: None,
        working_dir: None,
        entrypoint: None,
        cmd: None,
        labels: None,
    });
    ui.apply_inspect_result(Ok(details));
    ui.handle_input(KeyCode::Down);
    ui.handle_input(KeyCode::Down);
    assert_eq!(ui.inspect_scroll, 2);
    let (handled, cmd) = ui.handle_input(KeyCode::Char('i'));
    assert!(handled);
    assert!(matches!(cmd, ImageCmd::Idle));
    assert!(!ui.show_inspect_modal);
    assert!(ui.inspect_data.is_none());
    assert_eq!(ui.inspect_scroll, 0);
}

#[test]
fn modal_scroll_clamps_at_both_ends() {
    let mut ui = images_with_rows(1);
    ui.handle_input(KeyCode::Char('i'));
    // still loading: scrolling has nothing to move over
    ui.handle_input(KeyCode::Down);
    assert_eq!(ui.inspect_scroll, 0);
    let details = docker_tui::docker::image_inspect_details(docker_tui::docker::InspectRecord {
        id: Some("img-1".to_string()),
        repo_tags: None,
        size: None,
        created: None,
        architecture: None,
        os: None,
        env: Some((0..3).map(|i| format!("V{}=x", i)).collect()),
        exposed_ports: None,
        working_dir: None,
        entrypoint: None,
        cmd: None,
        labels: None,
    });
    // 9 basic lines + 2 headers + 1 env header + 3 env + 1 blank + 1 blank = 17 lines
    ui.apply_inspect_result(Ok(details));
    for _ in 0..20 {
        ui.handle_input(KeyCode::Down);
    }
    assert_eq!(ui.inspect_scroll, 7);
    for _ in 0..20 {
        ui.handle_input(KeyCode::Up);
    }
    assert_eq!(ui.inspect_scroll, 0);
}

#[test]
fn untagged_images_cannot_be_pulled() {
    assert!(can_pull(&image("sha256:x", "nginx:latest")));
    assert!(!can_pull(&image("sha256:x", "<none>:<none>")));
}

#[test]
fn list_rows_mark_only_the_selected_row() {
    let mut ui = ContainersUI::new(0);
    ui.apply_refresh(Ok(vec!["web".to_string(), "db".to_string()])).unwrap();
    assert_eq!(
        ui.render_rows(),
        vec![("web".to_string(), true), ("db".to_string(), false)]
    );
    assert_eq!(ui.render_title(), "Containers (2)");
    assert_eq!(NetworksUI::new(2).render_title(), "Networks (0)");
    assert_eq!(VolumesUI::new(3).render_title(), "Volumes (0)");
}

#[test]
fn image_table_rows_carry_the_five_columns() {
    let ui = images_with_rows(2);
    let rows = ui.render_rows();
    assert_eq!(rows.len(), 2);
    assert!(rows[0].1);
    assert!(!rows[1].1);
    assert_eq!(rows[0].0[0], "img0:latest");
    assert_eq!(ui.render_title(), "Images (2)");
}

#[test]
fn visible_lines_cut_the_scrolled_window() {
    let lines: Vec<String> = ["a", "b", "c", "d"].iter().map(|s| s.to_string()).collect();
    assert_eq!(visible_lines(&lines, 1, 2), vec!["b".to_string(), "c".to_string()]);
    assert_eq!(visible_lines(&lines, 0, 10), lines);
    assert_eq!(visible_lines(&lines, 5, 2), Vec::<String>::new());
}
