use copernicus_explorer::models::Satellite;
use copernicus_explorer::keys::{Action, Command, Key, KeyPress};
use copernicus_explorer::panes::{download_line, label_budget};
use copernicus_explorer::session::{
    sync_product_with_satellite, App, DownloadProgressEvent, ResultEntry, SearchOutcome, TextEdit,
};
use copernicus_explorer::tui::{DownloadState, DownloadUiStatus, FilterField, Pane};

fn app() -> App {
    App::new("2024-01-01".to_string(), "2024-01-08".to_string())
}

fn entry(id: &str, name: &str) -> ResultEntry {
    ResultEntry { id: id.to_string(), name: name.to_string() }
}

fn press(key: Key) -> KeyPress {
    KeyPress { key, ctrl: false, alt: false }
}

fn with_results(ids: &[&str]) -> App {
    let mut a = app();
    let found: Vec<ResultEntry> = ids.iter().map(|i| entry(i, &format!("name-{i}"))).collect();
    a.finish_search(&SearchOutcome::Success(found), false);
    a
}

#[test]
fn session_starts_on_sentinel2() {
    let a = app();
    assert_eq!(a.satellite, Satellite::Sentinel2);
    assert_eq!(a.product, "L1C");
    assert_eq!(a.cloud_cover, "15");
    assert_eq!(a.max_results, "10");
    assert_eq!(a.focus, Pane::Filters);
    assert_eq!(a.status, "Ready — s search · S append · see footer for keys");
}

#[test]
fn cycling_to_sentinel1_clears_cloud_cover() {
    let mut a = app();
    a.cycle_satellite(false);
    assert_eq!(a.satellite, Satellite::Sentinel1);
    assert_eq!(a.product, "GRD");
    assert_eq!(a.cloud_cover, "");
    a.cycle_satellite(true);
    assert_eq!(a.satellite, Satellite::Sentinel2);
    assert_eq!(a.cloud_cover, "15");
    a.cycle_satellite(true);
    a.cycle_satellite(true);
    a.cycle_satellite(true);
    assert_eq!(a.satellite, Satellite::Sentinel6);
    a.cycle_satellite(true);
    assert_eq!(a.satellite, Satellite::Sentinel1);
}

#[test]
fn cycling_products() {
    let mut a = app();
    a.cycle_product(true);
    assert_eq!(a.product, "L2A");
    a.cycle_product(true);
    assert_eq!(a.product, "L1C");
    a.cycle_product(false);
    assert_eq!(a.product, "L2A");
    a.product = "custom".to_string();
    a.cycle_product(true);
    assert_eq!(a.product, "L2A");
}

#[test]
fn editing_fields() {
    let mut a = app();
    a.filter_field = FilterField::Tile;
    a.edit_field(TextEdit::Push('T'));
    a.edit_field(TextEdit::Push('3'));
    assert_eq!(a.tile, "T3");
    a.edit_field(TextEdit::Pop);
    assert_eq!(a.tile, "T");
    a.edit_field(TextEdit::Clear);
    assert_eq!(a.tile, "");
    a.edit_field(TextEdit::Pop);
    assert_eq!(a.tile, "");
    a.filter_field = FilterField::Product;
    a.edit_field(TextEdit::Push('x'));
    assert_eq!(a.product, "L1C");
    assert_eq!(a.field_value(FilterField::Satellite), "SENTINEL-2");
    assert_eq!(a.field_value(FilterField::StartDate), "2024-01-01");
}

#[test]
fn only_text_fields_have_editable_text() {
    let mut a = app();
    let mut text_fields = 0;
    for f in FilterField::ALL {
        let editable = a.field_value_mut(f).is_some();
        assert_eq!(editable, f.is_text());
        if editable {
            text_fields += 1;
        }
    }
    assert_eq!(text_fields, 8);
    assert!(a.field_value_mut(FilterField::Satellite).is_none());
    assert!(a.field_value_mut(FilterField::Product).is_none());
    a.field_value_mut(FilterField::Bbox).unwrap().push_str("1,2,3,4");
    assert_eq!(a.bbox, "1,2,3,4");
    assert_eq!(a.field_value(FilterField::Bbox), "1,2,3,4");
    assert_eq!(a.field_value_mut(FilterField::MaxResults).map(|v| v.clone()), Some("10".to_string()));
    assert_eq!(a.tile, "");
}

#[test]
fn search_start_and_finish() {
    let mut a = app();
    a.tile = "  T31TFJ ".to_string();
    let params = a.start_search(false).expect("search starts");
    assert_eq!(params.tile, "T31TFJ");
    assert_eq!(params.satellite, Satellite::Sentinel2);
    assert!(a.searching);
    assert_eq!(a.status, "Searching…");
    assert!(a.start_search(true).is_none());
    assert_eq!(a.status, "Search already in progress");
    let kept = a.finish_search(&SearchOutcome::Success(vec![entry("a", "A"), entry("b", "B")]), false);
    assert_eq!(kept, vec![0, 1]);
    assert!(!a.searching);
    assert_eq!(a.status, "Found 2 product(s)");
    assert_eq!(a.focus, Pane::Results);
}

#[test]
fn appending_skips_known_ids() {
    let mut a = with_results(&["a", "b"]);
    let kept = a.finish_search(
        &SearchOutcome::Success(vec![entry("b", "B"), entry("c", "C"), entry("c", "C2")]),
        true,
    );
    assert_eq!(kept, vec![1]);
    let ids: Vec<&str> = a.products.iter().map(|p| p.id.as_str()).collect();
    assert_eq!(ids, vec!["a", "b", "c"]);
    assert_eq!(a.status, "Appended 1 new product(s) (2 → 3)");
}

#[test]
fn empty_and_failed_searches() {
    let mut a = with_results(&["a"]);
    a.finish_search(&SearchOutcome::Empty, true);
    assert_eq!(a.products.len(), 1);
    assert_eq!(a.status, "No new products matched — existing list kept");
    a.finish_search(&SearchOutcome::Empty, false);
    assert_eq!(a.products.len(), 0);
    assert_eq!(
        a.status,
        "No products matched these filters — try relaxing dates, cloud cover, or AOI"
    );
    a.finish_search(&SearchOutcome::Failed("search failed: HTTP 500".to_string()), false);
    assert_eq!(a.status, "Search failed: HTTP 500");
    a.finish_search(&SearchOutcome::Failed("invalid argument: bad".to_string()), false);
    assert_eq!(a.status, "Search failed: bad");
    a.finish_search(&SearchOutcome::Failed("network down".to_string()), false);
    assert_eq!(a.status, "Search failed: network down");
}

#[test]
fn marking_toggles() {
    let mut a = with_results(&["a", "b", "c"]);
    a.toggle_mark_selected();
    assert_eq!(a.marked, vec!["a".to_string()]);
    assert_eq!(a.status, "1 product(s) marked for download");
    a.select_next_result();
    a.toggle_mark_selected();
    assert_eq!(a.status, "2 product(s) marked for download");
    a.toggle_mark_selected();
    a.select_prev_result();
    a.toggle_mark_selected();
    assert!(a.marked.is_empty());
    assert_eq!(a.status, "No products marked");
}

#[test]
fn selection_wraps() {
    let mut a = with_results(&["a", "b", "c"]);
    a.select_prev_result();
    assert_eq!(a.selected_result, 2);
    a.select_next_result();
    assert_eq!(a.selected_result, 0);
    let mut empty = app();
    empty.select_next_result();
    assert_eq!(empty.selected_result, 0);
}

#[test]
fn downloads_queue_once() {
    let mut a = with_results(&["a", "b"]);
    a.select_next_result();
    a.toggle_mark_selected();
    let queued = a.start_download_selected();
    assert_eq!(queued, vec![("b".to_string(), "name-b".to_string())]);
    assert!(a.marked.is_empty());
    assert_eq!(a.status, "Queued 1 download(s) (max 4 concurrent)…");
    assert!(a.is_downloading("b"));
    let again = a.start_download_all();
    assert_eq!(again, vec![("a".to_string(), "name-a".to_string())]);
    let none = a.start_download_all();
    assert!(none.is_empty());
    assert_eq!(a.status, "Nothing new to download (already queued or completed)");
    assert_eq!(a.download_order, vec!["b".to_string(), "a".to_string()]);
}

#[test]
fn no_selection_no_download() {
    let mut a = app();
    assert!(a.start_download_selected().is_empty());
    assert_eq!(a.status, "No product selected");
    assert!(a.start_download_all().is_empty());
    assert_eq!(a.status, "No products to download — search first");
}

#[test]
fn download_reports_update_state() {
    let mut a = with_results(&["a"]);
    a.toggle_mark_selected();
    a.start_download_all();
    a.toggle_mark_selected();
    a.apply_download_event("a", &DownloadProgressEvent::Started { label: "A.zip".to_string(), total: Some(100) });
    a.apply_download_event("a", &DownloadProgressEvent::Progress { downloaded: 40 });
    assert_eq!(a.downloads[0].state.downloaded, 40);
    assert_eq!(a.downloads[0].state.total, Some(100));
    assert_eq!(a.downloads[0].state.label, "A.zip");
    a.apply_download_event("a", &DownloadProgressEvent::Completed { path: "./A.zip".to_string() });
    assert!(a.is_downloaded("a"));
    assert!(!a.is_downloading("a"));
    assert!(a.marked.is_empty());
    assert_eq!(a.status, "Download complete: ./A.zip");
    assert!(a.start_download_all().is_empty());
}

#[test]
fn failed_download_can_be_requeued() {
    let mut a = with_results(&["a"]);
    a.start_download_all();
    a.apply_download_event("a", &DownloadProgressEvent::Failed { message: "boom".to_string() });
    assert_eq!(a.status, "Download failed: boom");
    assert!(!a.is_downloading("a"));
    let queued = a.start_download_all();
    assert_eq!(queued.len(), 1);
    assert_eq!(a.downloads.len(), 1);
    assert_eq!(a.download_order.len(), 1);
}

#[test]
fn report_for_unknown_download_follows_it() {
    let mut a = app();
    a.apply_download_event("zz", &DownloadProgressEvent::Progress { downloaded: 5 });
    assert_eq!(a.downloads.len(), 1);
    assert_eq!(a.downloads[0].state.label, "zz");
    assert!(a.is_downloading("zz"));
    assert!(a.download_order.is_empty());
}

#[test]
fn keys_map_to_commands() {
    let a = app();
    assert_eq!(a.command_for(KeyPress { key: Key::Char('c'), ctrl: true, alt: false }), Command::Quit);
    assert_eq!(a.command_for(press(Key::Char('q'))), Command::Quit);
    assert_eq!(a.command_for(press(Key::Tab)), Command::NextPane);
    assert_eq!(a.command_for(press(Key::Char('S'))), Command::Search { append: true });
    assert_eq!(a.command_for(press(Key::Down)), Command::NextField);
    assert_eq!(a.command_for(press(Key::Right)), Command::CycleSatellite { forward: true });
    assert_eq!(a.command_for(press(Key::Char('a'))), Command::Ignore);
    let mut b = with_results(&["x"]);
    assert_eq!(b.command_for(press(Key::Char(' '))), Command::ToggleMark);
    assert_eq!(b.command_for(press(Key::Enter)), Command::DownloadSelected);
    assert_eq!(b.command_for(press(Key::Char('k'))), Command::PreviousResult);
    b.editing = true;
    assert_eq!(b.command_for(press(Key::Char('q'))), Command::Edit(TextEdit::Push('q')));
    assert_eq!(
        b.command_for(KeyPress { key: Key::Char('u'), ctrl: true, alt: false }),
        Command::Edit(TextEdit::Clear)
    );
    assert_eq!(b.command_for(press(Key::Esc)), Command::StopEditing);
}

#[test]
fn handle_key_runs_commands() {
    let mut a = app();
    a.handle_key(press(Key::Down));
    a.handle_key(press(Key::Down));
    assert_eq!(a.filter_field, FilterField::StartDate);
    a.handle_key(press(Key::Enter));
    assert!(a.editing);
    a.handle_key(press(Key::Backspace));
    assert_eq!(a.start_date, "2024-01-0");
    a.handle_key(press(Key::Enter));
    assert!(!a.editing);
    match a.handle_key(press(Key::Char('s'))) {
        Action::Search { params, append } => {
            assert!(!append);
            assert_eq!(params.start_date, "2024-01-0");
        }
        other => panic!("unexpected {other:?}"),
    }
    a.handle_key(press(Key::Esc));
    assert_eq!(a.focus, Pane::Filters);
    a.handle_key(KeyPress { key: Key::Right, ctrl: false, alt: true });
    assert_eq!(a.focus, Pane::Results);
    a.handle_key(press(Key::Char('q')));
    assert!(a.should_quit);
}

#[test]
fn pane_titles_and_marks() {
    let mut a = with_results(&["a", "b", "c"]);
    assert_eq!(a.results_title(), " Results (3) ");
    assert_eq!(a.downloads_title(), " Downloads ");
    a.start_download_selected();
    assert_eq!(a.results_title(), " Results (3, 1↓) ");
    assert_eq!(a.downloads_title(), " Downloads (1 active, max 4) ");
    assert_eq!(a.result_mark("a"), "↓");
    a.apply_download_event("a", &DownloadProgressEvent::Completed { path: "p".to_string() });
    assert_eq!(a.results_title(), " Results (3, 1✓) ");
    assert_eq!(a.result_mark("a"), "✓");
    a.select_next_result();
    a.toggle_mark_selected();
    assert_eq!(a.result_mark("b"), "•");
    assert_eq!(a.result_mark("c"), " ");
    a.start_download_selected();
    assert_eq!(a.results_title(), " Results (3, 1✓ 1↓) ");
    assert_eq!(
        a.help_text(),
        " Tab/Alt+←→  ↑↓/jk  Space  d/a  ↓=busy ✓=done  s/S search  q quit "
    );
}

#[test]
fn download_lines() {
    let done = DownloadState {
        label: "scene".to_string(),
        downloaded: 0,
        total: None,
        status: DownloadUiStatus::Completed("./scene.zip".to_string()),
    };
    assert_eq!(download_line(&done), "✓ scene → ./scene.zip");
    let failed = DownloadState {
        label: "scene".to_string(),
        downloaded: 0,
        total: None,
        status: DownloadUiStatus::Failed("HTTP 404".to_string()),
    };
    assert_eq!(download_line(&failed), "✗ scene: HTTP 404");
}

#[test]
fn label_budget_leaves_room() {
    assert_eq!(label_budget(80, true, 20), 80 - (2 + 20 + 2 + 2 + 20));
    assert_eq!(label_budget(40, true, 30), 8);
    assert_eq!(label_budget(200, true, 10), 200 - (2 + 28 + 2 + 2 + 10));
    assert_eq!(label_budget(50, false, 10), 38);
}

#[test]
fn form_product_follows_mission() {
    let (sat, product) = sync_product_with_satellite(Satellite::Sentinel3, Satellite::Sentinel2, "L2A");
    assert_eq!(sat, Satellite::Sentinel3);
    assert_eq!(product, "OL_1_EFR");
    let (_, kept) = sync_product_with_satellite(Satellite::Sentinel2, Satellite::Sentinel2, "l2a");
    assert_eq!(kept, "l2a");
    let (_, reset) = sync_product_with_satellite(Satellite::Sentinel2, Satellite::Sentinel2, "GRD");
    assert_eq!(reset, "L1C");
}
