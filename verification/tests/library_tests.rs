use fast_image_resize::images::Image;
use fast_image_resize::{PixelType, ResizeOptions, Resizer};
use std::io::Cursor;
use viewlume::navigation::listing_folder;
use viewlume::pipeline::{full_task_actions, WorkerAction};
use viewlume::cache::{full_cache_budget, ImageWeighter, FULL_CACHE_ESTIMATED_ITEMS};
use viewlume::canvas::CanvasResponse;
use viewlume::config::{
    config_candidates, CacheConfig, DoubleClickAction, FilmstripVisibility, FilterMode, WindowMode,
};
use viewlume::controls::{
    plan_double_click, plan_keyboard, toast_text, toggle_window_mode, KeyPresses, Toast,
    ViewCommand, ViewState,
};
use viewlume::decoder::{
    decode_full_image, decode_thumbnail, orientation_from_exif, read_exif_orientation,
    thumbnail_from_full, upright_pixels, DecodedImage, Orientation,
};
use viewlume::filmstrip::FilmstripResponse;
use viewlume::natural::{compare_names, natural_sort_order, sort_names_naturally, NameOrder};
use viewlume::navigation::{edge_navigation_available, Direction, FolderNavigator, ListedFile, NavAction};
use viewlume::paths::{file_name, is_supported_image};
use viewlume::pipeline::{
    begin_epoch, full_result_applies, full_task_step, full_worker_count, load_step,
    plan_full_request, plan_thumbnail_request, preview_max_dim, task_is_stale, task_queue,
    thumbnail_result_applies, thumbnail_source, thumbnail_worker_count, worker_takes_prefetch,
    FullTaskStep, LoadStep, PendingSet, Priority, TaskQueue, ThumbnailSource, FIRST_EPOCH,
    THUMBNAIL_QUEUE_CAPACITY,
};
use viewlume::settings_dialog::SettingsDialog;

fn strings(v: &[&str]) -> Vec<String> {
    v.iter().map(|s| s.to_string()).collect()
}

fn navigator(names: &[&str], current: usize) -> FolderNavigator {
    FolderNavigator { files: strings(names), current_index: current, current_dir: Some("/d".to_string()) }
}

fn listed(path: &str) -> ListedFile {
    ListedFile { path: path.to_string(), canonical: path.to_string() }
}

// ---- paths ----

#[test]
fn supported_extensions_ignore_case() {
    assert!(is_supported_image("photo.PNG"));
    assert!(is_supported_image("dir/a.JpEg"));
    assert!(is_supported_image("x.tif"));
    assert!(is_supported_image("scan.jfif"));
    assert!(is_supported_image("icon.ico"));
    assert!(is_supported_image("sky.hdr"));
    assert!(is_supported_image("pic.ppm"));
    assert!(is_supported_image("raw.ff"));
}

#[test]
fn unsupported_paths_are_rejected() {
    assert!(!is_supported_image("notes.txt"));
    assert!(!is_supported_image("archive.tar.gz"));
    assert!(!is_supported_image("noext"));
    assert!(!is_supported_image(".png"));
    assert!(!is_supported_image("a/.."));
    assert!(!is_supported_image(""));
    assert!(!is_supported_image("png"));
}

#[test]
fn trailing_separators_and_dot_components() {
    assert!(is_supported_image("dir/x.png/"));
    assert!(is_supported_image("x.png/."));
    assert!(!is_supported_image("dir.png/.."));
}

#[test]
fn file_name_follows_path_components() {
    assert_eq!(file_name("/a/b.png"), Some("b.png".to_string()));
    assert_eq!(file_name("b.png"), Some("b.png".to_string()));
    assert_eq!(file_name("/a/b/"), Some("b".to_string()));
    assert_eq!(file_name("a/."), Some("a".to_string()));
    assert_eq!(file_name("/"), None);
    assert_eq!(file_name("a/.."), None);
    assert_eq!(file_name("."), None);
    assert_eq!(file_name(""), None);
}

// ---- natural order ----

#[test]
fn natural_comparison_by_number_value() {
    assert_eq!(compare_names("img2", "img10"), NameOrder::Less);
    assert_eq!(compare_names("img10", "img2"), NameOrder::Greater);
    assert_eq!(compare_names("a", "a"), NameOrder::Equal);
    assert_eq!(compare_names("a1b", "a1c"), NameOrder::Less);
}

#[test]
fn natural_sort_is_stable_for_equal_names() {
    let names = strings(&["b", "a 1", "a1", "c"]);
    let order = natural_sort_order(&names);
    assert_eq!(order, vec![1, 2, 0, 3]);
    let sorted = sort_names_naturally(&names);
    assert_eq!(sorted, strings(&["a 1", "a1", "b", "c"]));
}

#[test]
fn natural_sort_of_nothing() {
    let names: Vec<String> = Vec::new();
    assert!(natural_sort_order(&names).is_empty());
    assert!(sort_names_naturally(&names).is_empty());
}

// ---- navigation ----

#[test]
fn next_and_prev_without_wrap_stop_at_ends() {
    let mut nav = navigator(&["a", "b", "c"], 2);
    assert_eq!(nav.next(false), None);
    assert_eq!(nav.current_index, 2);
    assert_eq!(nav.prev(false), Some(1));
    assert_eq!(nav.prev(false), Some(0));
    assert_eq!(nav.prev(false), None);
    assert_eq!(nav.current_index, 0);
}

#[test]
fn next_and_prev_wrap_around() {
    let mut nav = navigator(&["a", "b", "c"], 2);
    assert_eq!(nav.next(true), Some(0));
    assert_eq!(nav.prev(true), Some(2));
    assert_eq!(nav.current_path(), Some(&"c".to_string()));
}

#[test]
fn next_then_prev_returns_to_the_same_image() {
    let mut nav = navigator(&["a", "b", "c", "d"], 1);
    nav.next(true);
    nav.prev(true);
    assert_eq!(nav.current_index, 1);
}

#[test]
fn full_cycle_of_next_returns_to_start() {
    let mut nav = navigator(&["a", "b", "c", "d", "e"], 3);
    for _ in 0..5 {
        assert!(nav.next(true).is_some());
    }
    assert_eq!(nav.current_index, 3);
}

#[test]
fn empty_folder_has_no_moves() {
    let mut nav = FolderNavigator::new();
    assert_eq!(nav.next(true), None);
    assert_eq!(nav.prev(true), None);
    assert_eq!(nav.jump_to(0), None);
    assert_eq!(nav.current_path(), None);
    assert_eq!(nav.total_count(), 0);
    assert!(nav.current_dir.is_none());
}

#[test]
fn jump_to_checks_the_range() {
    let mut nav = navigator(&["a", "b", "c"], 0);
    assert_eq!(nav.jump_to(2), Some(2));
    assert_eq!(nav.jump_to(3), None);
    assert_eq!(nav.current_index, 2);
    assert_eq!(nav.direction_to(0), Direction::Backward);
    assert_eq!(nav.direction_to(2), Direction::Forward);
}

#[test]
fn navigator_is_supported_image_delegates() {
    assert!(FolderNavigator::is_supported_image("/x/y/z.webp"));
    assert!(!FolderNavigator::is_supported_image("/x/y/z.pdf"));
}

#[test]
fn listing_keeps_images_in_natural_order_and_opens_target() {
    let entries = vec![
        listed("/p/img10.png"),
        listed("/p/readme.md"),
        listed("/p/img2.JPG"),
        listed("/p/img1.gif"),
    ];
    let mut nav = FolderNavigator::new();
    nav.apply_listing("/p".to_string(), entries, Some("/p/img10.png".to_string()));
    assert_eq!(nav.files, strings(&["/p/img1.gif", "/p/img2.JPG", "/p/img10.png"]));
    assert_eq!(nav.current_index, 2);
    assert_eq!(nav.current_dir, Some("/p".to_string()));
    assert_eq!(nav.total_count(), 3);
}

#[test]
fn listing_matches_target_by_canonical_path() {
    let entries = vec![
        ListedFile { path: "./b.png".to_string(), canonical: "/real/b.png".to_string() },
        ListedFile { path: "./a.png".to_string(), canonical: "/real/a.png".to_string() },
    ];
    let mut nav = navigator(&["old"], 0);
    nav.apply_listing(".".to_string(), entries, Some("/real/b.png".to_string()));
    assert_eq!(nav.files, strings(&["./a.png", "./b.png"]));
    assert_eq!(nav.current_index, 1);
}

#[test]
fn listing_without_target_match_opens_first() {
    let mut nav = navigator(&["x", "y"], 1);
    nav.apply_listing("/q".to_string(), vec![listed("/q/b.png"), listed("/q/a.png")], Some("/q/zzz.png".to_string()));
    assert_eq!(nav.current_index, 0);
    nav.apply_listing("/q".to_string(), vec![], None);
    assert!(nav.files.is_empty());
    assert_eq!(nav.current_index, 0);
    assert_eq!(nav.current_path(), None);
}

#[test]
fn prefetch_order_alternates_ahead_and_behind() {
    let nav = navigator(&["a", "b", "c", "d", "e", "f", "g"], 3);
    assert_eq!(nav.prefetch_indices(2, false), vec![4, 2, 5, 1]);
    assert_eq!(nav.prefetch_indices(0, true), Vec::<usize>::new());
}

#[test]
fn prefetch_at_the_edges() {
    let nav = navigator(&["a", "b", "c", "d"], 0);
    assert_eq!(nav.prefetch_indices(2, false), vec![1, 2]);
    assert_eq!(nav.prefetch_indices(2, true), vec![1, 3, 2, 2]);
    let last = navigator(&["a", "b", "c", "d"], 3);
    assert_eq!(last.prefetch_indices(1, true), vec![0, 2]);
}

#[test]
fn prefetch_count_beyond_folder_size_with_wrap() {
    let nav = navigator(&["a", "b"], 0);
    assert_eq!(nav.prefetch_indices(3, true), vec![1, 1, 0, 0, 1]);
    let single = navigator(&["a"], 0);
    assert!(single.prefetch_indices(5, true).is_empty());
}

#[test]
fn edge_buttons_need_two_images() {
    assert!(edge_navigation_available(true, 2));
    assert!(!edge_navigation_available(true, 1));
    assert!(!edge_navigation_available(false, 5));
    assert_ne!(NavAction::Prev, NavAction::Next);
    assert_eq!(NavAction::NoAction, NavAction::NoAction);
}

// ---- config ----

#[test]
fn window_mode_toggles_back_and_forth() {
    assert_eq!(WindowMode::Overlay.toggled(), WindowMode::Windowed);
    assert_eq!(WindowMode::Overlay.toggled().toggled(), WindowMode::Overlay);
}

#[test]
fn filter_and_filmstrip_cycles() {
    assert_eq!(FilterMode::Auto.next_in_cycle(), FilterMode::Nearest);
    assert_eq!(FilterMode::Nearest.next_in_cycle(), FilterMode::Bilinear);
    assert_eq!(FilterMode::Bilinear.next_in_cycle(), FilterMode::Auto);
    assert_eq!(FilmstripVisibility::Hover.next_in_cycle(), FilmstripVisibility::Always);
    assert_eq!(FilmstripVisibility::Always.next_in_cycle(), FilmstripVisibility::Hidden);
    assert_eq!(FilmstripVisibility::Hidden.next_in_cycle(), FilmstripVisibility::Hover);
}

#[test]
fn cache_config_defaults() {
    let c = CacheConfig::default();
    assert_eq!(c.max_ram_cache_mb, 1024);
    assert_eq!(c.prefetch_count, 2);
    assert_eq!(c.thumbnail_cache_count, 2000);
}

#[test]
fn config_candidates_list_legacy_place_second() {
    let c = config_candidates("/new/config.toml".to_string(), Some("/old/config.toml".to_string()));
    assert_eq!(c.len(), 2);
    assert_eq!(c[0].path, "/new/config.toml");
    assert!(!c[0].is_legacy);
    assert_eq!(c[1].path, "/old/config.toml");
    assert!(c[1].is_legacy);
    let same = config_candidates("/x".to_string(), Some("/x".to_string()));
    assert_eq!(same.len(), 1);
    let none = config_candidates("/x".to_string(), None);
    assert_eq!(none.len(), 1);
    assert_eq!(none[0].path, "/x");
}

// ---- controls ----

fn no_keys() -> KeyPresses {
    KeyPresses {
        prev: false,
        next: false,
        first: false,
        last: false,
        fit: false,
        actual_size: false,
        toggle_window: false,
        escape: false,
        open: false,
        settings: false,
        cycle_filmstrip: false,
        cycle_filter: false,
        toggle_info: false,
    }
}

fn start_state() -> ViewState {
    ViewState {
        window_mode: WindowMode::Overlay,
        settings_open: false,
        filmstrip_visibility: FilmstripVisibility::Hover,
        filter_mode: FilterMode::Auto,
        show_info_badge: true,
    }
}

#[test]
fn no_keys_no_commands() {
    let mut s = start_state();
    let cmds = plan_keyboard(&mut s, &no_keys(), 4);
    assert!(cmds.is_empty());
    assert_eq!(s, start_state());
}

#[test]
fn navigation_keys_in_order() {
    let mut s = start_state();
    let keys = KeyPresses { prev: true, next: true, first: true, last: true, ..no_keys() };
    let cmds = plan_keyboard(&mut s, &keys, 5);
    assert_eq!(
        cmds,
        vec![ViewCommand::NavigatePrev, ViewCommand::NavigateNext, ViewCommand::JumpTo(0), ViewCommand::JumpTo(4)]
    );
    let cmds_empty = plan_keyboard(&mut s, &KeyPresses { first: true, last: true, ..no_keys() }, 0);
    assert!(cmds_empty.is_empty());
}

#[test]
fn escape_closes_settings_before_leaving_overlay() {
    let mut s = ViewState { settings_open: true, ..start_state() };
    let cmds = plan_keyboard(&mut s, &KeyPresses { escape: true, ..no_keys() }, 1);
    assert!(cmds.is_empty());
    assert!(!s.settings_open);
    assert_eq!(s.window_mode, WindowMode::Overlay);
    let cmds = plan_keyboard(&mut s, &KeyPresses { escape: true, ..no_keys() }, 1);
    assert_eq!(cmds, vec![ViewCommand::WindowModeChanged(WindowMode::Windowed)]);
    assert_eq!(s.window_mode, WindowMode::Windowed);
    let cmds = plan_keyboard(&mut s, &KeyPresses { escape: true, ..no_keys() }, 1);
    assert!(cmds.is_empty());
    assert_eq!(s.window_mode, WindowMode::Windowed);
}

#[test]
fn f11_then_escape_in_one_frame() {
    let mut s = ViewState { window_mode: WindowMode::Windowed, ..start_state() };
    let cmds = plan_keyboard(&mut s, &KeyPresses { toggle_window: true, escape: true, ..no_keys() }, 1);
    assert_eq!(
        cmds,
        vec![
            ViewCommand::WindowModeChanged(WindowMode::Overlay),
            ViewCommand::WindowModeChanged(WindowMode::Windowed)
        ]
    );
    assert_eq!(s.window_mode, WindowMode::Windowed);
}

#[test]
fn cycling_keys_and_toasts() {
    let mut s = start_state();
    let keys = KeyPresses {
        fit: true,
        actual_size: true,
        open: true,
        settings: true,
        cycle_filmstrip: true,
        cycle_filter: true,
        toggle_info: true,
        ..no_keys()
    };
    let cmds = plan_keyboard(&mut s, &keys, 3);
    assert_eq!(
        cmds,
        vec![
            ViewCommand::FitToWindow { announce: true },
            ViewCommand::ActualSize { announce: true },
            ViewCommand::OpenFileDialog,
            ViewCommand::ShowToast(Toast::Filmstrip(FilmstripVisibility::Always)),
            ViewCommand::RefreshTexture,
            ViewCommand::ShowToast(Toast::Filter(FilterMode::Nearest)),
        ]
    );
    assert!(s.settings_open);
    assert!(!s.show_info_badge);
    assert_eq!(s.filmstrip_visibility, FilmstripVisibility::Always);
    assert_eq!(s.filter_mode, FilterMode::Nearest);
}

#[test]
fn double_click_actions() {
    let mut s = start_state();
    assert_eq!(
        plan_double_click(&mut s, DoubleClickAction::ToggleWindowMode),
        Some(ViewCommand::WindowModeChanged(WindowMode::Windowed))
    );
    assert_eq!(s.window_mode, WindowMode::Windowed);
    assert_eq!(
        plan_double_click(&mut s, DoubleClickAction::ToggleFitToWindow),
        Some(ViewCommand::FitToWindow { announce: false })
    );
    assert_eq!(
        plan_double_click(&mut s, DoubleClickAction::ToggleActualSize),
        Some(ViewCommand::ActualSize { announce: false })
    );
    assert_eq!(plan_double_click(&mut s, DoubleClickAction::NoAction), None);
    assert_eq!(s.window_mode, WindowMode::Windowed);
}

#[test]
fn toast_texts() {
    assert_eq!(toast_text(Toast::FitToWindow), "View: Fit to Window");
    assert_eq!(toast_text(Toast::ActualSize), "View: 1:1 (100%)");
    assert_eq!(toast_text(Toast::WindowMode(WindowMode::Windowed)), "Mode: Windowed");
    assert_eq!(toast_text(Toast::WindowMode(WindowMode::Overlay)), "Mode: Fullscreen overlay");
    assert_eq!(toast_text(Toast::Filmstrip(FilmstripVisibility::Hover)), "Filmstrip: Auto-hover");
    assert_eq!(toast_text(Toast::Filmstrip(FilmstripVisibility::Always)), "Filmstrip: Always visible");
    assert_eq!(toast_text(Toast::Filmstrip(FilmstripVisibility::Hidden)), "Filmstrip: Hidden");
    assert_eq!(toast_text(Toast::Filter(FilterMode::Auto)), "Filter: Auto (Crisp zoom)");
    assert_eq!(toast_text(Toast::Filter(FilterMode::Nearest)), "Filter: Nearest (Pixel art)");
    assert_eq!(toast_text(Toast::Filter(FilterMode::Bilinear)), "Filter: Bilinear (Smooth)");
}

#[test]
fn toggle_window_mode_announces_new_mode() {
    let mut m = WindowMode::Windowed;
    assert_eq!(toggle_window_mode(&mut m), Toast::WindowMode(WindowMode::Overlay));
    assert_eq!(m, WindowMode::Overlay);
}

#[test]
fn settings_dialog_settles() {
    let mut d = SettingsDialog::default();
    assert!(!d.is_open);
    d.is_open = true;
    d.settle(true, false);
    assert!(d.is_open);
    d.settle(true, true);
    assert!(!d.is_open);
    d.is_open = true;
    d.settle(false, false);
    assert!(!d.is_open);
}

#[test]
fn frame_responses_carry_their_values() {
    let c = CanvasResponse { double_clicked: true };
    assert!(c.double_clicked);
    let f = FilmstripResponse { selected_index: Some(3) };
    assert_eq!(f.selected_index, Some(3));
}

// ---- pipeline ----

#[test]
fn pending_set_operations() {
    let mut p = PendingSet::new();
    assert!(!p.contains(&"a".to_string()));
    assert!(p.insert("a".to_string()));
    assert!(!p.insert("a".to_string()));
    assert!(p.insert("b".to_string()));
    assert!(p.contains(&"a".to_string()));
    assert!(p.remove(&"a".to_string()));
    assert!(!p.remove(&"a".to_string()));
    assert!(!p.contains(&"a".to_string()));
    assert!(p.contains(&"b".to_string()));
    p.clear();
    assert!(!p.contains(&"b".to_string()));
}

#[test]
fn duplicate_thumbnail_requests_are_dropped() {
    let mut p = PendingSet::new();
    let first = plan_thumbnail_request(&mut p, "/a.png".to_string(), 4, 128).expect("queued");
    assert_eq!(first.path, "/a.png");
    assert_eq!(first.index, 4);
    assert_eq!(first.max_dim, 128);
    assert!(plan_thumbnail_request(&mut p, "/a.png".to_string(), 4, 128).is_none());
    p.remove(&"/a.png".to_string());
    assert!(plan_thumbnail_request(&mut p, "/a.png".to_string(), 4, 128).is_some());
}

#[test]
fn prefetch_deduplicated_immediate_not() {
    let mut p = PendingSet::new();
    let t = plan_full_request(&mut p, "/a.png".to_string(), 1, Priority::Prefetch, 7).expect("queued");
    assert_eq!(t.epoch, 7);
    assert_eq!(t.priority, Priority::Prefetch);
    assert!(plan_full_request(&mut p, "/a.png".to_string(), 1, Priority::Prefetch, 7).is_none());
    let i = plan_full_request(&mut p, "/a.png".to_string(), 1, Priority::Immediate, 7).expect("queued");
    assert_eq!(i.priority, Priority::Immediate);
    assert!(p.contains(&"/a.png".to_string()));
}

#[test]
fn new_epoch_forgets_pending_and_outdates_tasks() {
    let mut p = PendingSet::new();
    p.insert("/a.png".to_string());
    let e = begin_epoch(FIRST_EPOCH, &mut p);
    assert_eq!(e, 2);
    assert!(!p.contains(&"/a.png".to_string()));
    assert!(task_is_stale(FIRST_EPOCH, e));
    assert!(!task_is_stale(e, e));
    assert!(plan_full_request(&mut p, "/a.png".to_string(), 0, Priority::Prefetch, e).is_some());
}

#[test]
fn queues_and_worker_counts() {
    assert_eq!(task_queue(Priority::Immediate), TaskQueue::Immediate);
    assert_eq!(task_queue(Priority::ImmediateWithPreview), TaskQueue::Immediate);
    assert_eq!(task_queue(Priority::Prefetch), TaskQueue::Prefetch);
    assert_eq!(full_worker_count(1), 1);
    assert_eq!(full_worker_count(4), 2);
    assert_eq!(full_worker_count(16), 2);
    assert_eq!(thumbnail_worker_count(3), 1);
    assert_eq!(thumbnail_worker_count(8), 2);
    assert_eq!(thumbnail_worker_count(64), 2);
    assert!(!worker_takes_prefetch(0, 2));
    assert!(worker_takes_prefetch(1, 2));
    assert!(worker_takes_prefetch(0, 1));
    assert_eq!(THUMBNAIL_QUEUE_CAPACITY, 64);
}

#[test]
fn preview_size_has_a_floor() {
    assert_eq!(preview_max_dim(128), 512);
    assert_eq!(preview_max_dim(512), 512);
    assert_eq!(preview_max_dim(900), 900);
}

#[test]
fn results_apply_only_to_current_image() {
    let nav = navigator(&["/a", "/b"], 1);
    assert!(full_result_applies(3, 3, &nav, &"/b".to_string(), 1));
    assert!(!full_result_applies(2, 3, &nav, &"/b".to_string(), 1));
    assert!(!full_result_applies(3, 3, &nav, &"/a".to_string(), 1));
    assert!(!full_result_applies(3, 3, &nav, &"/b".to_string(), 0));
    assert!(thumbnail_result_applies(&nav, &"/a".to_string(), 0));
    assert!(!thumbnail_result_applies(&nav, &"/a".to_string(), 1));
    assert!(!thumbnail_result_applies(&nav, &"/a".to_string(), 5));
}

#[test]
fn worker_steps() {
    assert_eq!(full_task_step(1, 2, true, Priority::Immediate), FullTaskStep::Drop);
    assert_eq!(full_task_step(2, 2, true, Priority::Prefetch), FullTaskStep::SendCached);
    assert_eq!(full_task_step(2, 2, false, Priority::ImmediateWithPreview), FullTaskStep::DecodeWithPreview);
    assert_eq!(full_task_step(3, 2, false, Priority::Immediate), FullTaskStep::Decode);
    assert_eq!(thumbnail_source(true, true), ThumbnailSource::Cached);
    assert_eq!(thumbnail_source(false, true), ThumbnailSource::FromFullImage);
    assert_eq!(thumbnail_source(false, false), ThumbnailSource::DecodeFile);
    assert_eq!(load_step(false, true), LoadStep::ShowNothing);
    assert_eq!(load_step(true, true), LoadStep::ShowCached);
    assert_eq!(load_step(true, false), LoadStep::RequestImmediate);
}

// ---- cache ----

#[test]
fn weight_is_byte_size_and_budget_in_bytes() {
    let img = DecodedImage { width: 2, height: 1, bytes_size: 8, pixels: vec![0; 8] };
    assert_eq!(ImageWeighter.weight(&img), 8);
    assert_eq!(full_cache_budget(1024), 1024 * 1024 * 1024);
    assert_eq!(full_cache_budget(0), 0);
    assert_eq!(FULL_CACHE_ESTIMATED_ITEMS, 128);
}

// ---- decoder ----

fn pattern(w: u32, h: u32) -> image::RgbaImage {
    image::RgbaImage::from_fn(w, h, |x, y| image::Rgba([x as u8, y as u8, (10 * x + y) as u8, 200]))
}

fn png_bytes(img: image::RgbaImage) -> Vec<u8> {
    let mut bytes: Vec<u8> = Vec::new();
    image::DynamicImage::ImageRgba8(img)
        .write_to(&mut Cursor::new(&mut bytes), image::ImageFormat::Png)
        .expect("encode");
    bytes
}

/// A big-endian TIFF header with one IFD entry: Orientation = `value`.
fn exif_orientation_block(value: u8) -> Vec<u8> {
    vec![
        0x4D, 0x4D, 0x00, 0x2A, 0x00, 0x00, 0x00, 0x08, 0x00, 0x01, 0x01, 0x12, 0x00, 0x03, 0x00,
        0x00, 0x00, 0x01, 0x00, value, 0x00, 0x00, 0x00, 0x00, 0x00, 0x00,
    ]
}

fn crc32(data: &[u8]) -> u32 {
    let mut crc: u32 = 0xFFFF_FFFF;
    for &b in data {
        crc ^= b as u32;
        for _ in 0..8 {
            crc = if crc & 1 != 0 { (crc >> 1) ^ 0xEDB8_8320 } else { crc >> 1 };
        }
    }
    !crc
}

/// A PNG with an eXIf chunk placed right after its header chunk.
fn png_with_orientation(img: image::RgbaImage, value: u8) -> Vec<u8> {
    let png = png_bytes(img);
    let exif = exif_orientation_block(value);
    let mut chunk: Vec<u8> = Vec::new();
    chunk.extend_from_slice(&(exif.len() as u32).to_be_bytes());
    let mut body: Vec<u8> = b"eXIf".to_vec();
    body.extend_from_slice(&exif);
    chunk.extend_from_slice(&body);
    chunk.extend_from_slice(&crc32(&body).to_be_bytes());
    let header_end = 8 + 25;
    let mut out = png[..header_end].to_vec();
    out.extend_from_slice(&chunk);
    out.extend_from_slice(&png[header_end..]);
    out
}

fn pixel(d: &DecodedImage, x: u32, y: u32) -> [u8; 4] {
    let i = ((y * d.width + x) * 4) as usize;
    [d.pixels[i], d.pixels[i + 1], d.pixels[i + 2], d.pixels[i + 3]]
}

#[test]
fn exif_orientation_values() {
    assert_eq!(read_exif_orientation(&exif_orientation_block(6)), 6);
    assert_eq!(read_exif_orientation(&exif_orientation_block(3)), 3);
    assert_eq!(read_exif_orientation(b"not an image"), 1);
    assert_eq!(read_exif_orientation(&png_bytes(pattern(2, 2))), 1);
    assert_eq!(read_exif_orientation(&png_with_orientation(pattern(2, 2), 8)), 8);
}

#[test]
fn orientation_table() {
    assert_eq!(orientation_from_exif(1), Orientation::Upright);
    assert_eq!(orientation_from_exif(2), Orientation::FlipHorizontal);
    assert_eq!(orientation_from_exif(3), Orientation::Rotate180);
    assert_eq!(orientation_from_exif(4), Orientation::FlipVertical);
    assert_eq!(orientation_from_exif(5), Orientation::Rotate90ThenFlipHorizontal);
    assert_eq!(orientation_from_exif(6), Orientation::Rotate90);
    assert_eq!(orientation_from_exif(7), Orientation::Rotate270ThenFlipHorizontal);
    assert_eq!(orientation_from_exif(8), Orientation::Rotate270);
    assert_eq!(orientation_from_exif(0), Orientation::Upright);
    assert_eq!(orientation_from_exif(9), Orientation::Upright);
}

#[test]
fn decode_plain_png() {
    let d = decode_full_image(&png_bytes(pattern(3, 2))).expect("decode");
    assert_eq!((d.width, d.height), (3, 2));
    assert_eq!(d.bytes_size, 24);
    assert_eq!(d.pixels.len(), 24);
    assert_eq!(pixel(&d, 2, 1), [2, 1, 21, 200]);
}

#[test]
fn decode_applies_exif_rotation() {
    let d = decode_full_image(&png_with_orientation(pattern(3, 2), 6)).expect("decode");
    assert_eq!((d.width, d.height), (2, 3));
    // A quarter turn clockwise: the new pixel (x, y) is the old (y, 1 - x).
    for y in 0..3u32 {
        for x in 0..2u32 {
            let old_x = y;
            let old_y = 1 - x;
            assert_eq!(pixel(&d, x, y), [old_x as u8, old_y as u8, (10 * old_x + old_y) as u8, 200]);
        }
    }
}

#[test]
fn decode_applies_exif_flip() {
    let d = decode_full_image(&png_with_orientation(pattern(3, 2), 2)).expect("decode");
    assert_eq!((d.width, d.height), (3, 2));
    assert_eq!(pixel(&d, 0, 0), [2, 0, 20, 200]);
    assert_eq!(pixel(&d, 2, 1), [0, 1, 1, 200]);
}

#[test]
fn decode_failure_message() {
    let r = decode_full_image(b"definitely not an image");
    let e = r.err().expect("must fail");
    assert!(e.starts_with("Failed to decode image: "));
    assert!(decode_thumbnail(b"nope", 64).is_err());
}

#[test]
fn decode_thumbnail_fits_in_square() {
    let t = decode_thumbnail(&png_bytes(pattern(200, 100)), 50).expect("thumb");
    assert_eq!((t.width, t.height), (50, 25));
    assert_eq!(t.pixels.len(), 50 * 25 * 4);
    let r = decode_thumbnail(&png_with_orientation(pattern(200, 100), 6), 50).expect("thumb");
    assert_eq!((r.width, r.height), (25, 50));
}

#[test]
fn upright_pixels_turns() {
    // 2 x 1 image: red, green.
    let px = vec![255, 0, 0, 255, 0, 255, 0, 255];
    let (w, h, p) = upright_pixels(2, 1, px.clone(), Orientation::FlipHorizontal);
    assert_eq!((w, h), (2, 1));
    assert_eq!(p, vec![0, 255, 0, 255, 255, 0, 0, 255]);
    let (w, h, p) = upright_pixels(2, 1, px.clone(), Orientation::Rotate90);
    assert_eq!((w, h), (1, 2));
    assert_eq!(p, vec![255, 0, 0, 255, 0, 255, 0, 255]);
    let (w, h, p) = upright_pixels(2, 1, px.clone(), Orientation::Rotate270);
    assert_eq!((w, h), (1, 2));
    assert_eq!(p, vec![0, 255, 0, 255, 255, 0, 0, 255]);
    let (_, _, p) = upright_pixels(2, 1, px.clone(), Orientation::Upright);
    assert_eq!(p, px);
}

#[test]
fn thumbnail_from_full_cases() {
    let empty = DecodedImage { width: 0, height: 5, bytes_size: 0, pixels: Vec::new() };
    assert_eq!(thumbnail_from_full(&empty, 1, 1).err(), Some("Zero dimension image".to_string()));
    let d = decode_full_image(&png_bytes(pattern(4, 2))).expect("decode");
    let same = thumbnail_from_full(&d, 4, 2).expect("copy");
    assert_eq!(same.pixels, d.pixels);
    let small = thumbnail_from_full(&d, 2, 1).expect("resize");
    assert_eq!((small.width, small.height), (2, 1));
    assert_eq!(small.pixels.len(), 8);
    assert_eq!(small.bytes_size, 8);
}

#[test]
fn decode_open_exr() {
    let img = image::Rgba32FImage::from_fn(3, 2, |x, _| image::Rgba([x as f32 / 2.0, 0.0, 1.0, 1.0]));
    let mut bytes: Vec<u8> = Vec::new();
    image::DynamicImage::ImageRgba32F(img)
        .write_to(&mut Cursor::new(&mut bytes), image::ImageFormat::OpenExr)
        .expect("encode exr");
    let d = decode_full_image(&bytes).expect("decode exr");
    assert_eq!((d.width, d.height), (3, 2));
    assert_eq!(pixel(&d, 0, 0), [0, 0, 255, 255]);
    assert_eq!(pixel(&d, 2, 1), [255, 0, 255, 255]);
}

#[test]
fn decode_thumbnail_bounds() {
    let tiny = decode_thumbnail(&png_bytes(pattern(200, 100)), 1).expect("thumb");
    assert_eq!((tiny.width, tiny.height), (1, 1));
    let up = decode_thumbnail(&png_bytes(pattern(20, 10)), 50).expect("thumb");
    assert_eq!((up.width, up.height), (50, 25));
}

#[test]
fn decode_thumbnail_is_upright() {
    let bytes = png_with_orientation(pattern(3, 2), 6);
    let full = decode_full_image(&bytes).expect("decode");
    let thumb = decode_thumbnail(&bytes, 3).expect("thumb");
    assert_eq!((thumb.width, thumb.height), (2, 3));
    assert_eq!(thumb.pixels, full.pixels);
    assert_eq!(thumb.bytes_size, 24);
}

#[test]
fn decode_errors_carry_the_decoder_message() {
    let full = decode_full_image(b"xyz").err().expect("must fail");
    let thumb = decode_thumbnail(b"xyz", 8).err().expect("must fail");
    assert_eq!(full, thumb);
    assert!(full.len() > "Failed to decode image: ".len());
}

#[test]
fn resize_succeeds_for_full_buffers() {
    let d = decode_full_image(&png_bytes(pattern(1920, 1080))).expect("decode");
    assert_eq!(d.bytes_size, 1920 * 1080 * 4);
    let t = thumbnail_from_full(&d, 128, 72).expect("resize");
    assert_eq!((t.width, t.height, t.pixels.len()), (128, 72, 128 * 72 * 4));
}

#[test]
fn worker_plans_send_one_result() {
    assert_eq!(full_task_actions(FullTaskStep::Drop, true), vec![WorkerAction::ForgetPending]);
    assert_eq!(
        full_task_actions(FullTaskStep::SendCached, false),
        vec![WorkerAction::SendResult, WorkerAction::ForgetPending]
    );
    assert_eq!(
        full_task_actions(FullTaskStep::Decode, true),
        vec![
            WorkerAction::CacheImage,
            WorkerAction::SendResult,
            WorkerAction::ForgetPending,
            WorkerAction::MakeThumbnail
        ]
    );
    assert_eq!(
        full_task_actions(FullTaskStep::DecodeWithPreview, false),
        vec![WorkerAction::SendResult, WorkerAction::ForgetPending, WorkerAction::MakeThumbnail]
    );
}

#[test]
fn bare_file_names_list_the_current_folder() {
    assert_eq!(listing_folder(""), ".");
    assert_eq!(listing_folder("/photos"), "/photos");
}

#[test]
fn resize_gives_the_resizers_pixels() {
    let d = decode_full_image(&png_bytes(pattern(30, 20))).expect("decode");
    let t = thumbnail_from_full(&d, 9, 6).expect("resize");
    let src = Image::from_vec_u8(30, 20, d.pixels.clone(), PixelType::U8x4).unwrap();
    let mut dst = Image::new(9, 6, PixelType::U8x4);
    Resizer::new().resize(&src, &mut dst, &ResizeOptions::new()).unwrap();
    assert_eq!(t.pixels, dst.into_vec());
    let transposed = thumbnail_from_full(&d, 6, 9).expect("resize");
    assert_ne!(transposed.pixels, t.pixels);
}
