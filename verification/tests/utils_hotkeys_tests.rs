use justsnap::capture::crop_and_encode;
use justsnap::codec::RasterFormat;
use justsnap::hotkeys::{Hotkey, HotkeyConfig, default_hotkey, shortcut_string};
use justsnap::raster::RasterImage;
use justsnap::region::LocalRegion;
use justsnap::utils::{
    default_save_directory, format_timestamp_filename, generate_filename, temp_image_filename,
};
use justsnap::windows::{WindowInfo, filter_window_infos};

#[test]
fn timestamp_filename_is_zero_padded() {
    let name = format_timestamp_filename("shot", 2026, 1, 2, 3, 4, 5);
    assert_eq!(name, "shot_20260102_030405");
    let name = format_timestamp_filename("x", 987, 12, 31, 23, 59, 58);
    assert_eq!(name, "x_09871231_235958");
}

#[test]
fn generated_filename_has_prefix_and_fixed_suffix_length() {
    let name = generate_filename("capture");
    assert!(name.starts_with("capture_"));
    assert_eq!(name.len(), "capture".len() + 16);
    assert!(name.chars().skip("capture_".len()).all(|c| c.is_ascii_digit() || c == '_'));
}

#[test]
fn temp_image_filename_carries_the_timestamp() {
    assert_eq!(temp_image_filename(42), "justsnap_sticky_42.png");
    assert_eq!(temp_image_filename(0), "justsnap_sticky_0.png");
    assert_eq!(temp_image_filename(-7), "justsnap_sticky_-7.png");
    assert_eq!(
        temp_image_filename(1_700_000_000_123),
        "justsnap_sticky_1700000000123.png"
    );
}

#[test]
fn save_directory_prefers_the_pictures_directory() {
    assert_eq!(default_save_directory(Some("/home/u/Pictures".to_string())), "/home/u/Pictures");
    assert_eq!(default_save_directory(None), "/tmp");
}

#[test]
fn shortcut_string_joins_modifiers_with_plus() {
    let hotkey = default_hotkey();
    assert_eq!(shortcut_string(&hotkey), "Ctrl+Shift+S");
    let bare = Hotkey { key: "F12".to_string(), modifiers: Vec::new() };
    assert_eq!(shortcut_string(&bare), "F12");
}

#[test]
fn hotkey_adopts_frontend_config() {
    let config =
        HotkeyConfig { key: "P".to_string(), modifiers: vec!["Alt".to_string()] };
    let hotkey = Hotkey::from_config(config);
    assert_eq!(shortcut_string(&hotkey), "Alt+P");
}

#[test]
fn window_filter_drops_own_and_zero_sized_windows() {
    let make = |id: u32, title: &str, w: u32, h: u32| WindowInfo {
        id,
        title: title.to_string(),
        x: 0,
        y: 0,
        width: w,
        height: h,
    };
    let windows = vec![
        make(1, "browser", 800, 600),
        make(2, "JustSnap Sticky", 200, 200),
        make(3, "justsnap panel", 200, 200),
        make(4, "empty", 0, 100),
        make(5, "", 300, 300),
    ];
    let kept = filter_window_infos(&windows);
    let ids: Vec<u32> = kept.iter().map(|w| w.id).collect();
    assert_eq!(ids, vec![1, 5]);
}

#[test]
fn crop_and_encode_raw_block_carries_the_crop() {
    let src = RasterImage { width: 2, height: 2, pixels: (1..=16).collect() };
    let region = LocalRegion { x: 1, y: 0, width: 5, height: 5 };
    let bytes = crop_and_encode(&src, &region, RasterFormat::RawBlock).unwrap();
    // A 1x2 crop of the right-hand column.
    assert_eq!(&bytes[0..8], &[0, 0, 0, 1, 0, 0, 0, 2]);
    assert_eq!(&bytes[8..], &[5, 6, 7, 8, 13, 14, 15, 16]);
}

#[test]
fn crop_and_encode_rejects_out_of_bounds_regions() {
    let src = RasterImage { width: 2, height: 2, pixels: vec![0; 16] };
    let region = LocalRegion { x: 9, y: 0, width: 5, height: 5 };
    assert!(crop_and_encode(&src, &region, RasterFormat::RawBlock).is_err());
}
