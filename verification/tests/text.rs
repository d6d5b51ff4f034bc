use projectm_sdl::playlist::preset_path_messages;
use projectm_sdl::text::{decimal_string, fps_label, push_decimal};
use projectm_sdl::video::App;

#[test]
fn decimal_of_small_and_large_numbers() {
    assert_eq!(decimal_string(0), "0");
    assert_eq!(decimal_string(7), "7");
    assert_eq!(decimal_string(10), "10");
    assert_eq!(decimal_string(1234567890), "1234567890");
    assert_eq!(decimal_string(u64::MAX), "18446744073709551615");
}

#[test]
fn push_decimal_appends() {
    let mut s = String::from("n=");
    push_decimal(&mut s, 305);
    assert_eq!(s, "n=305");
}

#[test]
fn fps_label_text() {
    assert_eq!(fps_label(60), "FPS: 60");
    assert_eq!(fps_label(0), "FPS: 0");
    assert_eq!(fps_label(u32::MAX), "FPS: 4294967295");
}

#[test]
fn preset_path_report_lines() {
    let (added, size) = preset_path_messages("/home/user/presets", 42);
    assert_eq!(added, "added preset path: /home/user/presets");
    assert_eq!(size, "playlist size: 42");
}

#[test]
fn projectm_gets_the_window_pixel_size() {
    let mut app = App { projectm_window_size: (0, 0) };
    let size = app.update_projectm_window_size((1920, 1080));
    assert_eq!(size, (1920, 1080));
    assert_eq!(app.projectm_window_size, (1920, 1080));
    let size = app.update_projectm_window_size((u32::MAX, 1));
    assert_eq!(size, (u32::MAX as usize, 1));
}
