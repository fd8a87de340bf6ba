//! Tests of the browser-harness value types and the screenshot
//! encodings.

use aether_core::browser_actions::WaitCondition;
use aether_core::browser_executor::{
    ExecutorConfig as BrowserExecutorConfig, ExecutorStats,
};
use aether_core::browser_screenshot::{Screenshot, ScreenshotFormat};

#[test]
fn test_screenshot_to_base64() {
    let screenshot = Screenshot {
        data: vec![1, 2, 3, 4, 5],
        format: ScreenshotFormat::Png,
        width: 100,
        height: 100,
        size_bytes: 5,
    };

    let base64 = screenshot.to_base64();
    assert!(!base64.is_empty());
    // The standard padded encoding of the bytes one through five.
    assert_eq!(base64, "AQIDBAU=");
}

#[test]
fn test_screenshot_data_url() {
    let screenshot = Screenshot {
        data: vec![1, 2, 3, 4, 5],
        format: ScreenshotFormat::Png,
        width: 100,
        height: 100,
        size_bytes: 5,
    };

    let data_url = screenshot.to_data_url();
    assert!(data_url.starts_with("data:image/png;base64,"));
    assert_eq!(data_url, "data:image/png;base64,AQIDBAU=");
}

#[test]
fn test_screenshot_resize() {
    // Build a real 4x4 PNG, then re-encode it at 2x2 through the image
    // pipeline.
    let img = image::RgbaImage::new(4, 4);
    let mut png_bytes: Vec<u8> = Vec::new();
    img.write_to(
        &mut std::io::Cursor::new(&mut png_bytes),
        image::ImageFormat::Png,
    )
    .unwrap();

    let original_len = png_bytes.len();
    let mut screenshot = Screenshot {
        data: png_bytes,
        format: ScreenshotFormat::Png,
        width: 4,
        height: 4,
        size_bytes: original_len,
    };

    screenshot.resize(2, 2).unwrap();
    assert_eq!(screenshot.width, 2);
    assert_eq!(screenshot.height, 2);
    assert_eq!(screenshot.size_bytes, screenshot.data.len());

    let decoded = image::load_from_memory(&screenshot.data).unwrap();
    assert_eq!(decoded.width(), 2);
    assert_eq!(decoded.height(), 2);
}

#[test]
fn test_compress_jpeg_reencodes() {
    // Build a real 8x8 JPEG; the re-encoder takes its dimensions from the
    // decoded image itself, so even a screenshot whose declared size
    // disagrees with its bytes is re-encoded rather than aborted.
    let img = image::RgbImage::new(8, 8);
    let mut jpeg_bytes: Vec<u8> = Vec::new();
    img.write_to(
        &mut std::io::Cursor::new(&mut jpeg_bytes),
        image::ImageFormat::Jpeg,
    )
    .unwrap();

    let original_len = jpeg_bytes.len();
    let mut screenshot = Screenshot {
        data: jpeg_bytes,
        format: ScreenshotFormat::Jpeg,
        width: 100,
        height: 100,
        size_bytes: original_len,
    };

    screenshot.compress(40).unwrap();
    assert_eq!(screenshot.size_bytes, screenshot.data.len());

    let decoded = image::load_from_memory(&screenshot.data).unwrap();
    assert_eq!(decoded.width(), 8);
    assert_eq!(decoded.height(), 8);
}

#[test]
fn test_compress_rejects_png() {
    let mut screenshot = Screenshot {
        data: vec![1, 2, 3],
        format: ScreenshotFormat::Png,
        width: 1,
        height: 1,
        size_bytes: 3,
    };

    assert!(screenshot.compress(80).is_err());
}

#[test]
fn test_browser_executor_config_default() {
    let config = BrowserExecutorConfig::default();
    assert_eq!(config.max_memory_mb, 512);
    assert!(config.headless);
    assert!(config.enable_sandbox);
    assert_eq!(config.viewport_width, 1920);
}

#[test]
fn test_executor_stats_record() {
    let mut stats = ExecutorStats::default();
    stats.record_action(true, 120);
    stats.record_action(false, 30);

    assert_eq!(stats.total_actions, 2);
    assert_eq!(stats.successful_actions, 1);
    assert_eq!(stats.failed_actions, 1);
    assert_eq!(stats.total_execution_time_ms, 150);
}

#[test]
fn test_wait_condition_default() {
    assert_eq!(WaitCondition::default(), WaitCondition::Load);
}
