use tubetape::pipeline::StageName;
use tubetape::youtube::extract_video_id;

#[test]
fn test_blocking_stages() {
    assert!(StageName::Initializing.is_blocking());
    assert!(StageName::Downloading.is_blocking());
    assert!(StageName::Converting.is_blocking());
    assert!(!StageName::Waveform.is_blocking());
    assert!(!StageName::BeatDetection.is_blocking());
}

#[test]
fn test_stage_weights_sum_to_100() {
    let total: u32 = StageName::all().iter().map(|s| s.weight()).sum();
    assert!(total == 100, "Stage weights should sum to 100, got {}", total);
}

#[test]
fn stages_in_order() {
    assert_eq!(
        StageName::all(),
        vec![
            StageName::Initializing,
            StageName::Downloading,
            StageName::Converting,
            StageName::Waveform,
            StageName::BeatDetection
        ]
    );
    assert_eq!(StageName::BeatDetection.label(), "Beat Detection");
    assert_eq!(StageName::Downloading.weight(), 40);
}

#[test]
fn video_ids_from_urls() {
    assert_eq!(extract_video_id("https://www.youtube.com/watch?v=dQw4w9WgXcQ&t=4"), Some("dQw4w9WgXcQ".to_string()));
    assert_eq!(extract_video_id("https://youtu.be/-fDfwpghvcg"), Some("-fDfwpghvcg".to_string()));
    assert_eq!(extract_video_id("https://youtube.com/shorts/abcdefghij_"), Some("abcdefghij_".to_string()));
    assert_eq!(extract_video_id("https://youtube.com/watch?v=short"), None);
    assert_eq!(extract_video_id("https://example.com/"), None);
}
