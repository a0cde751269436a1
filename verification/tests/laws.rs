use touchhle::app_order::order_by_keys;
use touchhle::capture::nv21_to_rgba;
use touchhle::capture_status::capture_log_due;
use touchhle::microphone::MicrophoneCursor;

#[test]
fn keys_are_ordered_stably() {
    let keys: Vec<String> = ["ZED", "ALPHA", "ZED", "AL", "", "ALPHA"]
        .iter()
        .map(|k| k.to_string())
        .collect();
    assert_eq!(order_by_keys(&keys), vec![4, 3, 1, 5, 0, 2]);
    assert_eq!(order_by_keys(&vec![]), Vec::<usize>::new());
    let unicode: Vec<String> = ["É", "Z", "E"].iter().map(|k| k.to_string()).collect();
    assert_eq!(order_by_keys(&unicode), vec![2, 1, 0]);
}

#[test]
fn brighter_luma_only_brightens_its_pixel() {
    let a = [40u8, 90, 200, 17, 81, 200];
    let mut b = a;
    b[1] = 180;
    let ra = nv21_to_rgba(2, 2, &a);
    let rb = nv21_to_rgba(2, 2, &b);
    for k in 0..16 {
        if k / 4 == 1 && k % 4 < 3 {
            assert!(rb[k] >= ra[k]);
        } else {
            assert_eq!(rb[k], ra[k]);
        }
    }
    assert!(rb[4..7] != ra[4..7]);
}

#[test]
fn reads_after_a_reset_are_contiguous() {
    let file_length = 100u64;
    let mut cursor = MicrophoneCursor::new();
    let mut expected_start = 16u64;
    for count in [10usize, 0, 30, 44] {
        let start = cursor.read_start(file_length);
        assert_eq!(start, expected_start);
        cursor.advance(count);
        expected_start += count as u64;
    }
    assert_eq!(cursor.read_start(file_length), 100);
}

#[test]
fn logged_warnings_are_ten_seconds_apart() {
    let times: [u128; 6] = [0, 3_000_000_000, 10_000_000_000, 12_000_000_000, 19_999_999_999, 20_000_000_000];
    let mut last: Option<u128> = None;
    let mut logged = Vec::new();
    for now in times {
        let elapsed = last.and_then(|t| now.checked_sub(t));
        if capture_log_due(elapsed) {
            last = Some(now);
            logged.push(now);
        }
    }
    assert_eq!(logged, vec![0, 10_000_000_000, 20_000_000_000]);
}
