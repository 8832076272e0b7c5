use schoice::progress::{percent_hundredths, progress_line, DownloadProgress};
use schoice::update::{UpdateAction, UpdateController, UpdateEvent, CheckOutcome};

#[test]
fn percentage_after_two_chunks_of_a_known_total() {
    let mut p = DownloadProgress::new();
    assert_eq!(p.record(30, Some(100)), "downloaded 30.00%");
    assert_eq!(p.record(20, Some(100)), "downloaded 50.00%");
    assert_eq!(p.downloaded(), 50);
    assert_eq!(percent_hundredths(50, 100), 5000);
}

#[test]
fn byte_count_after_two_chunks_of_an_unknown_total() {
    let mut p = DownloadProgress::new();
    assert_eq!(p.record(10, None), "10 bytes");
    assert_eq!(p.record(5, None), "15 bytes");
    assert_eq!(p.downloaded(), 15);
}

#[test]
fn count_never_goes_down() {
    let mut p = DownloadProgress::new();
    let mut last = p.downloaded();
    for d in [0u64, 7, 0, 1, 4096, 3] {
        p.record(d, Some(10_000));
        assert!(p.downloaded() >= last);
        last = p.downloaded();
    }
    assert_eq!(last, 4107);
}

#[test]
fn percentage_rounds_to_nearest_hundredth() {
    assert_eq!(percent_hundredths(1, 3), 3333);
    assert_eq!(percent_hundredths(2, 3), 6667);
    assert_eq!(percent_hundredths(1, 16000), 1);
    assert_eq!(percent_hundredths(1, 40000), 0);
    assert_eq!(progress_line(2, Some(3)), "downloaded 66.67%");
    assert_eq!(progress_line(1, Some(8)), "downloaded 12.50%");
    assert_eq!(progress_line(0, Some(8)), "downloaded 0.00%");
    assert_eq!(progress_line(1, Some(16000)), "downloaded 0.01%");
}

#[test]
fn full_download_of_largest_size() {
    assert_eq!(progress_line(u64::MAX, Some(u64::MAX)), "downloaded 100.00%");
    assert_eq!(progress_line(u64::MAX, None), "18446744073709551615 bytes");
}

#[test]
fn zero_total_falls_back_to_byte_count() {
    assert_eq!(progress_line(7, Some(0)), "7 bytes");
    assert_eq!(progress_line(0, None), "0 bytes");
}

#[test]
fn controller_count_starts_at_zero_for_a_download() {
    let mut c = UpdateController::new(false);
    c.step(UpdateEvent::Start);
    c.step(UpdateEvent::Preference(Some(true)));
    c.step(UpdateEvent::Checked(CheckOutcome::Found));
    assert_eq!(c.step(UpdateEvent::Answer(true)), UpdateAction::DownloadAndInstall);
    assert_eq!(c.downloaded(), 0);
    assert_eq!(c.record_progress(30, Some(100)), "downloaded 30.00%");
    assert_eq!(c.record_progress(20, Some(100)), "downloaded 50.00%");
    assert_eq!(c.downloaded(), 50);
}
