use alumy::log::rotation::{retained_files, RotationEngine};

/// The sizes of the rotated files, newest first.
fn rotated_sizes(engine: &RotationEngine) -> Vec<u64> {
    let mut sizes = Vec::new();
    let mut index = 1;
    while let Some(size) = engine.rotated_size(index) {
        sizes.push(size);
        index += 1;
    }
    sizes
}

#[test]
fn a_new_engine_has_one_empty_file() {
    let engine = RotationEngine::new(1024, 3, 0);
    assert_eq!(engine.max_size(), 1024);
    assert_eq!(engine.max_files(), 3);
    assert_eq!(engine.current_size(), 0);
    assert_eq!(engine.file_count(), 1);
    assert_eq!(engine.rotated_size(0), None);
    assert_eq!(engine.rotated_size(1), None);
}

#[test]
fn the_retention_count_is_at_least_two() {
    assert_eq!(retained_files(0), 2);
    assert_eq!(retained_files(1), 2);
    assert_eq!(retained_files(2), 2);
    assert_eq!(retained_files(7), 7);
    assert_eq!(RotationEngine::new(10, 0, 0).max_files(), 2);
    assert_eq!(RotationEngine::new(10, 1, 0).max_files(), 2);
    assert_eq!(RotationEngine::new(10, 9, 0).max_files(), 9);
}

#[test]
fn a_write_rotates_when_it_would_exceed_the_limit() {
    let mut engine = RotationEngine::new(100, 3, 0);
    assert!(!engine.write(60));
    assert_eq!(engine.current_size(), 60);
    // 60 + 40 is the limit itself: not over it
    assert!(!engine.should_rotate(40));
    assert!(engine.should_rotate(41));
    assert!(!engine.write(40));
    assert_eq!(engine.current_size(), 100);
    assert!(engine.write(1));
    assert_eq!(engine.current_size(), 1);
    assert_eq!(rotated_sizes(&engine), vec![100]);
    assert_eq!(engine.file_count(), 2);
}

#[test]
fn an_empty_file_is_never_rotated() {
    let mut engine = RotationEngine::new(100, 3, 0);
    assert!(!engine.should_rotate(1000));
    assert!(!engine.write(1000));
    assert_eq!(engine.current_size(), 1000);
    assert_eq!(engine.file_count(), 1);
    // the oversized record leaves with the next write, whatever its size
    assert!(engine.should_rotate(0));
    assert!(engine.write(5));
    assert_eq!(engine.current_size(), 5);
    assert_eq!(rotated_sizes(&engine), vec![1000]);
    // a limit of nothing gives every record a file of its own
    let mut engine = RotationEngine::new(0, 2, 0);
    assert!(!engine.write(0));
    assert!(!engine.write(3));
    assert!(engine.write(4));
    assert!(engine.write(5));
    assert_eq!(rotated_sizes(&engine), vec![4, 3]);
    assert_eq!(engine.current_size(), 5);
}

#[test]
fn sizes_near_the_largest_do_not_wrap() {
    let mut engine = RotationEngine::new(u64::MAX, 2, u64::MAX - 1);
    assert!(!engine.write(1));
    assert_eq!(engine.current_size(), u64::MAX);
    assert!(!engine.write(0));
    assert!(engine.write(1));
    assert_eq!(engine.current_size(), 1);
    assert!(engine.write(u64::MAX));
    assert_eq!(rotated_sizes(&engine), vec![1, u64::MAX]);
    let mut engine = RotationEngine::new(10, 2, u64::MAX);
    assert!(engine.write(u64::MAX));
    assert_eq!(engine.current_size(), u64::MAX);
}

#[test]
fn an_engine_starts_from_the_size_of_the_file() {
    let mut engine = RotationEngine::new(100, 3, 90);
    assert_eq!(engine.current_size(), 90);
    assert!(engine.write(20));
    assert_eq!(rotated_sizes(&engine), vec![90]);
    assert_eq!(engine.current_size(), 20);
}

#[test]
fn rotated_files_move_down_and_the_oldest_goes() {
    let mut engine = RotationEngine::new(10, 3, 0);
    for size in [6u64, 7, 8, 9] {
        engine.write(size);
    }
    assert_eq!(engine.current_size(), 9);
    assert_eq!(rotated_sizes(&engine), vec![8, 7, 6]);
    assert_eq!(engine.file_count(), 4);
    assert!(engine.write(10));
    assert_eq!(engine.current_size(), 10);
    assert_eq!(rotated_sizes(&engine), vec![9, 8, 7]);
    assert_eq!(engine.file_count(), 4);
    assert_eq!(engine.rotated_size(1), Some(9));
    assert_eq!(engine.rotated_size(3), Some(7));
    assert_eq!(engine.rotated_size(4), None);
    assert_eq!(engine.rotated_size(0), None);
}

#[test]
fn one_rotation_leaves_two_files_and_the_rotated_one_within_the_limit() {
    for limit in [1u64, 10, 100, 1024] {
        for record in 1..=limit.min(40) {
            let mut engine = RotationEngine::new(limit, 3, 0);
            let mut rotations = 0;
            while rotations == 0 {
                if engine.write(record) {
                    rotations += 1;
                }
            }
            assert_eq!(engine.file_count(), 2);
            let rotated = engine.rotated_size(1).unwrap();
            assert!(rotated <= limit);
            assert_eq!(rotated, limit / record * record);
            assert_eq!(engine.current_size(), record);
        }
    }
}

#[test]
fn the_files_never_outnumber_the_cap_and_one() {
    for cap in 0u32..6 {
        let mut engine = RotationEngine::new(64, cap, 0);
        let mut x: u64 = 12345;
        for _ in 0..2000 {
            x = x.wrapping_mul(6364136223846793005).wrapping_add(1442695040888963407);
            engine.write((x >> 33) % 100);
            assert!(engine.file_count() <= cap.max(2) as u64 + 1);
        }
        assert_eq!(engine.file_count(), cap.max(2) as u64 + 1);
    }
}

#[test]
fn fifty_records_of_forty_bytes_in_files_of_a_kilobyte() {
    let mut engine = RotationEngine::new(1024, 3, 0);
    let mut rotations = 0;
    for _ in 0..50 {
        if engine.write(40) {
            rotations += 1;
        }
    }
    // 25 records fill a file to 1000 bytes
    assert_eq!(rotations, 1);
    assert!(engine.file_count() >= 2);
    assert!(engine.file_count() <= 4);
    assert_eq!(engine.file_count(), 2);
    assert_eq!(rotated_sizes(&engine), vec![1000]);
    assert_eq!(engine.current_size(), 1000);
}

#[test]
fn after_a_write_the_file_is_within_the_limit_or_holds_that_record_alone() {
    let mut engine = RotationEngine::new(50, 2, 0);
    let mut x: u64 = 99;
    for _ in 0..5000 {
        x = x.wrapping_mul(6364136223846793005).wrapping_add(1442695040888963407);
        let n = (x >> 33) % 80;
        engine.write(n);
        assert!(engine.current_size() <= 50 || engine.current_size() == n);
    }
}
