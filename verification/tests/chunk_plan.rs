use pan_transfer::chunk::{plan_part_count, plan_part_len, PART_SIZE};

const MIB: u64 = 1024 * 1024;

#[test]
fn twelve_mib_file_has_three_parts() {
    let size = 12 * MIB;
    assert_eq!(plan_part_count(size, PART_SIZE), 3);
    assert_eq!(plan_part_len(size, PART_SIZE, 0), 5 * MIB);
    assert_eq!(plan_part_len(size, PART_SIZE, 1), 5 * MIB);
    assert_eq!(plan_part_len(size, PART_SIZE, 2), 2 * MIB);
}

#[test]
fn empty_file_has_no_parts() {
    assert_eq!(plan_part_count(0, PART_SIZE), 0);
}

#[test]
fn exact_multiple_has_full_parts_only() {
    let size = 10 * MIB;
    assert_eq!(plan_part_count(size, PART_SIZE), 2);
    assert_eq!(plan_part_len(size, PART_SIZE, 0), 5 * MIB);
    assert_eq!(plan_part_len(size, PART_SIZE, 1), 5 * MIB);
}

#[test]
fn one_byte_over_a_multiple_adds_a_part() {
    let size = 5 * MIB + 1;
    assert_eq!(plan_part_count(size, PART_SIZE), 2);
    assert_eq!(plan_part_len(size, PART_SIZE, 0), 5 * MIB);
    assert_eq!(plan_part_len(size, PART_SIZE, 1), 1);
}

#[test]
fn tiny_file_is_a_single_short_part() {
    assert_eq!(plan_part_count(42, PART_SIZE), 1);
    assert_eq!(plan_part_len(42, PART_SIZE, 0), 42);
}

#[test]
fn part_sizes_sum_to_file_size() {
    for size in [1, PART_SIZE - 1, PART_SIZE, PART_SIZE + 1, 12 * MIB, 23 * MIB + 17] {
        let n = plan_part_count(size, PART_SIZE);
        let mut total = 0u64;
        for i in 0..n {
            let l = plan_part_len(size, PART_SIZE, i);
            assert!(l >= 1 && l <= PART_SIZE);
            if i < n - 1 {
                assert_eq!(l, PART_SIZE);
            }
            total += l;
        }
        assert_eq!(total, size);
    }
}
