use makeclean::fs::{dir_size, format_size};

#[test]
fn format_size_switches_units_at_three_of_the_next() {
    assert_eq!(format_size(0), "0 B");
    assert_eq!(format_size(3071), "3071 B");
    assert_eq!(format_size(3072), "3 KiB");
    assert_eq!(format_size(4096), "4 KiB");
    assert_eq!(format_size(3 * 1024 * 1024 - 1), "3071 KiB");
    assert_eq!(format_size(3 * 1024 * 1024), "3 MiB");
    assert_eq!(format_size(3 * 1024 * 1024 * 1024), "3 GiB");
    assert_eq!(format_size(3 * 1024 * 1024 * 1024 * 1024), "3 TiB");
    assert_eq!(format_size(u64::MAX), "16777215 TiB");
}

#[test]
fn dir_size_adds_up_the_files_of_a_directory() {
    assert_eq!(dir_size(true, &vec![1, 2, 3]), 6);
    assert_eq!(dir_size(true, &vec![]), 0);
    assert_eq!(dir_size(false, &vec![1, 2, 3]), 0);
    assert_eq!(dir_size(true, &vec![u64::MAX, 1]), u64::MAX);
}
