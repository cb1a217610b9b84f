use vitaforge::data::format::{format_bytes, format_size};

#[test]
fn formats_byte_sizes() {
    assert_eq!(format_bytes(512), "512 B");
    assert_eq!(format_bytes(2048), "2 KB");
    assert_eq!(format_bytes(2 * 1024 * 1024), "2.0 MB");
}

#[test]
fn byte_sizes_switch_units_at_each_power() {
    assert_eq!(format_bytes(0), "0 B");
    assert_eq!(format_bytes(1023), "1023 B");
    assert_eq!(format_bytes(1024), "1 KB");
    assert_eq!(format_bytes(1536), "2 KB");
    assert_eq!(format_bytes(2560), "2 KB");
    assert_eq!(format_bytes(1_048_575), "1024 KB");
    assert_eq!(format_bytes(1_073_741_824), "1.0 GB");
    assert_eq!(format_bytes(1_610_612_736), "1.5 GB");
}

#[test]
fn entry_sizes_use_kb_below_a_megabyte() {
    assert_eq!(format_size(0), "0 KB");
    assert_eq!(format_size(512), "0 KB");
    assert_eq!(format_size(1_048_575), "1024 KB");
    assert_eq!(format_size(1_048_576), "1.0 MB");
    assert_eq!(format_size(900_000_000), "858.3 MB");
    assert_eq!(format_size(u64::MAX), format!("{:.1} MB", u64::MAX as f64 / (1024.0 * 1024.0)));
}
