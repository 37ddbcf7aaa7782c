use lanshare::config::{AppConfig, DEFAULT_CHUNK_SIZE, DEFAULT_MAX_CONCURRENT};
use lanshare::util::{calculate_eta, format_bytes, format_speed, get_broadcast_address, u64_to_string};

#[test]
fn bytes_below_a_kilobyte_carry_no_decimals() {
    assert_eq!(format_bytes(0), "0 B");
    assert_eq!(format_bytes(512), "512 B");
    assert_eq!(format_bytes(1023), "1023 B");
}

#[test]
fn larger_sizes_show_two_decimals() {
    assert_eq!(format_bytes(1024), "1.00 KB");
    assert_eq!(format_bytes(1536), "1.50 KB");
    assert_eq!(format_bytes(10 * 1024), "10.00 KB");
    assert_eq!(format_bytes(1_048_576), "1.00 MB");
    assert_eq!(format_bytes(5 * 1_048_576 + 1_048_576 / 4), "5.25 MB");
    assert_eq!(format_bytes(1_073_741_824), "1.00 GB");
    assert_eq!(format_bytes(1_099_511_627_776), "1.00 TB");
}

#[test]
fn rounding_carries_into_the_whole_part() {
    // one byte under a megabyte rounds up to 1024.00 KB, not 1.00 MB
    assert_eq!(format_bytes(1_048_575), "1024.00 KB");
}

#[test]
fn speed_is_bytes_per_second() {
    assert_eq!(format_speed(2048), "2.00 KB/s");
    assert_eq!(format_speed(0), "0 B/s");
}

#[test]
fn eta_needs_a_nonzero_speed() {
    assert_eq!(calculate_eta(1000, 0), None);
    assert_eq!(calculate_eta(1000, 100), Some(10));
    assert_eq!(calculate_eta(999, 100), Some(9));
    assert_eq!(calculate_eta(0, 5), Some(0));
}

#[test]
fn decimal_rendering() {
    assert_eq!(u64_to_string(0), "0");
    assert_eq!(u64_to_string(7), "7");
    assert_eq!(u64_to_string(10), "10");
    assert_eq!(u64_to_string(65_536), "65536");
    assert_eq!(u64_to_string(u64::MAX), "18446744073709551615");
}

#[test]
fn broadcast_address_masks_the_last_octet() {
    assert_eq!(get_broadcast_address(Some([192, 168, 1, 42])), "192.168.1.255");
    assert_eq!(get_broadcast_address(Some([10, 0, 0, 1])), "10.0.0.255");
    assert_eq!(get_broadcast_address(None), "255.255.255.255");
}

#[test]
fn config_defaults_match_the_shipped_file() {
    let c = AppConfig::default();
    assert_eq!(c.network.discovery_port, 7878);
    assert_eq!(c.network.transfer_port, 7879);
    assert_eq!(c.network.web_port, 3030);
    assert_eq!(c.network.broadcast_interval, 2);
    assert_eq!(c.transfer.chunk_size, DEFAULT_CHUNK_SIZE);
    assert_eq!(c.transfer.max_concurrent, DEFAULT_MAX_CONCURRENT);
    assert_eq!(c.ui.theme, "dark");
}
