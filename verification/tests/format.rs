use relay_metrics::fmt::format_bytes;
use relay_metrics::get_listen_addrs;

#[test]
fn bytes_below_one_kib_shown_whole() {
    assert_eq!(format_bytes(0), "0 B");
    assert_eq!(format_bytes(1), "1 B");
    assert_eq!(format_bytes(512), "512 B");
    assert_eq!(format_bytes(1023), "1023 B");
}

#[test]
fn kib_shown_with_one_decimal() {
    assert_eq!(format_bytes(1024), "1.0 KB");
    assert_eq!(format_bytes(1536), "1.5 KB");
    assert_eq!(format_bytes(10 * 1024), "10.0 KB");
    assert_eq!(format_bytes(1048575), "1024.0 KB");
}

#[test]
fn mib_and_gib_scaled() {
    assert_eq!(format_bytes(1048576), "1.0 MB");
    assert_eq!(format_bytes(5 * 1048576 + 1048576 / 2), "5.5 MB");
    assert_eq!(format_bytes(1073741824), "1.0 GB");
    assert_eq!(format_bytes(3 * 1073741824 + 1073741824 / 4), "3.2 GB");
}

#[test]
fn rounding_is_half_to_even() {
    // 1280 B is exactly 1.25 KiB: the tie rounds to the even tenth.
    assert_eq!(format_bytes(1280), "1.2 KB");
    // 1792 B is exactly 1.75 KiB.
    assert_eq!(format_bytes(1792), "1.8 KB");
    // 1100 B is about 1.074 KiB, rounding up to 1.1.
    assert_eq!(format_bytes(1100), "1.1 KB");
}

#[test]
fn listen_addrs_cover_ipv4_and_ipv6() {
    let addrs = get_listen_addrs();
    assert_eq!(
        addrs,
        vec!["/ip4/0.0.0.0/tcp/3000/ws".to_string(), "/ip6/::/tcp/3000/ws".to_string()]
    );
}
