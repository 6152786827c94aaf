use aktsql::metrics::{format_bytes, parse_linux_status_rss_bytes, process_memory_label};
use aktsql::schema::{append_index_column, toggle_index_column};

#[test]
fn index_column_append_keeps_comma_list_unique() {
    let mut columns = String::from("name, created_at");

    append_index_column(&mut columns, "NAME");
    assert_eq!(columns, "name, created_at");

    append_index_column(&mut columns, "email");
    assert_eq!(columns, "name, created_at, email");
}

#[test]
fn append_index_column_keeps_comma_list_unique() {
    let mut columns = String::from("name, created_at");

    append_index_column(&mut columns, "NAME");
    assert_eq!(columns, "name, created_at");

    append_index_column(&mut columns, "email");
    assert_eq!(columns, "name, created_at, email");
}

#[test]
fn appending_twice_is_appending_once() {
    let mut once = String::from(" a ,, b");
    append_index_column(&mut once, "c");
    let mut twice = once.clone();
    append_index_column(&mut twice, " C ");
    assert_eq!(once, "a, b, c");
    assert_eq!(twice, once);
}

#[test]
fn toggling_twice_restores_the_list() {
    let mut columns = String::from("a,b");
    toggle_index_column(&mut columns, "c");
    assert_eq!(columns, "a, b, c");
    toggle_index_column(&mut columns, "C");
    assert_eq!(columns, "a, b");
}

#[test]
fn parses_linux_rss_from_proc_status() {
    let status = "Name:\taktsql\nVmRSS:\t  12345 kB\nVmSize:\t  54321 kB\n";

    assert_eq!(parse_linux_status_rss_bytes(status), Some(12_641_280));
}

#[test]
fn rss_is_missing_without_a_number() {
    assert_eq!(parse_linux_status_rss_bytes("Name:\tx\n"), None);
    assert_eq!(parse_linux_status_rss_bytes("VmRSS:\t   \n"), None);
    assert_eq!(parse_linux_status_rss_bytes("VmRSS:\tlots kB\n"), None);
}

#[test]
fn formats_bytes_for_status_bar() {
    assert_eq!(format_bytes(512), "512 B");
    assert_eq!(format_bytes(1024 * 1024), "1.0 MiB");
}

#[test]
fn byte_sizes_round_as_floating_formatting_does() {
    for bytes in [1023u64, 1024, 1075, 1126, 1280, 1536, 10_000, 123_456_789, 5_000_000_000_000] {
        let mut value = bytes as f64;
        let mut unit = 0usize;
        let units = ["B", "KiB", "MiB", "GiB", "TiB"];
        while value >= 1024.0 && unit + 1 < units.len() {
            value /= 1024.0;
            unit += 1;
        }
        let expected = if unit == 0 {
            format!("{bytes} {}", units[unit])
        } else {
            format!("{value:.1} {}", units[unit])
        };
        assert_eq!(format_bytes(bytes), expected);
    }
}

#[test]
fn memory_label_falls_back_to_dashes() {
    assert_eq!(process_memory_label(None), "--");
    assert_eq!(process_memory_label(Some(2048)), "2.0 KiB");
}
