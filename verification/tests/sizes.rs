use serialize_rust::report::format_size;
use serialize_rust::text::push_decimal;
use serialize_rust::text::push_digit;

fn in_floating_point(bytes: usize) -> String {
    const KB: usize = 1024;
    const MB: usize = KB * 1024;
    const GB: usize = MB * 1024;
    const TB: usize = GB * 1024;
    if bytes >= TB {
        format!("{:.2} TB", bytes as f64 / TB as f64)
    } else if bytes >= GB {
        format!("{:.2} GB", bytes as f64 / GB as f64)
    } else if bytes >= MB {
        format!("{:.2} MB", bytes as f64 / MB as f64)
    } else if bytes >= KB {
        format!("{:.2} KB", bytes as f64 / KB as f64)
    } else {
        format!("{} bytes", bytes)
    }
}

#[test]
fn format_size_below_a_kilobyte_is_in_bytes() {
    assert_eq!(format_size(0), "0 bytes");
    assert_eq!(format_size(7), "7 bytes");
    assert_eq!(format_size(1023), "1023 bytes");
}

#[test]
fn format_size_picks_the_largest_unit_reached() {
    assert_eq!(format_size(1024), "1.00 KB");
    assert_eq!(format_size(1536), "1.50 KB");
    assert_eq!(format_size(1_048_576), "1.00 MB");
    assert_eq!(format_size(268_435_456), "256.00 MB");
    assert_eq!(format_size(1_073_741_824), "1.00 GB");
    assert_eq!(format_size(1_099_511_627_776), "1.00 TB");
}

#[test]
fn format_size_rounds_a_tie_to_the_even_hundredth() {
    assert_eq!(format_size(1152), "1.12 KB");
    assert_eq!(format_size(1408), "1.38 KB");
    assert_eq!(format_size(1_048_575), "1024.00 KB");
}

#[test]
fn format_size_agrees_with_floating_point_on_small_sizes() {
    for bytes in 0..300_000usize {
        assert_eq!(format_size(bytes), in_floating_point(bytes));
    }
}

#[test]
fn format_size_agrees_with_floating_point_across_the_range() {
    let mut bytes: u64 = 1;
    let mut state: u64 = 0x9E37_79B9_7F4A_7C15;
    for _ in 0..200_000 {
        state = state.wrapping_mul(6364136223846793005).wrapping_add(1442695040888963407);
        let width = (state >> 58) as u32 + 1;
        bytes = (state.rotate_left(17) ^ bytes) >> (64 - width);
        assert_eq!(format_size(bytes as usize), in_floating_point(bytes as usize));
    }
}

#[test]
fn format_size_agrees_with_floating_point_at_the_limits_of_precision() {
    let edges: [u64; 12] = [
        (1 << 53) - 1,
        1 << 53,
        (1 << 53) + 1,
        (1 << 54) - 1,
        (1 << 54) + 2,
        (1 << 60) + 128,
        (1 << 63) - 1,
        (1 << 63) + 1024,
        (1 << 63) + 3072,
        u64::MAX - 1024,
        u64::MAX - 1,
        u64::MAX,
    ];
    for bytes in edges {
        assert_eq!(format_size(bytes as usize), in_floating_point(bytes as usize));
    }
}

#[test]
fn push_decimal_appends_the_digits_without_leading_zeros() {
    let mut text = String::from("n=");
    push_decimal(&mut text, 0);
    assert_eq!(text, "n=0");
    push_decimal(&mut text, 1234567890);
    assert_eq!(text, "n=01234567890");
    let mut largest = String::new();
    push_decimal(&mut largest, u64::MAX);
    assert_eq!(largest, "18446744073709551615");
    let mut round = String::new();
    push_decimal(&mut round, 1000);
    assert_eq!(round, "1000");
}

#[test]
fn push_digit_appends_one_character() {
    let mut text = String::new();
    for d in 0..10u8 {
        push_digit(&mut text, d);
    }
    assert_eq!(text, "0123456789");
}
