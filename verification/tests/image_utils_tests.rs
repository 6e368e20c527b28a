use jwst_cosmos::utils::image_utils::{
    aspect_ratio_str, float_step, gcd, human_size, nearest_float, round_div, SizePreset,
};

fn reference_human_size(bytes: u64) -> String {
    const KB: u64 = 1024;
    const MB: u64 = 1024 * KB;
    const GB: u64 = 1024 * MB;
    if bytes >= GB {
        format!("{:.1} GB", bytes as f64 / GB as f64)
    } else if bytes >= MB {
        format!("{:.1} MB", bytes as f64 / MB as f64)
    } else if bytes >= KB {
        format!("{:.1} KB", bytes as f64 / KB as f64)
    } else {
        format!("{} B", bytes)
    }
}

#[test]
fn gcd_of_some_numbers() {
    assert_eq!(gcd(0, 0), 0);
    assert_eq!(gcd(0, 7), 7);
    assert_eq!(gcd(7, 0), 7);
    assert_eq!(gcd(1920, 1080), 120);
    assert_eq!(gcd(5120, 2160), 80);
    assert_eq!(gcd(17, 5), 1);
    assert_eq!(gcd(u32::MAX, u32::MAX), u32::MAX);
    assert_eq!(gcd(u32::MAX, 1), 1);
    assert_eq!(gcd(12, 18), gcd(18, 12));
}

#[test]
fn aspect_ratios_have_their_names() {
    assert_eq!(aspect_ratio_str(1920, 1080), "16:9");
    assert_eq!(aspect_ratio_str(3840, 2160), "16:9");
    assert_eq!(aspect_ratio_str(2560, 1440), "16:9");
    assert_eq!(aspect_ratio_str(5120, 2160), "21:9");
    assert_eq!(aspect_ratio_str(2560, 1600), "16:10");
    assert_eq!(aspect_ratio_str(1024, 768), "4:3");
    assert_eq!(aspect_ratio_str(512, 512), "1:1");
    assert_eq!(aspect_ratio_str(21, 9), "7:3");
    assert_eq!(aspect_ratio_str(1080, 1920), "9:16");
    assert_eq!(aspect_ratio_str(0, 5), "0:1");
    assert_eq!(aspect_ratio_str(5, 0), "1:0");
    assert_eq!(aspect_ratio_str(u32::MAX, 1), "4294967295:1");
}

#[test]
fn round_div_rounds_halves_to_even() {
    assert_eq!(round_div(5, 10), 0);
    assert_eq!(round_div(15, 10), 2);
    assert_eq!(round_div(25, 10), 2);
    assert_eq!(round_div(35, 10), 4);
    assert_eq!(round_div(24, 10), 2);
    assert_eq!(round_div(26, 10), 3);
    assert_eq!(round_div(0, 7), 0);
    assert_eq!(round_div(7, 1), 7);
    assert_eq!(round_div(u128::MAX, 1), u128::MAX);
}

#[test]
fn nearest_float_is_what_a_cast_gives() {
    let cases = [
        0u64,
        1,
        (1 << 53) - 1,
        1 << 53,
        (1 << 53) + 1,
        (1 << 53) + 2,
        (1 << 53) + 3,
        (1 << 54) + 2,
        (1 << 54) + 6,
        (1 << 60) + 127,
        (1 << 60) + 128,
        (1 << 60) + 129,
        (1 << 60) + 384,
        u64::MAX - 2048,
        u64::MAX - 1024,
        u64::MAX - 1023,
        u64::MAX,
        0x7FFF_FFFF_FFFF_FFFF,
        0x8000_0000_0000_0400,
        0x8000_0000_0000_0C00,
    ];
    for n in cases {
        assert_eq!(nearest_float(n), (n as f64) as u128, "{n}");
    }
    assert_eq!(float_step(0), 1);
    assert_eq!(float_step((1 << 53) - 1), 1);
    assert_eq!(float_step(1 << 53), 2);
    assert_eq!(float_step(u64::MAX), 2048);
}

#[test]
fn human_size_has_its_units() {
    assert_eq!(human_size(0), "0 B");
    assert_eq!(human_size(1023), "1023 B");
    assert_eq!(human_size(1024), "1.0 KB");
    assert_eq!(human_size(1536), "1.5 KB");
    assert_eq!(human_size(1_048_575), "1024.0 KB");
    assert_eq!(human_size(1_048_576), "1.0 MB");
    assert_eq!(human_size(5 * 1_048_576 + 524_288), "5.5 MB");
    assert_eq!(human_size(1_073_741_824), "1.0 GB");
    assert_eq!(human_size(4_661_211_808), "4.3 GB");
    assert_eq!(human_size(u64::MAX), "17179869184.0 GB");
}

#[test]
fn human_size_agrees_with_float_formatting() {
    let mut cases: Vec<u64> = vec![
        0, 1, 1023, 1024, 1025, 1075, 1076, 1077, 1126, 1127, 1128, 1129, 1178, 1179, 1180, 1229,
        1230, 1280, 1331, 1332, 1333, 10239, 10240, 1_048_524, 1_048_525, 1_048_575, 1_048_576,
        1_100_000, 1_101_004, 1_101_005, 1_153_433, 1_153_434, 1_073_741_823, 1_073_741_824,
        1_127_428_915, 1_127_428_916, 1_181_116_006, 1_181_116_007, 4_661_211_808,
        (1 << 53) - 1, 1 << 53, (1 << 53) + 1, u64::MAX - 1, u64::MAX,
    ];
    // Exact halves of a tenth, in every unit.
    for unit in [1024u64, 1 << 20, 1 << 30] {
        for twentieths in [1u64, 3, 5, 7, 9, 11, 13, 15, 17, 19, 21, 25, 45, 205, 1995, 19999] {
            if (unit * twentieths) % 20 == 0 {
                cases.push(unit + unit * twentieths / 20);
            }
        }
        for k in 1..40u64 {
            cases.push(unit * k / 16);
            cases.push(unit * k / 16 + 1);
            cases.push(unit * k + unit / 4);
            cases.push(unit * k + unit * 3 / 4);
        }
    }
    let mut x: u64 = 0x9E37_79B9_7F4A_7C15;
    for _ in 0..2000 {
        x ^= x << 13;
        x ^= x >> 7;
        x ^= x << 17;
        cases.push(x);
        cases.push(x >> 20);
        cases.push(x >> 34);
        cases.push(x >> 50);
    }
    for bytes in cases {
        assert_eq!(human_size(bytes), reference_human_size(bytes), "{bytes}");
    }
}

#[test]
fn presets_have_sizes_and_names() {
    assert_eq!(SizePreset::Hd.dimensions(), (1920, 1080));
    assert_eq!(SizePreset::Qhd.dimensions(), (2560, 1440));
    assert_eq!(SizePreset::Laptop.dimensions(), (2560, 1600));
    assert_eq!(SizePreset::Uhd4k.dimensions(), (3840, 2160));
    assert_eq!(SizePreset::Ultrawide.dimensions(), (5120, 2160));
    assert_eq!(SizePreset::Custom(640, 480).dimensions(), (640, 480));
    assert_eq!(SizePreset::Hd.name(), "HD (1920x1080)");
    assert_eq!(SizePreset::Qhd.name(), "QHD (2560x1440)");
    assert_eq!(SizePreset::Laptop.name(), "Laptop (2560x1600)");
    assert_eq!(SizePreset::Uhd4k.name(), "4K UHD (3840x2160)");
    assert_eq!(SizePreset::Ultrawide.name(), "Ultrawide (5120x2160)");
    assert_eq!(SizePreset::Custom(1, 2).name(), "Custom");
    assert_eq!(
        SizePreset::all(),
        vec![
            SizePreset::Hd,
            SizePreset::Qhd,
            SizePreset::Laptop,
            SizePreset::Uhd4k,
            SizePreset::Ultrawide
        ]
    );
    assert_eq!(SizePreset::Ultrawide.to_text(), "5120x2160");
    assert_eq!(SizePreset::Custom(0, 7).to_text(), "0x7");
}
