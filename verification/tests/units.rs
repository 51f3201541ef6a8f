use stringbar::units::{format_byte_usage, ByteSizeFormatter, Magnitude, System};

#[test]
fn new() {
    let kibibyte = ByteSizeFormatter::new(System::Binary, Magnitude::Kilo);
    assert_eq!("KiB", kibibyte.get_unit());
    assert_eq!(1024_u64, *kibibyte.get_divisor());

    let exabyte = ByteSizeFormatter::new(System::Decimal, Magnitude::Exa);
    assert_eq!("EB", exabyte.get_unit());
    assert_eq!(1_000_000_000_000_000_000_u64, *exabyte.get_divisor());
}

#[test]
fn fit() {
    let kibibyte = ByteSizeFormatter::fit(1, System::Binary);
    assert_eq!("KiB", kibibyte.get_unit());
    assert_eq!(1024_u64, *kibibyte.get_divisor());

    let exabyte = ByteSizeFormatter::fit(1_000_000_000_000_000_001_u64, System::Decimal);
    assert_eq!("EB", exabyte.get_unit());
    assert_eq!(1_000_000_000_000_000_000_u64, *exabyte.get_divisor());
}

#[test]
fn format() {
    let kib = ByteSizeFormatter::new(System::Binary, Magnitude::Kilo);
    assert_eq!("0.50 KiB".to_string(), kib.format(512));
    let gb = ByteSizeFormatter::new(System::Decimal, Magnitude::Giga);
    assert_eq!("1.00 GB".to_string(), gb.format(1_000_000_000));
}

#[test]
fn fit_zero_keeps_kilo() {
    let formatter = ByteSizeFormatter::fit(0, System::Binary);
    assert_eq!("KiB", formatter.get_unit());
    assert_eq!(1024_u64, *formatter.get_divisor());
    assert_eq!("0.00 KiB".to_string(), formatter.format(0));
}

#[test]
fn fit_clamps_at_exa() {
    let formatter = ByteSizeFormatter::fit(1_000_000_000_000_000_001_u64, System::Decimal);
    assert_eq!(1_000_000_000_000_000_000_u64, *formatter.get_divisor());
    assert_eq!("EB", formatter.get_unit());
    assert_eq!("18.45 EB".to_string(), formatter.format(u64::MAX));
}

#[test]
fn units_are_distinct_and_divisors_positive() {
    let systems = [System::Decimal, System::Binary];
    let magnitudes = [
        Magnitude::Kilo,
        Magnitude::Mega,
        Magnitude::Giga,
        Magnitude::Tera,
        Magnitude::Peta,
        Magnitude::Exa,
    ];
    let mut units: Vec<String> = Vec::new();
    for system in systems {
        for magnitude in magnitudes {
            let formatter = ByteSizeFormatter::new(system, magnitude);
            assert!(*formatter.get_divisor() > 0);
            units.push(formatter.get_unit().to_string());
        }
    }
    for i in 0..units.len() {
        for j in 0..units.len() {
            if i != j {
                assert_ne!(units[i], units[j]);
            }
        }
    }
}

#[test]
fn quotient_rounds_to_hundredths() {
    let kib = ByteSizeFormatter::new(System::Binary, Magnitude::Kilo);
    assert_eq!("0.00 KiB".to_string(), kib.format(1));
    assert_eq!("1.00 KiB".to_string(), kib.format(1024));
    assert_eq!("1.50 KiB".to_string(), kib.format(1536));
    assert_eq!("1024.00 KiB".to_string(), kib.format(1024 * 1024));
}

#[test]
fn byte_usage_shares_the_total_scale() {
    assert_eq!("0.50/1.00 KiB".to_string(), format_byte_usage(512, 1024, false));
    assert_eq!("0.50/1.00 GB".to_string(), format_byte_usage(500_000_000, 1_000_000_000, true));
    assert_eq!("0.00/2.00 MiB".to_string(), format_byte_usage(0, 2 * 1024 * 1024, false));
}
