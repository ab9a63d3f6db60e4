use deepcool_digital_linux::devices::ak400_pro::{checksum_is_valid, encode, template};
use deepcool_digital_linux::devices::mystique::init_packet;
use deepcool_digital_linux::devices::{checksum, TelemetrySample};
use deepcool_digital_linux::utils::status::TemperatureUnit;

fn sample() -> TelemetrySample {
    TelemetrySample {
        power_mw: 667,
        temperature_bits: 45.0f32.to_bits(),
        temperature_unit: TemperatureUnit::Celsius,
        usage_pct: 75,
    }
}

#[test]
fn template_holds_header_and_command() {
    let t = template();
    assert_eq!(t.len(), 64);
    assert_eq!(&t[..8], &[16, 104, 1, 2, 11, 1, 2, 5]);
    assert!(t[8..].iter().all(|&b| b == 0));
}

#[test]
fn report_layout() {
    let report = encode(&template(), &sample());
    assert_eq!(&report[..8], &[16, 104, 1, 2, 11, 1, 2, 5]);
    assert_eq!(&report[8..10], &667u16.to_be_bytes());
    assert_eq!(&report[8..10], &[2, 155]);
    assert_eq!(report[10], 0);
    assert_eq!(&report[11..15], &45.0f32.to_be_bytes());
    assert_eq!(&report[11..15], &[0x42, 0x34, 0, 0]);
    assert_eq!(report[15], 75);
    assert_eq!(report[16], 220);
    assert_eq!(report[17], 22);
    assert!(report[18..].iter().all(|&b| b == 0));
}

#[test]
fn report_in_fahrenheit_sets_the_unit_flag() {
    let mut s = sample();
    s.temperature_unit = TemperatureUnit::Fahrenheit;
    s.temperature_bits = 113.0f32.to_bits();
    let report = encode(&template(), &s);
    assert_eq!(report[10], 1);
    assert_eq!(&report[11..15], &113.0f32.to_be_bytes());
}

#[test]
fn report_keeps_every_temperature_byte() {
    let mut s = sample();
    s.temperature_bits = 0x0102_03ff;
    s.power_mw = 0xfffe;
    s.usage_pct = 255;
    let report = encode(&template(), &s);
    assert_eq!(&report[8..10], &[0xff, 0xfe]);
    assert_eq!(&report[11..15], &[1, 2, 3, 0xff]);
    assert_eq!(report[15], 255);
}

#[test]
fn report_starts_from_the_given_template() {
    let mut base = [7u8; 64];
    base[16] = 99;
    base[17] = 99;
    let report = encode(&base, &sample());
    assert_eq!(&report[..8], &[7; 8]);
    assert_eq!(report[17], 22);
    assert!(report[18..].iter().all(|&b| b == 7));
    let sum: u32 = report[1..16].iter().map(|&b| b as u32).sum();
    assert_eq!(report[16] as u32, sum % 256);
}

#[test]
fn checksum_round_trip() {
    for power in [0u16, 1, 255, 256, 667, 65535] {
        for usage in [0u8, 50, 100] {
            for temp in [0.0f32, 36.6, 90.0, 194.0] {
                let s = TelemetrySample {
                    power_mw: power,
                    temperature_bits: temp.to_bits(),
                    temperature_unit: TemperatureUnit::Celsius,
                    usage_pct: usage,
                };
                let report = encode(&template(), &s);
                let sum: u32 = report[1..16].iter().map(|&b| b as u32).sum();
                assert_eq!(report[16] as u32, sum % 256);
                assert_eq!(report[16], checksum(&report, 1, 16));
                assert!(checksum_is_valid(&report));
            }
        }
    }
}

#[test]
fn damaged_report_fails_the_checksum() {
    let mut report = encode(&template(), &sample());
    report[9] = report[9].wrapping_add(1);
    assert!(!checksum_is_valid(&report));
}

#[test]
fn checksum_is_sum_modulo_256() {
    assert_eq!(checksum(&[1, 2, 3, 4], 0, 4), 10);
    assert_eq!(checksum(&[1, 2, 3, 4], 1, 3), 5);
    assert_eq!(checksum(&[200, 100, 50], 0, 3), 94);
    assert_eq!(checksum(&[9, 9], 1, 1), 0);
    assert_eq!(checksum(&[255; 1000], 0, 1000), ((255u32 * 1000) % 256) as u8);
}

#[test]
fn handshake_is_header_then_zeros() {
    let p = init_packet();
    assert_eq!(p.len(), 48);
    assert_eq!(p[0], 0xaa);
    assert_eq!(p[1], 0x2e);
    assert!(p[2..].iter().all(|&b| b == 0));
}
