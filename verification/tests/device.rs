use drmem::device::{Base, ColorType, DeviceValue, Flt, ReadWriteCompat};
use drmem::driver::ro_device::ReadOnlyDevice;
use drmem::time::{from_secs, saturating_duration_since};

fn flt(v: f64) -> Flt {
    Flt { bits: v.to_bits() }
}

fn numbers() -> Vec<f64> {
    vec![
        0.0,
        -0.0,
        1.0,
        -1.0,
        99.999,
        100.0,
        100.00000000000001,
        f64::MIN_POSITIVE,
        -f64::MIN_POSITIVE,
        5e-324,
        -5e-324,
        f64::MAX,
        f64::MIN,
        f64::INFINITY,
        f64::NEG_INFINITY,
        f64::NAN,
        -f64::NAN,
    ]
}

#[test]
fn numbers_compare_like_floating_point_numbers() {
    for a in numbers() {
        for b in numbers() {
            assert_eq!(flt(a).equals(&flt(b)), a == b, "{} == {}", a, b);
            assert_eq!(flt(a).less_than(&flt(b)), a < b, "{} < {}", a, b);
        }
    }
}

#[test]
fn clamping_keeps_to_percentages() {
    for a in numbers() {
        let clamped = flt(a).clamp_percent();
        assert_eq!(clamped.bits, a.clamp(0.0, 100.0).to_bits(), "{}", a);
        assert_eq!(clamped.clamp_percent(), clamped);
    }
    assert_eq!(flt(150.0).clamp_percent(), Flt::hundred());
    assert_eq!(flt(-3.0).clamp_percent(), Flt::zero());
    assert_eq!(f64::from_bits(Flt::hundred().bits), 100.0);
}

fn values() -> Vec<DeviceValue> {
    vec![
        DeviceValue::Bool(true),
        DeviceValue::Int(1),
        DeviceValue::Flt(flt(1.0)),
        DeviceValue::Str(String::from("1")),
        DeviceValue::Color(ColorType::Ccta { kelvin: 1, a: 1 }),
    ]
}

#[test]
fn values_have_types() {
    for (i, a) in values().iter().enumerate() {
        for (j, b) in values().iter().enumerate() {
            assert_eq!(a.is_same_type(b), i == j);
            assert_eq!(a.same(b), i == j);
        }
        assert!(a.duplicate().same(a));
    }
    assert!(DeviceValue::Int(1).is_same_type(&DeviceValue::Int(2)));
    assert!(!DeviceValue::Int(1).same(&DeviceValue::Int(2)));
    assert!(DeviceValue::Flt(flt(0.0)).same(&DeviceValue::Flt(flt(-0.0))));
    assert!(String::from("a").same(&String::from("a")));
    assert!(!String::from("a").same(&String::from("b")));
}

#[test]
fn names_are_plain_text() {
    let base = Base { name: String::from("lamp") };
    assert_eq!(base.name, "lamp");
}

#[test]
fn time_is_counted_in_nanoseconds() {
    assert_eq!(from_secs(5), 5_000_000_000);
    assert_eq!(from_secs(u64::MAX), u64::MAX as u128 * 1_000_000_000);
    assert_eq!(saturating_duration_since(7, 3), 4);
    assert_eq!(saturating_duration_since(3, 7), 0);
}

#[test]
fn read_only_device_remembers_its_reading() {
    let mut dev = ReadOnlyDevice::<bool>::new();
    assert_eq!(dev.last, None);
    assert!(dev.report_update(true));
    assert_eq!(dev.last, Some(true));
}
