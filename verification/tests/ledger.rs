use embark_core::decimal::u32_to_dec;
use embark_core::resources::{Resource, ResourceName, Resources};

fn sample_ledger() -> Resources {
    Resources {
        energy: Resource { cur_val: 100, max_val: 100 },
        iron_ore: Resource { cur_val: 0, max_val: 100 },
        bauxite: Resource { cur_val: 0, max_val: 100 },
        sandstone: Resource { cur_val: 0, max_val: 100 },
    }
}

#[test]
fn accumulate_stays_in_bounds() {
    let mut r = Resource { cur_val: 50, max_val: 100 };
    let deltas: [i32; 8] = [30, 30, 30, -500, 7, i32::MAX, i32::MIN, 12];
    for d in deltas {
        r.add_or_max(d);
        assert!(r.cur_val <= r.max_val);
    }
}

#[test]
fn accumulate_exact_values() {
    let mut r = Resource { cur_val: 50, max_val: 100 };
    r.add_or_max(30);
    assert_eq!(r.cur_val, 80);
    r.add_or_max(30);
    assert_eq!(r.cur_val, 100); // clamped at max
    r.add_or_max(-250);
    assert_eq!(r.cur_val, 0); // clamped at zero
    r.add_or_max(17);
    assert_eq!(r.cur_val, 17);
    assert_eq!(r.max_val, 100);
}

#[test]
fn accumulate_by_name_touches_only_that_entry() {
    let mut l = sample_ledger();
    l.accumulate(ResourceName::IronOre, 42);
    assert_eq!(l.iron_ore.cur_val, 42);
    assert_eq!(l.energy.cur_val, 100);
    assert_eq!(l.bauxite.cur_val, 0);
    assert_eq!(l.sandstone.cur_val, 0);
    l.accumulate(ResourceName::Bauxite, 7);
    l.accumulate(ResourceName::Sandstone, 9);
    l.accumulate(ResourceName::Energy, -40);
    assert_eq!(l.bauxite.cur_val, 7);
    assert_eq!(l.sandstone.cur_val, 9);
    assert_eq!(l.energy.cur_val, 60);
}

#[test]
fn peek_reads_the_named_entry() {
    let mut l = sample_ledger();
    l.accumulate(ResourceName::Bauxite, 3);
    assert_eq!(l.peek(ResourceName::Bauxite), Resource { cur_val: 3, max_val: 100 });
    assert_eq!(l.peek(ResourceName::Energy), Resource { cur_val: 100, max_val: 100 });
}

#[test]
fn decimal_rendering_exact() {
    assert_eq!(u32_to_dec(0), "0");
    assert_eq!(u32_to_dec(7), "7");
    assert_eq!(u32_to_dec(10), "10");
    assert_eq!(u32_to_dec(100), "100");
    assert_eq!(u32_to_dec(90210), "90210");
    assert_eq!(u32_to_dec(u32::MAX), "4294967295");
}

#[test]
fn display_formats_name_and_values() {
    let r = Resource { cur_val: 42, max_val: 100 };
    let name = String::from("energy");
    assert_eq!(r.display(&name), "energy: 42 / 100");
    let full = Resource { cur_val: 100, max_val: 100 };
    assert_eq!(full.display(&String::from("batteries")), "batteries: 100 / 100");
}
