use obfuscate_integer::{
    Eu8, MagicSource, ObfuscatedInt, Oi128, Oi16, Oi32, Oi64, Oi8, Ou128, Ou16, Ou32, Ou64, Ou8,
    VariantNode,
};

fn layout<T: std::fmt::Debug>(x: &ObfuscatedInt<T>) -> String {
    format!("{:?}", x)
}

#[test]
fn constructors_round_trip_u8() {
    let mut src = MagicSource::new(0x11u8);
    for v in 0..=255u8 {
        assert_eq!(Ou8::new_basic(v, &mut src).value(), v);
        assert_eq!(Ou8::new(v, &mut src).value(), v);
        assert_eq!(Ou8::new_cssc(v, &mut src).value(), v);
        let c = Ou8::new_basic(v ^ 0x5a, &mut src);
        assert_eq!(Ou8::new_sc(v, c, &mut src).value(), v);
        let c = Ou8::new(v.wrapping_mul(3), &mut src);
        assert_eq!(Ou8::new_cs(v, c, &mut src).value(), v);
    }
}

#[test]
fn constructors_round_trip_all_widths() {
    let mut s8 = MagicSource::new(1i8);
    for v in [i8::MIN, -1, 0, 1, i8::MAX] {
        assert_eq!(Oi8::new_cssc(v, &mut s8).value(), v);
    }
    let mut s16 = MagicSource::new(1i16);
    for v in [i16::MIN, -1, 0, 1, i16::MAX] {
        assert_eq!(Oi16::new(v, &mut s16).value(), v);
    }
    let mut s32 = MagicSource::new(1i32);
    for v in [i32::MIN, -1, 0, 1, i32::MAX] {
        assert_eq!(Oi32::new_basic(v, &mut s32).value(), v);
    }
    let mut s64 = MagicSource::new(1i64);
    for v in [i64::MIN, -1, 0, 1, i64::MAX] {
        assert_eq!(Oi64::new_cssc(v, &mut s64).value(), v);
    }
    let mut s128 = MagicSource::new(1i128);
    for v in [i128::MIN, -1, 0, 1, i128::MAX] {
        assert_eq!(Oi128::new(v, &mut s128).value(), v);
    }
    let mut t16 = MagicSource::new(1u16);
    let mut t32 = MagicSource::new(1u32);
    let mut t64 = MagicSource::new(1u64);
    let mut t128 = MagicSource::new(1u128);
    assert_eq!(Ou16::new_cssc(u16::MAX, &mut t16).value(), u16::MAX);
    assert_eq!(Ou32::new_cssc(u32::MAX, &mut t32).value(), u32::MAX);
    assert_eq!(Ou64::new_cssc(u64::MAX, &mut t64).value(), u64::MAX);
    assert_eq!(Ou128::new_cssc(u128::MAX, &mut t128).value(), u128::MAX);
}

#[test]
fn basic_layout_is_value_and_draw() {
    let mut src = MagicSource::new(0u8);
    let x = Ou8::new_basic(5, &mut src);
    assert_eq!(x.status, 5);
    match *x.val {
        VariantNode::SS(a, b) => {
            assert_eq!(a, 5 ^ 0x53);
            assert_eq!(b, 0x53);
        }
        _ => panic!("basic builds two leaves"),
    }
}

#[test]
fn thousand_writes_read_back() {
    let mut src = MagicSource::new(9u32);
    let mut x = Ou32::new_cssc(0, &mut src);
    let mut y = Ou32::new(0, &mut src);
    let mut seen_reseed = false;
    let mut v: u32 = 12345;
    for _ in 0..1200 {
        if x.status & 31 == 0 {
            seen_reseed = true;
        }
        v = v.wrapping_mul(1103515245).wrapping_add(12345);
        x.assign(v);
        assert_eq!(x.value(), v);
        y.assign(!v);
        assert_eq!(y.value(), !v);
    }
    assert!(seen_reseed);
}

#[test]
fn writes_on_every_width() {
    let mut s = MagicSource::new(3i64);
    let mut x = Oi64::new_cssc(-5, &mut s);
    for k in 0..100i64 {
        x.assign(k * -7919);
        assert_eq!(x.value(), k * -7919);
    }
    let mut s = MagicSource::new(3u128);
    let mut x = Ou128::new(1, &mut s);
    for k in 0..100u128 {
        x.assign(k << 100);
        assert_eq!(x.value(), k << 100);
    }
    let mut s = MagicSource::new(3i8);
    let mut x = Oi8::new_basic(0, &mut s);
    for k in -128..=127i8 {
        x.assign(k);
        assert_eq!(x.value(), k);
    }
}

#[test]
fn rewriting_same_value_changes_layout() {
    let mut src = MagicSource::new(77u16);
    let mut x = Ou16::new_cssc(4321, &mut src);
    let mut phases = [false; 32];
    for _ in 0..64 {
        phases[(x.status & 31) as usize] = true;
        let before = layout(&x);
        let v = x.value();
        x.assign(v);
        assert_eq!(x.value(), 4321);
        assert_ne!(layout(&x), before);
    }
    assert!(phases.iter().all(|p| *p));
}

#[test]
fn add_assign_wraps() {
    let mut src = MagicSource::new(1u8);
    let mut x = Ou8::new(250, &mut src);
    x += 10;
    assert_eq!(x.value(), 4);
    x += 0;
    assert_eq!(x.value(), 4);
    let mut s = MagicSource::new(1i32);
    let mut y = Oi32::new_cssc(i32::MAX, &mut s);
    y += 1;
    assert_eq!(y.value(), i32::MIN);
    y += -5;
    assert_eq!(y.value(), i32::MIN.wrapping_sub(5));
    assert_eq!(&y + 5, i32::MIN);
}

#[test]
fn comparisons_follow_values() {
    let mut src = MagicSource::new(5i16);
    let a = Oi16::new(-3, &mut src);
    let b = Oi16::new_cssc(-3, &mut src);
    let c = Oi16::new_basic(10, &mut src);
    assert!(a == b);
    assert!(a != c);
    assert!(a < c);
    assert!(c > b);
    assert!(a <= b && a >= b);
    assert!(a == -3);
    assert!(a != 3);
    assert!(a < 0);
    assert!(c >= 10);
    assert!(c > -100);
    assert_eq!(a.partial_cmp(&c), Some(std::cmp::Ordering::Less));
    assert_eq!(c.partial_cmp(&10), Some(std::cmp::Ordering::Equal));
}

#[test]
fn scenario_one_cell_then_reseed() {
    let mut src = MagicSource::new(0u8);
    let mut x = Ou8::new_basic(5, &mut src);
    assert_eq!(x.status & 31, 5);
    let (a0, b0) = match *x.val {
        VariantNode::SS(a, b) => (a, b),
        _ => panic!("basic builds two leaves"),
    };
    x.assign(9);
    assert_eq!(x.value(), 9);
    match *x.val {
        VariantNode::SS(a, b) => {
            assert_eq!(a, a0 ^ 9 ^ 5);
            assert_eq!(b, b0);
        }
        _ => panic!("shape changed"),
    }
    assert_eq!(x.status, 5u8.wrapping_add(0x53));
    let mut reseeds = 0;
    for k in 0..27u8 {
        let old = x.value();
        let (a, b) = match *x.val {
            VariantNode::SS(a, b) => (a, b),
            _ => panic!("shape changed"),
        };
        let reseed = x.status & 31 == 0;
        let v = k.wrapping_mul(37);
        x.assign(v);
        assert_eq!(x.value(), v);
        let (a2, b2) = match *x.val {
            VariantNode::SS(a, b) => (a, b),
            _ => panic!("shape changed"),
        };
        if reseed {
            reseeds += 1;
            let r = 183u8.wrapping_add(old.wrapping_mul(0x53));
            assert_eq!(a2, a ^ v ^ old ^ r);
            assert_eq!(b2, b ^ r);
        } else {
            assert!(a2 == a || b2 == b);
        }
    }
    assert_eq!(reseeds, 1);
}

#[test]
fn nested_write_touches_one_child() {
    let mut src = MagicSource::new(0u8);
    let mut x = Ou8::new(100, &mut src);
    assert_eq!(x.status & 31, 100 & 31);
    let before: Vec<String> = match &*x.val {
        VariantNode::CC(c1, c2) => vec![format!("{:?}", c1), format!("{:?}", c2)],
        _ => panic!("nested builds two children"),
    };
    x.assign(1);
    assert_eq!(x.value(), 1);
    match &*x.val {
        VariantNode::CC(c1, c2) => {
            assert_ne!(format!("{:?}", c1), before[0]);
            assert_eq!(format!("{:?}", c2), before[1]);
        }
        _ => panic!("shape changed"),
    }
}

#[test]
fn draw_steps_the_counter() {
    let mut src = MagicSource::new(9u8);
    assert_eq!(src.state, 0x53);
    assert_eq!(src.draw(), 0x53);
    assert_eq!(src.state, 105);
    assert_eq!(src.entropy, 9);
    let mut wide = MagicSource::new(0u64);
    assert_eq!(wide.draw(), 0x3000_0000_0078_7853);
    assert_eq!(MagicSource::new(0i128).state, 0x78_7853_0000_0000_0078_7853);
}

#[test]
fn fixed_point_reseeds_from_entropy() {
    let fixed = 0x55u8;
    assert_eq!(fixed.wrapping_mul(fixed.wrapping_add(1)).wrapping_mul(6).wrapping_add(1), fixed);
    let mut src = MagicSource::from_state(fixed, 0x2a);
    assert_eq!(src.draw(), 0x55);
    assert_eq!(src.state, 0x2a);
    assert_eq!(src.draw(), 0x2a);
    assert_ne!(src.state, 0x2a);
    let mut wide = MagicSource::from_state(0x5555_5555u32, 7);
    assert_eq!(wide.draw(), 0x5555_5555);
    assert_eq!(wide.state, 7);
    let mut s = MagicSource::from_state(0x55u8, 0x2a);
    let x = Ou8::new_basic(3, &mut s);
    assert_eq!(x.value(), 3);
    assert_eq!(s.state, 0x2a);
}

#[test]
fn raw_parts_round_trip() {
    let x = Ou8::from_raw((7, Eu8::SC(3, Ou8::from_raw((1, Eu8::SS(4, 6))))));
    assert_eq!(x.value(), 3 ^ 4 ^ 6);
    let (status, node) = x.into_raw();
    assert_eq!(status, 7);
    match node {
        VariantNode::SC(a, c) => {
            assert_eq!(a, 3);
            assert_eq!(c.value(), 2);
        }
        _ => panic!("wrong node"),
    }
}

#[test]
fn pointer_width_integers() {
    let mut s = MagicSource::new(5usize);
    let mut x = obfuscate_integer::Ousize::new_cssc(usize::MAX, &mut s);
    assert_eq!(x.value(), usize::MAX);
    for k in 0..200usize {
        x.assign(k.wrapping_mul(0x9e37_79b9));
        assert_eq!(x.value(), k.wrapping_mul(0x9e37_79b9));
    }
    x += 7;
    assert_eq!(x.value(), 199usize.wrapping_mul(0x9e37_79b9).wrapping_add(7));
    let mut t = MagicSource::new(-5isize);
    let mut y = obfuscate_integer::Oisize::new(isize::MIN, &mut t);
    assert_eq!(y.value(), isize::MIN);
    y += -1;
    assert_eq!(y.value(), isize::MAX);
    assert!(y > 0);
    let fixed = usize::MAX / 3;
    assert_eq!(fixed.wrapping_mul(fixed.wrapping_add(1)).wrapping_mul(6).wrapping_add(1), fixed);
    let mut f = MagicSource::from_state(fixed, 3);
    assert_eq!(f.draw(), fixed);
    assert_eq!(f.state, 3);
}
