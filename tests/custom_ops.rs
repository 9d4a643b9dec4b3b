use obfuscate_integer::{CustomAssign, CustomInitialize, Eu128, MagicSource, Ou128, Ou8};

#[test]
fn it_works() {
    let mut src = MagicSource::new(0x2au8);
    assert!(&Ou128::from_raw((1, Eu128::SS(1, 2))) + Ou8::new(4, &mut src).value() as u128 == 7);
    assert!(0u8.wrapping_sub(Ou8::new(4, &mut src).value()) > 0);
    assert_eq!(
        {
            let _a = 1;
            let mut a: i32 = CustomInitialize::custom_initialize(0);
            a += 1;
            assert_eq!(1, a);
            for i in 0i32..1 {
                let j: i32 = CustomInitialize::custom_initialize(3);
                assert_eq!(2, j - a + i)
            }
            a.custom_assign(2);
            if a == 2 {
                let j: i32 = CustomInitialize::custom_initialize(1);
                assert_eq!(3, a + j)
            }
            a.custom_assign(6i32);
            if a == 1i32 {
            } else {
                let j: i32 = CustomInitialize::custom_initialize(2);
                assert_eq!(4, a - j)
            }
            while a != 1 {
                a = CustomInitialize::custom_initialize(1);
                assert_eq!(a, 1)
            }
            loop {
                assert_eq!(6, a + 5);
                break {
                    let b: i32 = CustomInitialize::custom_initialize(7);
                    assert_eq!(7, b);
                    b
                };
            };
            assert_eq!(8, a + 7);
            3
        },
        3
    );
}

#[test]
fn custom_assign_writes_through_protocol() {
    let mut src = MagicSource::new(7u8);
    let mut x = Ou8::new_basic(5, &mut src);
    x.custom_assign(200u8);
    assert_eq!(x.value(), 200);
    let r = 17u64;
    let mut y: u64 = CustomInitialize::custom_initialize(&r);
    assert_eq!(y, 17);
    y.custom_assign(&r);
    assert_eq!(y, 17);
    let mut z = 3u64;
    y.custom_assign(&mut z);
    assert_eq!(y, 3);
}

#[test]
fn custom_initialize_builds_nested() {
    let mut src = MagicSource::new(11u8);
    let x: Ou8 = CustomInitialize::custom_initialize((77u8, &mut src));
    assert_eq!(x.value(), 77);
    assert_ne!(src.state, 0x53);
}
