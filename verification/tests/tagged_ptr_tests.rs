use tagged_ptr::packable3::F32Bits;
use tagged_ptr::tagged_ptr::{Packed, Ref, RefMut, Unpacked};

type X = Unpacked<u16, u32, u32>;
type Y = Packed<u16, u32, u32>;

fn get_first(unpacked: X) -> u16 {
    match unpacked {
        Unpacked::A(x) => x,
        _ => panic!(),
    }
}

#[test]
fn test_pack_unpack() {
    let init: u16 = 256;
    let x: X = Unpacked::A(init);
    let y: Y = x.pack();
    {
        match y.unpack_ref().get() {
            &Unpacked::A(x) => assert!(x == init),
            _ => assert!(false),
        };
    }
    assert!(get_first(y.unpack()) == init);
}

#[test]
fn test_pack_mut() {
    let init: u16 = 256;
    let x: X = Unpacked::A(init);
    let mut y: Y = x.pack();
    {
        let mut m = y.unpack_mut();
        if let Unpacked::A(v) = *m.get() {
            m.set(Unpacked::A(v + 16));
        }
        m.finish(&mut y);
    }
    assert!(get_first(y.unpack()) == init + 16);
}

#[test]
fn test_mut_view_variant_change() {
    let mut y: Y = Unpacked::B(16u32).pack();
    {
        let mut m = y.unpack_mut();
        m.set(Unpacked::A(10u16));
        m.finish(&mut y);
    }
    assert!(get_first(y.unpack()) == 10);
}

#[test]
fn test_read_view_non_destructive() {
    let y: Y = Unpacked::C(77u32).pack();
    {
        let r = y.unpack_ref();
        assert!(matches!(*r.get(), Unpacked::C(77)));
    }
    {
        let r = y.unpack_ref();
        assert!(matches!(*r.get(), Unpacked::C(77)));
    }
    assert!(matches!(y.unpack(), Unpacked::C(77)));
}

type Full = Unpacked<u16, u32, i16, i32, bool, F32Bits, (), ()>;

#[test]
fn test_tag_fidelity_all_slots() {
    let values: [Full; 8] = [
        Unpacked::A(1u16),
        Unpacked::B(2u32),
        Unpacked::C(-3i16),
        Unpacked::D(-4i32),
        Unpacked::E(true),
        Unpacked::F(F32Bits::new(5.0f32.to_bits())),
        Unpacked::G(()),
        Unpacked::H(()),
    ];
    for (k, v) in values.into_iter().enumerate() {
        let p = Packed::pack(v.clone());
        let u = p.unpack();
        let tag = match &u {
            Unpacked::A(_) => 0,
            Unpacked::B(_) => 1,
            Unpacked::C(_) => 2,
            Unpacked::D(_) => 3,
            Unpacked::E(_) => 4,
            Unpacked::F(_) => 5,
            Unpacked::G(_) => 6,
            Unpacked::H(_) => 7,
        };
        assert_eq!(tag, k);
        assert!(u == v);
    }
}

#[test]
fn test_get_ptr_bits() {
    let p: Y = Unpacked::A(5u16).pack();
    assert_eq!(p.get_ptr_bits(), 5);
    let q: Y = Unpacked::B(0xffff_ffffu32).pack();
    assert_eq!(q.get_ptr_bits(), 0xffff_ffff);
}

#[test]
fn test_ref_wraps_value() {
    let r = Ref::new(42u64);
    assert_eq!(*r.get(), 42);
}

#[test]
fn test_unpacked_pack_unpack_forwarders() {
    let v: X = Unpacked::B(9u32);
    let p = v.clone().pack();
    let u = Unpacked::unpack(p);
    assert!(u == v);
}

// The example scenario: five participant slots (two word-sized stand-ins,
// a 32-bit float pattern, a 32-bit unsigned integer, a boolean; unit fills
// the rest), a float constructed, updated in place through a mutable view,
// and consumed.
type ThinVal = Packed<u16, u16, F32Bits, u32, bool>;

#[test]
fn test_scenario_float_update() {
    let mut y: ThinVal = Unpacked::C(F32Bits::new(1.6f32.to_bits())).pack();
    {
        let mut m = y.unpack_mut();
        let updated = match *m.get() {
            Unpacked::C(f) => F32Bits::new((f32::from_bits(f.bits) + 4.8f32).to_bits()),
            _ => panic!(),
        };
        m.set(Unpacked::C(updated));
        m.finish(&mut y);
    }
    match y.unpack() {
        Unpacked::C(f) => assert_eq!(f32::from_bits(f.bits), 1.6f32 + 4.8f32),
        _ => panic!(),
    }
}

#[test]
fn test_ref_mut_new_and_finish() {
    let mut p: Y = Unpacked::A(3u16).pack();
    let mut m = RefMut::new(&mut p);
    m.set(Unpacked::C(4u32));
    m.finish(&mut p);
    assert!(matches!(p.unpack(), Unpacked::C(4)));
}

#[test]
fn test_trailing_slots_default_to_unit() {
    let p: Packed<u16> = Unpacked::H(()).pack();
    assert!(matches!(p.unpack(), Unpacked::H(())));
}

#[test]
fn test_negative_i32_through_container() {
    let p = Packed::<i32>::pack(Unpacked::A(i32::MIN));
    assert!(matches!(p.unpack(), Unpacked::A(x) if x == i32::MIN));
}
