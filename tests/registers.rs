use falcon_core::constants::{Constant, Constants};
use falcon_core::error::Error;
use falcon_core::il::{eval, BinOp, Block, Constant as Value, Expression, Operation, Scalar};
use falcon_core::x86register::{
    get_register, Mode, X86_REG_AH, X86_REG_AL, X86_REG_AX, X86_REG_EAX, X86_REG_RAX, X86_REG_SIL, X86_REG_XMM0,
};

/// The value of the full register after the last assignment of `block`,
/// from a state where it held `old`.
fn written(block: &Block, full: &str, bits: usize, old: u128) -> (String, Value) {
    let mut s = Constants::new();
    s.set_scalar(Scalar::new(full, bits), Constant::Constant(Value { value: old, bits }));
    match block.operations.last().unwrap() {
        Operation::Assign { dst, src } => (dst.name.clone(), s.eval(src).unwrap()),
        _ => panic!("not an assignment"),
    }
}

#[test]
fn lookup_by_mode() {
    let eax = get_register(Mode::X86, X86_REG_EAX).unwrap();
    assert_eq!(eax.name(), "eax");
    assert_eq!(eax.bits(), 32);
    assert!(eax.is_full());
    let rax = get_register(Mode::Amd64, X86_REG_RAX).unwrap();
    assert_eq!(rax.bits(), 64);
    assert_eq!(get_register(Mode::X86, X86_REG_RAX).err(), Some(Error::RegisterNotFound));
    assert_eq!(get_register(Mode::X86, X86_REG_XMM0).err(), Some(Error::RegisterNotFound));
    assert_eq!(get_register(Mode::X86, X86_REG_SIL).err(), Some(Error::RegisterNotFound));
    assert_eq!(get_register(Mode::Amd64, X86_REG_XMM0).unwrap().bits(), 128);
    assert_eq!(get_register(Mode::Amd64, 0).err(), Some(Error::RegisterNotFound));
}

#[test]
fn full_of_sub_registers() {
    let al = get_register(Mode::X86, X86_REG_AL).unwrap();
    assert!(!al.is_full());
    assert_eq!(al.get_full().unwrap().name(), "eax");
    let al64 = get_register(Mode::Amd64, X86_REG_AL).unwrap();
    assert_eq!(al64.get_full().unwrap().name(), "rax");
}

#[test]
fn read_shapes() {
    let eax = get_register(Mode::X86, X86_REG_EAX).unwrap();
    match eax.get().unwrap() {
        Expression::Scalar(s) => {
            assert_eq!(s.name, "eax");
            assert_eq!(s.bits, 32);
        },
        e => panic!("{:?}", e),
    }
    let ax = get_register(Mode::X86, X86_REG_AX).unwrap();
    match ax.get().unwrap() {
        Expression::Trun(16, x) => assert!(matches!(*x, Expression::Scalar(ref s) if s.name == "eax")),
        e => panic!("{:?}", e),
    }
    let ah = get_register(Mode::X86, X86_REG_AH).unwrap();
    match ah.get().unwrap() {
        Expression::Trun(8, x) => match *x {
            Expression::Binary(BinOp::Shr, l, c) => {
                assert!(matches!(*l, Expression::Scalar(ref s) if s.name == "eax"));
                assert_eq!(*c.as_ref(), Expression::Constant(Value { value: 8, bits: 32 }));
            },
            e => panic!("{:?}", e),
        },
        e => panic!("{:?}", e),
    }
}

#[test]
fn read_values() {
    let mut s = Constants::new();
    s.set_scalar(Scalar::new("eax", 32), Constant::Constant(Value { value: 0x1234_5678, bits: 32 }));
    let read = |id| s.eval(&get_register(Mode::X86, id).unwrap().get().unwrap()).unwrap().value;
    assert_eq!(read(X86_REG_EAX), 0x1234_5678);
    assert_eq!(read(X86_REG_AX), 0x5678);
    assert_eq!(read(X86_REG_AL), 0x78);
    assert_eq!(read(X86_REG_AH), 0x56);
}

#[test]
fn full_register_round_trip() {
    let eax = get_register(Mode::X86, X86_REG_EAX).unwrap();
    let mut block = Block::new();
    eax.set(&mut block, Expression::constant(0xdead_beef, 32)).unwrap();
    assert_eq!(block.operations.len(), 1);
    let (dst, v) = written(&block, "eax", 32, 0);
    assert_eq!(dst, "eax");
    assert_eq!(v, Value { value: 0xdead_beef, bits: 32 });
}

#[test]
fn low_byte_write_keeps_upper_bits() {
    let al = get_register(Mode::X86, X86_REG_AL).unwrap();
    let mut block = Block::new();
    al.set(&mut block, Expression::constant(0xff, 8)).unwrap();
    let (dst, v) = written(&block, "eax", 32, 0x1234_5678);
    assert_eq!(dst, "eax");
    assert_eq!(v, Value { value: 0x1234_56ff, bits: 32 });
    let ax = get_register(Mode::X86, X86_REG_AX).unwrap();
    let mut block = Block::new();
    ax.set(&mut block, Expression::constant(0xbeef, 16)).unwrap();
    assert_eq!(written(&block, "eax", 32, 0x1234_5678).1.value, 0x1234_beef);
}

#[test]
fn high_byte_write_replaces_its_bits() {
    let ah = get_register(Mode::X86, X86_REG_AH).unwrap();
    let mut block = Block::new();
    ah.set(&mut block, Expression::constant(0xab, 8)).unwrap();
    let (dst, v) = written(&block, "eax", 32, 0x1234_5678);
    assert_eq!(dst, "eax");
    assert_eq!(v, Value { value: 0x1234_ab78, bits: 32 });
}

#[test]
fn dword_write_clears_upper_half_on_amd64() {
    let eax = get_register(Mode::Amd64, X86_REG_EAX).unwrap();
    let mut block = Block::new();
    eax.set(&mut block, Expression::constant(1, 32)).unwrap();
    let (dst, v) = written(&block, "rax", 64, 0xffff_ffff_ffff_ffff);
    assert_eq!(dst, "rax");
    assert_eq!(v, Value { value: 1, bits: 64 });
}

#[test]
fn byte_write_on_amd64_keeps_upper_bits() {
    let al = get_register(Mode::Amd64, X86_REG_AL).unwrap();
    let mut block = Block::new();
    al.set(&mut block, Expression::constant(1, 8)).unwrap();
    let (dst, v) = written(&block, "rax", 64, 0xffff_ffff_ffff_ffff);
    assert_eq!(dst, "rax");
    assert_eq!(v, Value { value: 0xffff_ffff_ffff_ff01, bits: 64 });
    let ax = get_register(Mode::Amd64, X86_REG_AX).unwrap();
    let mut block = Block::new();
    ax.set(&mut block, Expression::constant(0x1234, 16)).unwrap();
    assert_eq!(written(&block, "rax", 64, 0xffff_ffff_ffff_ffff).1.value, 0xffff_ffff_ffff_1234);
    // ah keeps the rest of rax
    let ah = get_register(Mode::Amd64, X86_REG_AH).unwrap();
    let mut block = Block::new();
    ah.set(&mut block, Expression::constant(0x12, 8)).unwrap();
    assert_eq!(written(&block, "rax", 64, 0xffff_ffff_ffff_ffff).1.value, 0xffff_ffff_ffff_12ff);
}

#[test]
fn too_wide_value_is_rejected() {
    let al = get_register(Mode::X86, X86_REG_AL).unwrap();
    let mut block = Block::new();
    assert_eq!(al.set(&mut block, Expression::constant(1, 64)), Err(Error::Sort));
    assert_eq!(block.operations.len(), 0);
}

#[test]
fn closed_evaluation() {
    let wrap = Expression::add(Expression::constant(0xff, 8), Expression::constant(1, 8)).unwrap();
    assert_eq!(eval(&wrap), Ok(Value { value: 0, bits: 8 }));
    let sub = Expression::sub(Expression::constant(0, 8), Expression::constant(1, 8)).unwrap();
    assert_eq!(eval(&sub), Ok(Value { value: 0xff, bits: 8 }));
    let shl = Expression::shl(Expression::constant(0x81, 8), Expression::constant(1, 8)).unwrap();
    assert_eq!(eval(&shl), Ok(Value { value: 0x02, bits: 8 }));
    let far = Expression::shr(Expression::constant(0x81, 8), Expression::constant(8, 8)).unwrap();
    assert_eq!(eval(&far), Ok(Value { value: 0, bits: 8 }));
    let eq = Expression::cmpeq(Expression::constant(3, 16), Expression::constant(3, 16)).unwrap();
    assert_eq!(eval(&eq), Ok(Value { value: 1, bits: 1 }));
    let z = Expression::zext(32, Expression::constant(0xff, 8)).unwrap();
    assert_eq!(eval(&z), Ok(Value { value: 0xff, bits: 32 }));
    let t = Expression::trun(4, Expression::constant(0xab, 8)).unwrap();
    assert_eq!(eval(&t), Ok(Value { value: 0xb, bits: 4 }));
    assert_eq!(eval(&Expression::scalar("x", 8)), Err(Error::FreeScalar));
    assert_eq!(Expression::and(Expression::constant(1, 8), Expression::constant(1, 16)).err(), Some(Error::Sort));
    assert_eq!(Expression::zext(4, Expression::constant(1, 8)).err(), Some(Error::Sort));
    assert_eq!(Expression::trun(16, Expression::constant(1, 8)).err(), Some(Error::Sort));
    assert_eq!(Expression::constant(0x1ff, 8), Expression::Constant(Value { value: 0xff, bits: 8 }));
}
