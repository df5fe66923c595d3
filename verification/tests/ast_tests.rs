use cell_front::ast::{
    BinOp, Binary, Expr, ExprId, ExprKind, Float, Identifier, Int, Literal, Type, TypeId,
};
use cell_front::profiler;
use cell_front::{Span, Spanned, StringInterner};

#[test]
fn typed_ids_compare_by_value() {
    assert_eq!(ExprId(3), ExprId(3));
    assert_ne!(ExprId(3), ExprId(4));
    assert_eq!(TypeId(0), TypeId(0));
}

#[test]
fn types_compare_structurally() {
    assert_eq!(Type::Int { width: 32, signed: true }, Type::Int { width: 32, signed: true });
    assert_ne!(Type::Int { width: 32, signed: true }, Type::Int { width: 64, signed: true });
    assert_eq!(Type::Pointer(TypeId(1)), Type::Pointer(TypeId(1)));
    assert_ne!(Type::Bool, Type::Unit);
}

#[test]
fn float_literals_keep_their_bit_pattern() {
    let bits = 2.5f64.to_bits();
    let float = Float::new(bits);
    assert_eq!(float.bits(), bits);
    assert_eq!(f64::from_bits(float.bits()), 2.5);
    assert_eq!(Float::new(bits), Float::new(bits));
}

#[test]
fn an_expression_tree_can_be_built() {
    let mut interner = StringInterner::new();
    let name = Identifier { span: Span::new(0, 1), id: interner.get_or_intern("x") };
    let expr = Expr {
        span: Span::new(0, 5),
        kind: ExprKind::Binary(Binary {
            left: ExprId(0),
            op: Spanned::new(BinOp::Add, Span::new(2, 3)),
            right: ExprId(1),
        }),
    };
    assert_eq!(name.id, interner.get_or_intern("x"));
    match expr.kind {
        ExprKind::Binary(binary) => {
            assert_eq!(*binary.op.data(), BinOp::Add);
            assert_eq!(binary.left, ExprId(0));
        }
        _ => panic!("expected a binary expression"),
    }
}

#[test]
fn integer_literals_compare_by_sign_and_value() {
    let a = Literal::Int(Int { signed: false, val: 7 });
    let b = Literal::Int(Int { signed: false, val: 7 });
    let c = Literal::Int(Int { signed: true, val: 7 });
    assert_eq!(a, b);
    assert_ne!(a, c);
}

#[test]
fn tracing_is_a_no_op() {
    profiler::trace("Lex", "Lex");
}
