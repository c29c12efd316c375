use sunscreen_compiler::bfv::Signed;
use sunscreen_compiler::circuit::{Cipher, CircuitNode};
use sunscreen_compiler::integer::Unsigned;
use sunscreen_compiler::context::{with_ctx, Context, Operation};
use sunscreen_compiler::params::{Params, SchemeType, SecurityLevel};
use sunscreen_compiler::plaintext::Error;

fn test_params() -> Params {
    Params {
        lattice_dimension: 4096,
        coeff_modulus: vec![0xffffee001, 0xffffc4001, 0x1ffffe0001],
        plain_modulus: 65537,
        scheme_type: SchemeType::Bfv,
        security_level: SecurityLevel::Tc128,
    }
}

fn build_expression(ctx: &mut Context) -> CircuitNode<Cipher<Signed>> {
    let a = CircuitNode::<Cipher<Signed>>::new(&[ctx.add_input()]);
    let b = CircuitNode::<Cipher<Signed>>::new(&[ctx.add_input()]);
    let sum = Signed::graph_cipher_add(&a, &b, ctx).unwrap();
    Signed::graph_cipher_const_mul(&sum, 3, ctx).unwrap()
}

#[test]
fn same_build_yields_identical_graphs() {
    let mut ctx1 = Context::new(test_params());
    let mut ctx2 = Context::new(test_params());
    let out1 = build_expression(&mut ctx1);
    let out2 = build_expression(&mut ctx2);
    assert_eq!(ctx1.nodes.len(), ctx2.nodes.len());
    for (n1, n2) in ctx1.nodes.iter().zip(ctx2.nodes.iter()) {
        assert_eq!(n1.operation, n2.operation);
        assert_eq!(n1.inputs, n2.inputs);
    }
    assert_eq!(out1.ids, out2.ids);
}

#[test]
fn node_identities_strictly_increase() {
    let mut ctx = Context::new(test_params());
    let i0 = ctx.add_input();
    let i1 = ctx.add_input();
    let i2 = ctx.add_addition(i0, i1);
    let i3 = ctx.add_negate(i2);
    assert_eq!((i0, i1, i2, i3), (0, 1, 2, 3));
    assert_eq!(ctx.len(), 4);
}

#[test]
fn every_node_matches_its_arity() {
    let mut ctx = Context::new(test_params());
    build_expression(&mut ctx);
    let a = CircuitNode::<Cipher<Signed>>::new(&[0]);
    let b = CircuitNode::<Cipher<Signed>>::new(&[1]);
    Signed::graph_cipher_sub(&a, &b, &mut ctx).unwrap();
    Signed::graph_cipher_neg(&a, &mut ctx).unwrap();
    Signed::graph_const_cipher_sub(7, &b, &mut ctx).unwrap();
    for node in &ctx.nodes {
        let arity = match node.operation {
            Operation::InputCiphertext => 0,
            Operation::Literal(_) => 0,
            Operation::Negate => 1,
            _ => 2,
        };
        assert_eq!(node.inputs.len(), arity);
    }
}

#[test]
fn add_then_multiply_scenario() {
    // Build `a + b`, then `(a + b) * c`, for three encrypted inputs.
    let mut ctx = Context::new(test_params());
    let a = CircuitNode::<Cipher<Signed>>::new(&[ctx.add_input()]);
    let b = CircuitNode::<Cipher<Signed>>::new(&[ctx.add_input()]);
    let c = CircuitNode::<Cipher<Signed>>::new(&[ctx.add_input()]);
    let sum = Signed::graph_cipher_add(&a, &b, &mut ctx).unwrap();
    let product = Signed::graph_cipher_mul(&sum, &c, &mut ctx).unwrap();

    let additions: Vec<usize> = (0..ctx.nodes.len())
        .filter(|i| ctx.nodes[*i].operation == Operation::Add)
        .collect();
    let multiplications: Vec<usize> = (0..ctx.nodes.len())
        .filter(|i| ctx.nodes[*i].operation == Operation::Multiply)
        .collect();
    assert_eq!(additions.len(), 1);
    assert_eq!(multiplications.len(), 1);
    let mul_node = &ctx.nodes[multiplications[0]];
    assert_eq!(mul_node.inputs[0], additions[0] as u64);
    assert_eq!(mul_node.inputs[0], sum.ids[0]);
    assert_eq!(product.ids[0], multiplications[0] as u64);
}

#[test]
fn subtraction_operand_order_is_kept() {
    let mut ctx = Context::new(test_params());
    let a = ctx.add_input();
    let b = ctx.add_input();
    let d = ctx.add_subtraction(a, b);
    assert_eq!(ctx.nodes[d as usize].inputs, vec![a, b]);
}

#[test]
fn plain_cipher_sub_builds_negated_difference() {
    let mut ctx = Context::new(test_params());
    let plain = CircuitNode::<Signed>::new(&[ctx.add_input()]);
    let cipher = CircuitNode::<Cipher<Signed>>::new(&[ctx.add_input()]);
    let out = Signed::graph_plain_cipher_sub(&plain, &cipher, &mut ctx).unwrap();
    assert_eq!(ctx.nodes.len(), 4);
    assert_eq!(ctx.nodes[2].operation, Operation::SubPlaintext);
    assert_eq!(ctx.nodes[2].inputs, vec![cipher.ids[0], plain.ids[0]]);
    assert_eq!(ctx.nodes[3].operation, Operation::Negate);
    assert_eq!(ctx.nodes[3].inputs, vec![2]);
    assert_eq!(out.ids, vec![3]);
}

#[test]
fn const_add_injects_encoded_literal() {
    let mut ctx = Context::new(test_params());
    let a = CircuitNode::<Cipher<Signed>>::new(&[ctx.add_input()]);
    let out = Signed::graph_cipher_const_add(&a, 3, &mut ctx).unwrap();
    assert_eq!(ctx.nodes.len(), 3);
    match &ctx.nodes[1].operation {
        Operation::Literal(pt) => {
            // 3 = 0b11 encoded compactly.
            assert_eq!(pt.polynomials[0].coefficients, vec![1, 1]);
        }
        other => panic!("expected a literal node, found {:?}", other),
    }
    assert_eq!(ctx.nodes[2].operation, Operation::AddPlaintext);
    assert_eq!(ctx.nodes[2].inputs, vec![a.ids[0], 1]);
    assert_eq!(out.ids, vec![2]);
}

#[test]
fn wrong_component_count_is_rejected() {
    let mut ctx = Context::new(test_params());
    let a = CircuitNode::<Cipher<Signed>>::new(&[ctx.add_input()]);
    let bad = CircuitNode::<Cipher<Signed>>::new(&[]);
    let before = ctx.len();
    let r = Signed::graph_cipher_add(&a, &bad, &mut ctx);
    assert_eq!(r.unwrap_err(), Error::WrongComponentCount);
    assert_eq!(ctx.len(), before);
}

#[test]
fn with_ctx_runs_step_against_the_scope() {
    let mut scope: Option<Context> = Some(Context::new(test_params()));
    let id = with_ctx(&mut scope, |mut ctx: Context| {
        let id = ctx.add_input();
        (ctx, id)
    });
    assert_eq!(id, 0);
    assert_eq!(scope.as_ref().unwrap().len(), 1);
}

#[test]
fn get_plain_modulus_reads_the_scope_params() {
    let ctx = Context::new(test_params());
    assert_eq!(
        CircuitNode::<sunscreen_compiler::integer::Unsigned>::get_plain_modulus(&ctx),
        65537
    );
    assert_eq!(
        CircuitNode::<sunscreen_compiler::integer::Signed>::get_plain_modulus(&ctx),
        65537
    );
}

#[test]
fn unsigned_handles_add_and_mul() {
    let mut ctx = Context::new(test_params());
    let a = CircuitNode::<Unsigned>::new(&[ctx.add_input()]);
    let b = CircuitNode::<Unsigned>::new(&[ctx.add_input()]);
    let sum = a.add(&b, &mut ctx).unwrap();
    let product = sum.mul(&a, &mut ctx).unwrap();
    assert_eq!(ctx.nodes[2].operation, Operation::Add);
    assert_eq!(ctx.nodes[3].operation, Operation::Multiply);
    assert_eq!(ctx.nodes[3].inputs, vec![sum.ids[0], a.ids[0]]);
    assert_eq!(product.ids, vec![3]);
}
