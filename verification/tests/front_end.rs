use rcaml::id::IdGen;
use rcaml::infer::infer;
use rcaml::node::{BinOps, FuncDef, NodeKind};
use rcaml::passes::{remove_comments, to_str, uniquify, CommentError};
use rcaml::typing::{infer_unify, initial_sig_table, SigTable, Subst, Type, TypeError};

fn b(n: NodeKind) -> Box<NodeKind> {
    Box::new(n)
}

#[test]
fn infer_nested_application_type() {
    // let id x = x in let f y = id (y id) in let f = f in f
    let tree = NodeKind::LetFuncExpr(
        FuncDef {
            name: ("id".to_string(), Type::Var(0)),
            params: vec![("x".to_string(), Type::Var(0))],
        },
        b(NodeKind::Ident("x".to_string())),
        b(NodeKind::LetFuncExpr(
            FuncDef {
                name: ("f".to_string(), Type::Var(0)),
                params: vec![("y".to_string(), Type::Var(0))],
            },
            b(NodeKind::Call(
                b(NodeKind::Ident("id".to_string())),
                vec![NodeKind::Call(
                    b(NodeKind::Ident("y".to_string())),
                    vec![NodeKind::Ident("id".to_string())],
                )],
            )),
            b(NodeKind::LetExpr(
                ("f".to_string(), Type::Var(0)),
                b(NodeKind::Ident("f".to_string())),
                b(NodeKind::Ident("f".to_string())),
            )),
        )),
    );
    let mut idgen = IdGen::new();
    let u = uniquify(tree, &mut idgen);
    let mut tyenv = Subst::new();
    let mut sigs = SigTable::new();
    let (_node, ty) = infer(&u, &mut tyenv, &mut sigs, &mut idgen).unwrap();
    assert_eq!(ty.to_string(), "((('1 -> '1) -> '2) -> '2)");
}

#[test]
fn unify_is_symmetric_on_variable_and_int() {
    let r1 = infer_unify(&Type::Int, &Type::Var(7));
    let r2 = infer_unify(&Type::Var(7), &Type::Int);
    assert!(r1.is_ok());
    assert!(r2.is_ok());
}

#[test]
fn unify_is_symmetric_on_failures_too() {
    assert_eq!(
        infer_unify(&Type::Int, &Type::Bool).is_ok(),
        infer_unify(&Type::Bool, &Type::Int).is_ok()
    );
    assert_eq!(
        infer_unify(&Type::Var(1), &Type::Var(2)).is_ok(),
        infer_unify(&Type::Var(2), &Type::Var(1)).is_ok()
    );
}

#[test]
fn unify_arity_mismatch_fails() {
    let t1 = Type::Func(vec![Type::Int], Box::new(Type::Int));
    let t2 = Type::Func(vec![Type::Int, Type::Int], Box::new(Type::Int));
    let r = infer_unify(&t1, &t2);
    match r {
        Err(TypeError::Unify(a, b2)) => {
            assert_eq!(a, Type::Func(vec![Type::Int], Box::new(Type::Int)));
            assert_eq!(
                b2,
                Type::Func(vec![Type::Int, Type::Int], Box::new(Type::Int))
            );
        }
        other => panic!("expected a unification error, got {:?}", other),
    }
}

#[test]
fn type_rendering_concrete_names() {
    assert_eq!(Type::Int.to_string(), "int");
    assert_eq!(Type::Unit.to_string(), "unit");
    assert_eq!(Type::Bool.to_string(), "bool");
    assert_eq!(Type::Float.to_string(), "float");
    assert_eq!(Type::Char.to_string(), "char");
    let f = Type::Func(vec![Type::Int], Box::new(Type::Float));
    assert_eq!(f.to_string(), "(int -> float)");
}

#[test]
fn type_rendering_numbers_variables_in_order() {
    let f = Type::Func(vec![Type::Var(5)], Box::new(Type::Var(9)));
    assert_eq!(f.to_string(), "('1 -> '2)");
    let g = Type::Func(vec![Type::Var(9)], Box::new(Type::Var(9)));
    assert_eq!(g.to_string(), "('1 -> '1)");
    let h = Type::Func(
        vec![Type::Var(4), Type::Var(2), Type::Var(4)],
        Box::new(Type::Var(2)),
    );
    assert_eq!(h.to_string(), "('1 -> '2 -> '1 -> '2)");
}

#[test]
fn comments_are_stripped_and_balance_checked() {
    assert_eq!(remove_comments("a (* b *) c").unwrap(), "a  c");
    assert_eq!(remove_comments("(* a (* b *) c *)x").unwrap(), "x");
    assert_eq!(remove_comments("no comments").unwrap(), "no comments");
    assert_eq!(remove_comments("").unwrap(), "");
    assert_eq!(
        remove_comments("open (* only").unwrap_err(),
        CommentError::Unterminated
    );
    assert_eq!(
        remove_comments("stray *) close").unwrap_err(),
        CommentError::UnmatchedClose
    );
}

#[test]
fn uniquify_fills_placeholders_and_is_stable() {
    let tree = NodeKind::LetExpr(
        ("a".to_string(), Type::Var(0)),
        b(NodeKind::Int(1)),
        b(NodeKind::Ident("a".to_string())),
    );
    let mut idgen = IdGen::new();
    let u1 = uniquify(tree, &mut idgen);
    let expected = NodeKind::LetExpr(
        ("a".to_string(), Type::Var(1)),
        b(NodeKind::Int(1)),
        b(NodeKind::Ident("a".to_string())),
    );
    assert_eq!(u1, expected);
    assert_eq!(idgen.counter, 2);
    // running it again assigns nothing new: slot ids are kept
    let mut idgen2 = IdGen::new();
    let u2 = uniquify(u1, &mut idgen2);
    let expected2 = NodeKind::LetExpr(
        ("a".to_string(), Type::Var(1)),
        b(NodeKind::Int(1)),
        b(NodeKind::Ident("a".to_string())),
    );
    assert_eq!(u2, expected2);
    assert_eq!(idgen2.counter, 1);
}

#[test]
fn uniquify_normalizes_call_targets() {
    let tree = NodeKind::Call(
        b(NodeKind::Call(
            b(NodeKind::Ident("f".to_string())),
            vec![NodeKind::Int(1)],
        )),
        vec![NodeKind::Int(2)],
    );
    let mut idgen = IdGen::new();
    let u = uniquify(tree, &mut idgen);
    let expected = NodeKind::LetExpr(
        (".app1".to_string(), Type::Var(2)),
        b(NodeKind::Call(
            b(NodeKind::Ident("f".to_string())),
            vec![NodeKind::Int(1)],
        )),
        b(NodeKind::Call(
            b(NodeKind::Ident(".app1".to_string())),
            vec![NodeKind::Int(2)],
        )),
    );
    assert_eq!(u, expected);
}

#[test]
fn infer_unknown_identifier_is_reported() {
    let tree = NodeKind::Ident("zzz".to_string());
    let mut idgen = IdGen::new();
    let mut tyenv = Subst::new();
    let mut sigs = SigTable::new();
    let r = infer(&tree, &mut tyenv, &mut sigs, &mut idgen);
    assert_eq!(r.unwrap_err(), TypeError::NotFoundVarOrFunc("zzz".to_string()));
}

#[test]
fn infer_operand_type_mismatch_is_a_unify_error() {
    let tree = NodeKind::IntBinaryOp(
        BinOps::IAdd,
        b(NodeKind::Int(1)),
        b(NodeKind::Bool(true)),
    );
    let mut idgen = IdGen::new();
    let mut tyenv = Subst::new();
    let mut sigs = SigTable::new();
    let r = infer(&tree, &mut tyenv, &mut sigs, &mut idgen);
    assert_eq!(r.unwrap_err(), TypeError::Unify(Type::Bool, Type::Int));
}

#[test]
fn top_level_function_definition_registers_its_signature() {
    // let f x = x * 2
    let tree = NodeKind::LetFuncDef(
        FuncDef {
            name: ("f".to_string(), Type::Var(0)),
            params: vec![("x".to_string(), Type::Var(0))],
        },
        b(NodeKind::IntBinaryOp(
            BinOps::IMul,
            b(NodeKind::Ident("x".to_string())),
            b(NodeKind::Int(2)),
        )),
    );
    let mut idgen = IdGen::new();
    let u = uniquify(tree, &mut idgen);
    let mut tyenv = Subst::new();
    let mut sigs = SigTable::new();
    let (_node, ty) = infer(&u, &mut tyenv, &mut sigs, &mut idgen).unwrap();
    assert_eq!(ty, Type::Unit);
    let body = sigs.get_body(&"f".to_string()).unwrap();
    assert_eq!(body, Type::Func(vec![Type::Var(2)], Box::new(Type::Int)));
}

#[test]
fn builtin_signatures_are_present_at_startup() {
    let sigs = initial_sig_table();
    assert_eq!(sigs.len(), 3);
    assert_eq!(
        sigs.get_body(&"print_int".to_string()).unwrap(),
        Type::Func(vec![Type::Int], Box::new(Type::Unit))
    );
    assert_eq!(
        sigs.get_body(&"print_float".to_string()).unwrap(),
        Type::Func(vec![Type::Float], Box::new(Type::Unit))
    );
    assert_eq!(
        sigs.get_body(&"print_newline".to_string()).unwrap(),
        Type::Func(vec![Type::Unit], Box::new(Type::Unit))
    );
}

#[test]
fn bytes_to_text() {
    assert_eq!(to_str(b"let f x = x"), "let f x = x");
    assert_eq!(to_str(b""), "");
}

#[test]
fn calling_a_builtin_through_the_table() {
    // print_int 5, against the startup table
    let tree = NodeKind::Call(
        b(NodeKind::Ident("print_int".to_string())),
        vec![NodeKind::Int(5)],
    );
    let mut idgen = IdGen::new();
    let u = uniquify(tree, &mut idgen);
    let mut tyenv = Subst::new();
    let mut sigs = initial_sig_table();
    let (_node, ty) = infer(&u, &mut tyenv, &mut sigs, &mut idgen).unwrap();
    assert_eq!(ty, Type::Unit);
}
