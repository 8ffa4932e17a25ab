//! Type inference over the uniquified syntax tree: a local environment of
//! in-scope names, the shared signature table for top-level and external
//! functions, and a substitution recording what unification learned about
//! type variables.
use vstd::prelude::*;
use crate::id::{IdGen, spec_next_counter};
use crate::node::{
    NodeKind, SpecNode, FuncDef, SpecBind, SpecFuncDef, node_view, nodes_view, binds_view,
    clone_binds, clone_node, lemma_binds_view_index, lemma_binds_view_len, lemma_binds_view_ext, lemma_nodes_view_index,
    lemma_nodes_view_len,
};
use crate::typing::{
    Type, SpecType, TypeScheme, SpecScheme, TypeError, SpecTypeError, TypeResult, TypeEnv,
    SigTable, Subst, spec_assoc_name, spec_assoc_scheme, spec_assoc_ty, spec_unify, spec_deref,
    infer_unify, deref_type, clone_type, clone_types, types_view, type_view, lemma_types_view_len,
    lemma_types_view_index, lemma_types_view_ext,
};

verus! {

/// The outcome of inferring one node: the result (re-annotated node and its
/// type, or the failure), and the substitution, signature table and counter
/// after.
pub ghost struct SpecInferOut {
    pub result: Result<(SpecNode, SpecType), SpecTypeError>,
    pub tyenv: Seq<(usize, SpecType)>,
    pub sigs: Seq<(Seq<char>, SpecScheme)>,
    pub counter: usize,
}

/// A failed outcome.
pub open spec fn out_err(
    e: SpecTypeError,
    tyenv: Seq<(usize, SpecType)>,
    sigs: Seq<(Seq<char>, SpecScheme)>,
    counter: usize,
) -> SpecInferOut {
    SpecInferOut { result: Err(e), tyenv, sigs, counter }
}

/// A successful outcome.
pub open spec fn out_ok(
    n: SpecNode,
    t: SpecType,
    tyenv: Seq<(usize, SpecType)>,
    sigs: Seq<(Seq<char>, SpecScheme)>,
    counter: usize,
) -> SpecInferOut {
    SpecInferOut { result: Ok((n, t)), tyenv, sigs, counter }
}

/// The declared types of a parameter list.
pub open spec fn binds_tys(params: Seq<SpecBind>) -> Seq<SpecType> {
    params.map(|i: int, p: SpecBind| p.ty)
}

/// The environment extended with each parameter bound to its declared type,
/// in order.
pub open spec fn spec_env_push_params(
    env: Seq<(Seq<char>, SpecType)>,
    params: Seq<SpecBind>,
) -> Seq<(Seq<char>, SpecType)>
    decreases params.len(),
{
    if params.len() == 0 {
        env
    } else {
        spec_env_push_params(env, params.drop_last()).push(
            (params.last().name, params.last().ty),
        )
    }
}

/// Extending by parameters appends to the environment: the old bindings stay
/// as a prefix.
pub proof fn lemma_env_push_params_prefix(
    env: Seq<(Seq<char>, SpecType)>,
    params: Seq<SpecBind>,
)
    ensures
        spec_env_push_params(env, params).len() == env.len() + params.len(),
        spec_env_push_params(env, params).subrange(0, env.len() as int) == env,
    decreases params.len(),
{
    if params.len() > 0 {
        lemma_env_push_params_prefix(env, params.drop_last());
        let prev = spec_env_push_params(env, params.drop_last());
        assert(prev.push((params.last().name, params.last().ty)).subrange(0, env.len() as int)
            =~= prev.subrange(0, env.len() as int));
    } else {
        assert(spec_env_push_params(env, params).subrange(0, env.len() as int) =~= env);
    }
}

/// The one-level substitution of the call rule: each parameter slot must be
/// a bare variable; it is mapped to the corresponding inferred argument
/// type. Pairing stops at the shorter list.
pub open spec fn spec_param_subst(ptys: Seq<SpecType>, atys: Seq<SpecType>) -> Option<
    Seq<(usize, SpecType)>,
>
    decreases ptys.len(),
{
    if ptys.len() == 0 || atys.len() == 0 {
        Some(Seq::empty())
    } else {
        match ptys[0] {
            SpecType::Var(k) => match spec_param_subst(
                ptys.subrange(1, ptys.len() as int),
                atys.subrange(1, atys.len() as int),
            ) {
                Some(rest) => Some(seq![(k, atys[0])].add(rest)),
                None => None,
            },
            _ => None,
        }
    }
}

/// What applying a callee of type `cty` to arguments of types `atys`
/// yields. A function type with a variable return type goes through the
/// one-level substitution; a variable callee type is bound to a fresh
/// function type whose fresh return variable is the call's type; any other
/// callee type is refused.
pub open spec fn spec_call_apply(
    n: SpecNode,
    cty: SpecType,
    atys: Seq<SpecType>,
    tyenv: Seq<(usize, SpecType)>,
    counter: usize,
) -> (Result<(SpecNode, SpecType), SpecTypeError>, Seq<(usize, SpecType)>, usize) {
    match cty {
        SpecType::Func(ptys, rty) => match *rty {
            SpecType::Var(ty_n) => match spec_param_subst(ptys, atys) {
                Some(sub) => match spec_assoc_ty(sub, ty_n) {
                    Some(t) => (Ok((n, t)), tyenv, counter),
                    None => (Err(SpecTypeError::Unsupported), tyenv, counter),
                },
                None => (Err(SpecTypeError::Unsupported), tyenv, counter),
            },
            _ => (Ok((n, *rty)), tyenv, counter),
        },
        SpecType::Var(vn) => (
            Ok((n, SpecType::Var(counter))),
            tyenv.push((vn, SpecType::Func(atys, Box::new(SpecType::Var(counter))))),
            spec_next_counter(counter),
        ),
        _ => (Err(SpecTypeError::Unsupported), tyenv, counter),
    }
}

/// What inferring one node yields, by node kind:
/// - literals have their fixed concrete type;
/// - an identifier is looked up in the local environment first, then in the
///   signature table, and fails with `NotFoundVarOrFunc` if absent from both;
/// - a call infers the callee and then the arguments; when the callee's type
///   is a function whose declared return type is a variable, a one-level
///   substitution from parameter variables to argument types resolves it;
///   when the callee's type is itself still a variable, that variable is
///   bound to a fresh function type and the call has its fresh return
///   variable as type;
/// - a value `let` types the bound expression in the outer environment and
///   the body under the new binding;
/// - a function `let` types the function body under its parameters and a
///   placeholder self-binding with a fresh return variable, then the outer
///   body (or, at top level, registers the resolved signature and has type
///   `Unit`);
/// - integer and float operators unify their operand types against `Int` or
///   `Float` and fail with the unification error on mismatch;
/// - every other construct is refused as `Unsupported`.
pub open spec fn spec_infer(
    n: SpecNode,
    env: Seq<(Seq<char>, SpecType)>,
    tyenv: Seq<(usize, SpecType)>,
    sigs: Seq<(Seq<char>, SpecScheme)>,
    counter: usize,
) -> SpecInferOut
    decreases n,
{
    match n {
        SpecNode::Unit => out_ok(n, SpecType::Unit, tyenv, sigs, counter),
        SpecNode::Bool(_) => out_ok(n, SpecType::Bool, tyenv, sigs, counter),
        SpecNode::Int(_) => out_ok(n, SpecType::Int, tyenv, sigs, counter),
        SpecNode::Float(_) => out_ok(n, SpecType::Float, tyenv, sigs, counter),
        SpecNode::Ident(name) => match spec_assoc_name(env, name) {
            Some(t) => out_ok(n, t, tyenv, sigs, counter),
            None => match spec_assoc_scheme(sigs, name) {
                Some(sch) => out_ok(n, sch.body, tyenv, sigs, counter),
                None => out_err(SpecTypeError::NotFoundVarOrFunc(name), tyenv, sigs, counter),
            },
        },
        SpecNode::Call(callee, args) => {
            let co = spec_infer(*callee, env, tyenv, sigs, counter);
            match co.result {
                Err(e) => co,
                Ok((cn, cty)) => {
                    let (ares, te2, sg2, ct2) = spec_infer_args(
                        args,
                        env,
                        co.tyenv,
                        co.sigs,
                        co.counter,
                    );
                    match ares {
                        Err(e) => out_err(e, te2, sg2, ct2),
                        Ok(atys) => {
                            let (res, te3, ct3) = spec_call_apply(n, cty, atys, te2, ct2);
                            SpecInferOut { result: res, tyenv: te3, sigs: sg2, counter: ct3 }
                        },
                    }
                },
            }
        },
        SpecNode::LetExpr(b, e, body) => {
            let eo = spec_infer(*e, env, tyenv, sigs, counter);
            match eo.result {
                Err(_) => eo,
                Ok((en, ety)) => {
                    let bo = spec_infer(
                        *body,
                        env.push((b.name, ety)),
                        eo.tyenv,
                        eo.sigs,
                        eo.counter,
                    );
                    match bo.result {
                        Err(_) => bo,
                        Ok((bn, bty)) => out_ok(
                            SpecNode::LetExpr(
                                SpecBind { name: b.name, ty: ety },
                                Box::new(en),
                                Box::new(bn),
                            ),
                            bty,
                            bo.tyenv,
                            bo.sigs,
                            bo.counter,
                        ),
                    }
                },
            }
        },
        SpecNode::LetDef(b, e) => {
            let eo = spec_infer(*e, env, tyenv, sigs, counter);
            match eo.result {
                Err(_) => eo,
                Ok((en, ety)) => out_ok(
                    SpecNode::LetDef(SpecBind { name: b.name, ty: ety }, Box::new(en)),
                    SpecType::Unit,
                    eo.tyenv,
                    eo.sigs.push((b.name, SpecScheme { tyvars: Seq::empty(), body: ety })),
                    eo.counter,
                ),
            }
        },
        SpecNode::LetFuncExpr(fd, e, body) => {
            let ptys = binds_tys(fd.params);
            let env2 = spec_env_push_params(env, fd.params).push(
                (fd.name.name, SpecType::Func(ptys, Box::new(SpecType::Var(counter)))),
            );
            let eo = spec_infer(*e, env2, tyenv, sigs, spec_next_counter(counter));
            match eo.result {
                Err(_) => eo,
                Ok((en, ety)) => {
                    let env3 = env.push((fd.name.name, SpecType::Func(ptys, Box::new(ety))));
                    let bo = spec_infer(*body, env3, eo.tyenv, eo.sigs, eo.counter);
                    match bo.result {
                        Err(_) => bo,
                        Ok((bn, bty)) => out_ok(
                            SpecNode::LetFuncExpr(
                                SpecFuncDef {
                                    name: SpecBind { name: fd.name.name, ty: ety },
                                    params: fd.params,
                                },
                                Box::new(en),
                                Box::new(bn),
                            ),
                            bty,
                            bo.tyenv,
                            bo.sigs,
                            bo.counter,
                        ),
                    }
                },
            }
        },
        SpecNode::LetFuncDef(fd, e) => {
            let ptys = binds_tys(fd.params);
            let env2 = spec_env_push_params(env, fd.params).push(
                (fd.name.name, SpecType::Func(ptys, Box::new(SpecType::Var(counter)))),
            );
            let eo = spec_infer(*e, env2, tyenv, sigs, spec_next_counter(counter));
            match eo.result {
                Err(_) => eo,
                Ok((en, ety)) => out_ok(
                    SpecNode::LetFuncDef(
                        SpecFuncDef {
                            name: SpecBind { name: fd.name.name, ty: ety },
                            params: fd.params,
                        },
                        Box::new(en),
                    ),
                    SpecType::Unit,
                    eo.tyenv,
                    eo.sigs.push(
                        (
                            fd.name.name,
                            SpecScheme {
                                tyvars: Seq::empty(),
                                body: SpecType::Func(ptys, Box::new(ety)),
                            },
                        ),
                    ),
                    eo.counter,
                ),
            }
        },
        SpecNode::IntUnaryOp(op, e) => {
            let eo = spec_infer(*e, env, tyenv, sigs, counter);
            match eo.result {
                Err(_) => eo,
                Ok((en, ety)) => {
                    match spec_unify(ety, SpecType::Int) {
                        Err(ue) => out_err(ue, eo.tyenv, eo.sigs, eo.counter),
                        Ok(_) => out_ok(
                            SpecNode::IntUnaryOp(op, Box::new(en)),
                            ety,
                            eo.tyenv,
                            eo.sigs,
                            eo.counter,
                        ),
                    }
                },
            }
        },
        SpecNode::FloatUnaryOp(op, e) => {
            let eo = spec_infer(*e, env, tyenv, sigs, counter);
            match eo.result {
                Err(_) => eo,
                Ok((en, ety)) => {
                    match spec_unify(ety, SpecType::Float) {
                        Err(ue) => out_err(ue, eo.tyenv, eo.sigs, eo.counter),
                        Ok(_) => out_ok(
                            SpecNode::FloatUnaryOp(op, Box::new(en)),
                            ety,
                            eo.tyenv,
                            eo.sigs,
                            eo.counter,
                        ),
                    }
                },
            }
        },
        SpecNode::IntBinaryOp(op, l, r) => {
            let lo = spec_infer(*l, env, tyenv, sigs, counter);
            match lo.result {
                Err(_) => lo,
                Ok((ln, lty)) => {
                    let ro = spec_infer(*r, env, lo.tyenv, lo.sigs, lo.counter);
                    match ro.result {
                        Err(_) => ro,
                        Ok((rn, rty)) => {
                            match spec_unify(lty, SpecType::Int) {
                                Err(ue) => out_err(ue, ro.tyenv, ro.sigs, ro.counter),
                                Ok(_) => {
                                    match spec_unify(rty, SpecType::Int) {
                                        Err(ue) => out_err(ue, ro.tyenv, ro.sigs, ro.counter),
                                        Ok(_) => out_ok(
                                            SpecNode::IntBinaryOp(op, Box::new(ln), Box::new(rn)),
                                            SpecType::Int,
                                            ro.tyenv,
                                            ro.sigs,
                                            ro.counter,
                                        ),
                                    }
                                },
                            }
                        },
                    }
                },
            }
        },
        SpecNode::FloatBinaryOp(op, l, r) => {
            let lo = spec_infer(*l, env, tyenv, sigs, counter);
            match lo.result {
                Err(_) => lo,
                Ok((ln, lty)) => {
                    let ro = spec_infer(*r, env, lo.tyenv, lo.sigs, lo.counter);
                    match ro.result {
                        Err(_) => ro,
                        Ok((rn, rty)) => {
                            match spec_unify(lty, SpecType::Float) {
                                Err(ue) => out_err(ue, ro.tyenv, ro.sigs, ro.counter),
                                Ok(_) => {
                                    match spec_unify(rty, SpecType::Float) {
                                        Err(ue) => out_err(ue, ro.tyenv, ro.sigs, ro.counter),
                                        Ok(_) => out_ok(
                                            SpecNode::FloatBinaryOp(
                                                op,
                                                Box::new(ln),
                                                Box::new(rn),
                                            ),
                                            SpecType::Float,
                                            ro.tyenv,
                                            ro.sigs,
                                            ro.counter,
                                        ),
                                    }
                                },
                            }
                        },
                    }
                },
            }
        },
        _ => out_err(SpecTypeError::Unsupported, tyenv, sigs, counter),
    }
}

/// Inference of an argument list, in order, collecting the argument types;
/// the first failure stops the walk.
pub open spec fn spec_infer_args(
    args: Seq<SpecNode>,
    env: Seq<(Seq<char>, SpecType)>,
    tyenv: Seq<(usize, SpecType)>,
    sigs: Seq<(Seq<char>, SpecScheme)>,
    counter: usize,
) -> (Result<Seq<SpecType>, SpecTypeError>, Seq<(usize, SpecType)>, Seq<(Seq<char>, SpecScheme)>, usize)
    decreases args,
{
    if args.len() == 0 {
        (Ok(Seq::empty()), tyenv, sigs, counter)
    } else {
        let ao = spec_infer(args[0], env, tyenv, sigs, counter);
        match ao.result {
            Err(e) => (Err(e), ao.tyenv, ao.sigs, ao.counter),
            Ok((an, aty)) => {
                let (rres, te, sg, ct) = spec_infer_args(
                    args.subrange(1, args.len() as int),
                    env,
                    ao.tyenv,
                    ao.sigs,
                    ao.counter,
                );
                match rres {
                    Err(e) => (Err(e), te, sg, ct),
                    Ok(rest) => (Ok(seq![aty].add(rest)), te, sg, ct),
                }
            },
        }
    }
}

/// Model of an inference result.
pub open spec fn infer_result_view(r: TypeResult<(NodeKind, Type)>) -> Result<
    (SpecNode, SpecType),
    SpecTypeError,
> {
    match r {
        Ok(p) => Ok((p.0@, p.1@)),
        Err(e) => Err(e@),
    }
}

/// Binds each parameter in the environment and collects the declared
/// parameter types.
fn push_params(env: &mut TypeEnv, params: &Vec<(String, Type)>) -> (ptys: Vec<Type>)
    ensures
        final(env)@ == spec_env_push_params(old(env)@, binds_view(params@)),
        types_view(ptys@) == binds_tys(binds_view(params@)),
{
    let ghost pv = binds_view(params@);
    proof {
        lemma_binds_view_len(params@);
    }
    let mut ptys: Vec<Type> = Vec::new();
    let n = params.len();
    proof {
        assert(pv.take(0) =~= Seq::<SpecBind>::empty());
    }
    for i in 0..n
        invariant
            n == params@.len(),
            pv == binds_view(params@),
            pv.len() == n,
            env@ == spec_env_push_params(old(env)@, pv.take(i as int)),
            ptys@.len() == i,
            forall|j: int| 0 <= j < i ==> type_view(#[trigger] ptys@[j]) == pv[j].ty,
    {
        proof {
            lemma_binds_view_index(params@, i as int);
        }
        let name = params[i].0.clone();
        let t = clone_type(&params[i].1);
        ptys.push(clone_type(&params[i].1));
        env.push(name, t);
        proof {
            assert(pv.take(i + 1).drop_last() =~= pv.take(i as int));
            assert(pv.take(i + 1).last() == pv[i as int]);
        }
    }
    proof {
        assert(pv.take(n as int) =~= pv);
        lemma_types_view_len(ptys@);
        assert forall|j: int| 0 <= j < n implies #[trigger] types_view(ptys@)[j] == binds_tys(
            pv,
        )[j] by {
            lemma_types_view_index(ptys@, j);
        }
        assert(types_view(ptys@) =~= binds_tys(pv));
    }
    ptys
}

/// Builds the one-level call substitution from parameter slots (which must
/// be bare variables) to argument types, from index `from` on.
fn param_subst(ptys: &Vec<Type>, atys: &Vec<Type>, from: usize) -> (r: Option<Subst>)
    requires
        from <= ptys@.len(),
        from <= atys@.len(),
    ensures
        match r {
            Some(s) => spec_param_subst(
                types_view(ptys@).skip(from as int),
                types_view(atys@).skip(from as int),
            ) == Some(s@),
            None => spec_param_subst(
                types_view(ptys@).skip(from as int),
                types_view(atys@).skip(from as int),
            ) is None,
        },
    decreases ptys@.len() - from,
{
    proof {
        lemma_types_view_len(ptys@);
        lemma_types_view_len(atys@);
    }
    if from == ptys.len() || from == atys.len() {
        Some(Subst::new())
    } else {
        proof {
            lemma_types_view_index(ptys@, from as int);
            lemma_types_view_index(atys@, from as int);
            let fullp = types_view(ptys@).skip(from as int);
            let fulla = types_view(atys@).skip(from as int);
            assert(fullp.subrange(1, fullp.len() as int) =~= types_view(ptys@).skip(
                from as int + 1,
            ));
            assert(fulla.subrange(1, fulla.len() as int) =~= types_view(atys@).skip(
                from as int + 1,
            ));
        }
        match &ptys[from] {
            Type::Var(k) => {
                match param_subst(ptys, atys, from + 1) {
                    Some(rest) => {
                        let ghost restv = rest@;
                        let mut pairs: Vec<(usize, Type)> = Vec::new();
                        pairs.push((*k, clone_type(&atys[from])));
                        let mut restp = rest.pairs;
                        pairs.append(&mut restp);
                        let s = Subst { pairs };
                        proof {
                            assert(s@ =~= seq![
                                (k as usize, types_view(atys@).skip(from as int)[0]),
                            ].add(restv));
                        }
                        Some(s)
                    },
                    None => None,
                }
            },
            _ => None,
        }
    }
}

/// Infers the arguments from index `from` on, collecting their types; the
/// local environment is left as it was found.
fn infer_args(
    args: &Vec<NodeKind>,
    from: usize,
    env: &mut TypeEnv,
    tyenv: &mut Subst,
    sigs: &mut SigTable,
    idgen: &mut IdGen,
) -> (r: TypeResult<Vec<Type>>)
    requires
        from <= args@.len(),
    ensures
        final(env)@ == old(env)@,
        ({
            let (res, te, sg, ct) = spec_infer_args(
                nodes_view(args@).skip(from as int),
                old(env)@,
                old(tyenv)@,
                old(sigs)@,
                old(idgen).counter,
            );
            final(tyenv)@ == te && final(sigs)@ == sg && final(idgen).counter == ct && (match r {
                Ok(v) => res == Ok::<Seq<SpecType>, SpecTypeError>(types_view(v@)),
                Err(e) => res == Err::<Seq<SpecType>, SpecTypeError>(e@),
            })
        }),
    decreases args, 0int, args@.len() - from,
{
    proof {
        lemma_nodes_view_len(args@);
    }
    if from == args.len() {
        let v: Vec<Type> = Vec::new();
        proof {
            assert(types_view(v@) =~= Seq::<SpecType>::empty());
        }
        Ok(v)
    } else {
        proof {
            lemma_nodes_view_index(args@, from as int);
            let full = nodes_view(args@).skip(from as int);
            assert(full.subrange(1, full.len() as int) =~= nodes_view(args@).skip(
                from as int + 1,
            ));
        }
        let a0 = infer_sub(&args[from], env, tyenv, sigs, idgen);
        match a0 {
            Err(e) => Err(e),
            Ok((an, aty)) => {
                let rest = infer_args(args, from + 1, env, tyenv, sigs, idgen);
                match rest {
                    Err(e) => Err(e),
                    Ok(restv) => {
                        let ghost rv = types_view(restv@);
                        let ghost atyv = aty@;
                        let mut v: Vec<Type> = Vec::new();
                        v.push(aty);
                        let mut restm = restv;
                        let ghost restvv = restm@;
                        v.append(&mut restm);
                        proof {
                            assert(v@ =~= seq![v@[0]].add(restvv));
                            lemma_types_view_len(v@);
                            lemma_types_view_len(restvv);
                            assert forall|j: int| 0 <= j < v@.len() implies #[trigger] types_view(
                                v@,
                            )[j] == seq![atyv].add(rv)[j] by {
                                lemma_types_view_index(v@, j);
                                if j > 0 {
                                    lemma_types_view_index(restvv, j - 1);
                                    assert(v@[j] == restvv[j - 1]);
                                }
                            }
                            assert(types_view(v@) =~= seq![atyv].add(rv));
                        }
                        Ok(v)
                    },
                }
            },
        }
    }
}

/// Infers the type of `node` under the given environment, substitution,
/// signature table and id generator, as `spec_infer` describes; the local
/// environment is left as it was found.
/// Applies a callee of type `cty` to arguments of types `atys`, as
/// `spec_call_apply` describes.
fn infer_call_apply(
    node: &NodeKind,
    cty: Type,
    atys: Vec<Type>,
    tyenv: &mut Subst,
    idgen: &mut IdGen,
) -> (r: TypeResult<(NodeKind, Type)>)
    ensures
        ({
            let (res, te, ct) = spec_call_apply(
                node@,
                cty@,
                types_view(atys@),
                old(tyenv)@,
                old(idgen).counter,
            );
            final(tyenv)@ == te && final(idgen).counter == ct && infer_result_view(r) == res
        }),
{
    let ghost gcty = cty@;
    let ghost gatys = types_view(atys@);
    let ghost gte = tyenv@;
    let ghost gct = idgen.counter;
    match cty {
        Type::Func(ptys, rty) => {
            proof {
                assert(gcty == SpecType::Func(types_view(ptys@), Box::new((*rty)@)));
            }
            match *rty {
                Type::Var(ty_n) => {
                    proof {
                        assert(types_view(ptys@).skip(0) =~= types_view(ptys@));
                        assert(types_view(atys@).skip(0) =~= types_view(atys@));
                    }
                    match param_subst(&ptys, &atys, 0) {
                        Some(sub) => {
                            proof {
                                assert(spec_param_subst(types_view(ptys@), gatys) == Some(sub@));
                            }
                            match sub.get(ty_n) {
                                Some(t) => {
                                    proof {
                                        assert(spec_call_apply(node@, gcty, gatys, gte, gct).0
                                            == Ok::<(SpecNode, SpecType), SpecTypeError>((node@, t@)));
                                    }
                                    Ok((clone_node(node), t))
                                },
                                None => Err(TypeError::Unsupported),
                            }
                        },
                        None => Err(TypeError::Unsupported),
                    }
                },
                other => {
                    proof {
                        assert(spec_call_apply(node@, gcty, gatys, gte, gct).0
                            == Ok::<(SpecNode, SpecType), SpecTypeError>((node@, other@)));
                    }
                    Ok((clone_node(node), other))
                },
            }
        },
        Type::Var(vn) => {
            let m = idgen.get_id();
            let rt = Type::Var(m);
            proof {
                assert(rt@ == SpecType::Var(m));
            }
            let ft = Type::Func(atys, Box::new(rt));
            proof {
                assert(ft@ == SpecType::Func(gatys, Box::new(SpecType::Var(m))));
            }
            tyenv.insert(vn, ft);
            Ok((clone_node(node), Type::Var(m)))
        },
        _ => Err(TypeError::Unsupported),
    }
}

fn infer_call(
    node: &NodeKind,
    env: &mut TypeEnv,
    tyenv: &mut Subst,
    sigs: &mut SigTable,
    idgen: &mut IdGen,
) -> (r: TypeResult<(NodeKind, Type)>)
    requires
        node is Call,
    ensures
        final(env)@ == old(env)@,
        ({
            let o = spec_infer(node@, old(env)@, old(tyenv)@, old(sigs)@, old(idgen).counter);
            final(tyenv)@ == o.tyenv && final(sigs)@ == o.sigs && final(idgen).counter == o.counter
                && infer_result_view(r) == o.result
        }),
    decreases node, 0int,
{
    match node {
        NodeKind::Call(callee, args) => {
            let co = infer_sub(callee, env, tyenv, sigs, idgen);
            match co {
                Err(e) => Err(e),
                Ok((_cn, cty)) => {
                    proof {
                        assert(nodes_view(args@).skip(0) =~= nodes_view(args@));
                    }
                    let ao = infer_args(args, 0, env, tyenv, sigs, idgen);
                    match ao {
                        Err(e) => Err(e),
                        Ok(atys) => infer_call_apply(node, cty, atys, tyenv, idgen),
                    }
                },
            }
        },
        _ => Err(TypeError::Unsupported),
    }
}

fn infer_letexpr(
    node: &NodeKind,
    env: &mut TypeEnv,
    tyenv: &mut Subst,
    sigs: &mut SigTable,
    idgen: &mut IdGen,
) -> (r: TypeResult<(NodeKind, Type)>)
    requires
        node is LetExpr,
    ensures
        final(env)@ == old(env)@,
        ({
            let o = spec_infer(node@, old(env)@, old(tyenv)@, old(sigs)@, old(idgen).counter);
            final(tyenv)@ == o.tyenv && final(sigs)@ == o.sigs && final(idgen).counter == o.counter
                && infer_result_view(r) == o.result
        }),
    decreases node, 0int,
{
    match node {
        NodeKind::LetExpr(b, e, body) => {
            let eo = infer_sub(e, env, tyenv, sigs, idgen);
            match eo {
                Err(er) => Err(er),
                Ok((en, ety)) => {
                    let n0 = env.len();
                    env.push(b.0.clone(), clone_type(&ety));
                    let bo = infer_sub(body, env, tyenv, sigs, idgen);
                    env.truncate(n0);
                    proof {
                        assert(old(env)@.push((b.0@, ety@)).subrange(0, n0 as int) =~= old(env)@);
                    }
                    match bo {
                        Err(er) => Err(er),
                        Ok((bn, bty)) => Ok(
                            (
                                NodeKind::LetExpr(
                                    (b.0.clone(), ety),
                                    Box::new(en),
                                    Box::new(bn),
                                ),
                                bty,
                            ),
                        ),
                    }
                },
            }
        },
        _ => Err(TypeError::Unsupported),
    }
}

fn infer_letdef(
    node: &NodeKind,
    env: &mut TypeEnv,
    tyenv: &mut Subst,
    sigs: &mut SigTable,
    idgen: &mut IdGen,
) -> (r: TypeResult<(NodeKind, Type)>)
    requires
        node is LetDef,
    ensures
        final(env)@ == old(env)@,
        ({
            let o = spec_infer(node@, old(env)@, old(tyenv)@, old(sigs)@, old(idgen).counter);
            final(tyenv)@ == o.tyenv && final(sigs)@ == o.sigs && final(idgen).counter == o.counter
                && infer_result_view(r) == o.result
        }),
    decreases node, 0int,
{
    match node {
        NodeKind::LetDef(b, e) => {
            let eo = infer_sub(e, env, tyenv, sigs, idgen);
            match eo {
                Err(er) => Err(er),
                Ok((en, ety)) => {
                    let tv: Vec<usize> = Vec::new();
                    proof {
                        assert(tv@ =~= Seq::<usize>::empty());
                    }
                    sigs.insert(b.0.clone(), TypeScheme::new(tv, clone_type(&ety)));
                    Ok((NodeKind::LetDef((b.0.clone(), ety), Box::new(en)), Type::Unit))
                },
            }
        },
        _ => Err(TypeError::Unsupported),
    }
}

fn infer_letfuncexpr(
    node: &NodeKind,
    env: &mut TypeEnv,
    tyenv: &mut Subst,
    sigs: &mut SigTable,
    idgen: &mut IdGen,
) -> (r: TypeResult<(NodeKind, Type)>)
    requires
        node is LetFuncExpr,
    ensures
        final(env)@ == old(env)@,
        ({
            let o = spec_infer(node@, old(env)@, old(tyenv)@, old(sigs)@, old(idgen).counter);
            final(tyenv)@ == o.tyenv && final(sigs)@ == o.sigs && final(idgen).counter == o.counter
                && infer_result_view(r) == o.result
        }),
    decreases node, 0int,
{
    match node {
        NodeKind::LetFuncExpr(fd, e, body) => {
            let n0 = env.len();
            let ptys = push_params(env, &fd.params);
            let fresh = idgen.get_type();
            let ptys2 = clone_types(&ptys);
            proof {
                lemma_types_view_ext(ptys2@, ptys@);
            }
            env.push(fd.name.0.clone(), Type::Func(ptys2, Box::new(fresh)));
            let eo = infer_sub(e, env, tyenv, sigs, idgen);
            proof {
                lemma_env_push_params_prefix(old(env)@, binds_view(fd.params@));
            }
            env.truncate(n0);
            proof {
                let extended = spec_env_push_params(old(env)@, binds_view(fd.params@)).push(
                    (
                        fd.name.0@,
                        SpecType::Func(
                            binds_tys(binds_view(fd.params@)),
                            Box::new(SpecType::Var(old(idgen).counter)),
                        ),
                    ),
                );
                assert(extended.subrange(0, n0 as int) =~= old(env)@);
            }
            match eo {
                Err(er) => Err(er),
                Ok((en, ety)) => {
                    env.push(fd.name.0.clone(), Type::Func(ptys, Box::new(clone_type(&ety))));
                    let bo = infer_sub(body, env, tyenv, sigs, idgen);
                    env.truncate(n0);
                    proof {
                        assert(old(env)@.push(
                            (
                                fd.name.0@,
                                SpecType::Func(binds_tys(binds_view(fd.params@)), Box::new(ety@)),
                            ),
                        ).subrange(0, n0 as int) =~= old(env)@);
                    }
                    match bo {
                        Err(er) => Err(er),
                        Ok((bn, bty)) => {
                            let params = clone_binds(&fd.params);
                            proof {
                                lemma_binds_view_ext(params@, fd.params@);
                            }
                            Ok(
                                (
                                    NodeKind::LetFuncExpr(
                                        FuncDef { name: (fd.name.0.clone(), ety), params },
                                        Box::new(en),
                                        Box::new(bn),
                                    ),
                                    bty,
                                ),
                            )
                        },
                    }
                },
            }
        },
        _ => Err(TypeError::Unsupported),
    }
}

fn infer_letfuncdef(
    node: &NodeKind,
    env: &mut TypeEnv,
    tyenv: &mut Subst,
    sigs: &mut SigTable,
    idgen: &mut IdGen,
) -> (r: TypeResult<(NodeKind, Type)>)
    requires
        node is LetFuncDef,
    ensures
        final(env)@ == old(env)@,
        ({
            let o = spec_infer(node@, old(env)@, old(tyenv)@, old(sigs)@, old(idgen).counter);
            final(tyenv)@ == o.tyenv && final(sigs)@ == o.sigs && final(idgen).counter == o.counter
                && infer_result_view(r) == o.result
        }),
    decreases node, 0int,
{
    match node {
        NodeKind::LetFuncDef(fd, e) => {
            let n0 = env.len();
            let ptys = push_params(env, &fd.params);
            let fresh = idgen.get_type();
            let ptys2 = clone_types(&ptys);
            proof {
                lemma_types_view_ext(ptys2@, ptys@);
            }
            env.push(fd.name.0.clone(), Type::Func(ptys2, Box::new(fresh)));
            let eo = infer_sub(e, env, tyenv, sigs, idgen);
            proof {
                lemma_env_push_params_prefix(old(env)@, binds_view(fd.params@));
            }
            env.truncate(n0);
            proof {
                let extended = spec_env_push_params(old(env)@, binds_view(fd.params@)).push(
                    (
                        fd.name.0@,
                        SpecType::Func(
                            binds_tys(binds_view(fd.params@)),
                            Box::new(SpecType::Var(old(idgen).counter)),
                        ),
                    ),
                );
                assert(extended.subrange(0, n0 as int) =~= old(env)@);
            }
            match eo {
                Err(er) => Err(er),
                Ok((en, ety)) => {
                    let tv: Vec<usize> = Vec::new();
                    proof {
                        assert(tv@ =~= Seq::<usize>::empty());
                    }
                    sigs.insert(
                        fd.name.0.clone(),
                        TypeScheme::new(tv, Type::Func(ptys, Box::new(clone_type(&ety)))),
                    );
                    let params = clone_binds(&fd.params);
                    proof {
                        lemma_binds_view_ext(params@, fd.params@);
                    }
                    Ok(
                        (
                            NodeKind::LetFuncDef(
                                FuncDef { name: (fd.name.0.clone(), ety), params },
                                Box::new(en),
                            ),
                            Type::Unit,
                        ),
                    )
                },
            }
        },
        _ => Err(TypeError::Unsupported),
    }
}

fn infer_intunaryop(
    node: &NodeKind,
    env: &mut TypeEnv,
    tyenv: &mut Subst,
    sigs: &mut SigTable,
    idgen: &mut IdGen,
) -> (r: TypeResult<(NodeKind, Type)>)
    requires
        node is IntUnaryOp,
    ensures
        final(env)@ == old(env)@,
        ({
            let o = spec_infer(node@, old(env)@, old(tyenv)@, old(sigs)@, old(idgen).counter);
            final(tyenv)@ == o.tyenv && final(sigs)@ == o.sigs && final(idgen).counter == o.counter
                && infer_result_view(r) == o.result
        }),
    decreases node, 0int,
{
    match node {
        NodeKind::IntUnaryOp(op, e) => {
            let eo = infer_sub(e, env, tyenv, sigs, idgen);
            match eo {
                Err(er) => Err(er),
                Ok((en, ety)) => {
                    match infer_unify(&ety, &Type::Int) {
                        Err(ue) => Err(ue),
                        Ok(_) => Ok((NodeKind::IntUnaryOp(*op, Box::new(en)), ety)),
                    }
                },
            }
        },
        _ => Err(TypeError::Unsupported),
    }
}

fn infer_floatunaryop(
    node: &NodeKind,
    env: &mut TypeEnv,
    tyenv: &mut Subst,
    sigs: &mut SigTable,
    idgen: &mut IdGen,
) -> (r: TypeResult<(NodeKind, Type)>)
    requires
        node is FloatUnaryOp,
    ensures
        final(env)@ == old(env)@,
        ({
            let o = spec_infer(node@, old(env)@, old(tyenv)@, old(sigs)@, old(idgen).counter);
            final(tyenv)@ == o.tyenv && final(sigs)@ == o.sigs && final(idgen).counter == o.counter
                && infer_result_view(r) == o.result
        }),
    decreases node, 0int,
{
    match node {
        NodeKind::FloatUnaryOp(op, e) => {
            let eo = infer_sub(e, env, tyenv, sigs, idgen);
            match eo {
                Err(er) => Err(er),
                Ok((en, ety)) => {
                    match infer_unify(&ety, &Type::Float) {
                        Err(ue) => Err(ue),
                        Ok(_) => Ok((NodeKind::FloatUnaryOp(*op, Box::new(en)), ety)),
                    }
                },
            }
        },
        _ => Err(TypeError::Unsupported),
    }
}

fn infer_intbinaryop(
    node: &NodeKind,
    env: &mut TypeEnv,
    tyenv: &mut Subst,
    sigs: &mut SigTable,
    idgen: &mut IdGen,
) -> (r: TypeResult<(NodeKind, Type)>)
    requires
        node is IntBinaryOp,
    ensures
        final(env)@ == old(env)@,
        ({
            let o = spec_infer(node@, old(env)@, old(tyenv)@, old(sigs)@, old(idgen).counter);
            final(tyenv)@ == o.tyenv && final(sigs)@ == o.sigs && final(idgen).counter == o.counter
                && infer_result_view(r) == o.result
        }),
    decreases node, 0int,
{
    match node {
        NodeKind::IntBinaryOp(op, l, r2) => {
            let lo = infer_sub(l, env, tyenv, sigs, idgen);
            match lo {
                Err(er) => Err(er),
                Ok((ln, lty)) => {
                    let ro = infer_sub(r2, env, tyenv, sigs, idgen);
                    match ro {
                        Err(er) => Err(er),
                        Ok((rn, rty)) => {
                            match infer_unify(&lty, &Type::Int) {
                                Err(ue) => Err(ue),
                                Ok(_) => {
                                    match infer_unify(&rty, &Type::Int) {
                                        Err(ue) => Err(ue),
                                        Ok(_) => Ok(
                                            (
                                                NodeKind::IntBinaryOp(
                                                    *op,
                                                    Box::new(ln),
                                                    Box::new(rn),
                                                ),
                                                Type::Int,
                                            ),
                                        ),
                                    }
                                },
                            }
                        },
                    }
                },
            }
        },
        _ => Err(TypeError::Unsupported),
    }
}

fn infer_floatbinaryop(
    node: &NodeKind,
    env: &mut TypeEnv,
    tyenv: &mut Subst,
    sigs: &mut SigTable,
    idgen: &mut IdGen,
) -> (r: TypeResult<(NodeKind, Type)>)
    requires
        node is FloatBinaryOp,
    ensures
        final(env)@ == old(env)@,
        ({
            let o = spec_infer(node@, old(env)@, old(tyenv)@, old(sigs)@, old(idgen).counter);
            final(tyenv)@ == o.tyenv && final(sigs)@ == o.sigs && final(idgen).counter == o.counter
                && infer_result_view(r) == o.result
        }),
    decreases node, 0int,
{
    match node {
        NodeKind::FloatBinaryOp(op, l, r2) => {
            let lo = infer_sub(l, env, tyenv, sigs, idgen);
            match lo {
                Err(er) => Err(er),
                Ok((ln, lty)) => {
                    let ro = infer_sub(r2, env, tyenv, sigs, idgen);
                    match ro {
                        Err(er) => Err(er),
                        Ok((rn, rty)) => {
                            match infer_unify(&lty, &Type::Float) {
                                Err(ue) => Err(ue),
                                Ok(_) => {
                                    match infer_unify(&rty, &Type::Float) {
                                        Err(ue) => Err(ue),
                                        Ok(_) => Ok(
                                            (
                                                NodeKind::FloatBinaryOp(
                                                    *op,
                                                    Box::new(ln),
                                                    Box::new(rn),
                                                ),
                                                Type::Float,
                                            ),
                                        ),
                                    }
                                },
                            }
                        },
                    }
                },
            }
        },
        _ => Err(TypeError::Unsupported),
    }
}

#[verifier::rlimit(100)]
pub fn infer_sub(
    node: &NodeKind,
    env: &mut TypeEnv,
    tyenv: &mut Subst,
    sigs: &mut SigTable,
    idgen: &mut IdGen,
) -> (r: TypeResult<(NodeKind, Type)>)
    ensures
        final(env)@ == old(env)@,
        ({
            let o = spec_infer(node@, old(env)@, old(tyenv)@, old(sigs)@, old(idgen).counter);
            final(tyenv)@ == o.tyenv && final(sigs)@ == o.sigs && final(idgen).counter == o.counter
                && infer_result_view(r) == o.result
        }),
    decreases node, 1int,
{
    match node {
        NodeKind::Unit => Ok((NodeKind::Unit, Type::Unit)),
        NodeKind::Bool(b) => Ok((NodeKind::Bool(*b), Type::Bool)),
        NodeKind::Int(i) => Ok((NodeKind::Int(*i), Type::Int)),
        NodeKind::Float(s) => Ok((NodeKind::Float(s.clone()), Type::Float)),
        NodeKind::Ident(name) => {
            match env.get(name) {
                Some(t) => Ok((NodeKind::Ident(name.clone()), t)),
                None => match sigs.get_body(name) {
                    Some(t) => Ok((NodeKind::Ident(name.clone()), t)),
                    None => Err(TypeError::NotFoundVarOrFunc(name.clone())),
                },
            }
        },
        NodeKind::Call(..) => infer_call(node, env, tyenv, sigs, idgen),
        NodeKind::LetExpr(..) => infer_letexpr(node, env, tyenv, sigs, idgen),
        NodeKind::LetDef(..) => infer_letdef(node, env, tyenv, sigs, idgen),
        NodeKind::LetFuncExpr(..) => infer_letfuncexpr(node, env, tyenv, sigs, idgen),
        NodeKind::LetFuncDef(..) => infer_letfuncdef(node, env, tyenv, sigs, idgen),
        NodeKind::IntUnaryOp(..) => infer_intunaryop(node, env, tyenv, sigs, idgen),
        NodeKind::FloatUnaryOp(..) => infer_floatunaryop(node, env, tyenv, sigs, idgen),
        NodeKind::IntBinaryOp(..) => infer_intbinaryop(node, env, tyenv, sigs, idgen),
        NodeKind::FloatBinaryOp(..) => infer_floatbinaryop(node, env, tyenv, sigs, idgen),
        _ => Err(TypeError::Unsupported),
    }
}

/// The fuel that resolution of the final type gets: one more step than there
/// are bindings, saturating at the maximum.
pub open spec fn spec_deref_fuel(n: nat) -> nat {
    if n < usize::MAX {
        n + 1
    } else {
        usize::MAX as nat
    }
}

/// What inferring a whole module item yields: inference from an empty local
/// environment, with the inferred type resolved through the substitution
/// that inference built.
pub open spec fn spec_infer_top(
    n: SpecNode,
    tyenv: Seq<(usize, SpecType)>,
    sigs: Seq<(Seq<char>, SpecScheme)>,
    counter: usize,
) -> SpecInferOut {
    let o = spec_infer(n, Seq::empty(), tyenv, sigs, counter);
    match o.result {
        Ok((nn, t)) => SpecInferOut {
            result: Ok((nn, spec_deref(t, o.tyenv, spec_deref_fuel(o.tyenv.len())))),
            tyenv: o.tyenv,
            sigs: o.sigs,
            counter: o.counter,
        },
        Err(_) => o,
    }
}

/// Infers the type of one uniquified module item, starting from an empty
/// local environment; on success the item is re-annotated and its type is
/// resolved through the substitution built during inference.
pub fn infer(node: &NodeKind, tyenv: &mut Subst, sigs: &mut SigTable, idgen: &mut IdGen) -> (r:
    TypeResult<(NodeKind, Type)>)
    ensures
        ({
            let o = spec_infer_top(node@, old(tyenv)@, old(sigs)@, old(idgen).counter);
            final(tyenv)@ == o.tyenv && final(sigs)@ == o.sigs && final(idgen).counter == o.counter
                && infer_result_view(r) == o.result
        }),
{
    let mut env = TypeEnv::new();
    let r = infer_sub(node, &mut env, tyenv, sigs, idgen);
    match r {
        Err(e) => Err(e),
        Ok((n, t)) => {
            let len = tyenv.len();
            let fuel = if len < usize::MAX {
                len + 1
            } else {
                len
            };
            let t2 = deref_type(&t, tyenv, fuel);
            Ok((n, t2))
        },
    }
}

} // verus!
