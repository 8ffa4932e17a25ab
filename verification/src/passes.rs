//! Source pre-passes: nested-comment stripping, and uniquification of the
//! parse-time type placeholders together with normalization of call targets
//! to bare identifiers.
use vstd::prelude::*;
use crate::dec::{dec_digits, dec_string};
use vstd::string::StringSliceAdditionalSpecFns;
use crate::id::{IdGen, spec_next_counter};
use crate::node::{
    NodeKind, SpecNode, FuncDef, SpecBind, SpecFuncDef, node_view, nodes_view, binds_view,
    clone_node, lemma_binds_view_index, lemma_binds_view_len, lemma_nodes_view_index,
    lemma_nodes_view_len,
};
use crate::typing::{Type, SpecType, type_view, clone_type};

verus! {

/// Turns a byte slice into text.
///
/// Relies on `str::from_utf8` of std: on input that is valid UTF-8 it
/// returns the borrowed text whose bytes are exactly the input.
#[verifier::external_body]
pub fn to_str(slice: &[u8]) -> (r: &str)
    requires
        vstd::utf8::valid_utf8(slice@),
    ensures
        r.spec_bytes() == slice@,
{
    core::str::from_utf8(slice).unwrap()
}

/// A comment-balance failure: a close marker with no open marker before it,
/// or an open marker never closed.
#[derive(Clone, Copy, Debug, PartialEq, Eq, Structural)]
pub enum CommentError {
    UnmatchedClose,
    Unterminated,
}

/// What stripping comments from `pos` on yields, at nesting depth `level`
/// with `acc` already kept: `(*` opens a nesting level, `*)` closes one (a
/// close at depth zero is an error), characters outside comments are kept,
/// and input that ends inside a comment is an error.
pub open spec fn spec_strip(s: Seq<char>, pos: int, level: int, acc: Seq<char>) -> Result<
    Seq<char>,
    CommentError,
>
    decreases s.len() - pos,
{
    if pos < 0 || pos >= s.len() {
        if level == 0 {
            Ok(acc)
        } else {
            Err(CommentError::Unterminated)
        }
    } else if pos + 1 < s.len() && s[pos] == '(' && s[pos + 1] == '*' {
        spec_strip(s, pos + 2, level + 1, acc)
    } else if pos + 1 < s.len() && s[pos] == '*' && s[pos + 1] == ')' {
        if level <= 0 {
            Err(CommentError::UnmatchedClose)
        } else {
            spec_strip(s, pos + 2, level - 1, acc)
        }
    } else {
        spec_strip(s, pos + 1, level, if level == 0 {
            acc.push(s[pos])
        } else {
            acc
        })
    }
}

/// Strips comments from `pos` on.
fn strip_from(s: &str, pos: usize, level: usize, acc: String) -> (r: Result<String, CommentError>)
    requires
        pos <= s@.len(),
        level <= pos,
    ensures
        match r {
            Ok(t) => spec_strip(s@, pos as int, level as int, acc@) == Ok::<Seq<char>, CommentError>(
                t@,
            ),
            Err(e) => spec_strip(s@, pos as int, level as int, acc@) == Err::<
                Seq<char>,
                CommentError,
            >(e),
        },
    decreases s@.len() - pos,
{
    let n = s.unicode_len();
    if pos == n {
        if level == 0 {
            Ok(acc)
        } else {
            Err(CommentError::Unterminated)
        }
    } else if pos + 1 < n && s.get_char(pos) == '(' && s.get_char(pos + 1) == '*' {
        strip_from(s, pos + 2, level + 1, acc)
    } else if pos + 1 < n && s.get_char(pos) == '*' && s.get_char(pos + 1) == ')' {
        if level == 0 {
            Err(CommentError::UnmatchedClose)
        } else {
            strip_from(s, pos + 2, level - 1, acc)
        }
    } else {
        let acc2 = if level == 0 {
            let piece = s.substring_char(pos, pos + 1);
            let a = acc.concat(piece);
            proof {
                assert(a@ =~= acc@.push(s@[pos as int]));
            }
            a
        } else {
            acc
        };
        strip_from(s, pos + 1, level, acc2)
    }
}

/// Strips nested `(* ... *)` comments: what is outside every comment is
/// kept, character for character; unbalanced markers are reported.
pub fn remove_comments(s: &str) -> (r: Result<String, CommentError>)
    ensures
        match r {
            Ok(t) => spec_strip(s@, 0, 0, Seq::empty()) == Ok::<Seq<char>, CommentError>(t@),
            Err(e) => spec_strip(s@, 0, 0, Seq::empty()) == Err::<Seq<char>, CommentError>(e),
        },
{
    let acc = String::new();
    strip_from(s, 0, 0, acc)
}

/// The synthetic name for a normalized call target: a leading point, which
/// no user identifier can contain, then the fresh id in decimal.
pub open spec fn spec_synth_name(k: usize) -> Seq<char> {
    ".app"@ + dec_digits(k as nat)
}

/// Builds the synthetic name for id `k`.
fn synth_name(k: usize) -> (r: String)
    ensures
        r@ == spec_synth_name(k),
{
    let d = dec_string(k);
    let r = String::from_str(".app").concat(d.as_str());
    r
}

/// A type slot after uniquification: the parse-time placeholder (variable 0)
/// is replaced by a fresh variable; any other slot is kept.
pub open spec fn spec_fresh_slot(t: SpecType, c: usize) -> (SpecType, usize) {
    if t == SpecType::Var(0usize) {
        (SpecType::Var(c), spec_next_counter(c))
    } else {
        (t, c)
    }
}

/// Replaces a placeholder type slot by a fresh variable.
fn fresh_slot(t: Type, idgen: &mut IdGen) -> (r: Type)
    ensures
        ({
            let (t2, c2) = spec_fresh_slot(t@, old(idgen).counter);
            r@ == t2 && final(idgen).counter == c2
        }),
{
    match t {
        Type::Var(k) => {
            if k == 0 {
                idgen.get_type()
            } else {
                Type::Var(k)
            }
        },
        other => other,
    }
}

/// Uniquification never alters an already-resolved slot's identity: a type
/// slot that is not the parse-time placeholder comes through `spec_fresh_slot`
/// unchanged, and no fresh id is spent on it. Together with the functional
/// contract of `uniquify`, re-running uniquification on a tree whose slots
/// are already concrete or already-fresh variables assigns freshness only to
/// slots that still hold the placeholder.
pub proof fn lemma_fresh_slot_keeps_resolved(t: SpecType, c: usize)
    requires
        t != SpecType::Var(0usize),
    ensures
        spec_fresh_slot(t, c) == (t, c),
{
}

/// Parameter slots after uniquification, in order.
pub open spec fn spec_fresh_params(ps: Seq<SpecBind>, c: usize) -> (Seq<SpecBind>, usize)
    decreases ps.len(),
{
    if ps.len() == 0 {
        (Seq::empty(), c)
    } else {
        let (t2, c1) = spec_fresh_slot(ps[0].ty, c);
        let (rest, c2) = spec_fresh_params(ps.subrange(1, ps.len() as int), c1);
        (seq![SpecBind { name: ps[0].name, ty: t2 }].add(rest), c2)
    }
}

/// Replaces the placeholder slots of a parameter list, from index `i` on.
fn fresh_params_from(ps: &Vec<(String, Type)>, i: usize, idgen: &mut IdGen) -> (r: Vec<
    (String, Type),
>)
    requires
        i <= ps@.len(),
    ensures
        ({
            let (bs, c2) = spec_fresh_params(
                binds_view(ps@).skip(i as int),
                old(idgen).counter,
            );
            binds_view(r@) == bs && final(idgen).counter == c2
        }),
    decreases ps@.len() - i,
{
    proof {
        lemma_binds_view_len(ps@);
    }
    if i == ps.len() {
        let r: Vec<(String, Type)> = Vec::new();
        proof {
            assert(binds_view(r@) =~= Seq::<SpecBind>::empty());
        }
        r
    } else {
        proof {
            lemma_binds_view_index(ps@, i as int);
            let full = binds_view(ps@).skip(i as int);
            assert(full.subrange(1, full.len() as int) =~= binds_view(ps@).skip(i as int + 1));
        }
        let name = ps[i].0.clone();
        let t2 = fresh_slot(clone_type(&ps[i].1), idgen);
        let ghost hb = (SpecBind { name: name@, ty: t2@ });
        let rest = fresh_params_from(ps, i + 1, idgen);
        let ghost restv = binds_view(rest@);
        let mut r: Vec<(String, Type)> = Vec::new();
        r.push((name, t2));
        let mut restm = rest;
        let ghost restvv = restm@;
        r.append(&mut restm);
        proof {
            assert(r@ =~= seq![r@[0]].add(restvv));
            lemma_binds_view_len(r@);
            lemma_binds_view_len(restvv);
            assert forall|j: int| 0 <= j < r@.len() implies #[trigger] binds_view(r@)[j] == seq![
                hb,
            ].add(restv)[j] by {
                lemma_binds_view_index(r@, j);
                if j > 0 {
                    lemma_binds_view_index(restvv, j - 1);
                    assert(r@[j] == restvv[j - 1]);
                }
            }
            assert(binds_view(r@) =~= seq![hb].add(restv));
        }
        r
    }
}

/// What uniquifying one node yields, with the counter threaded through:
/// every placeholder type slot of a binding site gets a fresh variable id
/// (slot first, then sub-expressions, depth-first, left to right), and a
/// call whose target is not a bare identifier is rewritten into a `let`
/// that binds the target to a fresh synthetic name and calls that name.
pub open spec fn spec_uniquify(n: SpecNode, c: usize) -> (SpecNode, usize)
    decreases n,
{
    match n {
        SpecNode::LetExpr(b, e, body) => {
            let (t2, c1) = spec_fresh_slot(b.ty, c);
            let (e2, c2) = spec_uniquify(*e, c1);
            let (b2, c3) = spec_uniquify(*body, c2);
            (
                SpecNode::LetExpr(
                    SpecBind { name: b.name, ty: t2 },
                    Box::new(e2),
                    Box::new(b2),
                ),
                c3,
            )
        },
        SpecNode::LetFuncExpr(fd, e, body) => {
            let (t2, c1) = spec_fresh_slot(fd.name.ty, c);
            let (ps2, c2) = spec_fresh_params(fd.params, c1);
            let (e2, c3) = spec_uniquify(*e, c2);
            let (b2, c4) = spec_uniquify(*body, c3);
            (
                SpecNode::LetFuncExpr(
                    SpecFuncDef {
                        name: SpecBind { name: fd.name.name, ty: t2 },
                        params: ps2,
                    },
                    Box::new(e2),
                    Box::new(b2),
                ),
                c4,
            )
        },
        SpecNode::LetTupleExpr(pat, e, body) => {
            let (pat2, c1) = spec_fresh_params(pat, c);
            let (e2, c2) = spec_uniquify(*e, c1);
            let (b2, c3) = spec_uniquify(*body, c2);
            (SpecNode::LetTupleExpr(pat2, Box::new(e2), Box::new(b2)), c3)
        },
        SpecNode::LetDef(b, e) => {
            let (t2, c1) = spec_fresh_slot(b.ty, c);
            let (e2, c2) = spec_uniquify(*e, c1);
            (SpecNode::LetDef(SpecBind { name: b.name, ty: t2 }, Box::new(e2)), c2)
        },
        SpecNode::LetFuncDef(fd, e) => {
            let (t2, c1) = spec_fresh_slot(fd.name.ty, c);
            let (ps2, c2) = spec_fresh_params(fd.params, c1);
            let (e2, c3) = spec_uniquify(*e, c2);
            (
                SpecNode::LetFuncDef(
                    SpecFuncDef {
                        name: SpecBind { name: fd.name.name, ty: t2 },
                        params: ps2,
                    },
                    Box::new(e2),
                ),
                c3,
            )
        },
        SpecNode::IntUnaryOp(op, e) => {
            let (e2, c1) = spec_uniquify(*e, c);
            (SpecNode::IntUnaryOp(op, Box::new(e2)), c1)
        },
        SpecNode::FloatUnaryOp(op, e) => {
            let (e2, c1) = spec_uniquify(*e, c);
            (SpecNode::FloatUnaryOp(op, Box::new(e2)), c1)
        },
        SpecNode::IntBinaryOp(op, a, b) => {
            let (a2, c1) = spec_uniquify(*a, c);
            let (b2, c2) = spec_uniquify(*b, c1);
            (SpecNode::IntBinaryOp(op, Box::new(a2), Box::new(b2)), c2)
        },
        SpecNode::FloatBinaryOp(op, a, b) => {
            let (a2, c1) = spec_uniquify(*a, c);
            let (b2, c2) = spec_uniquify(*b, c1);
            (SpecNode::FloatBinaryOp(op, Box::new(a2), Box::new(b2)), c2)
        },
        SpecNode::CompBinaryOp(op, a, b) => {
            let (a2, c1) = spec_uniquify(*a, c);
            let (b2, c2) = spec_uniquify(*b, c1);
            (SpecNode::CompBinaryOp(op, Box::new(a2), Box::new(b2)), c2)
        },
        SpecNode::Tuple(es) => {
            let (es2, c1) = spec_uniquify_seq(es, c);
            (SpecNode::Tuple(es2), c1)
        },
        SpecNode::IfExpr(cnd, t, e) => {
            let (c2n, c1) = spec_uniquify(*cnd, c);
            let (t2, c2) = spec_uniquify(*t, c1);
            let (e2, c3) = spec_uniquify(*e, c2);
            (SpecNode::IfExpr(Box::new(c2n), Box::new(t2), Box::new(e2)), c3)
        },
        SpecNode::Call(f, args) => {
            if *f is Ident {
                let (f2, c1) = spec_uniquify(*f, c);
                let (args2, c2) = spec_uniquify_seq(args, c1);
                (SpecNode::Call(Box::new(f2), args2), c2)
            } else {
                let nm = spec_synth_name(c);
                let c1 = spec_next_counter(c);
                let (args2, c2) = spec_uniquify_seq(args, c1);
                let ty = SpecType::Var(c2);
                let c3 = spec_next_counter(c2);
                let (f2, c4) = spec_uniquify(*f, c3);
                (
                    SpecNode::LetExpr(
                        SpecBind { name: nm, ty },
                        Box::new(f2),
                        Box::new(SpecNode::Call(Box::new(SpecNode::Ident(nm)), args2)),
                    ),
                    c4,
                )
            }
        },
        other => (other, c),
    }
}

/// Uniquification of a node list, left to right.
pub open spec fn spec_uniquify_seq(ns: Seq<SpecNode>, c: usize) -> (Seq<SpecNode>, usize)
    decreases ns,
{
    if ns.len() == 0 {
        (Seq::empty(), c)
    } else {
        let (h, c1) = spec_uniquify(ns[0], c);
        let (t, c2) = spec_uniquify_seq(ns.subrange(1, ns.len() as int), c1);
        (seq![h].add(t), c2)
    }
}

/// Uniquifies one node, by reference, as `spec_uniquify` describes.
fn u_letexpr(expr: &NodeKind, idgen: &mut IdGen) -> (r: NodeKind)
    requires
        expr is LetExpr,
    ensures
        ({
            let (n2, c2) = spec_uniquify(expr@, old(idgen).counter);
            r@ == n2 && final(idgen).counter == c2
        }),
    decreases expr, 0int,
{
    match expr {
        NodeKind::LetExpr(b, e, body) => {
            let t2 = fresh_slot(clone_type(&b.1), idgen);
            let e2 = uniquify_ref(e, idgen);
            let b2 = uniquify_ref(body, idgen);
            NodeKind::LetExpr((b.0.clone(), t2), Box::new(e2), Box::new(b2))
        },
        _ => clone_node(expr),
    }
}

fn u_letfuncexpr(expr: &NodeKind, idgen: &mut IdGen) -> (r: NodeKind)
    requires
        expr is LetFuncExpr,
    ensures
        ({
            let (n2, c2) = spec_uniquify(expr@, old(idgen).counter);
            r@ == n2 && final(idgen).counter == c2
        }),
    decreases expr, 0int,
{
    match expr {
        NodeKind::LetFuncExpr(fd, e, body) => {
            let t2 = fresh_slot(clone_type(&fd.name.1), idgen);
            let ps2 = fresh_params_from(&fd.params, 0, idgen);
            proof {
                assert(binds_view(fd.params@).skip(0) =~= binds_view(fd.params@));
            }
            let e2 = uniquify_ref(e, idgen);
            let b2 = uniquify_ref(body, idgen);
            NodeKind::LetFuncExpr(
                FuncDef { name: (fd.name.0.clone(), t2), params: ps2 },
                Box::new(e2),
                Box::new(b2),
            )
        },
        _ => clone_node(expr),
    }
}

fn u_lettuple(expr: &NodeKind, idgen: &mut IdGen) -> (r: NodeKind)
    requires
        expr is LetTupleExpr,
    ensures
        ({
            let (n2, c2) = spec_uniquify(expr@, old(idgen).counter);
            r@ == n2 && final(idgen).counter == c2
        }),
    decreases expr, 0int,
{
    match expr {
        NodeKind::LetTupleExpr(pat, e, body) => {
            let pat2 = fresh_params_from(pat, 0, idgen);
            proof {
                assert(binds_view(pat@).skip(0) =~= binds_view(pat@));
            }
            let e2 = uniquify_ref(e, idgen);
            let b2 = uniquify_ref(body, idgen);
            NodeKind::LetTupleExpr(pat2, Box::new(e2), Box::new(b2))
        },
        _ => clone_node(expr),
    }
}

fn u_letdef(expr: &NodeKind, idgen: &mut IdGen) -> (r: NodeKind)
    requires
        expr is LetDef,
    ensures
        ({
            let (n2, c2) = spec_uniquify(expr@, old(idgen).counter);
            r@ == n2 && final(idgen).counter == c2
        }),
    decreases expr, 0int,
{
    match expr {
        NodeKind::LetDef(b, e) => {
            let t2 = fresh_slot(clone_type(&b.1), idgen);
            let e2 = uniquify_ref(e, idgen);
            NodeKind::LetDef((b.0.clone(), t2), Box::new(e2))
        },
        _ => clone_node(expr),
    }
}

fn u_letfuncdef(expr: &NodeKind, idgen: &mut IdGen) -> (r: NodeKind)
    requires
        expr is LetFuncDef,
    ensures
        ({
            let (n2, c2) = spec_uniquify(expr@, old(idgen).counter);
            r@ == n2 && final(idgen).counter == c2
        }),
    decreases expr, 0int,
{
    match expr {
        NodeKind::LetFuncDef(fd, e) => {
            let t2 = fresh_slot(clone_type(&fd.name.1), idgen);
            let ps2 = fresh_params_from(&fd.params, 0, idgen);
            proof {
                assert(binds_view(fd.params@).skip(0) =~= binds_view(fd.params@));
            }
            let e2 = uniquify_ref(e, idgen);
            NodeKind::LetFuncDef(
                FuncDef { name: (fd.name.0.clone(), t2), params: ps2 },
                Box::new(e2),
            )
        },
        _ => clone_node(expr),
    }
}

fn u_intunary(expr: &NodeKind, idgen: &mut IdGen) -> (r: NodeKind)
    requires
        expr is IntUnaryOp,
    ensures
        ({
            let (n2, c2) = spec_uniquify(expr@, old(idgen).counter);
            r@ == n2 && final(idgen).counter == c2
        }),
    decreases expr, 0int,
{
    match expr {
        NodeKind::IntUnaryOp(op, e) => {
            let e2 = uniquify_ref(e, idgen);
            NodeKind::IntUnaryOp(*op, Box::new(e2))
        },
        _ => clone_node(expr),
    }
}

fn u_floatunary(expr: &NodeKind, idgen: &mut IdGen) -> (r: NodeKind)
    requires
        expr is FloatUnaryOp,
    ensures
        ({
            let (n2, c2) = spec_uniquify(expr@, old(idgen).counter);
            r@ == n2 && final(idgen).counter == c2
        }),
    decreases expr, 0int,
{
    match expr {
        NodeKind::FloatUnaryOp(op, e) => {
            let e2 = uniquify_ref(e, idgen);
            NodeKind::FloatUnaryOp(*op, Box::new(e2))
        },
        _ => clone_node(expr),
    }
}

fn u_intbin(expr: &NodeKind, idgen: &mut IdGen) -> (r: NodeKind)
    requires
        expr is IntBinaryOp,
    ensures
        ({
            let (n2, c2) = spec_uniquify(expr@, old(idgen).counter);
            r@ == n2 && final(idgen).counter == c2
        }),
    decreases expr, 0int,
{
    match expr {
        NodeKind::IntBinaryOp(op, a, b) => {
            let a2 = uniquify_ref(a, idgen);
            let b2 = uniquify_ref(b, idgen);
            NodeKind::IntBinaryOp(*op, Box::new(a2), Box::new(b2))
        },
        _ => clone_node(expr),
    }
}

fn u_floatbin(expr: &NodeKind, idgen: &mut IdGen) -> (r: NodeKind)
    requires
        expr is FloatBinaryOp,
    ensures
        ({
            let (n2, c2) = spec_uniquify(expr@, old(idgen).counter);
            r@ == n2 && final(idgen).counter == c2
        }),
    decreases expr, 0int,
{
    match expr {
        NodeKind::FloatBinaryOp(op, a, b) => {
            let a2 = uniquify_ref(a, idgen);
            let b2 = uniquify_ref(b, idgen);
            NodeKind::FloatBinaryOp(*op, Box::new(a2), Box::new(b2))
        },
        _ => clone_node(expr),
    }
}

fn u_compbin(expr: &NodeKind, idgen: &mut IdGen) -> (r: NodeKind)
    requires
        expr is CompBinaryOp,
    ensures
        ({
            let (n2, c2) = spec_uniquify(expr@, old(idgen).counter);
            r@ == n2 && final(idgen).counter == c2
        }),
    decreases expr, 0int,
{
    match expr {
        NodeKind::CompBinaryOp(op, a, b) => {
            let a2 = uniquify_ref(a, idgen);
            let b2 = uniquify_ref(b, idgen);
            NodeKind::CompBinaryOp(*op, Box::new(a2), Box::new(b2))
        },
        _ => clone_node(expr),
    }
}

fn u_tuple(expr: &NodeKind, idgen: &mut IdGen) -> (r: NodeKind)
    requires
        expr is Tuple,
    ensures
        ({
            let (n2, c2) = spec_uniquify(expr@, old(idgen).counter);
            r@ == n2 && final(idgen).counter == c2
        }),
    decreases expr, 0int,
{
    match expr {
        NodeKind::Tuple(es) => {
            proof {
                assert(nodes_view(es@).skip(0) =~= nodes_view(es@));
            }
            let es2 = uniquify_nodes(es, 0, idgen);
            NodeKind::Tuple(es2)
        },
        _ => clone_node(expr),
    }
}

fn u_if(expr: &NodeKind, idgen: &mut IdGen) -> (r: NodeKind)
    requires
        expr is IfExpr,
    ensures
        ({
            let (n2, c2) = spec_uniquify(expr@, old(idgen).counter);
            r@ == n2 && final(idgen).counter == c2
        }),
    decreases expr, 0int,
{
    match expr {
        NodeKind::IfExpr(c, t, e) => {
            let c2 = uniquify_ref(c, idgen);
            let t2 = uniquify_ref(t, idgen);
            let e2 = uniquify_ref(e, idgen);
            NodeKind::IfExpr(Box::new(c2), Box::new(t2), Box::new(e2))
        },
        _ => clone_node(expr),
    }
}

fn u_call(expr: &NodeKind, idgen: &mut IdGen) -> (r: NodeKind)
    requires
        expr is Call,
    ensures
        ({
            let (n2, c2) = spec_uniquify(expr@, old(idgen).counter);
            r@ == n2 && final(idgen).counter == c2
        }),
    decreases expr, 0int,
{
    match expr {
        NodeKind::Call(f, args) => {
            proof {
                assert(nodes_view(args@).skip(0) =~= nodes_view(args@));
            }
            let is_id = match &**f {
                NodeKind::Ident(_) => true,
                _ => false,
            };
            if is_id {
                let f2 = uniquify_ref(f, idgen);
                let args2 = uniquify_nodes(args, 0, idgen);
                NodeKind::Call(Box::new(f2), args2)
            } else {
                let nm = synth_name(idgen.get_id());
                let args2 = uniquify_nodes(args, 0, idgen);
                let ty = idgen.get_type();
                let f2 = uniquify_ref(f, idgen);
                let bindname = nm.clone();
                let target = NodeKind::Ident(nm);
                proof {
                    assert(target@ == SpecNode::Ident(spec_synth_name(old(idgen).counter)));
                }
                let ghost args2v = nodes_view(args2@);
                let call2 = NodeKind::Call(Box::new(target), args2);
                proof {
                    assert(call2@ == SpecNode::Call(
                        Box::new(SpecNode::Ident(spec_synth_name(old(idgen).counter))),
                        args2v,
                    ));
                }
                let r = NodeKind::LetExpr((bindname, ty), Box::new(f2), Box::new(call2));
                proof {
                    assert(r@ == spec_uniquify(expr@, old(idgen).counter).0);
                }
                r
            }
        },
        _ => clone_node(expr),
    }
}

fn uniquify_ref(expr: &NodeKind, idgen: &mut IdGen) -> (r: NodeKind)
    ensures
        ({
            let (n2, c2) = spec_uniquify(expr@, old(idgen).counter);
            r@ == n2 && final(idgen).counter == c2
        }),
    decreases expr, 1int,
{
    match expr {
        NodeKind::LetExpr(..) => u_letexpr(expr, idgen),
        NodeKind::LetFuncExpr(..) => u_letfuncexpr(expr, idgen),
        NodeKind::LetTupleExpr(..) => u_lettuple(expr, idgen),
        NodeKind::LetDef(..) => u_letdef(expr, idgen),
        NodeKind::LetFuncDef(..) => u_letfuncdef(expr, idgen),
        NodeKind::IntUnaryOp(..) => u_intunary(expr, idgen),
        NodeKind::FloatUnaryOp(..) => u_floatunary(expr, idgen),
        NodeKind::IntBinaryOp(..) => u_intbin(expr, idgen),
        NodeKind::FloatBinaryOp(..) => u_floatbin(expr, idgen),
        NodeKind::CompBinaryOp(..) => u_compbin(expr, idgen),
        NodeKind::Tuple(..) => u_tuple(expr, idgen),
        NodeKind::IfExpr(..) => u_if(expr, idgen),
        NodeKind::Call(..) => u_call(expr, idgen),
        _ => clone_node(expr),
    }
}

/// Uniquifies the nodes of a list from index `from` on, left to right.
fn uniquify_nodes(ns: &Vec<NodeKind>, from: usize, idgen: &mut IdGen) -> (r: Vec<NodeKind>)
    requires
        from <= ns@.len(),
    ensures
        ({
            let (ns2, c2) = spec_uniquify_seq(
                nodes_view(ns@).skip(from as int),
                old(idgen).counter,
            );
            nodes_view(r@) == ns2 && final(idgen).counter == c2
        }),
    decreases ns, 1int, ns@.len() - from,
{
    proof {
        lemma_nodes_view_len(ns@);
    }
    if from == ns.len() {
        let r: Vec<NodeKind> = Vec::new();
        proof {
            assert(nodes_view(r@) =~= Seq::<SpecNode>::empty());
        }
        r
    } else {
        proof {
            lemma_nodes_view_index(ns@, from as int);
            let full = nodes_view(ns@).skip(from as int);
            assert(full.subrange(1, full.len() as int) =~= nodes_view(ns@).skip(from as int + 1));
        }
        let h = uniquify_ref(&ns[from], idgen);
        let ghost hv = h@;
        let rest = uniquify_nodes(ns, from + 1, idgen);
        let ghost restv = nodes_view(rest@);
        let mut r: Vec<NodeKind> = Vec::new();
        r.push(h);
        let mut restm = rest;
        let ghost restvv = restm@;
        r.append(&mut restm);
        proof {
            assert(r@ =~= seq![r@[0]].add(restvv));
            lemma_nodes_view_len(r@);
            lemma_nodes_view_len(restvv);
            assert forall|j: int| 0 <= j < r@.len() implies #[trigger] nodes_view(r@)[j] == seq![
                hv,
            ].add(restv)[j] by {
                lemma_nodes_view_index(r@, j);
                if j > 0 {
                    lemma_nodes_view_index(restvv, j - 1);
                    assert(r@[j] == restvv[j - 1]);
                }
            }
            assert(nodes_view(r@) =~= seq![hv].add(restv));
        }
        r
    }
}

/// Uniquifies one node, as `spec_uniquify` describes: fresh ids for the
/// parse-time placeholder slots, and call targets normalized to bare
/// identifiers through a synthetic binding.
pub fn uniquify(expr: NodeKind, idgen: &mut IdGen) -> (r: NodeKind)
    ensures
        ({
            let (n2, c2) = spec_uniquify(expr@, old(idgen).counter);
            r@ == n2 && final(idgen).counter == c2
        }),
{
    uniquify_ref(&expr, idgen)
}

/// Uniquifies each node of a list in place, left to right.
pub fn uniquify_seq(seq: &mut Vec<NodeKind>, id_gen: &mut IdGen)
    ensures
        ({
            let (ns2, c2) = spec_uniquify_seq(nodes_view(old(seq)@), old(id_gen).counter);
            nodes_view(final(seq)@) == ns2 && final(id_gen).counter == c2
        }),
{
    proof {
        assert(nodes_view(seq@).skip(0) =~= nodes_view(seq@));
    }
    let mut out = uniquify_nodes(seq, 0, id_gen);
    seq.clear();
    seq.append(&mut out);
}

} // verus!
