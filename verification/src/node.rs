//! The abstract syntax tree produced by parsing, shared by every later pass,
//! and its mathematical model.
use vstd::prelude::*;
use crate::typing::{Type, SpecType, type_view, clone_type};

verus! {

/// Integer and float binary operators.
#[derive(Clone, Copy, Debug, PartialEq, Eq, Structural)]
pub enum BinOps {
    IAdd,
    ISub,
    IMul,
    IDiv,
    IMod,
    FAdd,
    FSub,
    FMul,
    FDiv,
}

/// Integer and float unary (prefix negation) operators.
#[derive(Clone, Copy, Debug, PartialEq, Eq, Structural)]
pub enum UnaryOps {
    INeg,
    FNeg,
}

/// Comparison operators: structural and physical (in)equality and orderings.
#[derive(Clone, Copy, Debug, PartialEq, Eq, Structural)]
pub enum CompOps {
    EqOp,
    NeOp,
    PhysEqOp,
    PhysNeOp,
    LeOp,
    GeOp,
    LtOp,
    GtOp,
}

/// A function definition header: the function's name with its (return) type
/// slot, and the typed parameter list.
#[derive(Debug, PartialEq)]
pub struct FuncDef {
    pub name: (String, Type),
    pub params: Vec<(String, Type)>,
}

/// An expression of the abstract syntax tree. Every binding site carries a
/// `Type` slot, initially the placeholder `Type::Var(0)` unless annotated.
#[derive(Debug, PartialEq)]
pub enum NodeKind {
    Unit,
    Bool(bool),
    Int(i64),
    /// A float literal, kept as its source lexeme; floats are consumed only
    /// by the code-generation backend, which is outside this library.
    Float(String),
    Ident(String),
    /// Parser-internal function header (name and parameters).
    FuncDef((String, Type), Vec<(String, Type)>),
    IntUnaryOp(UnaryOps, Box<NodeKind>),
    FloatUnaryOp(UnaryOps, Box<NodeKind>),
    IntBinaryOp(BinOps, Box<NodeKind>, Box<NodeKind>),
    FloatBinaryOp(BinOps, Box<NodeKind>, Box<NodeKind>),
    CompBinaryOp(CompOps, Box<NodeKind>, Box<NodeKind>),
    Tuple(Vec<NodeKind>),
    /// `let name = expr in body`
    LetExpr((String, Type), Box<NodeKind>, Box<NodeKind>),
    /// `let f params = expr in body`
    LetFuncExpr(FuncDef, Box<NodeKind>, Box<NodeKind>),
    /// `let (a, b, ...) = expr in body`
    LetTupleExpr(Vec<(String, Type)>, Box<NodeKind>, Box<NodeKind>),
    /// Top-level `let name = expr`
    LetDef((String, Type), Box<NodeKind>),
    /// Top-level `let f params = expr`
    LetFuncDef(FuncDef, Box<NodeKind>),
    IfExpr(Box<NodeKind>, Box<NodeKind>, Box<NodeKind>),
    /// Application: callee expression and argument list.
    Call(Box<NodeKind>, Vec<NodeKind>),
}

/// Mathematical model of a binding site: name and type slot.
pub ghost struct SpecBind {
    pub name: Seq<char>,
    pub ty: SpecType,
}

/// Mathematical model of a `FuncDef`.
pub ghost struct SpecFuncDef {
    pub name: SpecBind,
    pub params: Seq<SpecBind>,
}

/// Mathematical model of a `NodeKind`.
pub ghost enum SpecNode {
    Unit,
    Bool(bool),
    Int(i64),
    Float(Seq<char>),
    Ident(Seq<char>),
    FuncDef(SpecBind, Seq<SpecBind>),
    IntUnaryOp(UnaryOps, Box<SpecNode>),
    FloatUnaryOp(UnaryOps, Box<SpecNode>),
    IntBinaryOp(BinOps, Box<SpecNode>, Box<SpecNode>),
    FloatBinaryOp(BinOps, Box<SpecNode>, Box<SpecNode>),
    CompBinaryOp(CompOps, Box<SpecNode>, Box<SpecNode>),
    Tuple(Seq<SpecNode>),
    LetExpr(SpecBind, Box<SpecNode>, Box<SpecNode>),
    LetFuncExpr(SpecFuncDef, Box<SpecNode>, Box<SpecNode>),
    LetTupleExpr(Seq<SpecBind>, Box<SpecNode>, Box<SpecNode>),
    LetDef(SpecBind, Box<SpecNode>),
    LetFuncDef(SpecFuncDef, Box<SpecNode>),
    IfExpr(Box<SpecNode>, Box<SpecNode>, Box<SpecNode>),
    Call(Box<SpecNode>, Seq<SpecNode>),
}

/// Model of a binding pair.
pub open spec fn bind_view(b: (String, Type)) -> SpecBind {
    SpecBind { name: b.0@, ty: type_view(b.1) }
}

/// Model of a parameter list, elementwise.
pub open spec fn binds_view(ps: Seq<(String, Type)>) -> Seq<SpecBind>
    decreases ps,
{
    if ps.len() == 0 {
        Seq::empty()
    } else {
        seq![bind_view(ps[0])].add(binds_view(ps.subrange(1, ps.len() as int)))
    }
}

/// Model of a `FuncDef`.
pub open spec fn funcdef_view(fd: FuncDef) -> SpecFuncDef {
    SpecFuncDef { name: bind_view(fd.name), params: binds_view(fd.params@) }
}

/// Model of a sequence of nodes, elementwise.
pub open spec fn nodes_view(ns: Seq<NodeKind>) -> Seq<SpecNode>
    decreases ns,
{
    if ns.len() == 0 {
        Seq::empty()
    } else {
        seq![node_view(ns[0])].add(nodes_view(ns.subrange(1, ns.len() as int)))
    }
}

/// Model of a `NodeKind`.
pub open spec fn node_view(n: NodeKind) -> SpecNode
    decreases n,
{
    match n {
        NodeKind::Unit => SpecNode::Unit,
        NodeKind::Bool(b) => SpecNode::Bool(b),
        NodeKind::Int(i) => SpecNode::Int(i),
        NodeKind::Float(s) => SpecNode::Float(s@),
        NodeKind::Ident(s) => SpecNode::Ident(s@),
        NodeKind::FuncDef(name, params) => SpecNode::FuncDef(bind_view(name), binds_view(params@)),
        NodeKind::IntUnaryOp(op, e) => SpecNode::IntUnaryOp(op, Box::new(node_view(*e))),
        NodeKind::FloatUnaryOp(op, e) => SpecNode::FloatUnaryOp(op, Box::new(node_view(*e))),
        NodeKind::IntBinaryOp(op, a, b) => SpecNode::IntBinaryOp(
            op,
            Box::new(node_view(*a)),
            Box::new(node_view(*b)),
        ),
        NodeKind::FloatBinaryOp(op, a, b) => SpecNode::FloatBinaryOp(
            op,
            Box::new(node_view(*a)),
            Box::new(node_view(*b)),
        ),
        NodeKind::CompBinaryOp(op, a, b) => SpecNode::CompBinaryOp(
            op,
            Box::new(node_view(*a)),
            Box::new(node_view(*b)),
        ),
        NodeKind::Tuple(es) => SpecNode::Tuple(nodes_view(es@)),
        NodeKind::LetExpr(b, e, body) => SpecNode::LetExpr(
            bind_view(b),
            Box::new(node_view(*e)),
            Box::new(node_view(*body)),
        ),
        NodeKind::LetFuncExpr(fd, e, body) => SpecNode::LetFuncExpr(
            funcdef_view(fd),
            Box::new(node_view(*e)),
            Box::new(node_view(*body)),
        ),
        NodeKind::LetTupleExpr(pat, e, body) => SpecNode::LetTupleExpr(
            binds_view(pat@),
            Box::new(node_view(*e)),
            Box::new(node_view(*body)),
        ),
        NodeKind::LetDef(b, e) => SpecNode::LetDef(bind_view(b), Box::new(node_view(*e))),
        NodeKind::LetFuncDef(fd, e) => SpecNode::LetFuncDef(
            funcdef_view(fd),
            Box::new(node_view(*e)),
        ),
        NodeKind::IfExpr(c, t, e) => SpecNode::IfExpr(
            Box::new(node_view(*c)),
            Box::new(node_view(*t)),
            Box::new(node_view(*e)),
        ),
        NodeKind::Call(f, args) => SpecNode::Call(Box::new(node_view(*f)), nodes_view(args@)),
    }
}

impl View for NodeKind {
    type V = SpecNode;

    open spec fn view(&self) -> SpecNode {
        node_view(*self)
    }
}

impl View for FuncDef {
    type V = SpecFuncDef;

    open spec fn view(&self) -> SpecFuncDef {
        funcdef_view(*self)
    }
}

pub proof fn lemma_binds_view_len(ps: Seq<(String, Type)>)
    ensures
        binds_view(ps).len() == ps.len(),
    decreases ps,
{
    if ps.len() > 0 {
        lemma_binds_view_len(ps.subrange(1, ps.len() as int));
    }
}

pub proof fn lemma_binds_view_index(ps: Seq<(String, Type)>, i: int)
    requires
        0 <= i < ps.len(),
    ensures
        binds_view(ps).len() == ps.len(),
        binds_view(ps)[i] == bind_view(ps[i]),
    decreases ps,
{
    lemma_binds_view_len(ps);
    if i > 0 {
        lemma_binds_view_index(ps.subrange(1, ps.len() as int), i - 1);
    }
}

/// Two binding lists with elementwise equal models have equal models.
pub proof fn lemma_binds_view_ext(a: Seq<(String, Type)>, b: Seq<(String, Type)>)
    requires
        a.len() == b.len(),
        forall|i: int| 0 <= i < a.len() ==> bind_view(#[trigger] a[i]) == bind_view(b[i]),
    ensures
        binds_view(a) == binds_view(b),
{
    lemma_binds_view_len(a);
    lemma_binds_view_len(b);
    assert forall|i: int| 0 <= i < a.len() implies #[trigger] binds_view(a)[i] == binds_view(
        b,
    )[i] by {
        lemma_binds_view_index(a, i);
        lemma_binds_view_index(b, i);
    }
    assert(binds_view(a) =~= binds_view(b));
}

pub proof fn lemma_nodes_view_len(ns: Seq<NodeKind>)
    ensures
        nodes_view(ns).len() == ns.len(),
    decreases ns,
{
    if ns.len() > 0 {
        lemma_nodes_view_len(ns.subrange(1, ns.len() as int));
    }
}

pub proof fn lemma_nodes_view_index(ns: Seq<NodeKind>, i: int)
    requires
        0 <= i < ns.len(),
    ensures
        nodes_view(ns).len() == ns.len(),
        nodes_view(ns)[i] == node_view(ns[i]),
    decreases ns,
{
    lemma_nodes_view_len(ns);
    if i > 0 {
        lemma_nodes_view_index(ns.subrange(1, ns.len() as int), i - 1);
    }
}

/// Two node lists with elementwise equal models have equal models.
pub proof fn lemma_nodes_view_ext(a: Seq<NodeKind>, b: Seq<NodeKind>)
    requires
        a.len() == b.len(),
        forall|i: int| 0 <= i < a.len() ==> node_view(#[trigger] a[i]) == node_view(b[i]),
    ensures
        nodes_view(a) == nodes_view(b),
{
    lemma_nodes_view_len(a);
    lemma_nodes_view_len(b);
    assert forall|i: int| 0 <= i < a.len() implies #[trigger] nodes_view(a)[i] == nodes_view(
        b,
    )[i] by {
        lemma_nodes_view_index(a, i);
        lemma_nodes_view_index(b, i);
    }
    assert(nodes_view(a) =~= nodes_view(b));
}

/// The model of a node list grows by the pushed node's model.
pub proof fn lemma_nodes_view_push(ns: Seq<NodeKind>, n: NodeKind)
    ensures
        nodes_view(ns.push(n)) == nodes_view(ns).push(node_view(n)),
{
    lemma_nodes_view_len(ns);
    lemma_nodes_view_len(ns.push(n));
    assert forall|i: int| 0 <= i < ns.len() + 1 implies #[trigger] nodes_view(ns.push(n))[i]
        == nodes_view(ns).push(node_view(n))[i] by {
        lemma_nodes_view_index(ns.push(n), i);
        if i < ns.len() {
            lemma_nodes_view_index(ns, i);
            assert(ns.push(n)[i] == ns[i]);
        } else {
            assert(ns.push(n)[i] == n);
        }
    }
    assert(nodes_view(ns.push(n)) =~= nodes_view(ns).push(node_view(n)));
}

/// The model of a binding list grows by the pushed binding's model.
pub proof fn lemma_binds_view_push(ps: Seq<(String, Type)>, b: (String, Type))
    ensures
        binds_view(ps.push(b)) == binds_view(ps).push(bind_view(b)),
{
    lemma_binds_view_len(ps);
    lemma_binds_view_len(ps.push(b));
    assert forall|i: int| 0 <= i < ps.len() + 1 implies #[trigger] binds_view(ps.push(b))[i]
        == binds_view(ps).push(bind_view(b))[i] by {
        lemma_binds_view_index(ps.push(b), i);
        if i < ps.len() {
            lemma_binds_view_index(ps, i);
            assert(ps.push(b)[i] == ps[i]);
        } else {
            assert(ps.push(b)[i] == b);
        }
    }
    assert(binds_view(ps.push(b)) =~= binds_view(ps).push(bind_view(b)));
}

/// Clones a binding pair; the copy has the same model.
pub fn clone_bind(b: &(String, Type)) -> (r: (String, Type))
    ensures
        bind_view(r) == bind_view(*b),
{
    (b.0.clone(), clone_type(&b.1))
}

/// Clones a parameter list; the copy has the same model, elementwise.
pub fn clone_binds(ps: &Vec<(String, Type)>) -> (r: Vec<(String, Type)>)
    ensures
        r@.len() == ps@.len(),
        forall|i: int| 0 <= i < ps@.len() ==> bind_view(#[trigger] r@[i]) == bind_view(ps@[i]),
{
    let mut r: Vec<(String, Type)> = Vec::new();
    let n = ps.len();
    for i in 0..n
        invariant
            n == ps@.len(),
            r@.len() == i,
            forall|j: int| 0 <= j < i ==> bind_view(#[trigger] r@[j]) == bind_view(ps@[j]),
    {
        let c = clone_bind(&ps[i]);
        r.push(c);
    }
    r
}

/// Clones a node; the copy has the same model.
pub fn clone_node(n: &NodeKind) -> (r: NodeKind)
    ensures
        r@ == n@,
    decreases n,
{
    match n {
        NodeKind::Unit => NodeKind::Unit,
        NodeKind::Bool(b) => NodeKind::Bool(*b),
        NodeKind::Int(i) => NodeKind::Int(*i),
        NodeKind::Float(s) => NodeKind::Float(s.clone()),
        NodeKind::Ident(s) => NodeKind::Ident(s.clone()),
        NodeKind::FuncDef(name, params) => {
            let ps = clone_binds(params);
            proof {
                lemma_binds_view_ext(ps@, params@);
            }
            NodeKind::FuncDef(clone_bind(name), ps)
        },
        NodeKind::IntUnaryOp(op, e) => NodeKind::IntUnaryOp(*op, Box::new(clone_node(e))),
        NodeKind::FloatUnaryOp(op, e) => NodeKind::FloatUnaryOp(*op, Box::new(clone_node(e))),
        NodeKind::IntBinaryOp(op, a, b) => NodeKind::IntBinaryOp(
            *op,
            Box::new(clone_node(a)),
            Box::new(clone_node(b)),
        ),
        NodeKind::FloatBinaryOp(op, a, b) => NodeKind::FloatBinaryOp(
            *op,
            Box::new(clone_node(a)),
            Box::new(clone_node(b)),
        ),
        NodeKind::CompBinaryOp(op, a, b) => NodeKind::CompBinaryOp(
            *op,
            Box::new(clone_node(a)),
            Box::new(clone_node(b)),
        ),
        NodeKind::Tuple(es) => {
            let cs = clone_nodes(es);
            proof {
                lemma_nodes_view_ext(cs@, es@);
            }
            NodeKind::Tuple(cs)
        },
        NodeKind::LetExpr(b, e, body) => NodeKind::LetExpr(
            clone_bind(b),
            Box::new(clone_node(e)),
            Box::new(clone_node(body)),
        ),
        NodeKind::LetFuncExpr(fd, e, body) => NodeKind::LetFuncExpr(
            clone_funcdef(fd),
            Box::new(clone_node(e)),
            Box::new(clone_node(body)),
        ),
        NodeKind::LetTupleExpr(pat, e, body) => {
            let ps = clone_binds(pat);
            proof {
                lemma_binds_view_ext(ps@, pat@);
            }
            NodeKind::LetTupleExpr(ps, Box::new(clone_node(e)), Box::new(clone_node(body)))
        },
        NodeKind::LetDef(b, e) => NodeKind::LetDef(clone_bind(b), Box::new(clone_node(e))),
        NodeKind::LetFuncDef(fd, e) => NodeKind::LetFuncDef(
            clone_funcdef(fd),
            Box::new(clone_node(e)),
        ),
        NodeKind::IfExpr(c, t, e) => NodeKind::IfExpr(
            Box::new(clone_node(c)),
            Box::new(clone_node(t)),
            Box::new(clone_node(e)),
        ),
        NodeKind::Call(f, args) => {
            let cs = clone_nodes(args);
            proof {
                lemma_nodes_view_ext(cs@, args@);
            }
            NodeKind::Call(Box::new(clone_node(f)), cs)
        },
    }
}

/// Clones a vector of nodes; the copies have the same models, elementwise.
pub fn clone_nodes(ns: &Vec<NodeKind>) -> (r: Vec<NodeKind>)
    ensures
        r@.len() == ns@.len(),
        forall|i: int| 0 <= i < ns@.len() ==> node_view(#[trigger] r@[i]) == node_view(ns@[i]),
    decreases ns,
{
    let mut r: Vec<NodeKind> = Vec::new();
    let n = ns.len();
    for i in 0..n
        invariant
            n == ns@.len(),
            r@.len() == i,
            forall|j: int| 0 <= j < i ==> node_view(#[trigger] r@[j]) == node_view(ns@[j]),
    {
        let c = clone_node(&ns[i]);
        r.push(c);
    }
    r
}

/// Clones a `FuncDef`; the copy has the same model.
pub fn clone_funcdef(fd: &FuncDef) -> (r: FuncDef)
    ensures
        r@ == fd@,
{
    let params = clone_binds(&fd.params);
    proof {
        lemma_binds_view_ext(params@, fd.params@);
    }
    FuncDef { name: clone_bind(&fd.name), params }
}

} // verus!
