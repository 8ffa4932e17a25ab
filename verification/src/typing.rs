//! Types of the language, their mathematical model, unification, and the
//! canonical textual rendering of a type.
use vstd::prelude::*;
use crate::dec::{dec_digits, dec_string};

verus! {

/// A type of the object language. `Var(id)` is an unresolved type variable;
/// two `Var`s with the same id denote the same unresolved slot.
#[derive(Debug, PartialEq, Eq)]
pub enum Type {
    Unit,
    Bool,
    Int,
    Float,
    Char,
    /// Parameter types and boxed return type.
    Func(Vec<Type>, Box<Type>),
    /// Unresolved type variable, by numeric id.
    Var(usize),
}

/// Mathematical model of a `Type`.
pub ghost enum SpecType {
    Unit,
    Bool,
    Int,
    Float,
    Char,
    Func(Seq<SpecType>, Box<SpecType>),
    Var(usize),
}

/// Model of a sequence of types, elementwise.
pub open spec fn types_view(ts: Seq<Type>) -> Seq<SpecType>
    decreases ts,
{
    if ts.len() == 0 {
        Seq::empty()
    } else {
        seq![type_view(ts[0])].add(types_view(ts.subrange(1, ts.len() as int)))
    }
}

/// Model of a `Type`.
pub open spec fn type_view(t: Type) -> SpecType
    decreases t,
{
    match t {
        Type::Unit => SpecType::Unit,
        Type::Bool => SpecType::Bool,
        Type::Int => SpecType::Int,
        Type::Float => SpecType::Float,
        Type::Char => SpecType::Char,
        Type::Func(params, ret) => SpecType::Func(types_view(params@), Box::new(type_view(*ret))),
        Type::Var(id) => SpecType::Var(id),
    }
}

impl View for Type {
    type V = SpecType;

    open spec fn view(&self) -> SpecType {
        type_view(*self)
    }
}

pub proof fn lemma_types_view_len(ts: Seq<Type>)
    ensures
        types_view(ts).len() == ts.len(),
    decreases ts,
{
    if ts.len() > 0 {
        lemma_types_view_len(ts.subrange(1, ts.len() as int));
    }
}

pub proof fn lemma_types_view_index(ts: Seq<Type>, i: int)
    requires
        0 <= i < ts.len(),
    ensures
        types_view(ts).len() == ts.len(),
        types_view(ts)[i] == type_view(ts[i]),
    decreases ts,
{
    lemma_types_view_len(ts);
    if i > 0 {
        lemma_types_view_index(ts.subrange(1, ts.len() as int), i - 1);
    }
}

/// Two type sequences with elementwise equal models have equal models.
pub proof fn lemma_types_view_ext(a: Seq<Type>, b: Seq<Type>)
    requires
        a.len() == b.len(),
        forall|i: int| 0 <= i < a.len() ==> type_view(#[trigger] a[i]) == type_view(b[i]),
    ensures
        types_view(a) == types_view(b),
{
    lemma_types_view_len(a);
    lemma_types_view_len(b);
    assert forall|i: int| 0 <= i < a.len() implies #[trigger] types_view(a)[i] == types_view(
        b,
    )[i] by {
        lemma_types_view_index(a, i);
        lemma_types_view_index(b, i);
    }
    assert(types_view(a) =~= types_view(b));
}

/// Clones a type; the copy has the same model.
pub fn clone_type(t: &Type) -> (r: Type)
    ensures
        r@ == t@,
    decreases t,
{
    match t {
        Type::Unit => Type::Unit,
        Type::Bool => Type::Bool,
        Type::Int => Type::Int,
        Type::Float => Type::Float,
        Type::Char => Type::Char,
        Type::Func(params, ret) => {
            let ps = clone_types(params);
            proof {
                lemma_types_view_ext(ps@, params@);
            }
            Type::Func(ps, Box::new(clone_type(ret)))
        }
        Type::Var(id) => Type::Var(*id),
    }
}

/// A type paired with a set of bound type-variable ids. The bound set is
/// kept for the global signature table but is not used for generalization:
/// type variables are shared, not re-instantiated, across uses.
#[derive(Debug, PartialEq, Eq)]
pub struct TypeScheme {
    pub tyvars: Vec<usize>,
    pub body: Type,
}

/// Mathematical model of a `TypeScheme`.
pub ghost struct SpecScheme {
    pub tyvars: Seq<usize>,
    pub body: SpecType,
}

impl View for TypeScheme {
    type V = SpecScheme;

    open spec fn view(&self) -> SpecScheme {
        SpecScheme { tyvars: self.tyvars@, body: type_view(self.body) }
    }
}

impl TypeScheme {
    /// Pairs a type with its bound type-variable ids.
    pub fn new(tyvars: Vec<usize>, body: Type) -> (r: TypeScheme)
        ensures
            r@ == (SpecScheme { tyvars: tyvars@, body: body@ }),
    {
        TypeScheme { tyvars, body }
    }
}

/// A typing failure: two types that were required equal and are structurally
/// incompatible, an identifier with no binding in scope or in the signature
/// table, or a construct the checker does not support.
#[derive(Debug, PartialEq)]
pub enum TypeError {
    Unify(Type, Type),
    NotFoundVarOrFunc(String),
    Unsupported,
}

/// Mathematical model of a `TypeError`.
pub ghost enum SpecTypeError {
    Unify(SpecType, SpecType),
    NotFoundVarOrFunc(Seq<char>),
    Unsupported,
}

impl View for TypeError {
    type V = SpecTypeError;

    open spec fn view(&self) -> SpecTypeError {
        match *self {
            TypeError::Unify(t1, t2) => SpecTypeError::Unify(type_view(t1), type_view(t2)),
            TypeError::NotFoundVarOrFunc(name) => SpecTypeError::NotFoundVarOrFunc(name@),
            TypeError::Unsupported => SpecTypeError::Unsupported,
        }
    }
}

pub type TypeResult<T> = Result<T, TypeError>;

/// Model of a unit typing result.
pub open spec fn unit_result_view(r: TypeResult<()>) -> Result<(), SpecTypeError> {
    match r {
        Ok(u) => Ok(u),
        Err(e) => Err(e@),
    }
}

/// The id-to-type environment built incrementally during inference: the
/// newest binding for an id comes last and overrides an earlier one. Note
/// where entries come from: unification is shallow and records nothing, so
/// the only writer is the call rule of inference, which binds a
/// still-variable callee type to a fresh function type. This is the
/// deliberately simplified substitution the design notes describe — not a
/// full unifier's store.
#[derive(Debug)]
pub struct Subst {
    pub pairs: Vec<(usize, Type)>,
}

impl View for Subst {
    type V = Seq<(usize, SpecType)>;

    open spec fn view(&self) -> Seq<(usize, SpecType)> {
        self.pairs@.map(|i: int, p: (usize, Type)| (p.0, type_view(p.1)))
    }
}

/// The binding of id `k` in a substitution: the latest pair for `k`, if any.
pub open spec fn spec_assoc_ty(s: Seq<(usize, SpecType)>, k: usize) -> Option<SpecType>
    decreases s.len(),
{
    if s.len() == 0 {
        None
    } else if s.last().0 == k {
        Some(s.last().1)
    } else {
        spec_assoc_ty(s.drop_last(), k)
    }
}

impl Subst {
    /// An empty substitution.
    pub fn new() -> (r: Subst)
        ensures
            r@ == Seq::<(usize, SpecType)>::empty(),
    {
        let r = Subst { pairs: Vec::new() };
        proof {
            assert(r@ =~= Seq::<(usize, SpecType)>::empty());
        }
        r
    }

    /// Records `k` bound to `t`, overwriting any earlier binding of `k`.
    pub fn insert(&mut self, k: usize, t: Type)
        ensures
            final(self)@ == old(self)@.push((k, t@)),
    {
        let ghost oldview = self@;
        self.pairs.push((k, t));
        proof {
            assert(self@ =~= oldview.push((k, self.pairs@.last().1@)));
        }
    }

    /// The latest binding of `k`, if any.
    pub fn get(&self, k: usize) -> (r: Option<Type>)
        ensures
            match r {
                Some(t) => spec_assoc_ty(self@, k) == Some(t@),
                None => spec_assoc_ty(self@, k) is None,
            },
    {
        let n = self.pairs.len();
        let mut i = n;
        proof {
            assert(self@.subrange(0, n as int) =~= self@);
        }
        while i > 0
            invariant
                i <= n,
                n == self.pairs@.len(),
                self@.len() == n,
                spec_assoc_ty(self@, k) == spec_assoc_ty(self@.subrange(0, i as int), k),
            decreases i,
        {
            i = i - 1;
            if self.pairs[i].0 == k {
                let t = clone_type(&self.pairs[i].1);
                proof {
                    let sub = self@.subrange(0, i + 1);
                    assert(sub.last() == self@[i as int]);
                    assert(self@[i as int].0 == k);
                    assert(spec_assoc_ty(self@, k) == Some(self@[i as int].1));
                }
                return Some(t);
            }
            proof {
                let sub = self@.subrange(0, i + 1);
                assert(sub.last() == self@[i as int]);
                assert(sub.drop_last() =~= self@.subrange(0, i as int));
            }
        }
        proof {
            assert(self@.subrange(0, 0) =~= Seq::<(usize, SpecType)>::empty());
        }
        None
    }

    /// How many bindings have been recorded.
    pub fn len(&self) -> (n: usize)
        ensures
            n == self@.len(),
    {
        self.pairs.len()
    }
}

/// What unifying `t1` and `t2` yields. Unification is intentionally
/// shallow: it only checks that the two types can be made structurally
/// equal — concrete types match themselves, `Func` types match pointwise
/// and then on the return type, and a variable accepts anything, with no
/// occurs-check — and it records nothing anywhere. The substitution that
/// maps type-variable ids to types is built elsewhere, by the call rule of
/// inference, never here.
pub open spec fn spec_unify(t1: SpecType, t2: SpecType) -> Result<(), SpecTypeError>
    decreases t1, t2,
{
    match (t1, t2) {
        (SpecType::Unit, SpecType::Unit) => Ok(()),
        (SpecType::Bool, SpecType::Bool) => Ok(()),
        (SpecType::Char, SpecType::Char) => Ok(()),
        (SpecType::Int, SpecType::Int) => Ok(()),
        (SpecType::Float, SpecType::Float) => Ok(()),
        (SpecType::Func(p1, r1), SpecType::Func(p2, r2)) => {
            if p1.len() != p2.len() {
                Err(SpecTypeError::Unify(t1, t2))
            } else {
                let res = spec_unify_params(p1, p2);
                if res is Err {
                    res
                } else {
                    spec_unify(*r1, *r2)
                }
            }
        },
        (SpecType::Var(i), _) => Ok(()),
        (_, SpecType::Var(j)) => Ok(()),
        _ => Err(SpecTypeError::Unify(t1, t2)),
    }
}

/// Pointwise unification of two parameter lists, stopping at the first
/// failure.
pub open spec fn spec_unify_params(p1: Seq<SpecType>, p2: Seq<SpecType>) -> Result<
    (),
    SpecTypeError,
>
    decreases p1, p2,
{
    if p1.len() == 0 || p2.len() == 0 {
        Ok(())
    } else {
        let res = spec_unify(p1[0], p2[0]);
        if res is Err {
            res
        } else {
            spec_unify_params(p1.subrange(1, p1.len() as int), p2.subrange(1, p2.len() as int))
        }
    }
}

/// Unifies two types: `Unit`, `Bool`, `Char`, `Int` and `Float` unify only
/// with themselves; `Func` types unify pointwise on parameters (arity
/// mismatch fails) and then on return types; a `Var` unifies with anything.
/// No substitution is recorded and no state is touched: the result depends
/// only on the structure of the two types. On failure the error carries
/// both conflicting types.
pub fn infer_unify(t1: &Type, t2: &Type) -> (r: TypeResult<()>)
    ensures
        unit_result_view(r) == spec_unify(t1@, t2@),
    decreases *t1, *t2,
{
    match (t1, t2) {
        (Type::Unit, Type::Unit) => Ok(()),
        (Type::Bool, Type::Bool) => Ok(()),
        (Type::Char, Type::Char) => Ok(()),
        (Type::Int, Type::Int) => Ok(()),
        (Type::Float, Type::Float) => Ok(()),
        (Type::Func(p1, r1), Type::Func(p2, r2)) => {
            proof {
                lemma_types_view_len(p1@);
                lemma_types_view_len(p2@);
            }
            if p1.len() != p2.len() {
                Err(TypeError::Unify(clone_type(t1), clone_type(t2)))
            } else {
                proof {
                    assert(types_view(p1@).skip(0) =~= types_view(p1@));
                    assert(types_view(p2@).skip(0) =~= types_view(p2@));
                }
                let sub = infer_unify_params(p1, p2, 0);
                match sub {
                    Err(e) => Err(e),
                    Ok(u) => infer_unify(r1, r2),
                }
            }
        },
        (Type::Var(i), _) => Ok(()),
        (_, Type::Var(j)) => Ok(()),
        _ => Err(TypeError::Unify(clone_type(t1), clone_type(t2))),
    }
}

/// Unifies two parameter lists pointwise from index `from` on, stopping at
/// the first failure.
fn infer_unify_params(p1: &Vec<Type>, p2: &Vec<Type>, from: usize) -> (r: TypeResult<()>)
    requires
        from <= p1@.len(),
        from <= p2@.len(),
    ensures
        unit_result_view(r) == spec_unify_params(
            types_view(p1@).skip(from as int),
            types_view(p2@).skip(from as int),
        ),
    decreases p1, p2, p1@.len() - from,
{
    proof {
        lemma_types_view_len(p1@);
        lemma_types_view_len(p2@);
    }
    if from == p1.len() || from == p2.len() {
        Ok(())
    } else {
        proof {
            lemma_types_view_index(p1@, from as int);
            lemma_types_view_index(p2@, from as int);
        }
        let r1 = infer_unify(&p1[from], &p2[from]);
        proof {
            assert(types_view(p1@).skip(from as int).subrange(
                1,
                types_view(p1@).skip(from as int).len() as int,
            ) =~= types_view(p1@).skip(from as int + 1));
            assert(types_view(p2@).skip(from as int).subrange(
                1,
                types_view(p2@).skip(from as int).len() as int,
            ) =~= types_view(p2@).skip(from as int + 1));
        }
        match r1 {
            Err(e) => Err(e),
            Ok(u) => infer_unify_params(p1, p2, from + 1),
        }
    }
}

/// Unification is symmetric: unifying in one order succeeds exactly when
/// the other order does, and neither order records anything — this shallow
/// unifier keeps no substitution, so "the resulting binding" is the same
/// (namely none) in both orders.
pub proof fn lemma_unify_symmetric(t1: SpecType, t2: SpecType)
    ensures
        spec_unify(t1, t2) is Ok <==> spec_unify(t2, t1) is Ok,
    decreases t1, t2,
{
    match (t1, t2) {
        (SpecType::Func(p1, r1), SpecType::Func(p2, r2)) => {
            if p1.len() == p2.len() {
                lemma_unify_params_symmetric(p1, p2);
                lemma_unify_symmetric(*r1, *r2);
            }
        },
        _ => {},
    }
}

/// Pointwise unification is symmetric, list against list.
pub proof fn lemma_unify_params_symmetric(p1: Seq<SpecType>, p2: Seq<SpecType>)
    ensures
        spec_unify_params(p1, p2) is Ok <==> spec_unify_params(p2, p1) is Ok,
    decreases p1, p2,
{
    if p1.len() != 0 && p2.len() != 0 {
        lemma_unify_symmetric(p1[0], p2[0]);
        if spec_unify(p1[0], p2[0]) is Ok {
            lemma_unify_params_symmetric(
                p1.subrange(1, p1.len() as int),
                p2.subrange(1, p2.len() as int),
            );
        }
    }
}

/// A variable unifies with anything, in either order, with the same result:
/// in particular `(Int, Var(n))` and `(Var(n), Int)` both succeed, and
/// neither records a binding anywhere.
pub proof fn lemma_unify_symmetric_var(t: SpecType, n: usize)
    ensures
        spec_unify(t, SpecType::Var(n)) == spec_unify(SpecType::Var(n), t),
        spec_unify(SpecType::Var(n), t) is Ok,
{
}

/// Arity mismatch between two `Func` types fails unification: the error
/// carries both types.
pub proof fn lemma_unify_arity_mismatch(
    p1: Seq<SpecType>,
    r1: SpecType,
    p2: Seq<SpecType>,
    r2: SpecType,
)
    requires
        p1.len() != p2.len(),
    ensures
        spec_unify(SpecType::Func(p1, Box::new(r1)), SpecType::Func(p2, Box::new(r2))) == Err::<
            (),
            SpecTypeError,
        >(
            SpecTypeError::Unify(
                SpecType::Func(p1, Box::new(r1)),
                SpecType::Func(p2, Box::new(r2)),
            ),
        ),
{
}

/// What resolving a type through the substitution yields: variables are
/// followed through their bindings while fuel lasts, structure is rewritten
/// recursively. With a cyclic substitution (possible, as there is no
/// occurs-check) resolution stops when fuel runs out.
pub open spec fn spec_deref(t: SpecType, env: Seq<(usize, SpecType)>, fuel: nat) -> SpecType
    decreases fuel, t,
{
    match t {
        SpecType::Var(n) => match spec_assoc_ty(env, n) {
            Some(t2) => if fuel > 0 {
                spec_deref(t2, env, (fuel - 1) as nat)
            } else {
                t
            },
            None => t,
        },
        SpecType::Func(ps, r) => SpecType::Func(
            spec_deref_params(ps, env, fuel),
            Box::new(spec_deref(*r, env, fuel)),
        ),
        _ => t,
    }
}

/// Elementwise resolution of a parameter list through the substitution.
pub open spec fn spec_deref_params(ps: Seq<SpecType>, env: Seq<(usize, SpecType)>, fuel: nat) -> Seq<
    SpecType,
>
    decreases fuel, ps,
{
    if ps.len() == 0 {
        Seq::empty()
    } else {
        seq![spec_deref(ps[0], env, fuel)].add(
            spec_deref_params(ps.subrange(1, ps.len() as int), env, fuel),
        )
    }
}

/// Resolves a type through the substitution, following variable bindings
/// while `fuel` lasts.
pub fn deref_type(t: &Type, env: &Subst, fuel: usize) -> (r: Type)
    ensures
        r@ == spec_deref(t@, env@, fuel as nat),
    decreases fuel, t,
{
    match t {
        Type::Var(n) => {
            match env.get(*n) {
                Some(t2) => {
                    if fuel > 0 {
                        deref_type(&t2, env, fuel - 1)
                    } else {
                        Type::Var(*n)
                    }
                },
                None => Type::Var(*n),
            }
        },
        Type::Func(ps, ret) => {
            let rps = deref_params(ps, 0, env, fuel);
            let rret = deref_type(ret, env, fuel);
            proof {
                assert(types_view(ps@).skip(0) =~= types_view(ps@));
            }
            Type::Func(rps, Box::new(rret))
        },
        Type::Unit => Type::Unit,
        Type::Bool => Type::Bool,
        Type::Int => Type::Int,
        Type::Float => Type::Float,
        Type::Char => Type::Char,
    }
}

/// Resolves the parameters from index `from` on through the substitution.
fn deref_params(ps: &Vec<Type>, from: usize, env: &Subst, fuel: usize) -> (r: Vec<Type>)
    requires
        from <= ps@.len(),
    ensures
        types_view(r@) == spec_deref_params(types_view(ps@).skip(from as int), env@, fuel as nat),
    decreases fuel, ps, ps@.len() - from,
{
    proof {
        lemma_types_view_len(ps@);
    }
    if from == ps.len() {
        let r: Vec<Type> = Vec::new();
        proof {
            assert(types_view(r@) =~= Seq::<SpecType>::empty());
        }
        r
    } else {
        proof {
            lemma_types_view_index(ps@, from as int);
        }
        let h = deref_type(&ps[from], env, fuel);
        let ghost hv = h@;
        let mut rest = deref_params(ps, from + 1, env, fuel);
        let ghost restv = rest@;
        let mut r: Vec<Type> = Vec::new();
        r.push(h);
        r.append(&mut rest);
        proof {
            let full = types_view(ps@).skip(from as int);
            assert(full.subrange(1, full.len() as int) =~= types_view(ps@).skip(from as int + 1));
            assert(r@ =~= seq![r@[0]].add(restv));
            lemma_types_view_prepend(r@, hv, restv);
            assert(types_view(r@) =~= spec_deref_params(full, env@, fuel as nat));
        }
        r
    }
}

/// The model of a one-element-prepended type list.
proof fn lemma_types_view_prepend(r: Seq<Type>, hv: SpecType, rest: Seq<Type>)
    requires
        r.len() == rest.len() + 1,
        type_view(r[0]) == hv,
        forall|i: int| 0 <= i < rest.len() ==> type_view(#[trigger] r[i + 1]) == type_view(rest[i]),
    ensures
        types_view(r) == seq![hv].add(types_view(rest)),
{
    lemma_types_view_len(r);
    lemma_types_view_len(rest);
    assert forall|i: int| 0 <= i < r.len() implies #[trigger] types_view(r)[i] == seq![hv].add(
        types_view(rest),
    )[i] by {
        lemma_types_view_index(r, i);
        if i > 0 {
            lemma_types_view_index(rest, i - 1);
            assert(type_view(r[(i - 1) + 1]) == type_view(rest[i - 1]));
        }
    }
    assert(types_view(r) =~= seq![hv].add(types_view(rest)));
}

/// The local type environment: in-scope names with their types, newest
/// binding last; a later binding for a name shadows an earlier one.
#[derive(Debug)]
pub struct TypeEnv {
    pub pairs: Vec<(String, Type)>,
}

impl View for TypeEnv {
    type V = Seq<(Seq<char>, SpecType)>;

    open spec fn view(&self) -> Seq<(Seq<char>, SpecType)> {
        self.pairs@.map(|i: int, p: (String, Type)| (p.0@, type_view(p.1)))
    }
}

/// The binding of `name` in an environment: the latest pair for it, if any.
pub open spec fn spec_assoc_name(s: Seq<(Seq<char>, SpecType)>, name: Seq<char>) -> Option<
    SpecType,
>
    decreases s.len(),
{
    if s.len() == 0 {
        None
    } else if s.last().0 == name {
        Some(s.last().1)
    } else {
        spec_assoc_name(s.drop_last(), name)
    }
}

impl TypeEnv {
    /// An empty environment.
    pub fn new() -> (r: TypeEnv)
        ensures
            r@ == Seq::<(Seq<char>, SpecType)>::empty(),
    {
        let r = TypeEnv { pairs: Vec::new() };
        proof {
            assert(r@ =~= Seq::<(Seq<char>, SpecType)>::empty());
        }
        r
    }

    /// Binds `name` to `t`, shadowing any earlier binding of `name`.
    pub fn push(&mut self, name: String, t: Type)
        ensures
            final(self)@ == old(self)@.push((name@, t@)),
    {
        let ghost oldview = self@;
        let ghost nv = name@;
        let ghost tv = t@;
        self.pairs.push((name, t));
        proof {
            assert(self@ =~= oldview.push((nv, tv)));
        }
    }

    /// Drops the bindings made after the environment had `len` entries.
    pub fn truncate(&mut self, len: usize)
        requires
            len <= old(self)@.len(),
        ensures
            final(self)@ == old(self)@.subrange(0, len as int),
    {
        let ghost oldview = self@;
        self.pairs.truncate(len);
        proof {
            assert(self@ =~= oldview.subrange(0, len as int));
        }
    }

    /// How many bindings are in scope.
    pub fn len(&self) -> (n: usize)
        ensures
            n == self@.len(),
    {
        self.pairs.len()
    }

    /// The latest binding of `name`, if any.
    pub fn get(&self, name: &String) -> (r: Option<Type>)
        ensures
            match r {
                Some(t) => spec_assoc_name(self@, name@) == Some(t@),
                None => spec_assoc_name(self@, name@) is None,
            },
    {
        let n = self.pairs.len();
        let mut i = n;
        proof {
            assert(self@.subrange(0, n as int) =~= self@);
        }
        while i > 0
            invariant
                i <= n,
                n == self.pairs@.len(),
                self@.len() == n,
                spec_assoc_name(self@, name@) == spec_assoc_name(
                    self@.subrange(0, i as int),
                    name@,
                ),
            decreases i,
        {
            i = i - 1;
            if self.pairs[i].0 == *name {
                let t = clone_type(&self.pairs[i].1);
                proof {
                    let sub = self@.subrange(0, i + 1);
                    assert(sub.last() == self@[i as int]);
                    assert(spec_assoc_name(self@, name@) == Some(self@[i as int].1));
                }
                return Some(t);
            }
            proof {
                let sub = self@.subrange(0, i + 1);
                assert(sub.last() == self@[i as int]);
                assert(sub.drop_last() =~= self@.subrange(0, i as int));
            }
        }
        proof {
            assert(self@.subrange(0, 0) =~= Seq::<(Seq<char>, SpecType)>::empty());
        }
        None
    }
}

/// The global signature table: top-level and external function names with
/// their type schemes, shared across the module items of one compilation
/// unit; a later entry for a name overrides an earlier one.
#[derive(Debug)]
pub struct SigTable {
    pub pairs: Vec<(String, TypeScheme)>,
}

impl View for SigTable {
    type V = Seq<(Seq<char>, SpecScheme)>;

    open spec fn view(&self) -> Seq<(Seq<char>, SpecScheme)> {
        self.pairs@.map(|i: int, p: (String, TypeScheme)| (p.0@, p.1@))
    }
}

/// The entry for `name` in the signature table: the latest one, if any.
pub open spec fn spec_assoc_scheme(s: Seq<(Seq<char>, SpecScheme)>, name: Seq<char>) -> Option<
    SpecScheme,
>
    decreases s.len(),
{
    if s.len() == 0 {
        None
    } else if s.last().0 == name {
        Some(s.last().1)
    } else {
        spec_assoc_scheme(s.drop_last(), name)
    }
}

impl SigTable {
    /// An empty table.
    pub fn new() -> (r: SigTable)
        ensures
            r@ == Seq::<(Seq<char>, SpecScheme)>::empty(),
    {
        let r = SigTable { pairs: Vec::new() };
        proof {
            assert(r@ =~= Seq::<(Seq<char>, SpecScheme)>::empty());
        }
        r
    }

    /// Registers `name` with its scheme, overriding any earlier entry.
    pub fn insert(&mut self, name: String, scheme: TypeScheme)
        ensures
            final(self)@ == old(self)@.push((name@, scheme@)),
    {
        let ghost oldview = self@;
        let ghost nv = name@;
        let ghost sv = scheme@;
        self.pairs.push((name, scheme));
        proof {
            assert(self@ =~= oldview.push((nv, sv)));
        }
    }

    /// The body type of the latest entry for `name`, if any.
    pub fn get_body(&self, name: &String) -> (r: Option<Type>)
        ensures
            match r {
                Some(t) => spec_assoc_scheme(self@, name@) matches Some(sch) && t@ == sch.body,
                None => spec_assoc_scheme(self@, name@) is None,
            },
    {
        let n = self.pairs.len();
        let mut i = n;
        proof {
            assert(self@.subrange(0, n as int) =~= self@);
        }
        while i > 0
            invariant
                i <= n,
                n == self.pairs@.len(),
                self@.len() == n,
                spec_assoc_scheme(self@, name@) == spec_assoc_scheme(
                    self@.subrange(0, i as int),
                    name@,
                ),
            decreases i,
        {
            i = i - 1;
            if self.pairs[i].0 == *name {
                let t = clone_type(&self.pairs[i].1.body);
                proof {
                    let sub = self@.subrange(0, i + 1);
                    assert(sub.last() == self@[i as int]);
                    assert(spec_assoc_scheme(self@, name@) == Some(self@[i as int].1));
                }
                return Some(t);
            }
            proof {
                let sub = self@.subrange(0, i + 1);
                assert(sub.last() == self@[i as int]);
                assert(sub.drop_last() =~= self@.subrange(0, i as int));
            }
        }
        proof {
            assert(self@.subrange(0, 0) =~= Seq::<(Seq<char>, SpecScheme)>::empty());
        }
        None
    }

    /// How many entries the table holds.
    pub fn len(&self) -> (n: usize)
        ensures
            n == self@.len(),
    {
        self.pairs.len()
    }
}

/// The model of the signature table at startup: the three builtin runtime
/// primitives, and nothing else.
pub open spec fn spec_initial_sigs() -> Seq<(Seq<char>, SpecScheme)> {
    seq![
        (
            "print_int"@,
            SpecScheme {
                tyvars: Seq::empty(),
                body: SpecType::Func(seq![SpecType::Int], Box::new(SpecType::Unit)),
            },
        ),
        (
            "print_float"@,
            SpecScheme {
                tyvars: Seq::empty(),
                body: SpecType::Func(seq![SpecType::Float], Box::new(SpecType::Unit)),
            },
        ),
        (
            "print_newline"@,
            SpecScheme {
                tyvars: Seq::empty(),
                body: SpecType::Func(seq![SpecType::Unit], Box::new(SpecType::Unit)),
            },
        ),
    ]
}

/// The signature table at startup, holding exactly the three builtin
/// primitives `print_int : Int -> Unit`, `print_float : Float -> Unit` and
/// `print_newline : Unit -> Unit`.
pub fn initial_sig_table() -> (r: SigTable)
    ensures
        r@ == spec_initial_sigs(),
{
    let mut r = SigTable::new();
    let mut pi: Vec<Type> = Vec::new();
    pi.push(Type::Int);
    let mut pf: Vec<Type> = Vec::new();
    pf.push(Type::Float);
    let mut pu: Vec<Type> = Vec::new();
    pu.push(Type::Unit);
    proof {
        lemma_types_view_index(pi@, 0);
        lemma_types_view_index(pf@, 0);
        lemma_types_view_index(pu@, 0);
        assert(types_view(pi@) =~= seq![SpecType::Int]);
        assert(types_view(pf@) =~= seq![SpecType::Float]);
        assert(types_view(pu@) =~= seq![SpecType::Unit]);
    }
    let t_int = Type::Func(pi, Box::new(Type::Unit));
    let t_float = Type::Func(pf, Box::new(Type::Unit));
    let t_newline = Type::Func(pu, Box::new(Type::Unit));
    let tv1: Vec<usize> = Vec::new();
    let tv2: Vec<usize> = Vec::new();
    let tv3: Vec<usize> = Vec::new();
    proof {
        assert(tv1@ =~= Seq::<usize>::empty());
        assert(tv2@ =~= Seq::<usize>::empty());
        assert(tv3@ =~= Seq::<usize>::empty());
    }
    r.insert(String::from_str("print_int"), TypeScheme::new(tv1, t_int));
    r.insert(String::from_str("print_float"), TypeScheme::new(tv2, t_float));
    r.insert(String::from_str("print_newline"), TypeScheme::new(tv3, t_newline));
    proof {
        assert(r@ =~= spec_initial_sigs());
    }
    r
}

/// The position of the first occurrence of `id` in `seen`, if any.
pub open spec fn spec_seen_index(seen: Seq<usize>, id: usize) -> Option<int>
    decreases seen.len(),
{
    if seen.len() == 0 {
        None
    } else if seen[0] == id {
        Some(0)
    } else {
        match spec_seen_index(seen.subrange(1, seen.len() as int), id) {
            Some(k) => Some(k + 1),
            None => None,
        }
    }
}

/// What rendering a type yields, given the variable ids displayed so far:
/// the text, and the ids displayed after. A variable is rendered as a tick
/// and its display number: one more than the position of its first
/// appearance, so the first distinct variable shows as `'1`, the next as
/// `'2`, and so on. A function type is rendered as its parameter types and
/// return type joined by arrows, in parentheses.
pub open spec fn spec_type_display(t: SpecType, seen: Seq<usize>) -> (Seq<char>, Seq<usize>)
    decreases t,
{
    match t {
        SpecType::Unit => ("unit"@, seen),
        SpecType::Bool => ("bool"@, seen),
        SpecType::Char => ("char"@, seen),
        SpecType::Int => ("int"@, seen),
        SpecType::Float => ("float"@, seen),
        SpecType::Func(ps, r) => {
            let (args, seen1) = spec_params_display(ps, seen);
            let (rs, seen2) = spec_type_display(*r, seen1);
            ("("@ + args + rs + ")"@, seen2)
        },
        SpecType::Var(id) => match spec_seen_index(seen, id) {
            Some(k) => ("'"@ + dec_digits((k + 1) as nat), seen),
            None => ("'"@ + dec_digits(seen.len() + 1), seen.push(id)),
        },
    }
}

/// Rendering of a parameter list: each parameter followed by an arrow.
pub open spec fn spec_params_display(ts: Seq<SpecType>, seen: Seq<usize>) -> (Seq<char>, Seq<
    usize,
>)
    decreases ts,
{
    if ts.len() == 0 {
        (Seq::empty(), seen)
    } else {
        let (h, seen1) = spec_type_display(ts[0], seen);
        let (rest, seen2) = spec_params_display(ts.subrange(1, ts.len() as int), seen1);
        (h + " -> "@ + rest, seen2)
    }
}

/// The canonical rendering of a type, unresolved variables numbered in order
/// of first appearance.
pub open spec fn spec_type_string(t: SpecType) -> Seq<char> {
    spec_type_display(t, Seq::empty()).0
}

/// Shifts an index option by `d`.
pub open spec fn shift_index(o: Option<int>, d: int) -> Option<int> {
    match o {
        Some(k) => Some(k + d),
        None => None,
    }
}

/// The position of the first occurrence of `id` in `seen`, if any.
fn find_seen(seen: &Vec<usize>, id: usize) -> (r: Option<usize>)
    ensures
        match r {
            Some(k) => spec_seen_index(seen@, id) == Some(k as int) && k < seen@.len(),
            None => spec_seen_index(seen@, id) is None,
        },
{
    let n = seen.len();
    let mut i: usize = 0;
    proof {
        assert(seen@.skip(0) =~= seen@);
    }
    while i < n
        invariant
            i <= n,
            n == seen@.len(),
            spec_seen_index(seen@, id) == shift_index(
                spec_seen_index(seen@.skip(i as int), id),
                i as int,
            ),
        decreases n - i,
    {
        if seen[i] == id {
            proof {
                assert(seen@.skip(i as int)[0] == id);
            }
            return Some(i);
        }
        proof {
            assert(seen@.skip(i as int).subrange(1, seen@.skip(i as int).len() as int)
                =~= seen@.skip(i as int + 1));
        }
        i = i + 1;
    }
    None
}

/// Renders a type, threading the ids displayed so far.
fn type_display(t: &Type, seen: &mut Vec<usize>) -> (r: String)
    ensures
        r@ == spec_type_display(t@, old(seen)@).0,
        final(seen)@ == spec_type_display(t@, old(seen)@).1,
    decreases t,
{
    match t {
        Type::Unit => String::from_str("unit"),
        Type::Bool => String::from_str("bool"),
        Type::Char => String::from_str("char"),
        Type::Int => String::from_str("int"),
        Type::Float => String::from_str("float"),
        Type::Func(ps, ret) => {
            proof {
                assert(types_view(ps@).skip(0) =~= types_view(ps@));
            }
            let args = params_display(ps, 0, seen);
            let rs = type_display(ret, seen);
            let r = String::from_str("(").concat(args.as_str()).concat(rs.as_str()).concat(")");
            proof {
                assert(r@ =~= spec_type_display(t@, old(seen)@).0);
            }
            r
        },
        Type::Var(id) => {
            match find_seen(seen, *id) {
                Some(k) => {
                    let bound = seen.len();
                    assert(k < bound);
                    let num = dec_string(k + 1);
                    let r = String::from_str("'").concat(num.as_str());
                    proof {
                        assert(r@ =~= spec_type_display(t@, old(seen)@).0);
                    }
                    r
                },
                None => {
                    seen.push(*id);
                    let num = dec_string(seen.len());
                    let r = String::from_str("'").concat(num.as_str());
                    proof {
                        assert(r@ =~= spec_type_display(t@, old(seen)@).0);
                    }
                    r
                },
            }
        },
    }
}

/// Renders the parameters from index `from` on, threading the ids seen.
fn params_display(ps: &Vec<Type>, from: usize, seen: &mut Vec<usize>) -> (r: String)
    requires
        from <= ps@.len(),
    ensures
        r@ == spec_params_display(types_view(ps@).skip(from as int), old(seen)@).0,
        final(seen)@ == spec_params_display(types_view(ps@).skip(from as int), old(seen)@).1,
    decreases ps, ps@.len() - from,
{
    proof {
        lemma_types_view_len(ps@);
    }
    if from == ps.len() {
        String::new()
    } else {
        proof {
            lemma_types_view_index(ps@, from as int);
            assert(types_view(ps@).skip(from as int).subrange(
                1,
                types_view(ps@).skip(from as int).len() as int,
            ) =~= types_view(ps@).skip(from as int + 1));
        }
        let h = type_display(&ps[from], seen);
        let rest = params_display(ps, from + 1, seen);
        let r = h.concat(" -> ").concat(rest.as_str());
        proof {
            assert(r@ =~= spec_params_display(types_view(ps@).skip(from as int), old(seen)@).0);
        }
        r
    }
}

impl Type {
    /// The canonical textual form of the type: concrete types by name,
    /// function types parenthesized with arrows, unresolved variables
    /// numbered `'1, '2, ...` in order of first appearance.
    pub fn to_string(&self) -> (r: String)
        ensures
            r@ == spec_type_string(self@),
    {
        let mut seen: Vec<usize> = Vec::new();
        type_display(self, &mut seen)
    }
}

/// Clones a vector of types; the copies have the same models, elementwise.
pub fn clone_types(ts: &Vec<Type>) -> (r: Vec<Type>)
    ensures
        r@.len() == ts@.len(),
        forall|i: int| 0 <= i < ts@.len() ==> type_view(#[trigger] r@[i]) == type_view(ts@[i]),
    decreases ts,
{
    let mut r: Vec<Type> = Vec::new();
    let n = ts.len();
    for i in 0..n
        invariant
            n == ts@.len(),
            r@.len() == i,
            forall|j: int| 0 <= j < i ==> type_view(#[trigger] r@[j]) == type_view(ts@[j]),
    {
        let c = clone_type(&ts[i]);
        r.push(c);
    }
    r
}

} // verus!
