//! The type representation the classifier works on.
//!
//! A type is either a named (atomic) type, a parameter referring to a
//! position in a substitution, or a tuple of component types.  The only
//! operation the classifier needs is applying a substitution, which replaces
//! every parameter by the corresponding entry of the substitution.

use vstd::prelude::*;

verus! {

broadcast use vstd::seq::group_seq_axioms, vstd::std_specs::vec::group_vec_axioms;

/// A type, as the classifier sees it: an atomic named type, a parameter
/// position to be resolved by a substitution, or a tuple of components.
#[derive(Debug, PartialEq, Eq)]
pub enum Ty {
    /// An atomic type, identified by an opaque id.
    Named(u64),
    /// A reference to entry `i` of the substitution in effect.
    Param(usize),
    /// A tuple of the listed component types.
    Tuple(Vec<Ty>),
}

/// The mathematical model of a [`Ty`].
#[verifier::ext_equal]
pub ghost enum SpecTy {
    Named(u64),
    Param(int),
    Tuple(Seq<SpecTy>),
}

impl Ty {
    /// The mathematical value of this type.
    pub open spec fn spec_view(self) -> SpecTy
        decreases self,
    {
        match self {
            Ty::Named(n) => SpecTy::Named(n),
            Ty::Param(i) => SpecTy::Param(i as int),
            Ty::Tuple(ts) => SpecTy::Tuple(vec_views_rec(ts)),
        }
    }
}

/// Recursive form of the element-wise view of a vector of types.
pub open spec fn vec_views_rec(ts: Vec<Ty>) -> Seq<SpecTy>
    decreases ts,
{
    seq_views_rec(ts@)
}

/// Recursive form of the element-wise view of a sequence of types.
pub open spec fn seq_views_rec(s: Seq<Ty>) -> Seq<SpecTy>
    decreases s,
{
    if s.len() == 0 {
        Seq::empty()
    } else {
        seq![s[0].spec_view()] + seq_views_rec(s.subrange(1, s.len() as int))
    }
}

impl View for Ty {
    type V = SpecTy;

    open spec fn view(&self) -> SpecTy {
        self.spec_view()
    }
}

/// The element-wise mathematical value of a sequence of types.
pub open spec fn tys_view(s: Seq<Ty>) -> Seq<SpecTy> {
    Seq::new(s.len(), |i: int| s[i]@)
}

/// The recursive element-wise view equals the direct one.
pub broadcast proof fn lemma_seq_views_rec(s: Seq<Ty>)
    ensures
        #[trigger] seq_views_rec(s) == tys_view(s),
    decreases s.len(),
{
    if s.len() != 0 {
        lemma_seq_views_rec(s.subrange(1, s.len() as int));
        assert(seq_views_rec(s) =~= tys_view(s));
    } else {
        assert(seq_views_rec(s) =~= tys_view(s));
    }
}

/// The view of a tuple type is the tuple of the component views.
pub broadcast proof fn lemma_tuple_view(ts: Vec<Ty>)
    ensures
        (#[trigger] Ty::Tuple(ts)@) == SpecTy::Tuple(tys_view(ts@)),
{
    lemma_seq_views_rec(ts@);
}

/// Every parameter occurring in `t` refers to a position below `n`.
pub open spec fn ty_wf(t: SpecTy, n: int) -> bool
    decreases t,
{
    match t {
        SpecTy::Named(_) => true,
        SpecTy::Param(i) => 0 <= i < n,
        SpecTy::Tuple(ts) => tys_wf(ts, n),
    }
}

/// Every parameter occurring in any element of `ts` refers to a position
/// below `n`.
pub open spec fn tys_wf(ts: Seq<SpecTy>, n: int) -> bool
    decreases ts,
{
    ts.len() == 0 || (ty_wf(ts[0], n) && tys_wf(ts.subrange(1, ts.len() as int), n))
}

/// `tys_wf` holds exactly when every element is well formed.
pub broadcast proof fn lemma_tys_wf(ts: Seq<SpecTy>, n: int)
    ensures
        #[trigger] tys_wf(ts, n) <==> (forall|i: int| 0 <= i < ts.len() ==> ty_wf(#[trigger] ts[i], n)),
    decreases ts.len(),
{
    if ts.len() != 0 {
        lemma_tys_wf(ts.subrange(1, ts.len() as int), n);
        assert forall|i: int| 1 <= i < ts.len() implies ts.subrange(1, ts.len() as int)[i - 1] == ts[i] by {}
    }
}

/// The result of replacing every parameter of `t` by the corresponding
/// entry of `s`.
pub open spec fn subst_ty(t: SpecTy, s: Seq<SpecTy>) -> SpecTy
    decreases t,
{
    match t {
        SpecTy::Named(n) => SpecTy::Named(n),
        SpecTy::Param(i) => s[i],
        SpecTy::Tuple(ts) => SpecTy::Tuple(subst_tys(ts, s)),
    }
}

/// The element-wise application of the substitution `s` to `ts`.
pub open spec fn subst_tys(ts: Seq<SpecTy>, s: Seq<SpecTy>) -> Seq<SpecTy>
    decreases ts,
{
    if ts.len() == 0 {
        Seq::empty()
    } else {
        seq![subst_ty(ts[0], s)] + subst_tys(ts.subrange(1, ts.len() as int), s)
    }
}

/// `subst_tys` maps `subst_ty` over the sequence, element by element.
pub broadcast proof fn lemma_subst_tys(ts: Seq<SpecTy>, s: Seq<SpecTy>)
    ensures
        (#[trigger] subst_tys(ts, s)).len() == ts.len(),
        forall|i: int| 0 <= i < ts.len() ==> subst_tys(ts, s)[i] == subst_ty(#[trigger] ts[i], s),
    decreases ts.len(),
{
    if ts.len() != 0 {
        lemma_subst_tys(ts.subrange(1, ts.len() as int), s);
        assert forall|i: int| 1 <= i < ts.len() implies ts.subrange(1, ts.len() as int)[i - 1] == ts[i] by {}
    }
}


/// The number of constructors in `t`; a measure for recursion over types.
pub open spec fn ty_size(t: SpecTy) -> nat
    decreases t,
{
    match t {
        SpecTy::Named(_) => 1,
        SpecTy::Param(_) => 1,
        SpecTy::Tuple(ts) => 1 + tys_size(ts),
    }
}

/// The summed size of the elements of `ts`.
pub open spec fn tys_size(ts: Seq<SpecTy>) -> nat
    decreases ts,
{
    if ts.len() == 0 {
        0
    } else {
        ty_size(ts[0]) + tys_size(ts.subrange(1, ts.len() as int))
    }
}

/// Each element of a sequence is at most as large as the whole.
pub proof fn lemma_tys_size_element(ts: Seq<SpecTy>, i: int)
    requires
        0 <= i < ts.len(),
    ensures
        ty_size(ts[i]) <= tys_size(ts),
    decreases ts.len(),
{
    if i > 0 {
        lemma_tys_size_element(ts.subrange(1, ts.len() as int), i - 1);
        assert(ts.subrange(1, ts.len() as int)[i - 1] == ts[i]);
    }
}

/// Builds a value equal to `t`.
pub fn clone_ty(t: &Ty) -> (r: Ty)
    ensures
        r@ == t@,
    decreases ty_size(t@),
{
    match t {
        Ty::Named(n) => Ty::Named(*n),
        Ty::Param(i) => Ty::Param(*i),
        Ty::Tuple(ts) => {
            proof {
                lemma_tuple_view(*ts);
            }
            let mut out: Vec<Ty> = Vec::new();
            let n = ts.len();
            for j in 0..n
                invariant
                    n == ts@.len(),
                    out@.len() == j,
                    t@ == SpecTy::Tuple(tys_view(ts@)),
                    forall|k: int| 0 <= k < j ==> #[trigger] out@[k]@ == ts@[k]@,
            {
                proof {
                    lemma_tys_size_element(tys_view(ts@), j as int);
                    assert(tys_view(ts@)[j as int] == ts@[j as int]@);
                }
                out.push(clone_ty(&ts[j]));
            }
            let r = Ty::Tuple(out);
            proof {
                lemma_tuple_view(out);
                lemma_tuple_view(*ts);
                assert(tys_view(out@) =~= tys_view(ts@));
            }
            r
        },
    }
}

/// Builds a vector whose element views equal those of `ts`.
pub fn clone_tys(ts: &Vec<Ty>) -> (r: Vec<Ty>)
    ensures
        tys_view(r@) == tys_view(ts@),
{
    let mut out: Vec<Ty> = Vec::new();
    let n = ts.len();
    for j in 0..n
        invariant
            n == ts@.len(),
            out@.len() == j,
            forall|k: int| 0 <= k < j ==> #[trigger] out@[k]@ == ts@[k]@,
    {
        out.push(clone_ty(&ts[j]));
    }
    proof {
        assert(tys_view(out@) =~= tys_view(ts@));
    }
    out
}

/// Applies the substitution `s` to `t`.
pub fn substitute_ty(t: &Ty, s: &Vec<Ty>) -> (r: Ty)
    requires
        ty_wf(t@, s@.len() as int),
    ensures
        r@ == subst_ty(t@, tys_view(s@)),
    decreases ty_size(t@),
{
    match t {
        Ty::Named(n) => Ty::Named(*n),
        Ty::Param(i) => clone_ty(&s[*i]),
        Ty::Tuple(ts) => {
            proof {
                lemma_tuple_view(*ts);
                lemma_tys_wf(tys_view(ts@), s@.len() as int);
                lemma_subst_tys(tys_view(ts@), tys_view(s@));
            }
            let mut out: Vec<Ty> = Vec::new();
            let n = ts.len();
            for j in 0..n
                invariant
                    n == ts@.len(),
                    out@.len() == j,
                    ty_wf(t@, s@.len() as int),
                    t@ == SpecTy::Tuple(tys_view(ts@)),
                    forall|k: int| 0 <= k < ts@.len() ==> ty_wf(#[trigger] tys_view(ts@)[k], s@.len() as int),
                    forall|k: int| 0 <= k < j
                        ==> #[trigger] out@[k]@ == subst_ty(tys_view(ts@)[k], tys_view(s@)),
            {
                proof {
                    lemma_tys_size_element(tys_view(ts@), j as int);
                    assert(tys_view(ts@)[j as int] == ts@[j as int]@);
                }
                out.push(substitute_ty(&ts[j], s));
            }
            let r = Ty::Tuple(out);
            proof {
                lemma_tuple_view(out);
                lemma_subst_tys(tys_view(ts@), tys_view(s@));
                assert(tys_view(out@) =~= subst_tys(tys_view(ts@), tys_view(s@)));
            }
            r
        },
    }
}

} // verus!
