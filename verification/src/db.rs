//! The type database the classifier queries for closure captures.
//!
//! For each closure the database records the list of captured types, written
//! against the closure's internal substitution, and that internal
//! substitution itself, whose entries are written against the substitution
//! the closure is applied at.  The closure's own parameter and return types
//! are recorded too, but no query of the classifier reads them.

use vstd::prelude::*;

use crate::ty::clone_tys;
use crate::ty::subst_ty;
use crate::ty::substitute_ty;
use crate::ty::ty_wf;
use crate::ty::tys_view;
use crate::ty::SpecTy;
use crate::ty::Ty;

verus! {

broadcast use vstd::seq::group_seq_axioms, vstd::std_specs::vec::group_vec_axioms;

/// What the database records about one closure.
#[derive(Debug, PartialEq, Eq)]
pub struct ClosureData {
    /// The types of the captured variables, in capture order, written
    /// against the internal substitution.
    pub captures: Vec<Ty>,
    /// The internal-to-external substitution: entry `i` is what the
    /// closure's parameter `i` stands for, written against the substitution
    /// the closure is applied at.
    pub internal_subst: Vec<Ty>,
    /// The parameter types of the closure's call signature.  Not captured,
    /// and never read by classification.
    pub fn_params: Vec<Ty>,
    /// The return type of the closure's call signature.  Not captured, and
    /// never read by classification.
    pub fn_ret: Ty,
}

/// The mathematical model of a [`ClosureData`].
#[verifier::ext_equal]
pub ghost struct SpecClosure {
    pub captures: Seq<SpecTy>,
    pub internal_subst: Seq<SpecTy>,
    pub fn_params: Seq<SpecTy>,
    pub fn_ret: SpecTy,
}

impl View for ClosureData {
    type V = SpecClosure;

    open spec fn view(&self) -> SpecClosure {
        SpecClosure {
            captures: tys_view(self.captures@),
            internal_subst: tys_view(self.internal_subst@),
            fn_params: tys_view(self.fn_params@),
            fn_ret: self.fn_ret@,
        }
    }
}

/// The closure's record is well formed for an application at a substitution
/// of length `outer_len`: its internal substitution is written against that
/// substitution, and its captures against the internal substitution.
pub open spec fn closure_wf(c: SpecClosure, outer_len: int) -> bool {
    &&& forall|i: int| 0 <= i < c.internal_subst.len() ==> ty_wf(#[trigger] c.internal_subst[i], outer_len)
    &&& forall|i: int| 0 <= i < c.captures.len() ==> ty_wf(#[trigger] c.captures[i], c.internal_subst.len() as int)
}

/// The substitution an application of the closure at `outer` induces: each
/// entry of the internal substitution, rewritten by `outer`.
pub open spec fn spec_fn_substitution(c: SpecClosure, outer: Seq<SpecTy>) -> Seq<SpecTy> {
    Seq::new(c.internal_subst.len(), |i: int| subst_ty(c.internal_subst[i], outer))
}

/// The database of closure records, indexed by closure id.
#[derive(Debug, PartialEq, Eq)]
pub struct TypeDatabase {
    /// The record of closure `i` sits at index `i`.
    pub closures: Vec<ClosureData>,
}

impl View for TypeDatabase {
    type V = Seq<SpecClosure>;

    open spec fn view(&self) -> Seq<SpecClosure> {
        Seq::new(self.closures@.len(), |i: int| self.closures@[i]@)
    }
}

impl TypeDatabase {
    /// A database with no closures.
    pub fn new() -> (r: TypeDatabase)
        ensures
            r@ == Seq::<SpecClosure>::empty(),
    {
        let r = TypeDatabase { closures: Vec::new() };
        proof {
            assert(r@ =~= Seq::<SpecClosure>::empty());
        }
        r
    }

    /// Records one more closure and returns its id.
    pub fn add_closure(&mut self, data: ClosureData) -> (id: usize)
        ensures
            final(self)@ == old(self)@.push(data@),
            id == old(self)@.len(),
    {
        let id = self.closures.len();
        self.closures.push(data);
        proof {
            assert(self@ =~= old(self)@.push(data@));
        }
        id
    }

    /// The capture list of closure `closure_id`, in capture order, written
    /// against the closure's internal substitution.  The substitution the
    /// closure is applied at does not enter: it reaches the captures only
    /// through the internal substitution.
    pub fn closure_upvars(&self, closure_id: usize, _substitution: &Vec<Ty>) -> (r: Vec<Ty>)
        requires
            closure_id < self@.len(),
        ensures
            tys_view(r@) == self@[closure_id as int].captures,
    {
        clone_tys(&self.closures[closure_id].captures)
    }

    /// The substitution an application of closure `closure_id` at
    /// `substitution` induces on the closure's internals.
    pub fn closure_fn_substitution(&self, closure_id: usize, substitution: &Vec<Ty>) -> (r: Vec<
        Ty,
    >)
        requires
            closure_id < self@.len(),
            forall|i: int| 0 <= i < self@[closure_id as int].internal_subst.len()
                ==> ty_wf(#[trigger] self@[closure_id as int].internal_subst[i], substitution@.len() as int),
        ensures
            tys_view(r@) == spec_fn_substitution(self@[closure_id as int], tys_view(substitution@)),
    {
        let entries = &self.closures[closure_id].internal_subst;
        proof {
            assert(self@[closure_id as int].internal_subst == tys_view(entries@));
            assert forall|k: int| 0 <= k < entries@.len() implies ty_wf(
                #[trigger] tys_view(entries@)[k],
                substitution@.len() as int,
            ) by {
                assert(ty_wf(self@[closure_id as int].internal_subst[k], substitution@.len() as int));
            }
        }
        let mut out: Vec<Ty> = Vec::new();
        let n = entries.len();
        for i in 0..n
            invariant
                n == entries@.len(),
                out@.len() == i,
                entries == self.closures@[closure_id as int].internal_subst,
                closure_id < self@.len(),
                self@[closure_id as int].internal_subst == tys_view(entries@),
                forall|k: int| 0 <= k < entries@.len()
                    ==> ty_wf(#[trigger] tys_view(entries@)[k], substitution@.len() as int),
                forall|k: int| 0 <= k < i
                    ==> #[trigger] out@[k]@ == subst_ty(tys_view(entries@)[k], tys_view(substitution@)),
        {
            proof {
                assert(tys_view(entries@)[i as int] == entries@[i as int]@);
            }
            out.push(substitute_ty(&entries[i], substitution));
        }
        proof {
            assert(tys_view(out@) =~= spec_fn_substitution(
                self@[closure_id as int],
                tys_view(substitution@),
            ));
        }
        out
    }
}

} // verus!
