//! The engine's picture of a resolved type: a run of reference layers around
//! a type that is no reference, with the facts the host worked out for it.
use vstd::prelude::*;
use crate::base::Mutability;

verus! {

/// What sort of nominal type a definition is.
#[derive(Clone, Copy, Debug, PartialEq, Eq, Structural)]
pub enum AdtKind {
    Struct,
    Enum,
    Union,
}

/// What sort of alias a type that stands for another one is.
#[derive(Clone, Copy, Debug, PartialEq, Eq, Structural)]
pub enum AliasKind {
    Projection,
    Inherent,
    Opaque,
    Weak,
}

/// The outermost constructor of a type that is not a reference.
#[derive(Clone, Copy, Debug, PartialEq, Eq, Structural)]
pub enum TyKind {
    Bool,
    Char,
    Int,
    Uint,
    Float,
    Str,
    Never,
    Foreign,
    FnDef,
    FnPtr,
    Closure,
    Generator,
    GeneratorWitness,
    GeneratorWitnessMir,
    Dynamic,
    Array,
    Slice,
    RawPtr,
    Tuple,
    Adt(AdtKind),
    /// A generic type parameter, by its index in the generics of its owner.
    Param(u32),
    Alias(AliasKind),
    Bound,
    Placeholder,
    Infer,
    Error,
}

/// A type with every leading reference layer taken off.
#[derive(Debug)]
pub struct Pointee {
    /// The host's identity of this type: two pointees are the same type
    /// exactly when their identities are equal.
    pub id: u64,
    pub kind: TyKind,
    /// The names of all fields, where `kind` is a nominal type.
    pub fields: Vec<u32>,
    /// Whether a type or const parameter occurs anywhere in the type.
    pub has_non_region_param: bool,
    /// Whether an inference variable occurs anywhere in the type.
    pub has_infer: bool,
    /// Whether a placeholder occurs anywhere in the type.
    pub has_placeholders: bool,
    /// Whether an opaque type occurs anywhere in the type.
    pub has_opaque_types: bool,
    /// Whether a type or const parameter occurs in the generic arguments.
    pub args_have_non_region_param: bool,
    /// Whether the size of the type is known statically.
    pub is_sized: bool,
}

/// A resolved type.
#[derive(Debug)]
pub struct Ty {
    /// The reference layers, outermost first.
    pub refs: Vec<Mutability>,
    /// What the innermost reference points to; the type itself where `refs`
    /// is empty.
    pub pointee: Pointee,
}

/// A coercion step that the host inserted by itself.
#[derive(Clone, Copy, Debug, PartialEq, Eq, Structural)]
pub enum Adjust {
    NeverToAny,
    /// A dereference, built in or through a `Deref` impl.
    Deref,
    /// A borrow to a reference of the given mutability.
    BorrowRef(Mutability),
    /// A borrow to a raw pointer.
    BorrowRawPtr(Mutability),
    Pointer,
}

impl Adjust {
    pub open spec fn spec_is_deref(self) -> bool {
        self == Adjust::Deref
    }

    #[verifier::when_used_as_spec(spec_is_deref)]
    pub fn is_deref(self) -> (r: bool)
        ensures
            r == self.spec_is_deref(),
    {
        self == Adjust::Deref
    }

    pub open spec fn spec_is_deref_or_borrow(self) -> bool {
        self == Adjust::Deref || self is BorrowRef || self is BorrowRawPtr
    }

    #[verifier::when_used_as_spec(spec_is_deref_or_borrow)]
    pub fn is_deref_or_borrow(self) -> (r: bool)
        ensures
            r == self.spec_is_deref_or_borrow(),
    {
        match self {
            Adjust::Deref | Adjust::BorrowRef(_) | Adjust::BorrowRawPtr(_) => true,
            _ => false,
        }
    }
}

/// One automatic coercion and the type it leads to.
#[derive(Debug)]
pub struct Adjustment {
    pub kind: Adjust,
    pub target: Ty,
}

/// A type as a mathematical value.
pub struct TyView {
    pub refs: Seq<Mutability>,
    pub id: u64,
    pub kind: TyKind,
    pub fields: Seq<u32>,
    pub has_non_region_param: bool,
    pub has_infer: bool,
    pub has_placeholders: bool,
    pub has_opaque_types: bool,
    pub args_have_non_region_param: bool,
    pub is_sized: bool,
}

impl TyView {
    /// Whether the type is a reference.
    pub open spec fn is_ref(self) -> bool {
        self.refs.len() > 0
    }

    /// Whether the size of the type is known statically.
    pub open spec fn is_sized(self) -> bool {
        self.refs.len() > 0 || self.is_sized
    }

    /// Whether the type is a reference to a type of statically known size.
    pub open spec fn refers_to_sized(self) -> bool {
        self.refs.len() > 1 || (self.refs.len() == 1 && self.is_sized)
    }

    /// Whether the type is a union.
    pub open spec fn is_union(self) -> bool {
        self.refs.len() == 0 && self.kind == TyKind::Adt(AdtKind::Union)
    }
}

impl View for Ty {
    type V = TyView;

    open spec fn view(&self) -> TyView {
        TyView {
            refs: self.refs@,
            id: self.pointee.id,
            kind: self.pointee.kind,
            fields: self.pointee.fields@,
            has_non_region_param: self.pointee.has_non_region_param,
            has_infer: self.pointee.has_infer,
            has_placeholders: self.pointee.has_placeholders,
            has_opaque_types: self.pointee.has_opaque_types,
            args_have_non_region_param: self.pointee.args_have_non_region_param,
            is_sized: self.pointee.is_sized,
        }
    }
}

/// A copy of `v`, element by element.
fn copy_mutabilities(v: &Vec<Mutability>) -> (r: Vec<Mutability>)
    ensures
        r@ == v@,
{
    let mut r: Vec<Mutability> = Vec::new();
    let mut i: usize = 0;
    while i < v.len()
        invariant
            i <= v@.len(),
            r@ == v@.take(i as int),
        decreases v@.len() - i,
    {
        r.push(v[i]);
        assert(v@.take(i as int).push(v@[i as int]) =~= v@.take(i + 1));
        i += 1;
    }
    assert(v@.take(v@.len() as int) =~= v@);
    r
}

/// A copy of `v`, element by element.
fn copy_names(v: &Vec<u32>) -> (r: Vec<u32>)
    ensures
        r@ == v@,
{
    let mut r: Vec<u32> = Vec::new();
    let mut i: usize = 0;
    while i < v.len()
        invariant
            i <= v@.len(),
            r@ == v@.take(i as int),
        decreases v@.len() - i,
    {
        r.push(v[i]);
        assert(v@.take(i as int).push(v@[i as int]) =~= v@.take(i + 1));
        i += 1;
    }
    assert(v@.take(v@.len() as int) =~= v@);
    r
}

impl Ty {
    /// A second value for the same type.
    pub fn duplicate(&self) -> (r: Ty)
        ensures
            r@ == self@,
    {
        Ty {
            refs: copy_mutabilities(&self.refs),
            pointee: Pointee {
                id: self.pointee.id,
                kind: self.pointee.kind,
                fields: copy_names(&self.pointee.fields),
                has_non_region_param: self.pointee.has_non_region_param,
                has_infer: self.pointee.has_infer,
                has_placeholders: self.pointee.has_placeholders,
                has_opaque_types: self.pointee.has_opaque_types,
                args_have_non_region_param: self.pointee.args_have_non_region_param,
                is_sized: self.pointee.is_sized,
            },
        }
    }

    pub open spec fn spec_is_ref(&self) -> bool {
        self.refs@.len() > 0
    }

    /// Whether the type is a reference.
    #[verifier::when_used_as_spec(spec_is_ref)]
    pub fn is_ref(&self) -> (r: bool)
        ensures
            r == self.spec_is_ref(),
    {
        self.refs.len() > 0
    }

    pub open spec fn spec_ref_count(&self) -> nat {
        self.refs@.len()
    }

    /// The number of reference layers that can be peeled off the type.
    pub fn ref_count(&self) -> (n: usize)
        ensures
            n == self.spec_ref_count(),
    {
        self.refs.len()
    }

    pub open spec fn spec_is_mut_ref(&self) -> bool {
        self.refs@.len() > 0 && self.refs@[0] == Mutability::Mut
    }

    /// Whether the type is a mutable reference.
    #[verifier::when_used_as_spec(spec_is_mut_ref)]
    pub fn is_mut_ref(&self) -> (r: bool)
        ensures
            r == self.spec_is_mut_ref(),
    {
        self.refs.len() > 0 && self.refs[0].is_mut()
    }

    pub open spec fn spec_is_ref_to_shared_ref(&self) -> bool {
        self.refs@.len() > 1 && self.refs@[1] == Mutability::Not
    }

    /// Whether the type is a reference to a shared reference.
    #[verifier::when_used_as_spec(spec_is_ref_to_shared_ref)]
    pub fn is_ref_to_shared_ref(&self) -> (r: bool)
        ensures
            r == self.spec_is_ref_to_shared_ref(),
    {
        self.refs.len() > 1 && !self.refs[1].is_mut()
    }

    pub open spec fn spec_is_unsafe_ptr(&self) -> bool {
        self.refs@.len() == 0 && self.pointee.kind == TyKind::RawPtr
    }

    /// Whether the type is a raw pointer.
    #[verifier::when_used_as_spec(spec_is_unsafe_ptr)]
    pub fn is_unsafe_ptr(&self) -> (r: bool)
        ensures
            r == self.spec_is_unsafe_ptr(),
    {
        self.refs.len() == 0 && self.pointee.kind == TyKind::RawPtr
    }

    pub open spec fn spec_is_array(&self) -> bool {
        self.refs@.len() == 0 && self.pointee.kind == TyKind::Array
    }

    /// Whether the type is an array.
    #[verifier::when_used_as_spec(spec_is_array)]
    pub fn is_array(&self) -> (r: bool)
        ensures
            r == self.spec_is_array(),
    {
        self.refs.len() == 0 && self.pointee.kind == TyKind::Array
    }

    pub open spec fn spec_is_union(&self) -> bool {
        self.refs@.len() == 0 && self.pointee.kind == TyKind::Adt(AdtKind::Union)
    }

    /// Whether the type is a union. Reading a field of a union is never
    /// reached through automatic dereferencing.
    #[verifier::when_used_as_spec(spec_is_union)]
    pub fn is_union(&self) -> (r: bool)
        ensures
            r == self.spec_is_union(),
    {
        self.refs.len() == 0 && self.pointee.kind == TyKind::Adt(AdtKind::Union)
    }

    pub open spec fn spec_is_sized(&self) -> bool {
        self.refs@.len() > 0 || self.pointee.is_sized
    }

    /// Whether the size of the type is known statically; a reference always
    /// is.
    #[verifier::when_used_as_spec(spec_is_sized)]
    pub fn is_sized(&self) -> (r: bool)
        ensures
            r == self.spec_is_sized(),
    {
        self.refs.len() > 0 || self.pointee.is_sized
    }

    pub open spec fn spec_refers_to_sized(&self) -> bool {
        self.refs@.len() > 1 || (self.refs@.len() == 1 && self.pointee.is_sized)
    }

    /// Whether the type is a reference to a type of statically known size.
    #[verifier::when_used_as_spec(spec_refers_to_sized)]
    pub fn refers_to_sized(&self) -> (r: bool)
        ensures
            r == self.spec_refers_to_sized(),
    {
        self.refs.len() > 1 || (self.refs.len() == 1 && self.pointee.is_sized)
    }

    pub open spec fn spec_contains_field(&self, name: u32) -> bool {
        &&& self.refs@.len() == 0
        &&& self.pointee.kind == TyKind::Adt(AdtKind::Struct)
        &&& self.pointee.fields@.contains(name)
    }

    /// Whether the type is a struct that has a field called `name`.
    pub fn contains_field(&self, name: u32) -> (r: bool)
        ensures
            r == self.spec_contains_field(name),
    {
        if self.refs.len() != 0 || self.pointee.kind != TyKind::Adt(AdtKind::Struct) {
            return false;
        }
        let mut i: usize = 0;
        while i < self.pointee.fields.len()
            invariant
                i <= self.pointee.fields@.len(),
                self.refs@.len() == 0,
                self.pointee.kind == TyKind::Adt(AdtKind::Struct),
                forall|j: int| 0 <= j < i ==> self.pointee.fields@[j] != name,
            decreases self.pointee.fields@.len() - i,
        {
            if self.pointee.fields[i] == name {
                return true;
            }
            i += 1;
        }
        false
    }

    /// Whether `self` and `other` are the same type: the same reference
    /// layers around the same pointee.
    pub open spec fn spec_same(&self, other: &Ty) -> bool {
        self.refs@ == other.refs@ && self.pointee.id == other.pointee.id
    }

    /// Whether `self` and `other` are references to the same type, whatever
    /// the mutability of the two outermost layers.
    pub open spec fn spec_same_referent(&self, other: &Ty) -> bool {
        &&& self.refs@.len() > 0
        &&& other.refs@.len() > 0
        &&& self.refs@.skip(1) == other.refs@.skip(1)
        &&& self.pointee.id == other.pointee.id
    }

    /// Whether the layers of `self` from `from` on are those of `other` from
    /// `from` on, and the pointees are the same.
    fn same_from(&self, other: &Ty, from: usize) -> (r: bool)
        requires
            from <= self.refs@.len(),
            from <= other.refs@.len(),
        ensures
            r == (self.refs@.skip(from as int) == other.refs@.skip(from as int)
                && self.pointee.id == other.pointee.id),
    {
        if self.pointee.id != other.pointee.id || self.refs.len() != other.refs.len() {
            proof {
                if self.refs@.len() != other.refs@.len() {
                    assert(self.refs@.skip(from as int).len() != other.refs@.skip(
                        from as int,
                    ).len());
                }
            }
            return false;
        }
        let mut i: usize = from;
        while i < self.refs.len()
            invariant
                from <= i <= self.refs@.len(),
                self.refs@.len() == other.refs@.len(),
                forall|j: int| from <= j < i ==> self.refs@[j] == other.refs@[j],
            decreases self.refs@.len() - i,
        {
            if self.refs[i] != other.refs[i] {
                proof {
                    let a = self.refs@.skip(from as int);
                    let b = other.refs@.skip(from as int);
                    assert(a[i - from] == self.refs@[i as int]);
                    assert(b[i - from] == other.refs@[i as int]);
                }
                return false;
            }
            i += 1;
        }
        assert(self.refs@.skip(from as int) =~= other.refs@.skip(from as int));
        true
    }

    /// Whether the two types are the same.
    pub fn same(&self, other: &Ty) -> (r: bool)
        ensures
            r == self.spec_same(other),
    {
        let r = self.same_from(other, 0);
        proof {
            assert(self.refs@.skip(0) =~= self.refs@);
            assert(other.refs@.skip(0) =~= other.refs@);
        }
        r
    }

    /// Whether the two types are references to the same type.
    pub fn same_referent(&self, other: &Ty) -> (r: bool)
        ensures
            r == self.spec_same_referent(other),
    {
        if self.refs.len() == 0 || other.refs.len() == 0 {
            return false;
        }
        self.same_from(other, 1)
    }
}

} // verus!
