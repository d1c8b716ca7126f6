//! Machine-level types: the concrete representations that values, parameters
//! and results have once a syntax tree has been lowered.

use vstd::prelude::*;

verus! {

/// A concrete machine representation of a value.
#[derive(Clone, Copy, Debug, PartialEq, Eq, Structural)]
pub enum MachineType {
    /// A one-bit integer, the representation of a boolean.
    I1,
    I8,
    I16,
    I32,
    I64,
    I128,
    F32,
    F64,
}

impl MachineType {
    /// The width of the representation in bits.
    pub open spec fn bit_width(self) -> nat {
        match self {
            MachineType::I1 => 1,
            MachineType::I8 => 8,
            MachineType::I16 => 16,
            MachineType::I32 => 32,
            MachineType::I64 => 64,
            MachineType::I128 => 128,
            MachineType::F32 => 32,
            MachineType::F64 => 64,
        }
    }

    /// The integer type that holds an address on a target whose pointers are
    /// `width` bits wide, if there is one.
    pub open spec fn pointer_for(width: nat) -> Option<MachineType> {
        if width == 16 {
            Some(MachineType::I16)
        } else if width == 32 {
            Some(MachineType::I32)
        } else if width == 64 {
            Some(MachineType::I64)
        } else {
            None
        }
    }

    /// Whether a target can use this type to hold an address.
    pub open spec fn is_pointer_sized(self) -> bool {
        self == MachineType::I16 || self == MachineType::I32 || self == MachineType::I64
    }

    pub fn bits(self) -> (width: u8)
        ensures
            width == self.bit_width(),
    {
        match self {
            MachineType::I1 => 1,
            MachineType::I8 => 8,
            MachineType::I16 => 16,
            MachineType::I32 => 32,
            MachineType::I64 => 64,
            MachineType::I128 => 128,
            MachineType::F32 => 32,
            MachineType::F64 => 64,
        }
    }

    /// The native pointer representation of a target with pointers of the
    /// given width, or `None` where no integer type of that width exists.
    pub fn pointer(width: u8) -> (ty: Option<MachineType>)
        ensures
            ty == Self::pointer_for(width as nat),
            ty matches Some(t) ==> t.is_pointer_sized() && t.bit_width() == width,
    {
        if width == 16 {
            Some(MachineType::I16)
        } else if width == 32 {
            Some(MachineType::I32)
        } else if width == 64 {
            Some(MachineType::I64)
        } else {
            None
        }
    }
}

/// How a declared symbol relates to the compilation unit.
#[derive(Clone, Copy, Debug, PartialEq, Eq, Structural)]
pub enum Linkage {
    /// Defined outside the unit, resolved when linking or loading.
    Import,
    /// Defined in the unit and visible outside it.
    Export,
}

/// The calling interface of a function: what it takes and what it gives back,
/// as machine types.
#[derive(Clone, Debug, PartialEq, Eq)]
pub struct Signature {
    pub params: Vec<MachineType>,
    pub returns: Vec<MachineType>,
}

/// The mathematical content of a [`Signature`].
pub struct SigView {
    pub params: Seq<MachineType>,
    pub returns: Seq<MachineType>,
}

impl View for Signature {
    type V = SigView;

    open spec fn view(&self) -> SigView {
        SigView { params: self.params@, returns: self.returns@ }
    }
}

/// Compares two lists of machine types element by element.
fn same_types(a: &Vec<MachineType>, b: &Vec<MachineType>) -> (same: bool)
    ensures
        same == (a@ == b@),
{
    if a.len() != b.len() {
        return false;
    }
    let mut i: usize = 0;
    while i < a.len()
        invariant
            a.len() == b.len(),
            i <= a.len(),
            forall|j: int| 0 <= j < i ==> a@[j] == b@[j],
        decreases a.len() - i,
    {
        if a[i] != b[i] {
            return false;
        }
        i += 1;
    }
    assert(a@ =~= b@);
    true
}

impl Signature {
    pub fn new() -> (sig: Signature)
        ensures
            sig@.params.len() == 0,
            sig@.returns.len() == 0,
    {
        Signature { params: Vec::new(), returns: Vec::new() }
    }

    /// Whether two signatures take and return the same types in the same
    /// order.
    pub fn same_as(&self, other: &Signature) -> (same: bool)
        ensures
            same == (self@ == other@),
    {
        same_types(&self.params, &other.params) && same_types(&self.returns, &other.returns)
    }

    pub fn duplicate(&self) -> (copy: Signature)
        ensures
            copy@ == self@,
    {
        Signature { params: self.params.clone(), returns: self.returns.clone() }
    }
}

} // verus!
