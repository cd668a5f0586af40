//! Tensor shape descriptors: a rank of at most eight, one extent per axis and
//! one semantic role per axis.

use vstd::prelude::*;
use vstd::string::*;

verus! {

/// The semantic role of one axis of a tensor.
#[derive(Clone, Copy, Debug, PartialEq, Eq, Structural)]
pub enum DimensionType {
    /// Height-like or width-like axis.
    Spacial,
    /// Feature-channel axis.
    Channel,
    /// Batch-like axis.
    Index,
    /// Time-like axis.
    Sequence,
}

impl DimensionType {
    /// The integer that the native enumeration assigns to this role.
    pub open spec fn spec_ordinal(self) -> int {
        match self {
            DimensionType::Spacial => 0,
            DimensionType::Channel => 1,
            DimensionType::Index => 2,
            DimensionType::Sequence => 3,
        }
    }

    /// The role encoded as the native enumeration's integer.
    pub fn ordinal(self) -> (code: i32)
        ensures
            code == self.spec_ordinal(),
    {
        match self {
            DimensionType::Spacial => 0,
            DimensionType::Channel => 1,
            DimensionType::Index => 2,
            DimensionType::Sequence => 3,
        }
    }

    /// Decodes the native enumeration's integer; `None` for an integer that
    /// names no role.
    pub fn from_ordinal(code: i32) -> (role: Option<DimensionType>)
        ensures
            0 <= code <= 3 <==> role is Some,
            role is Some ==> role->0.spec_ordinal() == code,
    {
        if code == 0 {
            Some(DimensionType::Spacial)
        } else if code == 1 {
            Some(DimensionType::Channel)
        } else if code == 2 {
            Some(DimensionType::Index)
        } else if code == 3 {
            Some(DimensionType::Sequence)
        } else {
            None
        }
    }
}

/// Two roles with the same integer encoding are the same role.
pub proof fn lemma_ordinal_injective(a: DimensionType, b: DimensionType)
    ensures
        a.spec_ordinal() == b.spec_ordinal() <==> a == b,
        0 <= a.spec_ordinal() <= 3,
{
}

/// A shape descriptor as a mathematical value.
pub struct DimsModel {
    /// The rank.
    pub nb_dims: int,
    /// The extent of each of the eight axis slots.
    pub d: Seq<i32>,
    /// The role of each of the eight axis slots.
    pub types: Seq<DimensionType>,
}

/// The stored form of a descriptor, shared by every shape type.
pub(crate) struct Descriptor {
    pub(crate) nb_dims: i32,
    pub(crate) d: [i32; 8],
    pub(crate) types: [DimensionType; 8],
}

impl Descriptor {
    pub(crate) open spec fn model(&self) -> DimsModel {
        DimsModel { nb_dims: self.nb_dims as int, d: self.d@, types: self.types@ }
    }
}

/// The read interface that every shape type offers.
pub trait Dim {
    /// The descriptor that this shape holds.
    spec fn model(&self) -> DimsModel;

    /// The rank.
    fn nb_dims(&self) -> (n: i32)
        ensures
            n == self.model().nb_dims,
    ;

    /// The extents of all eight axis slots; those at and past the rank carry
    /// no meaning.
    fn d(&self) -> (extents: [i32; 8])
        ensures
            extents@ == self.model().d,
    ;

    /// The roles of all eight axis slots; those at and past the rank carry no
    /// meaning.
    fn types(&self) -> (roles: [DimensionType; 8])
        ensures
            roles@ == self.model().types,
    ;
}

/// An ill-formed shape was asked for.
#[derive(Debug, Clone)]
pub struct DimsShapeError {
    message: String,
}

impl View for DimsShapeError {
    type V = Seq<char>;

    closed spec fn view(&self) -> Seq<char> {
        self.message@
    }
}

impl DimsShapeError {
    /// An error that carries `message`.
    pub fn new(message: &str) -> (err: Self)
        ensures
            err@ == message@,
    {
        DimsShapeError { message: String::from_str(message) }
    }

    /// The message, as it is shown to a reader.
    pub fn message(&self) -> (text: String)
        ensures
            text@ == self@,
    {
        self.message.clone()
    }
}

/// The largest rank that a descriptor can hold.
pub const MAX_DIMS: i32 = 8;

/// The extents of a shape of two axes: the slots past the rank hold zero.
pub open spec fn extents2(dim1: i32, dim2: i32) -> Seq<i32> {
    seq![dim1, dim2, 0i32, 0i32, 0i32, 0i32, 0i32, 0i32]
}

/// The extents of a shape of three axes: the slots past the rank hold zero.
pub open spec fn extents3(dim1: i32, dim2: i32, dim3: i32) -> Seq<i32> {
    seq![dim1, dim2, dim3, 0i32, 0i32, 0i32, 0i32, 0i32]
}

/// The extents of a shape of four axes: the slots past the rank hold zero.
pub open spec fn extents4(dim1: i32, dim2: i32, dim3: i32, dim4: i32) -> Seq<i32> {
    seq![dim1, dim2, dim3, dim4, 0i32, 0i32, 0i32, 0i32]
}

/// The roles of a shape to which none was assigned: `Spacial` in every slot.
pub open spec fn unassigned_roles() -> Seq<DimensionType> {
    Seq::new(8, |i: int| DimensionType::Spacial)
}

/// `roles` with the first two slots assigned.
pub open spec fn with_roles2(
    roles: Seq<DimensionType>,
    type1: DimensionType,
    type2: DimensionType,
) -> Seq<DimensionType> {
    roles.update(0, type1).update(1, type2)
}

/// `roles` with the first three slots assigned.
pub open spec fn with_roles3(
    roles: Seq<DimensionType>,
    type1: DimensionType,
    type2: DimensionType,
    type3: DimensionType,
) -> Seq<DimensionType> {
    roles.update(0, type1).update(1, type2).update(2, type3)
}

/// `roles` with the first four slots assigned.
pub open spec fn with_roles4(
    roles: Seq<DimensionType>,
    type1: DimensionType,
    type2: DimensionType,
    type3: DimensionType,
    type4: DimensionType,
) -> Seq<DimensionType> {
    roles.update(0, type1).update(1, type2).update(2, type3).update(3, type4)
}

/// The roles of a shape of two axes with fixed roles.
pub open spec fn roles2(type1: DimensionType, type2: DimensionType) -> Seq<DimensionType> {
    with_roles2(unassigned_roles(), type1, type2)
}

/// The roles of a shape of three axes with fixed roles.
pub open spec fn roles3(
    type1: DimensionType,
    type2: DimensionType,
    type3: DimensionType,
) -> Seq<DimensionType> {
    with_roles3(unassigned_roles(), type1, type2, type3)
}

/// The roles of a shape of four axes with fixed roles.
pub open spec fn roles4(
    type1: DimensionType,
    type2: DimensionType,
    type3: DimensionType,
    type4: DimensionType,
) -> Seq<DimensionType> {
    with_roles4(unassigned_roles(), type1, type2, type3, type4)
}

/// A shape of any rank up to eight, with the extents and roles that the
/// caller gives for all eight slots.
pub struct Dims {
    internal_dims: Descriptor,
}

impl Dims {
    #[verifier::type_invariant]
    spec fn well_formed(self) -> bool {
        0 <= self.internal_dims.nb_dims <= MAX_DIMS
    }

    /// The message of the error for a rank that no descriptor can hold.
    pub open spec fn rank_error_message() -> Seq<char> {
        "the number of dimensions must be between 0 and 8"@
    }

    /// A shape of rank `num_dims` whose eight slots hold the given extents
    /// and roles, or an error where `num_dims` is negative or above eight.
    pub fn new(
        num_dims: i32,
        dimension_sizes: &mut [i32; 8],
        dimension_types: &mut [DimensionType; 8],
    ) -> (shape: Result<Dims, DimsShapeError>)
        ensures
            *final(dimension_sizes) == *old(dimension_sizes),
            *final(dimension_types) == *old(dimension_types),
            0 <= num_dims <= MAX_DIMS <==> shape is Ok,
            shape matches Ok(s) ==> {
                &&& s.model().nb_dims == num_dims
                &&& s.model().d == old(dimension_sizes)@
                &&& s.model().types == old(dimension_types)@
            },
            shape matches Err(e) ==> e@ == Self::rank_error_message(),
    {
        if num_dims < 0 || num_dims > MAX_DIMS {
            return Err(DimsShapeError::new("the number of dimensions must be between 0 and 8"));
        }
        Ok(
            Dims {
                internal_dims: Descriptor {
                    nb_dims: num_dims,
                    d: *dimension_sizes,
                    types: *dimension_types,
                },
            },
        )
    }
}

impl Dim for Dims {
    closed spec fn model(&self) -> DimsModel {
        self.internal_dims.model()
    }

    fn nb_dims(&self) -> (n: i32)
        ensures
            0 <= n <= MAX_DIMS,
    {
        proof {
            use_type_invariant(self);
        }
        self.internal_dims.nb_dims
    }

    fn d(&self) -> (extents: [i32; 8]) {
        self.internal_dims.d
    }

    fn types(&self) -> (roles: [DimensionType; 8]) {
        self.internal_dims.types
    }
}

/// A shape of two axes whose roles the caller may assign.
pub struct Dims2 {
    internal_dims: Descriptor,
}

impl Dims2 {
    #[verifier::type_invariant]
    spec fn well_formed(self) -> bool {
        self.internal_dims.nb_dims == 2
    }

    /// A shape of the given extents. The slots past the rank hold extent
    /// zero and the role `Spacial`.
    pub fn new(dim1: i32, dim2: i32) -> (shape: Dims2)
        ensures
            shape.model().nb_dims == 2,
            shape.model().d == extents2(dim1, dim2),
            shape.model().types == unassigned_roles(),
    {
        Dims2 {
            internal_dims: Descriptor {
                nb_dims: 2,
                d: [dim1, dim2, 0, 0, 0, 0, 0, 0],
                types: [DimensionType::Spacial; 8],
            },
        }
    }

    /// Assigns the roles of the two axes; rank, extents and the roles of
    /// the unused slots stay as they are.
    pub fn set_dimension_types(&mut self, type1: DimensionType, type2: DimensionType)
        ensures
            final(self).model().nb_dims == old(self).model().nb_dims,
            final(self).model().d == old(self).model().d,
            final(self).model().types == with_roles2(old(self).model().types, type1, type2),
    {
        proof {
            use_type_invariant(&*self);
        }
        let mut types = self.internal_dims.types;
        types[0] = type1;
        types[1] = type2;
        self.internal_dims.types = types;
    }
}

impl Dim for Dims2 {
    closed spec fn model(&self) -> DimsModel {
        self.internal_dims.model()
    }

    fn nb_dims(&self) -> (n: i32)
        ensures
            n == 2,
    {
        proof {
            use_type_invariant(self);
        }
        self.internal_dims.nb_dims
    }

    fn d(&self) -> (extents: [i32; 8]) {
        self.internal_dims.d
    }

    fn types(&self) -> (roles: [DimensionType; 8]) {
        self.internal_dims.types
    }
}

/// A shape of height and width: both axes are `Spacial`, for good.
pub struct DimsHW {
    internal_dims: Descriptor,
}

impl DimsHW {
    #[verifier::type_invariant]
    spec fn well_formed(self) -> bool {
        self.internal_dims.nb_dims == 2
        && self.internal_dims.types[0] == DimensionType::Spacial
        && self.internal_dims.types[1] == DimensionType::Spacial
    }

    /// A shape of the given extents. The slots past the rank hold extent
    /// zero and the role `Spacial`.
    pub fn new(height: i32, width: i32) -> (shape: DimsHW)
        ensures
            shape.model().nb_dims == 2,
            shape.model().d == extents2(height, width),
            shape.model().types == roles2(DimensionType::Spacial, DimensionType::Spacial),
    {
        DimsHW {
            internal_dims: Descriptor {
                nb_dims: 2,
                d: [height, width, 0, 0, 0, 0, 0, 0],
                types: [
                    DimensionType::Spacial,
                    DimensionType::Spacial,
                    DimensionType::Spacial,
                    DimensionType::Spacial,
                    DimensionType::Spacial,
                    DimensionType::Spacial,
                    DimensionType::Spacial,
                    DimensionType::Spacial,
                ],
            },
        }
    }
}

impl Dim for DimsHW {
    closed spec fn model(&self) -> DimsModel {
        self.internal_dims.model()
    }

    fn nb_dims(&self) -> (n: i32)
        ensures
            n == 2,
    {
        proof {
            use_type_invariant(self);
        }
        self.internal_dims.nb_dims
    }

    fn d(&self) -> (extents: [i32; 8]) {
        self.internal_dims.d
    }

    fn types(&self) -> (roles: [DimensionType; 8])
        ensures
            roles[0] == DimensionType::Spacial,
            roles[1] == DimensionType::Spacial,
    {
        proof {
            use_type_invariant(self);
        }
        self.internal_dims.types
    }
}

/// A shape of three axes whose roles the caller may assign.
pub struct Dims3 {
    internal_dims: Descriptor,
}

impl Dims3 {
    #[verifier::type_invariant]
    spec fn well_formed(self) -> bool {
        self.internal_dims.nb_dims == 3
    }

    /// A shape of the given extents. The slots past the rank hold extent
    /// zero and the role `Spacial`.
    pub fn new(dim1: i32, dim2: i32, dim3: i32) -> (shape: Dims3)
        ensures
            shape.model().nb_dims == 3,
            shape.model().d == extents3(dim1, dim2, dim3),
            shape.model().types == unassigned_roles(),
    {
        Dims3 {
            internal_dims: Descriptor {
                nb_dims: 3,
                d: [dim1, dim2, dim3, 0, 0, 0, 0, 0],
                types: [DimensionType::Spacial; 8],
            },
        }
    }

    /// Assigns the roles of the three axes; rank, extents and the roles of
    /// the unused slots stay as they are.
    pub fn set_dimension_types(
        &mut self,
        type1: DimensionType,
        type2: DimensionType,
        type3: DimensionType,
    )
        ensures
            final(self).model().nb_dims == old(self).model().nb_dims,
            final(self).model().d == old(self).model().d,
            final(self).model().types == with_roles3(old(self).model().types, type1, type2, type3),
    {
        proof {
            use_type_invariant(&*self);
        }
        let mut types = self.internal_dims.types;
        types[0] = type1;
        types[1] = type2;
        types[2] = type3;
        self.internal_dims.types = types;
    }
}

impl Dim for Dims3 {
    closed spec fn model(&self) -> DimsModel {
        self.internal_dims.model()
    }

    fn nb_dims(&self) -> (n: i32)
        ensures
            n == 3,
    {
        proof {
            use_type_invariant(self);
        }
        self.internal_dims.nb_dims
    }

    fn d(&self) -> (extents: [i32; 8]) {
        self.internal_dims.d
    }

    fn types(&self) -> (roles: [DimensionType; 8]) {
        self.internal_dims.types
    }
}

/// A shape of channels, height and width: the roles are `Channel`, `Spacial`,
/// `Spacial`, for good.
pub struct DimsCHW {
    internal_dims: Descriptor,
}

impl DimsCHW {
    #[verifier::type_invariant]
    spec fn well_formed(self) -> bool {
        self.internal_dims.nb_dims == 3
        && self.internal_dims.types[0] == DimensionType::Channel
        && self.internal_dims.types[1] == DimensionType::Spacial
        && self.internal_dims.types[2] == DimensionType::Spacial
    }

    /// A shape of the given extents. The slots past the rank hold extent
    /// zero and the role `Spacial`.
    pub fn new(channels: i32, height: i32, width: i32) -> (shape: DimsCHW)
        ensures
            shape.model().nb_dims == 3,
            shape.model().d == extents3(channels, height, width),
            shape.model().types == roles3(
                DimensionType::Channel,
                DimensionType::Spacial,
                DimensionType::Spacial,
            ),
    {
        DimsCHW {
            internal_dims: Descriptor {
                nb_dims: 3,
                d: [channels, height, width, 0, 0, 0, 0, 0],
                types: [
                    DimensionType::Channel,
                    DimensionType::Spacial,
                    DimensionType::Spacial,
                    DimensionType::Spacial,
                    DimensionType::Spacial,
                    DimensionType::Spacial,
                    DimensionType::Spacial,
                    DimensionType::Spacial,
                ],
            },
        }
    }
}

impl Dim for DimsCHW {
    closed spec fn model(&self) -> DimsModel {
        self.internal_dims.model()
    }

    fn nb_dims(&self) -> (n: i32)
        ensures
            n == 3,
    {
        proof {
            use_type_invariant(self);
        }
        self.internal_dims.nb_dims
    }

    fn d(&self) -> (extents: [i32; 8]) {
        self.internal_dims.d
    }

    fn types(&self) -> (roles: [DimensionType; 8])
        ensures
            roles[0] == DimensionType::Channel,
            roles[1] == DimensionType::Spacial,
            roles[2] == DimensionType::Spacial,
    {
        proof {
            use_type_invariant(self);
        }
        self.internal_dims.types
    }
}

/// A shape of four axes whose roles the caller may assign.
pub struct Dims4 {
    internal_dims: Descriptor,
}

impl Dims4 {
    #[verifier::type_invariant]
    spec fn well_formed(self) -> bool {
        self.internal_dims.nb_dims == 4
    }

    /// A shape of the given extents. The slots past the rank hold extent
    /// zero and the role `Spacial`.
    pub fn new(dim1: i32, dim2: i32, dim3: i32, dim4: i32) -> (shape: Dims4)
        ensures
            shape.model().nb_dims == 4,
            shape.model().d == extents4(dim1, dim2, dim3, dim4),
            shape.model().types == unassigned_roles(),
    {
        Dims4 {
            internal_dims: Descriptor {
                nb_dims: 4,
                d: [dim1, dim2, dim3, dim4, 0, 0, 0, 0],
                types: [DimensionType::Spacial; 8],
            },
        }
    }

    /// Assigns the roles of the four axes; rank, extents and the roles of
    /// the unused slots stay as they are.
    pub fn set_dimension_types(
        &mut self,
        type1: DimensionType,
        type2: DimensionType,
        type3: DimensionType,
        type4: DimensionType,
    )
        ensures
            final(self).model().nb_dims == old(self).model().nb_dims,
            final(self).model().d == old(self).model().d,
            final(self).model().types == with_roles4(
                old(self).model().types,
                type1,
                type2,
                type3,
                type4,
            ),
    {
        proof {
            use_type_invariant(&*self);
        }
        let mut types = self.internal_dims.types;
        types[0] = type1;
        types[1] = type2;
        types[2] = type3;
        types[3] = type4;
        self.internal_dims.types = types;
    }
}

impl Dim for Dims4 {
    closed spec fn model(&self) -> DimsModel {
        self.internal_dims.model()
    }

    fn nb_dims(&self) -> (n: i32)
        ensures
            n == 4,
    {
        proof {
            use_type_invariant(self);
        }
        self.internal_dims.nb_dims
    }

    fn d(&self) -> (extents: [i32; 8]) {
        self.internal_dims.d
    }

    fn types(&self) -> (roles: [DimensionType; 8]) {
        self.internal_dims.types
    }
}

/// A shape of batch index, channels, height and width: the roles are `Index`,
/// `Channel`, `Spacial`, `Spacial`, for good.
pub struct DimsNCHW {
    internal_dims: Descriptor,
}

impl DimsNCHW {
    #[verifier::type_invariant]
    spec fn well_formed(self) -> bool {
        self.internal_dims.nb_dims == 4
        && self.internal_dims.types[0] == DimensionType::Index
        && self.internal_dims.types[1] == DimensionType::Channel
        && self.internal_dims.types[2] == DimensionType::Spacial
        && self.internal_dims.types[3] == DimensionType::Spacial
    }

    /// A shape of the given extents. The slots past the rank hold extent
    /// zero and the role `Spacial`.
    pub fn new(index: i32, channels: i32, height: i32, width: i32) -> (shape: DimsNCHW)
        ensures
            shape.model().nb_dims == 4,
            shape.model().d == extents4(index, channels, height, width),
            shape.model().types == roles4(
                DimensionType::Index,
                DimensionType::Channel,
                DimensionType::Spacial,
                DimensionType::Spacial,
            ),
    {
        DimsNCHW {
            internal_dims: Descriptor {
                nb_dims: 4,
                d: [index, channels, height, width, 0, 0, 0, 0],
                types: [
                    DimensionType::Index,
                    DimensionType::Channel,
                    DimensionType::Spacial,
                    DimensionType::Spacial,
                    DimensionType::Spacial,
                    DimensionType::Spacial,
                    DimensionType::Spacial,
                    DimensionType::Spacial,
                ],
            },
        }
    }
}

impl Dim for DimsNCHW {
    closed spec fn model(&self) -> DimsModel {
        self.internal_dims.model()
    }

    fn nb_dims(&self) -> (n: i32)
        ensures
            n == 4,
    {
        proof {
            use_type_invariant(self);
        }
        self.internal_dims.nb_dims
    }

    fn d(&self) -> (extents: [i32; 8]) {
        self.internal_dims.d
    }

    fn types(&self) -> (roles: [DimensionType; 8])
        ensures
            roles[0] == DimensionType::Index,
            roles[1] == DimensionType::Channel,
            roles[2] == DimensionType::Spacial,
            roles[3] == DimensionType::Spacial,
    {
        proof {
            use_type_invariant(self);
        }
        self.internal_dims.types
    }
}

/// The first slots of a new shape's extents are the extents it was made
/// from, in their order.
pub proof fn lemma_extents_round_trip(dim1: i32, dim2: i32, dim3: i32, dim4: i32)
    ensures
        extents2(dim1, dim2).subrange(0, 2) == seq![dim1, dim2],
        extents3(dim1, dim2, dim3).subrange(0, 3) == seq![dim1, dim2, dim3],
        extents4(dim1, dim2, dim3, dim4).subrange(0, 4) == seq![dim1, dim2, dim3, dim4],
{
}

/// The first slots of a shape's roles are the roles that were assigned, in
/// their order, whatever the roles were before.
pub proof fn lemma_roles_round_trip(
    roles: Seq<DimensionType>,
    type1: DimensionType,
    type2: DimensionType,
    type3: DimensionType,
    type4: DimensionType,
)
    requires
        roles.len() == 8,
    ensures
        with_roles2(roles, type1, type2).subrange(0, 2) == seq![type1, type2],
        with_roles3(roles, type1, type2, type3).subrange(0, 3) == seq![type1, type2, type3],
        with_roles4(roles, type1, type2, type3, type4).subrange(0, 4) == seq![
            type1,
            type2,
            type3,
            type4,
        ],
{
}

/// Assigning the same roles a second time changes nothing.
pub proof fn lemma_set_roles_idempotent(
    roles: Seq<DimensionType>,
    type1: DimensionType,
    type2: DimensionType,
    type3: DimensionType,
    type4: DimensionType,
)
    requires
        roles.len() == 8,
    ensures
        with_roles2(with_roles2(roles, type1, type2), type1, type2) == with_roles2(
            roles,
            type1,
            type2,
        ),
        with_roles3(with_roles3(roles, type1, type2, type3), type1, type2, type3) == with_roles3(
            roles,
            type1,
            type2,
            type3,
        ),
        with_roles4(with_roles4(roles, type1, type2, type3, type4), type1, type2, type3, type4)
            == with_roles4(roles, type1, type2, type3, type4),
{
}

} // verus!
