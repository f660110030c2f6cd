//! Axes, signed axes and axis systems.

use vstd::prelude::*;

verus! {

/// One of the three coordinate axes.
#[derive(Clone, Copy, Debug, PartialEq, Eq, Hash, Structural)]
pub enum Axis {
    /// The X axis.
    X,
    /// The Y axis.
    Y,
    /// The Z axis.
    Z,
}

/// A coordinate axis together with a direction along it.
#[derive(Clone, Copy, Debug, PartialEq, Eq, Hash, Structural)]
pub enum SignedAxis {
    /// Positive X direction.
    PosX,
    /// Negative X direction.
    NegX,
    /// Positive Y direction.
    PosY,
    /// Negative Y direction.
    NegY,
    /// Positive Z direction.
    PosZ,
    /// Negative Z direction.
    NegZ,
}

impl SignedAxis {
    /// The axis this direction lies on.
    pub open spec fn spec_axis(self) -> Axis {
        match self {
            SignedAxis::PosX | SignedAxis::NegX => Axis::X,
            SignedAxis::PosY | SignedAxis::NegY => Axis::Y,
            SignedAxis::PosZ | SignedAxis::NegZ => Axis::Z,
        }
    }

    /// Whether this direction points towards the positive end of its axis.
    pub open spec fn spec_is_positive(self) -> bool {
        self == SignedAxis::PosX || self == SignedAxis::PosY || self == SignedAxis::PosZ
    }

    /// The signed axis with the given axis and direction.
    pub open spec fn spec_new(axis: Axis, positive: bool) -> SignedAxis {
        match axis {
            Axis::X => if positive { SignedAxis::PosX } else { SignedAxis::NegX },
            Axis::Y => if positive { SignedAxis::PosY } else { SignedAxis::NegY },
            Axis::Z => if positive { SignedAxis::PosZ } else { SignedAxis::NegZ },
        }
    }

    /// Creates the signed axis with the given axis and direction.
    pub fn new(axis: Axis, positive: bool) -> (r: SignedAxis)
        ensures
            r == Self::spec_new(axis, positive),
            r.spec_axis() == axis,
            r.spec_is_positive() == positive,
    {
        match axis {
            Axis::X => if positive { SignedAxis::PosX } else { SignedAxis::NegX },
            Axis::Y => if positive { SignedAxis::PosY } else { SignedAxis::NegY },
            Axis::Z => if positive { SignedAxis::PosZ } else { SignedAxis::NegZ },
        }
    }

    /// Returns the axis this direction lies on.
    #[verifier::when_used_as_spec(spec_axis)]
    pub fn axis(self) -> (r: Axis)
        ensures
            r == self.spec_axis(),
    {
        match self {
            SignedAxis::PosX | SignedAxis::NegX => Axis::X,
            SignedAxis::PosY | SignedAxis::NegY => Axis::Y,
            SignedAxis::PosZ | SignedAxis::NegZ => Axis::Z,
        }
    }

    /// Returns whether this direction points towards the positive end of its axis.
    #[verifier::when_used_as_spec(spec_is_positive)]
    pub fn is_positive(self) -> (r: bool)
        ensures
            r == self.spec_is_positive(),
    {
        match self {
            SignedAxis::PosX | SignedAxis::PosY | SignedAxis::PosZ => true,
            SignedAxis::NegX | SignedAxis::NegY | SignedAxis::NegZ => false,
        }
    }

    /// The name of this direction: a sign and the letter of the axis.
    pub open spec fn spec_name(self) -> Seq<char> {
        match self {
            SignedAxis::PosX => "+X"@,
            SignedAxis::NegX => "-X"@,
            SignedAxis::PosY => "+Y"@,
            SignedAxis::NegY => "-Y"@,
            SignedAxis::PosZ => "+Z"@,
            SignedAxis::NegZ => "-Z"@,
        }
    }

    /// Returns the name of this direction: a sign and the letter of the axis.
    pub fn name(self) -> (r: &'static str)
        ensures
            r@ == self.spec_name(),
    {
        match self {
            SignedAxis::PosX => "+X",
            SignedAxis::NegX => "-X",
            SignedAxis::PosY => "+Y",
            SignedAxis::NegY => "-Y",
            SignedAxis::PosZ => "+Z",
            SignedAxis::NegZ => "-Z",
        }
    }

    /// Returns the same axis with the direction reversed.
    pub fn opposite(self) -> (r: SignedAxis)
        ensures
            r.spec_axis() == self.spec_axis(),
            r.spec_is_positive() == !self.spec_is_positive(),
    {
        match self {
            SignedAxis::PosX => SignedAxis::NegX,
            SignedAxis::NegX => SignedAxis::PosX,
            SignedAxis::PosY => SignedAxis::NegY,
            SignedAxis::NegY => SignedAxis::PosY,
            SignedAxis::PosZ => SignedAxis::NegZ,
            SignedAxis::NegZ => SignedAxis::PosZ,
        }
    }
}

/// Whether three directions span all three axes, so that they form the basis
/// of a right-handed or left-handed coordinate system.
pub open spec fn is_basis(up: SignedAxis, front: SignedAxis, right: SignedAxis) -> bool {
    &&& up.spec_axis() != front.spec_axis()
    &&& front.spec_axis() != right.spec_axis()
    &&& right.spec_axis() != up.spec_axis()
}

/// A coordinate system given by its up, front and right directions.
///
/// The three directions always lie on three different axes.
#[derive(Clone, Copy, Debug, PartialEq, Eq, Hash)]
pub struct AxisSystem {
    up: SignedAxis,
    front: SignedAxis,
    right: SignedAxis,
}

impl AxisSystem {
    #[verifier::type_invariant]
    spec fn inv(self) -> bool {
        is_basis(self.up, self.front, self.right)
    }

    /// The up direction.
    pub closed spec fn spec_up(self) -> SignedAxis {
        self.up
    }

    /// The front direction.
    pub closed spec fn spec_front(self) -> SignedAxis {
        self.front
    }

    /// The right direction.
    pub closed spec fn spec_right(self) -> SignedAxis {
        self.right
    }

    /// Creates an axis system from its up, front and right directions.
    ///
    /// Returns `None` exactly when two of the directions share an axis.
    pub fn from_up_front_right(up: SignedAxis, front: SignedAxis, right: SignedAxis) -> (r: Option<
        AxisSystem,
    >)
        ensures
            r.is_some() <==> is_basis(up, front, right),
            r matches Some(s) ==> s.spec_up() == up && s.spec_front() == front && s.spec_right()
                == right,
    {
        let u = up.axis();
        let f = front.axis();
        let t = right.axis();
        if u == f || f == t || t == u {
            None
        } else {
            Some(AxisSystem { up, front, right })
        }
    }

    /// Returns the up direction.
    #[verifier::when_used_as_spec(spec_up)]
    pub fn up(self) -> (r: SignedAxis)
        ensures
            r == self.spec_up(),
            is_basis(self.spec_up(), self.spec_front(), self.spec_right()),
    {
        proof {
            use_type_invariant(self);
        }
        self.up
    }

    /// Returns the front direction.
    #[verifier::when_used_as_spec(spec_front)]
    pub fn front(self) -> (r: SignedAxis)
        ensures
            r == self.spec_front(),
            is_basis(self.spec_up(), self.spec_front(), self.spec_right()),
    {
        proof {
            use_type_invariant(self);
        }
        self.front
    }

    /// Returns the right direction.
    #[verifier::when_used_as_spec(spec_right)]
    pub fn right(self) -> (r: SignedAxis)
        ensures
            r == self.spec_right(),
            is_basis(self.spec_up(), self.spec_front(), self.spec_right()),
    {
        proof {
            use_type_invariant(self);
        }
        self.right
    }
}

} // verus!
