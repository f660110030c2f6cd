//! Document-wide settings.

use crate::axis::{is_basis, Axis, AxisSystem, SignedAxis};
use crate::document::Document;
use crate::error::{result_view, Error, ErrorView, FloatCategory};
use crate::float::{classify, float_category};
use crate::loaders::{F64BitsLoader, PrimitiveLoader};
use crate::properties::{ObjectProperties, PropertiesNodeId};
use crate::property::{PropertyValue, ValueType};
use crate::tree::NodeId;
use vstd::prelude::*;

verus! {

/// The signed axis that an axis code and an axis sign stand for.
///
/// Code 0, 1 or 2 stands for X, Y or Z, and sign 1 or -1 for the direction.
/// Any other pair is an error: of the axis code if that is not 0, 1 or 2,
/// else of the sign.
pub open spec fn decode_axis(axis_name: Seq<char>, axis: i32, axis_sign: i32) -> Result<
    SignedAxis,
    ErrorView,
> {
    if axis == 0 && axis_sign == 1 {
        Ok(SignedAxis::PosX)
    } else if axis == 0 && axis_sign == -1 {
        Ok(SignedAxis::NegX)
    } else if axis == 1 && axis_sign == 1 {
        Ok(SignedAxis::PosY)
    } else if axis == 1 && axis_sign == -1 {
        Ok(SignedAxis::NegY)
    } else if axis == 2 && axis_sign == 1 {
        Ok(SignedAxis::PosZ)
    } else if axis == 2 && axis_sign == -1 {
        Ok(SignedAxis::NegZ)
    } else if !(0 <= axis <= 2) {
        Err(ErrorView::InvalidAxis { axis_name, value: axis })
    } else {
        Err(ErrorView::InvalidAxisSign { axis_name, value: axis_sign })
    }
}

/// Decoding succeeds exactly on a valid code with a valid sign. Decoding
/// fails on the axis code whenever the code is invalid, whatever the sign,
/// and on the sign only when the code is valid.
pub proof fn lemma_decode_axis(axis_name: Seq<char>, axis: i32, axis_sign: i32)
    ensures
        decode_axis(axis_name, axis, axis_sign).is_ok() <==> (0 <= axis <= 2 && (axis_sign == 1
            || axis_sign == -1)),
        !(0 <= axis <= 2) ==> decode_axis(axis_name, axis, axis_sign) == Err::<
            SignedAxis,
            ErrorView,
        >(ErrorView::InvalidAxis { axis_name, value: axis }),
        0 <= axis <= 2 && axis_sign != 1 && axis_sign != -1 ==> decode_axis(
            axis_name,
            axis,
            axis_sign,
        ) == Err::<SignedAxis, ErrorView>(ErrorView::InvalidAxisSign { axis_name, value: axis_sign }),
        decode_axis(axis_name, axis, axis_sign) matches Ok(a) ==> {
            &&& (a.spec_axis() == Axis::X <==> axis == 0)
            &&& (a.spec_axis() == Axis::Y <==> axis == 1)
            &&& (a.spec_axis() == Axis::Z <==> axis == 2)
            &&& (a.spec_is_positive() <==> axis_sign == 1)
        },
{
}

/// Loads a signed axis from the values of an axis property and of its sign
/// property.
pub fn load_axis_from_prop(axis_name: &str, axis: i32, axis_sign: i32) -> (r: Result<
    SignedAxis,
    Error,
>)
    ensures
        result_view(r) == decode_axis(axis_name@, axis, axis_sign),
{
    let axis_valid = 0 <= axis && axis <= 2;
    let sign_valid = axis_sign == 1 || axis_sign == -1;
    if !axis_valid {
        Err(Error::InvalidAxis { axis_name: axis_name.to_owned(), value: axis })
    } else if !sign_valid {
        Err(Error::InvalidAxisSign { axis_name: axis_name.to_owned(), value: axis_sign })
    } else {
        let positive = axis_sign == 1;
        if axis == 0 {
            Ok(if positive { SignedAxis::PosX } else { SignedAxis::NegX })
        } else if axis == 1 {
            Ok(if positive { SignedAxis::PosY } else { SignedAxis::NegY })
        } else {
            Ok(if positive { SignedAxis::PosZ } else { SignedAxis::NegZ })
        }
    }
}

/// The value of a property that must hold a signed 32-bit integer.
pub open spec fn resolved_i32(props: ObjectProperties, key: Seq<char>) -> Result<i32, ErrorView> {
    match props.spec_get(key) {
        None => Err(ErrorView::PropertyNotFound { key }),
        Some(PropertyValue::I32(v)) => Ok(v),
        Some(other) => Err(
            ErrorView::PropertyTypeMismatch {
                key,
                expected: ValueType::I32,
                found: other.spec_value_type(),
            },
        ),
    }
}

/// The bit pattern of a property that must hold a double-precision float.
pub open spec fn resolved_f64_bits(props: ObjectProperties, key: Seq<char>) -> Result<
    u64,
    ErrorView,
> {
    match props.spec_get(key) {
        None => Err(ErrorView::PropertyNotFound { key }),
        Some(PropertyValue::F64(v)) => Ok(v),
        Some(other) => Err(
            ErrorView::PropertyTypeMismatch {
                key,
                expected: ValueType::F64,
                found: other.spec_value_type(),
            },
        ),
    }
}

/// The signed axis that a pair of properties stands for: the first error of
/// reading the axis code, reading the axis sign, and decoding the two.
pub open spec fn resolved_axis(
    props: ObjectProperties,
    axis_name: Seq<char>,
    axis_key: Seq<char>,
    sign_key: Seq<char>,
) -> Result<SignedAxis, ErrorView> {
    match resolved_i32(props, axis_key) {
        Err(e) => Err(e),
        Ok(axis) => match resolved_i32(props, sign_key) {
            Err(e) => Err(e),
            Ok(axis_sign) => decode_axis(axis_name, axis, axis_sign),
        },
    }
}

/// The up, front and right directions of an axis system, or the error of
/// putting the three together.
pub open spec fn checked_basis(up: SignedAxis, front: SignedAxis, right: SignedAxis) -> Result<
    (SignedAxis, SignedAxis, SignedAxis),
    ErrorView,
> {
    if is_basis(up, front, right) {
        Ok((up, front, right))
    } else {
        Err(ErrorView::InvalidAxisSystem { up, front, right })
    }
}

/// The property nodes that the settings of a document read: the node named
/// `Properties70` under the root's `GlobalSettings` node, if there is one, and
/// behind it the defaults of the class `GlobalSettings`, `FbxGlobalSettings`.
pub open spec fn settings_scopes(doc: Document) -> Result<
    (Option<PropertiesNodeId>, Option<PropertiesNodeId>),
    ErrorView,
> {
    match doc.spec_tree().spec_first_child_by_name(NodeId(0), "GlobalSettings"@) {
        None => Err(ErrorView::NodeNotFound { name: "GlobalSettings"@ }),
        Some(node) => Ok(
            (
                match doc.spec_tree().spec_first_child_by_name(node, "Properties70"@) {
                    Some(p) => Some(PropertiesNodeId(p)),
                    None => None,
                },
                doc.spec_definitions_cache().spec_props_node_id(
                    "GlobalSettings"@,
                    "FbxGlobalSettings"@,
                ),
            ),
        ),
    }
}

/// A proxy to the document-wide settings.
#[derive(Clone, Copy, Debug)]
pub struct GlobalSettings<'a> {
    props: ObjectProperties<'a>,
}

impl<'a> GlobalSettings<'a> {
    /// The properties the settings are read from.
    pub closed spec fn spec_raw_properties(self) -> ObjectProperties<'a> {
        self.props
    }

    /// Whether `r` is what creating the settings of `doc` gives.
    pub open spec fn is_new(doc: Document, r: Result<GlobalSettings<'a>, Error>) -> bool {
        match r {
            Ok(settings) => {
                &&& settings_scopes(doc) == Ok::<_, ErrorView>(
                    (
                        settings.spec_raw_properties().spec_direct(),
                        settings.spec_raw_properties().spec_default(),
                    ),
                )
                &&& settings.spec_raw_properties().spec_document() == doc
            },
            Err(e) => settings_scopes(doc) == Err::<
                (Option<PropertiesNodeId>, Option<PropertiesNodeId>),
                _,
            >(e@),
        }
    }

    /// Whether `r` is what `axis_system` returns: an axis system with the
    /// directions that the properties give, or the error of reading them.
    pub open spec fn is_axis_system(self, r: Result<AxisSystem, Error>) -> bool {
        match r {
            Ok(s) => self.spec_axis_system() == Ok::<_, ErrorView>(
                (s.spec_up(), s.spec_front(), s.spec_right()),
            ),
            Err(e) => self.spec_axis_system() == Err::<(SignedAxis, SignedAxis, SignedAxis), _>(e@),
        }
    }

    /// What `up_axis` returns.
    pub open spec fn spec_up_axis(self) -> Result<SignedAxis, ErrorView> {
        resolved_axis(self.spec_raw_properties(), "Up"@, "UpAxis"@, "UpAxisSign"@)
    }

    /// What `front_axis` returns.
    pub open spec fn spec_front_axis(self) -> Result<SignedAxis, ErrorView> {
        resolved_axis(self.spec_raw_properties(), "Front"@, "FrontAxis"@, "FrontAxisSign"@)
    }

    /// What `right_axis` returns.
    pub open spec fn spec_right_axis(self) -> Result<SignedAxis, ErrorView> {
        resolved_axis(self.spec_raw_properties(), "Coord"@, "CoordAxis"@, "CoordAxisSign"@)
    }

    /// What `original_up_axis` returns.
    pub open spec fn spec_original_up_axis(self) -> Result<SignedAxis, ErrorView> {
        resolved_axis(
            self.spec_raw_properties(),
            "OriginalUp"@,
            "OriginalUpAxis"@,
            "OriginalUpAxisSign"@,
        )
    }

    /// The directions of the axis system: the first error of reading the up,
    /// the front and the right axis and of putting the three together.
    pub open spec fn spec_axis_system(self) -> Result<
        (SignedAxis, SignedAxis, SignedAxis),
        ErrorView,
    > {
        match self.spec_up_axis() {
            Err(e) => Err(e),
            Ok(up) => match self.spec_front_axis() {
                Err(e) => Err(e),
                Ok(front) => match self.spec_right_axis() {
                    Err(e) => Err(e),
                    Ok(right) => checked_basis(up, front, right),
                },
            },
        }
    }

    /// The bit pattern of the unit scale factor: the error of reading it, or
    /// `InvalidUnitScaleFactor` if it is not a normal value.
    pub open spec fn spec_unit_scale_factor(self) -> Result<u64, ErrorView> {
        match resolved_f64_bits(self.spec_raw_properties(), "UnitScaleFactor"@) {
            Err(e) => Err(e),
            Ok(bits) => UnitScaleFactor::checked_bits(bits),
        }
    }

    /// Creates a proxy to the settings of a document.
    ///
    /// Fails with `NodeNotFound` exactly when the root has no child named
    /// `GlobalSettings`.
    pub fn new(doc: &'a Document) -> (r: Result<GlobalSettings<'a>, Error>)
        requires
            doc.wf(),
        ensures
            Self::is_new(*doc, r),
    {
        let tree = doc.tree();
        let global_settings_node = match tree.first_child_by_name(tree.root(), "GlobalSettings") {
            Some(node) => node,
            None => {
                return Err(Error::NodeNotFound { name: "GlobalSettings".to_owned() });
            },
        };
        let direct_props = match tree.first_child_by_name(global_settings_node, "Properties70") {
            Some(node) => Some(PropertiesNodeId::new(node)),
            None => None,
        };
        let default_props = doc.definitions_cache().props_node_id(
            "GlobalSettings",
            "FbxGlobalSettings",
        );
        Ok(GlobalSettings { props: ObjectProperties::new(direct_props, default_props, doc) })
    }

    /// Returns the axis system.
    ///
    /// Fails with the first error of reading the up, the front and the right
    /// axis, and with `InvalidAxisSystem` if two of them share an axis.
    pub fn axis_system(&self) -> (r: Result<AxisSystem, Error>)
        ensures
            self.is_axis_system(r),
    {
        let up = match self.up_axis() {
            Ok(a) => a,
            Err(e) => {
                return Err(e);
            },
        };
        let front = match self.front_axis() {
            Ok(a) => a,
            Err(e) => {
                return Err(e);
            },
        };
        let right = match self.right_axis() {
            Ok(a) => a,
            Err(e) => {
                return Err(e);
            },
        };
        match AxisSystem::from_up_front_right(up, front, right) {
            Some(s) => Ok(s),
            None => Err(Error::InvalidAxisSystem { up, front, right }),
        }
    }

    /// Returns the raw properties, for access to properties that have no
    /// accessor of their own.
    #[inline]
    #[must_use]
    pub fn raw_properties(&self) -> (r: &ObjectProperties<'a>)
        ensures
            *r == self.spec_raw_properties(),
    {
        &self.props
    }

    /// Returns the up axis.
    pub fn up_axis(&self) -> (r: Result<SignedAxis, Error>)
        ensures
            result_view(r) == self.spec_up_axis(),
    {
        let axis = match self.up_axis_raw() {
            Ok(v) => v,
            Err(e) => {
                return Err(e);
            },
        };
        let axis_sign = match self.up_axis_sign_raw() {
            Ok(v) => v,
            Err(e) => {
                return Err(e);
            },
        };
        load_axis_from_prop("Up", axis, axis_sign)
    }

    /// Returns the front axis.
    pub fn front_axis(&self) -> (r: Result<SignedAxis, Error>)
        ensures
            result_view(r) == self.spec_front_axis(),
    {
        let axis = match self.front_axis_raw() {
            Ok(v) => v,
            Err(e) => {
                return Err(e);
            },
        };
        let axis_sign = match self.front_axis_sign_raw() {
            Ok(v) => v,
            Err(e) => {
                return Err(e);
            },
        };
        load_axis_from_prop("Front", axis, axis_sign)
    }

    /// Returns the "coord axis", that is, the rightward axis.
    pub fn right_axis(&self) -> (r: Result<SignedAxis, Error>)
        ensures
            result_view(r) == self.spec_right_axis(),
    {
        let axis = match self.coord_axis_raw() {
            Ok(v) => v,
            Err(e) => {
                return Err(e);
            },
        };
        let axis_sign = match self.coord_axis_sign_raw() {
            Ok(v) => v,
            Err(e) => {
                return Err(e);
            },
        };
        load_axis_from_prop("Coord", axis, axis_sign)
    }

    /// Returns the raw `UpAxis` value.
    pub fn up_axis_raw(&self) -> (r: Result<i32, Error>)
        ensures
            result_view(r) == resolved_i32(self.spec_raw_properties(), "UpAxis"@),
    {
        self.props.value("UpAxis", PrimitiveLoader::<i32>::new())
    }

    /// Returns the raw `UpAxisSign` value.
    pub fn up_axis_sign_raw(&self) -> (r: Result<i32, Error>)
        ensures
            result_view(r) == resolved_i32(self.spec_raw_properties(), "UpAxisSign"@),
    {
        self.props.value("UpAxisSign", PrimitiveLoader::<i32>::new())
    }

    /// Returns the raw `FrontAxis` value.
    pub fn front_axis_raw(&self) -> (r: Result<i32, Error>)
        ensures
            result_view(r) == resolved_i32(self.spec_raw_properties(), "FrontAxis"@),
    {
        self.props.value("FrontAxis", PrimitiveLoader::<i32>::new())
    }

    /// Returns the raw `FrontAxisSign` value.
    pub fn front_axis_sign_raw(&self) -> (r: Result<i32, Error>)
        ensures
            result_view(r) == resolved_i32(self.spec_raw_properties(), "FrontAxisSign"@),
    {
        self.props.value("FrontAxisSign", PrimitiveLoader::<i32>::new())
    }

    /// Returns the raw `CoordAxis` value.
    pub fn coord_axis_raw(&self) -> (r: Result<i32, Error>)
        ensures
            result_view(r) == resolved_i32(self.spec_raw_properties(), "CoordAxis"@),
    {
        self.props.value("CoordAxis", PrimitiveLoader::<i32>::new())
    }

    /// Returns the raw `CoordAxisSign` value.
    pub fn coord_axis_sign_raw(&self) -> (r: Result<i32, Error>)
        ensures
            result_view(r) == resolved_i32(self.spec_raw_properties(), "CoordAxisSign"@),
    {
        self.props.value("CoordAxisSign", PrimitiveLoader::<i32>::new())
    }

    /// Returns the "original up axis".
    pub fn original_up_axis(&self) -> (r: Result<SignedAxis, Error>)
        ensures
            result_view(r) == self.spec_original_up_axis(),
    {
        let axis = match self.original_up_axis_raw() {
            Ok(v) => v,
            Err(e) => {
                return Err(e);
            },
        };
        let axis_sign = match self.original_up_axis_sign_raw() {
            Ok(v) => v,
            Err(e) => {
                return Err(e);
            },
        };
        load_axis_from_prop("OriginalUp", axis, axis_sign)
    }

    /// Returns the raw `OriginalUpAxis` value.
    pub fn original_up_axis_raw(&self) -> (r: Result<i32, Error>)
        ensures
            result_view(r) == resolved_i32(self.spec_raw_properties(), "OriginalUpAxis"@),
    {
        self.props.value("OriginalUpAxis", PrimitiveLoader::<i32>::new())
    }

    /// Returns the raw `OriginalUpAxisSign` value.
    pub fn original_up_axis_sign_raw(&self) -> (r: Result<i32, Error>)
        ensures
            result_view(r) == resolved_i32(self.spec_raw_properties(), "OriginalUpAxisSign"@),
    {
        self.props.value("OriginalUpAxisSign", PrimitiveLoader::<i32>::new())
    }

    /// Returns the unit scale factor.
    ///
    /// The unit scale factor is the scale from unit length in the document to
    /// length in the real world: it tells, for example, that length 1.0 in the
    /// document corresponds to 1 cm.
    ///
    /// Some software ignores this property when it loads a document, so
    /// whether to apply the factor deserves a careful decision.
    pub fn unit_scale_factor(&self) -> (r: Result<UnitScaleFactor, Error>)
        ensures
            UnitScaleFactor::is_checked(self.spec_unit_scale_factor(), r),
    {
        match self.unit_scale_factor_raw() {
            Ok(bits) => UnitScaleFactor::new(bits),
            Err(e) => Err(e),
        }
    }

    /// Returns the raw unit scale factor, as the bit pattern of a
    /// double-precision value.
    pub fn unit_scale_factor_raw(&self) -> (r: Result<u64, Error>)
        ensures
            result_view(r) == resolved_f64_bits(self.spec_raw_properties(), "UnitScaleFactor"@),
    {
        self.props.value("UnitScaleFactor", F64BitsLoader)
    }
}

/// Unit scale factor: the size of the document's unit of length, in
/// centimeters.
///
/// The value is held as the bit pattern of a double-precision value, and is
/// always a normal one: neither zero, infinite, subnormal nor NaN.
#[derive(Clone, Copy, Debug, PartialEq, Eq)]
pub struct UnitScaleFactor {
    unit_in_centimeters: u64,
}

impl UnitScaleFactor {
    #[verifier::type_invariant]
    spec fn inv(self) -> bool {
        float_category(self.unit_in_centimeters) == FloatCategory::Normal
    }

    /// The bit pattern of the unit size in centimeters.
    pub closed spec fn spec_unit_in_centimeters(self) -> u64 {
        self.unit_in_centimeters
    }

    /// The bit pattern itself if it is of a normal value, else the error that
    /// names its category.
    pub open spec fn checked_bits(bits: u64) -> Result<u64, ErrorView> {
        if float_category(bits) == FloatCategory::Normal {
            Ok(bits)
        } else {
            Err(ErrorView::InvalidUnitScaleFactor { category: float_category(bits) })
        }
    }

    /// Whether `r` holds the bit pattern, or the error, that `expected` holds.
    pub open spec fn is_checked(
        expected: Result<u64, ErrorView>,
        r: Result<UnitScaleFactor, Error>,
    ) -> bool {
        match r {
            Ok(f) => expected == Ok::<_, ErrorView>(f.spec_unit_in_centimeters()),
            Err(e) => expected == Err::<u64, _>(e@),
        }
    }

    /// Creates a unit scale factor from the bit pattern of a double-precision
    /// value.
    ///
    /// Fails if the value is not normal, that is, if it is zero, infinite,
    /// subnormal or NaN.
    pub fn new(unit_in_centimeters: u64) -> (r: Result<UnitScaleFactor, Error>)
        ensures
            Self::is_checked(Self::checked_bits(unit_in_centimeters), r),
    {
        let category = classify(unit_in_centimeters);
        match category {
            FloatCategory::Normal => Ok(UnitScaleFactor { unit_in_centimeters }),
            _ => Err(Error::InvalidUnitScaleFactor { category }),
        }
    }

    /// Returns the bit pattern of the unit size used in the document, in
    /// centimeters.
    ///
    /// If the unit size (that is, length 1.0) is 1 meter in the document, this
    /// is the bit pattern of 100.0.
    #[inline(always)]
    #[must_use]
    pub fn unit_in_centimeters(self) -> (r: u64)
        ensures
            r == self.spec_unit_in_centimeters(),
            float_category(r) == FloatCategory::Normal,
    {
        proof {
            use_type_invariant(self);
        }
        self.unit_in_centimeters
    }
}

/// Creating the settings of an unchanged document again gives the same
/// again: the same property nodes of the same document, or the same error.
pub proof fn lemma_new_is_stable(
    doc: Document,
    first: Result<GlobalSettings, Error>,
    second: Result<GlobalSettings, Error>,
)
    requires
        GlobalSettings::is_new(doc, first),
        GlobalSettings::is_new(doc, second),
    ensures
        match (first, second) {
            (Ok(a), Ok(b)) => {
                &&& a.spec_raw_properties().spec_direct() == b.spec_raw_properties().spec_direct()
                &&& a.spec_raw_properties().spec_default() == b.spec_raw_properties().spec_default()
                &&& a.spec_raw_properties().spec_document() == b.spec_raw_properties().spec_document()
            },
            (Err(e), Err(f)) => e@ == f@,
            _ => false,
        },
{
}

/// Asking the same settings for the axis system again gives the same again:
/// the same three directions, or the same error.
pub proof fn lemma_axis_system_is_stable(
    settings: GlobalSettings,
    first: Result<AxisSystem, Error>,
    second: Result<AxisSystem, Error>,
)
    requires
        settings.is_axis_system(first),
        settings.is_axis_system(second),
    ensures
        match (first, second) {
            (Ok(a), Ok(b)) => a.spec_up() == b.spec_up() && a.spec_front() == b.spec_front()
                && a.spec_right() == b.spec_right(),
            (Err(e), Err(f)) => e@ == f@,
            _ => false,
        },
{
}

/// Asking the same settings for the unit scale factor again gives the same
/// again: the same bit pattern, or the same error.
pub proof fn lemma_unit_scale_factor_is_stable(
    settings: GlobalSettings,
    first: Result<UnitScaleFactor, Error>,
    second: Result<UnitScaleFactor, Error>,
)
    requires
        UnitScaleFactor::is_checked(settings.spec_unit_scale_factor(), first),
        UnitScaleFactor::is_checked(settings.spec_unit_scale_factor(), second),
    ensures
        match (first, second) {
            (Ok(a), Ok(b)) => a.spec_unit_in_centimeters() == b.spec_unit_in_centimeters(),
            (Err(e), Err(f)) => e@ == f@,
            _ => false,
        },
{
}

/// A unit scale factor is created exactly from the bit patterns of normal
/// values, and holds the bit pattern it was created from.
pub proof fn lemma_unit_scale_factor_new(bits: u64, r: Result<UnitScaleFactor, Error>)
    requires
        UnitScaleFactor::is_checked(UnitScaleFactor::checked_bits(bits), r),
    ensures
        r is Ok <==> float_category(bits) == FloatCategory::Normal,
        r matches Ok(f) ==> f.spec_unit_in_centimeters() == bits,
        r matches Err(e) ==> e@ == (ErrorView::InvalidUnitScaleFactor {
            category: float_category(bits),
        }),
{
}

} // verus!
