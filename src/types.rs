//! The option model: descriptors, their constraints, and option values.
use vstd::prelude::*;

use crate::codec::{
    lemma_string_at, parse_array, parse_pointer, parse_string, read_array, read_pointer,
    read_string, string_wire, too_long, ArraySlot,
};
use crate::error::{DataFault, Error, Field};
use crate::wire::{
    agrees, agrees_deep, parse_bool, parse_i32, parse_u32, read_bool, read_i32, read_u32, word_at,
    i32_bytes, lemma_i32_in_context, lemma_u32_in_context, word_bytes,
};

verus! {

/// A value under the value-slot convention of a control reply: the tag word 0
/// means null; any other tag is followed by the value.
pub enum Pointer<T> {
    Value(T),
    Null,
}

impl<T> Pointer<T> {
    /// Applies `f` to the value, or returns `default` for a null pointer.
    pub fn map_or<U, F: FnOnce(T) -> U>(self, default: U, f: F) -> (r: U)
        requires
            self matches Pointer::Value(t) ==> f.requires((t,)),
        ensures
            match self {
                Pointer::Value(t) => f.ensures((t,), r),
                Pointer::Null => r == default,
            },
    {
        match self {
            Pointer::Value(t) => f(t),
            Pointer::Null => default,
        }
    }
}

/// The type of an option's value.
#[derive(Debug, Clone, Copy, PartialEq, Eq, Structural)]
pub enum OptionValueType {
    Boolean,
    Integer,
    Fixed,
    String,
    /// An option without a value, whose setting has a side effect.
    Button,
    /// An option without a value that heads a group of related options.
    Group,
}

pub open spec fn value_type_code(t: OptionValueType) -> i32 {
    match t {
        OptionValueType::Boolean => 0,
        OptionValueType::Integer => 1,
        OptionValueType::Fixed => 2,
        OptionValueType::String => 3,
        OptionValueType::Button => 4,
        OptionValueType::Group => 5,
    }
}

pub open spec fn value_type_of(c: i32) -> Option<OptionValueType> {
    if c == 0 {
        Some(OptionValueType::Boolean)
    } else if c == 1 {
        Some(OptionValueType::Integer)
    } else if c == 2 {
        Some(OptionValueType::Fixed)
    } else if c == 3 {
        Some(OptionValueType::String)
    } else if c == 4 {
        Some(OptionValueType::Button)
    } else if c == 5 {
        Some(OptionValueType::Group)
    } else {
        None
    }
}

pub open spec fn parse_value_type(s: Seq<u8>, p: int) -> Result<(OptionValueType, int), Error> {
    match parse_i32(s, p) {
        Err(e) => Err(e),
        Ok((c, q)) => match value_type_of(c) {
            Some(t) => Ok((t, q)),
            None => Err(Error::InvalidSaneFieldValue(Field::ValueType, c)),
        },
    }
}

impl OptionValueType {
    pub fn code(&self) -> (r: i32)
        ensures
            r == value_type_code(*self),
    {
        match self {
            OptionValueType::Boolean => 0,
            OptionValueType::Integer => 1,
            OptionValueType::Fixed => 2,
            OptionValueType::String => 3,
            OptionValueType::Button => 4,
            OptionValueType::Group => 5,
        }
    }

    pub fn try_from_stream(s: &Vec<u8>, p: usize) -> (r: Result<(OptionValueType, usize), Error>)
        ensures
            agrees(r, parse_value_type(s@, p as int)),
    {
        let (c, q) = match read_i32(s, p) {
            Ok(x) => x,
            Err(e) => return Err(e),
        };
        match c {
            0 => Ok((OptionValueType::Boolean, q)),
            1 => Ok((OptionValueType::Integer, q)),
            2 => Ok((OptionValueType::Fixed, q)),
            3 => Ok((OptionValueType::String, q)),
            4 => Ok((OptionValueType::Button, q)),
            5 => Ok((OptionValueType::Group, q)),
            _ => Err(Error::InvalidSaneFieldValue(Field::ValueType, c)),
        }
    }
}

/// The physical unit of an option's value.
#[derive(Debug, Clone, Copy, PartialEq, Eq, Structural)]
pub enum OptionUnit {
    Unitless,
    Pixel,
    Bit,
    Millimeter,
    DPI,
    Percent,
    Microsecond,
}

pub open spec fn unit_of(c: i32) -> Option<OptionUnit> {
    if c == 0 {
        Some(OptionUnit::Unitless)
    } else if c == 1 {
        Some(OptionUnit::Pixel)
    } else if c == 2 {
        Some(OptionUnit::Bit)
    } else if c == 3 {
        Some(OptionUnit::Millimeter)
    } else if c == 4 {
        Some(OptionUnit::DPI)
    } else if c == 5 {
        Some(OptionUnit::Percent)
    } else if c == 6 {
        Some(OptionUnit::Microsecond)
    } else {
        None
    }
}

pub open spec fn parse_unit(s: Seq<u8>, p: int) -> Result<(OptionUnit, int), Error> {
    match parse_i32(s, p) {
        Err(e) => Err(e),
        Ok((c, q)) => match unit_of(c) {
            Some(u) => Ok((u, q)),
            None => Err(Error::InvalidSaneFieldValue(Field::Unit, c)),
        },
    }
}

impl OptionUnit {
    pub fn try_from_stream(s: &Vec<u8>, p: usize) -> (r: Result<(OptionUnit, usize), Error>)
        ensures
            agrees(r, parse_unit(s@, p as int)),
    {
        let (c, q) = match read_i32(s, p) {
            Ok(x) => x,
            Err(e) => return Err(e),
        };
        match c {
            0 => Ok((OptionUnit::Unitless, q)),
            1 => Ok((OptionUnit::Pixel, q)),
            2 => Ok((OptionUnit::Bit, q)),
            3 => Ok((OptionUnit::Millimeter, q)),
            4 => Ok((OptionUnit::DPI, q)),
            5 => Ok((OptionUnit::Percent, q)),
            6 => Ok((OptionUnit::Microsecond, q)),
            _ => Err(Error::InvalidSaneFieldValue(Field::Unit, c)),
        }
    }
}

/// The value can be set by software.
pub const SOFT_SELECT: u32 = 0x01;

/// The value can be set by a user's action on the device.
pub const HARD_SELECT: u32 = 0x02;

/// The value can be read by software.
pub const SOFT_DETECT: u32 = 0x04;

/// The option is emulated by the backend.
pub const EMULATED: u32 = 0x08;

/// The backend can choose the value by itself.
pub const AUTOMATIC: u32 = 0x10;

/// The option is not active at present.
pub const INACTIVE: u32 = 0x20;

/// The option is meant for advanced users.
pub const ADVANCED: u32 = 0x40;

/// Every capability flag.
pub const ALL_CAPABILITIES: u32 = 0x7f;

/// The set of capabilities of an option; bits outside the known flags are
/// dropped.
#[derive(Debug, Clone, Copy, PartialEq, Eq, Structural)]
pub struct Capabilities {
    bits: u32,
}

impl View for Capabilities {
    type V = u32;

    closed spec fn view(&self) -> u32 {
        self.bits
    }
}

impl Capabilities {
    pub fn from_bits_truncate(b: u32) -> (r: Capabilities)
        ensures
            r@ == b & ALL_CAPABILITIES,
    {
        Capabilities { bits: b & ALL_CAPABILITIES }
    }

    pub fn bits(&self) -> (r: u32)
        ensures
            r == self@,
    {
        self.bits
    }

    /// Whether every flag of `mask` is set.
    pub fn contains(&self, mask: u32) -> (r: bool)
        ensures
            r == (self@ & mask == mask),
    {
        self.bits & mask == mask
    }

    pub fn try_from_stream(s: &Vec<u8>, p: usize) -> (r: Result<(Capabilities, usize), Error>)
        ensures
            agrees_deep(r, parse_capabilities(s@, p as int)),
    {
        match read_u32(s, p) {
            Ok((w, q)) => Ok((Capabilities::from_bits_truncate(w), q)),
            Err(e) => Err(e),
        }
    }
}

impl Default for Capabilities {
    fn default() -> (r: Capabilities)
        ensures
            r@ == 0,
    {
        Capabilities { bits: 0 }
    }
}

impl DeepView for Capabilities {
    type V = u32;

    open spec fn deep_view(&self) -> u32 {
        self@
    }
}

pub open spec fn parse_capabilities(s: Seq<u8>, p: int) -> Result<(u32, int), Error> {
    match parse_u32(s, p) {
        Err(e) => Err(e),
        Ok((w, q)) => Ok((w & ALL_CAPABILITIES, q)),
    }
}

/// The value that was set differs from the one asked for.
pub const INEXACT: u32 = 0x01;

/// Other options may have changed: their descriptors should be read again.
pub const RELOAD_OPTIONS: u32 = 0x02;

/// The scan parameters may have changed.
pub const RELOAD_PARAMS: u32 = 0x04;

/// Every set-info flag.
pub const ALL_SET_INFO: u32 = 0x07;

/// What a control request reports besides the value; bits outside the known
/// flags are dropped.
#[derive(Debug, Clone, Copy, PartialEq, Eq, Structural)]
pub struct ControlOptionSetInfo {
    bits: u32,
}

impl View for ControlOptionSetInfo {
    type V = u32;

    closed spec fn view(&self) -> u32 {
        self.bits
    }
}

impl ControlOptionSetInfo {
    pub fn from_bits_truncate(b: u32) -> (r: ControlOptionSetInfo)
        ensures
            r@ == b & ALL_SET_INFO,
    {
        ControlOptionSetInfo { bits: b & ALL_SET_INFO }
    }

    pub fn bits(&self) -> (r: u32)
        ensures
            r == self@,
    {
        self.bits
    }

    /// Whether every flag of `mask` is set.
    pub fn contains(&self, mask: u32) -> (r: bool)
        ensures
            r == (self@ & mask == mask),
    {
        self.bits & mask == mask
    }

    pub fn try_from_stream(s: &Vec<u8>, p: usize) -> (r: Result<(ControlOptionSetInfo, usize), Error>)
        ensures
            agrees_deep(r, parse_set_info(s@, p as int)),
    {
        match read_u32(s, p) {
            Ok((w, q)) => Ok((ControlOptionSetInfo::from_bits_truncate(w), q)),
            Err(e) => Err(e),
        }
    }
}

impl Default for ControlOptionSetInfo {
    fn default() -> (r: ControlOptionSetInfo)
        ensures
            r@ == 0,
    {
        ControlOptionSetInfo { bits: 0 }
    }
}

impl DeepView for ControlOptionSetInfo {
    type V = u32;

    open spec fn deep_view(&self) -> u32 {
        self@
    }
}

pub open spec fn parse_set_info(s: Seq<u8>, p: int) -> Result<(u32, int), Error> {
    match parse_u32(s, p) {
        Err(e) => Err(e),
        Ok((w, q)) => Ok((w & ALL_SET_INFO, q)),
    }
}

/// The values of a sequence of slots that are present, in order.
pub open spec fn present<A>(xs: Seq<Option<A>>) -> Seq<A>
    decreases xs.len(),
{
    if xs.len() == 0 {
        seq![]
    } else {
        let r = present(xs.drop_last());
        match xs.last() {
            Some(a) => r.push(a),
            None => r,
        }
    }
}

/// Keeps the values of the slots that are present, in order.
pub fn keep_present<T: DeepView>(xs: Vec<Option<T>>) -> (r: Vec<T>)
    ensures
        r.deep_view() == present(xs.deep_view()),
{
    let ghost whole = xs.deep_view();
    let mut rest = xs;
    let mut out: Vec<T> = Vec::new();
    let n = rest.len();
    let mut i: usize = 0;
    assert(whole.take(0) =~= Seq::<Option<T::V>>::empty());
    assert(out.deep_view() =~= Seq::<T::V>::empty());
    while i < n
        invariant
            i <= n,
            n == whole.len(),
            rest.len() == n - i,
            rest.deep_view() =~= whole.skip(i as int),
            out.deep_view() == present(whole.take(i as int)),
        decreases n - i,
    {
        let ghost before = rest.deep_view();
        let ghost kept = out.deep_view();
        let x = rest.remove(0);
        assert(x.deep_view() == before[0]);
        assert(rest.deep_view() =~= before.skip(1));
        assert(whole.take(i + 1).drop_last() =~= whole.take(i as int));
        assert(whole.take(i + 1).last() == whole[i as int]);
        match x {
            Some(v) => {
                out.push(v);
                assert(out.deep_view() =~= kept.push(v.deep_view()));
            },
            None => {},
        }
        i = i + 1;
    }
    assert(whole.take(n as int) =~= whole);
    out
}

/// Marks the constraint types.
pub trait OptionConstraint {

}

/// The constraint of an option that admits none: boolean, button and group.
#[derive(Debug, Clone, Copy, PartialEq, Eq, Structural)]
pub struct NoConstraint;

impl OptionConstraint for NoConstraint {

}

pub open spec fn parse_no_constraint(s: Seq<u8>, p: int) -> Result<(NoConstraint, int), Error> {
    match parse_i32(s, p) {
        Err(e) => Err(e),
        Ok((t, q)) => if t == 0 {
            Ok((NoConstraint, q))
        } else {
            Err(Error::InvalidSaneFieldValue(Field::NoConstraint, t))
        },
    }
}

impl NoConstraint {
    /// Reads the constraint tag of an option that admits none: it must be 0.
    pub fn try_from_stream(s: &Vec<u8>, p: usize) -> (r: Result<(NoConstraint, usize), Error>)
        ensures
            agrees(r, parse_no_constraint(s@, p as int)),
    {
        match read_i32(s, p) {
            Err(e) => Err(e),
            Ok((t, q)) => if t == 0 {
                Ok((NoConstraint, q))
            } else {
                Err(Error::InvalidSaneFieldValue(Field::NoConstraint, t))
            },
        }
    }
}

/// The values that a string option admits.
#[derive(Debug, Clone, PartialEq, Eq)]
pub struct StringListConstraint(pub Vec<String>);

impl OptionConstraint for StringListConstraint {

}

impl DeepView for StringListConstraint {
    type V = Seq<Seq<char>>;

    open spec fn deep_view(&self) -> Seq<Seq<char>> {
        self.0.deep_view()
    }
}

/// The constraint of a string option: tag 0 for none, 3 for a list of strings,
/// whose absent entries are dropped.
pub open spec fn parse_string_constraint(s: Seq<u8>, p: int) -> Result<
    (Option<Seq<Seq<char>>>, int),
    Error,
> {
    match parse_i32(s, p) {
        Err(e) => Err(e),
        Ok((t, q)) => if t == 0 {
            Ok((None, q))
        } else if t == 3 {
            match parse_array::<String>(s, q) {
                Err(e) => Err(e),
                Ok((xs, k)) => Ok((Some(present(xs)), k)),
            }
        } else {
            Err(Error::InvalidSaneFieldValue(Field::StringConstraint, t))
        },
    }
}

impl StringListConstraint {
    pub fn try_from_stream(s: &Vec<u8>, p: usize) -> (r: Result<
        (Option<StringListConstraint>, usize),
        Error,
    >)
        ensures
            agrees_deep(r, parse_string_constraint(s@, p as int)),
    {
        match read_i32(s, p) {
            Err(e) => Err(e),
            Ok((t, q)) => if t == 0 {
                Ok((None, q))
            } else if t == 3 {
                match read_array::<String>(s, q) {
                    Err(e) => Err(e),
                    Ok((xs, k)) => Ok((Some(StringListConstraint(keep_present(xs))), k)),
                }
            } else {
                Err(Error::InvalidSaneFieldValue(Field::StringConstraint, t))
            },
        }
    }
}

/// The bounds of a numeric option and the step between its values.
#[derive(Debug, Clone, Copy, PartialEq, Eq, Structural)]
pub struct Range {
    pub min: i32,
    pub max: i32,
    pub quant: i32,
}

pub open spec fn parse_range(s: Seq<u8>, p: int) -> Result<(Range, int), Error> {
    match parse_i32(s, p) {
        Err(e) => Err(e),
        Ok((min, at1)) => match parse_i32(s, at1) {
            Err(e) => Err(e),
            Ok((max, at2)) => match parse_i32(s, at2) {
                Err(e) => Err(e),
                Ok((quant, at3)) => Ok((Range { min, max, quant }, at3)),
            },
        },
    }
}

impl Range {
    pub fn try_from_stream(s: &Vec<u8>, p: usize) -> (r: Result<(Range, usize), Error>)
        ensures
            agrees(r, parse_range(s@, p as int)),
    {
        let (min, at1) = match read_i32(s, p) {
            Ok(x) => x,
            Err(e) => return Err(e),
        };
        let (max, at2) = match read_i32(s, at1) {
            Ok(x) => x,
            Err(e) => return Err(e),
        };
        let (quant, at3) = match read_i32(s, at2) {
            Ok(x) => x,
            Err(e) => return Err(e),
        };
        Ok((Range { min, max, quant }, at3))
    }
}

/// The values that an integer or fixed-point option admits.
#[derive(Debug, Clone, PartialEq, Eq)]
pub enum NumericalConstraint {
    IntegerList(Vec<i32>),
    Range(Option<Range>),
}

impl OptionConstraint for NumericalConstraint {

}

/// The model of a numeric constraint.
pub enum NumericalConstraintView {
    IntegerList(Seq<i32>),
    Range(Option<Range>),
}

impl DeepView for NumericalConstraint {
    type V = NumericalConstraintView;

    open spec fn deep_view(&self) -> NumericalConstraintView {
        match self {
            NumericalConstraint::IntegerList(v) => NumericalConstraintView::IntegerList(v@),
            NumericalConstraint::Range(r) => NumericalConstraintView::Range(*r),
        }
    }
}

/// The constraint of an integer or fixed-point option: tag 0 for none; 1 for a
/// range behind a pointer-convention tag; 2 for an array of words under the
/// pointer convention, whose last slot must be empty and whose other absent
/// entries are dropped.
pub open spec fn parse_numeric_constraint(s: Seq<u8>, p: int) -> Result<
    (Option<NumericalConstraintView>, int),
    Error,
> {
    match parse_i32(s, p) {
        Err(e) => Err(e),
        Ok((t, q)) => if t == 0 {
            Ok((None, q))
        } else if t == 1 {
            match parse_pointer(s, q) {
                Err(e) => Err(e),
                Ok((false, k)) => Ok((Some(NumericalConstraintView::Range(None)), k)),
                Ok((true, k)) => match parse_range(s, k) {
                    Err(e) => Err(e),
                    Ok((r, j)) => Ok((Some(NumericalConstraintView::Range(Some(r))), j)),
                },
            }
        } else if t == 2 {
            match parse_array::<i32>(s, q) {
                Err(e) => Err(e),
                Ok((xs, k)) => Ok((Some(NumericalConstraintView::IntegerList(present(xs))), k)),
            }
        } else {
            Err(Error::InvalidSaneFieldValue(Field::NumericConstraint, t))
        },
    }
}

impl NumericalConstraint {
    pub fn try_from_stream(s: &Vec<u8>, p: usize) -> (r: Result<
        (Option<NumericalConstraint>, usize),
        Error,
    >)
        ensures
            agrees_deep(r, parse_numeric_constraint(s@, p as int)),
    {
        let (t, q) = match read_i32(s, p) {
            Ok(x) => x,
            Err(e) => return Err(e),
        };
        if t == 0 {
            Ok((None, q))
        } else if t == 1 {
            match read_pointer(s, q) {
                Err(e) => Err(e),
                Ok((false, k)) => Ok((Some(NumericalConstraint::Range(None)), k)),
                Ok((true, k)) => match Range::try_from_stream(s, k) {
                    Err(e) => Err(e),
                    Ok((r, j)) => Ok((Some(NumericalConstraint::Range(Some(r))), j)),
                },
            }
        } else if t == 2 {
            match read_array::<i32>(s, q) {
                Err(e) => Err(e),
                Ok((xs, k)) => {
                    let v = keep_present(xs);
                    proof {
                        assert(v@ =~= v.deep_view());
                    }
                    Ok((Some(NumericalConstraint::IntegerList(v)), k))
                },
            }
        } else {
            Err(Error::InvalidSaneFieldValue(Field::NumericConstraint, t))
        }
    }
}

/// The description of one option of an open device.
#[derive(Debug, Clone, PartialEq, Eq)]
pub enum OptionDescriptor {
    /// Its value takes four bytes.
    Boolean {
        name: String,
        title: String,
        description: String,
        unit: OptionUnit,
        capabilities: Capabilities,
        _no_constrainst: NoConstraint,
    },
    Integer {
        name: String,
        title: String,
        description: String,
        unit: OptionUnit,
        size: i32,
        capabilities: Capabilities,
        constraint: Option<NumericalConstraint>,
    },
    Fixed {
        name: String,
        title: String,
        description: String,
        unit: OptionUnit,
        size: i32,
        capabilities: Capabilities,
        constraint: Option<NumericalConstraint>,
    },
    String {
        name: String,
        title: String,
        description: String,
        unit: OptionUnit,
        max_length: i32,
        capabilities: Capabilities,
        constraint: Option<StringListConstraint>,
    },
    /// Its size on the wire is ignored.
    Button {
        name: String,
        title: String,
        description: String,
        unit: OptionUnit,
        capabilities: Capabilities,
        _no_constrainst: NoConstraint,
    },
    /// Only the title of a group is meaningful.
    Group { title: String, _no_constrainst: NoConstraint },
}

/// The model of a descriptor: its strings as characters, its capabilities as
/// bits.
pub enum DescriptorView {
    Boolean {
        name: Seq<char>,
        title: Seq<char>,
        description: Seq<char>,
        unit: OptionUnit,
        capabilities: u32,
    },
    Integer {
        name: Seq<char>,
        title: Seq<char>,
        description: Seq<char>,
        unit: OptionUnit,
        size: i32,
        capabilities: u32,
        constraint: Option<NumericalConstraintView>,
    },
    Fixed {
        name: Seq<char>,
        title: Seq<char>,
        description: Seq<char>,
        unit: OptionUnit,
        size: i32,
        capabilities: u32,
        constraint: Option<NumericalConstraintView>,
    },
    String {
        name: Seq<char>,
        title: Seq<char>,
        description: Seq<char>,
        unit: OptionUnit,
        max_length: i32,
        capabilities: u32,
        constraint: Option<Seq<Seq<char>>>,
    },
    Button {
        name: Seq<char>,
        title: Seq<char>,
        description: Seq<char>,
        unit: OptionUnit,
        capabilities: u32,
    },
    Group { title: Seq<char> },
}

impl DeepView for OptionDescriptor {
    type V = DescriptorView;

    open spec fn deep_view(&self) -> DescriptorView {
        match self {
            OptionDescriptor::Boolean { name, title, description, unit, capabilities, .. } =>
                DescriptorView::Boolean {
                name: name@,
                title: title@,
                description: description@,
                unit: *unit,
                capabilities: capabilities@,
            },
            OptionDescriptor::Integer {
                name,
                title,
                description,
                unit,
                size,
                capabilities,
                constraint,
            } => DescriptorView::Integer {
                name: name@,
                title: title@,
                description: description@,
                unit: *unit,
                size: *size,
                capabilities: capabilities@,
                constraint: constraint.deep_view(),
            },
            OptionDescriptor::Fixed {
                name,
                title,
                description,
                unit,
                size,
                capabilities,
                constraint,
            } => DescriptorView::Fixed {
                name: name@,
                title: title@,
                description: description@,
                unit: *unit,
                size: *size,
                capabilities: capabilities@,
                constraint: constraint.deep_view(),
            },
            OptionDescriptor::String {
                name,
                title,
                description,
                unit,
                max_length,
                capabilities,
                constraint,
            } => DescriptorView::String {
                name: name@,
                title: title@,
                description: description@,
                unit: *unit,
                max_length: *max_length,
                capabilities: capabilities@,
                constraint: constraint.deep_view(),
            },
            OptionDescriptor::Button { name, title, description, unit, capabilities, .. } =>
                DescriptorView::Button {
                name: name@,
                title: title@,
                description: description@,
                unit: *unit,
                capabilities: capabilities@,
            },
            OptionDescriptor::Group { title, .. } => DescriptorView::Group { title: title@ },
        }
    }
}

/// The size on the wire of the value of an option: 4 for a boolean, the
/// declared size or maximum length for integer, fixed-point and string
/// options, 0 for buttons and groups.
pub open spec fn view_size(d: DescriptorView) -> i32 {
    match d {
        DescriptorView::Boolean { .. } => 4,
        DescriptorView::Integer { size, .. } => size,
        DescriptorView::Fixed { size, .. } => size,
        DescriptorView::String { max_length, .. } => max_length,
        _ => 0,
    }
}

pub open spec fn view_type(d: DescriptorView) -> OptionValueType {
    match d {
        DescriptorView::Boolean { .. } => OptionValueType::Boolean,
        DescriptorView::Integer { .. } => OptionValueType::Integer,
        DescriptorView::Fixed { .. } => OptionValueType::Fixed,
        DescriptorView::String { .. } => OptionValueType::String,
        DescriptorView::Button { .. } => OptionValueType::Button,
        DescriptorView::Group { .. } => OptionValueType::Group,
    }
}

/// What follows the common fields of a descriptor, chosen by its type: the
/// fields that the type needs must be present, then comes its constraint.
pub open spec fn parse_descriptor_tail(
    s: Seq<u8>,
    p: int,
    kind: OptionValueType,
    name: Option<Seq<char>>,
    title: Option<Seq<char>>,
    description: Option<Seq<char>>,
    unit: OptionUnit,
    size: i32,
    capabilities: u32,
) -> Result<(DescriptorView, int), Error> {
    if kind == OptionValueType::Group {
        if title is None {
            Err(Error::NoneError)
        } else {
            match parse_no_constraint(s, p) {
                Err(e) => Err(e),
                Ok((_, q)) => Ok((DescriptorView::Group { title: title->Some_0 }, q)),
            }
        }
    } else if name is None || title is None || description is None {
        Err(Error::NoneError)
    } else {
        let (name, title, description) = (name->Some_0, title->Some_0, description->Some_0);
        match kind {
            OptionValueType::Integer => match parse_numeric_constraint(s, p) {
                Err(e) => Err(e),
                Ok((constraint, q)) => Ok(
                    (
                        DescriptorView::Integer {
                            name,
                            title,
                            description,
                            unit,
                            size,
                            capabilities,
                            constraint,
                        },
                        q,
                    ),
                ),
            },
            OptionValueType::Fixed => match parse_numeric_constraint(s, p) {
                Err(e) => Err(e),
                Ok((constraint, q)) => Ok(
                    (
                        DescriptorView::Fixed {
                            name,
                            title,
                            description,
                            unit,
                            size,
                            capabilities,
                            constraint,
                        },
                        q,
                    ),
                ),
            },
            OptionValueType::String => match parse_string_constraint(s, p) {
                Err(e) => Err(e),
                Ok((constraint, q)) => Ok(
                    (
                        DescriptorView::String {
                            name,
                            title,
                            description,
                            unit,
                            max_length: size,
                            capabilities,
                            constraint,
                        },
                        q,
                    ),
                ),
            },
            _ => match parse_no_constraint(s, p) {
                Err(e) => Err(e),
                Ok((_, q)) => Ok(
                    (
                        if kind == OptionValueType::Boolean {
                            DescriptorView::Boolean { name, title, description, unit, capabilities }
                        } else {
                            DescriptorView::Button { name, title, description, unit, capabilities }
                        },
                        q,
                    ),
                ),
            },
        }
    }
}

/// A descriptor: name, title and description under the length convention,
/// then the type, unit, size and capabilities words, then the rest as the type
/// asks.
pub open spec fn parse_descriptor(s: Seq<u8>, p: int) -> Result<(DescriptorView, int), Error> {
    match parse_string(s, p) {
        Err(e) => Err(e),
        Ok((name, at1)) => match parse_string(s, at1) {
            Err(e) => Err(e),
            Ok((title, at2)) => match parse_string(s, at2) {
                Err(e) => Err(e),
                Ok((description, at3)) => match parse_value_type(s, at3) {
                    Err(e) => Err(e),
                    Ok((kind, at4)) => match parse_unit(s, at4) {
                        Err(e) => Err(e),
                        Ok((unit, at5)) => match parse_i32(s, at5) {
                            Err(e) => Err(e),
                            Ok((size, at6)) => match parse_capabilities(s, at6) {
                                Err(e) => Err(e),
                                Ok((capabilities, at7)) => parse_descriptor_tail(
                                    s,
                                    at7,
                                    kind,
                                    name,
                                    title,
                                    description,
                                    unit,
                                    size,
                                    capabilities,
                                ),
                            },
                        },
                    },
                },
            },
        },
    }
}

impl OptionDescriptor {
    /// The size on the wire of this option's value.
    pub fn size(&self) -> (r: i32)
        ensures
            r == view_size(self.deep_view()),
    {
        match self {
            OptionDescriptor::Boolean { .. } => 4,
            OptionDescriptor::Integer { size, .. } => *size,
            OptionDescriptor::Fixed { size, .. } => *size,
            OptionDescriptor::String { max_length, .. } => *max_length,
            _ => 0,
        }
    }

    /// The type of this option's value.
    pub fn value_type(&self) -> (r: OptionValueType)
        ensures
            r == view_type(self.deep_view()),
    {
        match self {
            OptionDescriptor::Boolean { .. } => OptionValueType::Boolean,
            OptionDescriptor::Integer { .. } => OptionValueType::Integer,
            OptionDescriptor::Fixed { .. } => OptionValueType::Fixed,
            OptionDescriptor::String { .. } => OptionValueType::String,
            OptionDescriptor::Button { .. } => OptionValueType::Button,
            OptionDescriptor::Group { .. } => OptionValueType::Group,
        }
    }

    pub fn try_from_stream(s: &Vec<u8>, p: usize) -> (r: Result<(OptionDescriptor, usize), Error>)
        ensures
            agrees_deep(r, parse_descriptor(s@, p as int)),
    {
        let (name, at1) = match read_string(s, p) {
            Ok(x) => x,
            Err(e) => return Err(e),
        };
        let (title, at2) = match read_string(s, at1) {
            Ok(x) => x,
            Err(e) => return Err(e),
        };
        let (description, at3) = match read_string(s, at2) {
            Ok(x) => x,
            Err(e) => return Err(e),
        };
        let (kind, at4) = match OptionValueType::try_from_stream(s, at3) {
            Ok(x) => x,
            Err(e) => return Err(e),
        };
        let (unit, at5) = match OptionUnit::try_from_stream(s, at4) {
            Ok(x) => x,
            Err(e) => return Err(e),
        };
        let (size, at6) = match read_i32(s, at5) {
            Ok(x) => x,
            Err(e) => return Err(e),
        };
        let (capabilities, at7) = match Capabilities::try_from_stream(s, at6) {
            Ok(x) => x,
            Err(e) => return Err(e),
        };
        if let OptionValueType::Group = kind {
            let title = match title {
                Some(t) => t,
                None => return Err(Error::NoneError),
            };
            return match NoConstraint::try_from_stream(s, at7) {
                Err(e) => Err(e),
                Ok((c, q)) => Ok((OptionDescriptor::Group { title, _no_constrainst: c }, q)),
            };
        }
        let (name, title, description) = match (name, title, description) {
            (Some(n), Some(t), Some(d)) => (n, t, d),
            _ => return Err(Error::NoneError),
        };
        match kind {
            OptionValueType::Integer => match NumericalConstraint::try_from_stream(s, at7) {
                Err(e) => Err(e),
                Ok((constraint, q)) => Ok(
                    (
                        OptionDescriptor::Integer {
                            name,
                            title,
                            description,
                            unit,
                            size,
                            capabilities,
                            constraint,
                        },
                        q,
                    ),
                ),
            },
            OptionValueType::Fixed => match NumericalConstraint::try_from_stream(s, at7) {
                Err(e) => Err(e),
                Ok((constraint, q)) => Ok(
                    (
                        OptionDescriptor::Fixed {
                            name,
                            title,
                            description,
                            unit,
                            size,
                            capabilities,
                            constraint,
                        },
                        q,
                    ),
                ),
            },
            OptionValueType::String => match StringListConstraint::try_from_stream(s, at7) {
                Err(e) => Err(e),
                Ok((constraint, q)) => Ok(
                    (
                        OptionDescriptor::String {
                            name,
                            title,
                            description,
                            unit,
                            max_length: size,
                            capabilities,
                            constraint,
                        },
                        q,
                    ),
                ),
            },
            OptionValueType::Boolean => match NoConstraint::try_from_stream(s, at7) {
                Err(e) => Err(e),
                Ok((c, q)) => Ok(
                    (
                        OptionDescriptor::Boolean {
                            name,
                            title,
                            description,
                            unit,
                            capabilities,
                            _no_constrainst: c,
                        },
                        q,
                    ),
                ),
            },
            _ => match NoConstraint::try_from_stream(s, at7) {
                Err(e) => Err(e),
                Ok((c, q)) => Ok(
                    (
                        OptionDescriptor::Button {
                            name,
                            title,
                            description,
                            unit,
                            capabilities,
                            _no_constrainst: c,
                        },
                        q,
                    ),
                ),
            },
        }
    }
}

/// Descriptors in arrays follow the pointer convention.
impl ArraySlot for OptionDescriptor {
    open spec fn parse_slot(s: Seq<u8>, p: int) -> Result<(Option<DescriptorView>, int), Error> {
        match parse_pointer(s, p) {
            Err(e) => Err(e),
            Ok((false, q)) => Ok((None, q)),
            Ok((true, q)) => match parse_descriptor(s, q) {
                Err(e) => Err(e),
                Ok((d, k)) => Ok((Some(d), k)),
            },
        }
    }

    fn read_slot(s: &Vec<u8>, p: usize) -> (r: Result<(Option<OptionDescriptor>, usize), Error>) {
        match read_pointer(s, p) {
            Err(e) => Err(e),
            Ok((false, q)) => Ok((None, q)),
            Ok((true, q)) => match OptionDescriptor::try_from_stream(s, q) {
                Err(e) => Err(e),
                Ok((d, k)) => Ok((Some(d), k)),
            },
        }
    }
}

/// The value of an option, shaped as its descriptor's type.
#[derive(Debug, Clone, PartialEq, Eq)]
pub enum OptionValue {
    Boolean(bool),
    Integer(i32),
    Fixed(i32),
    String(Option<String>),
    Button,
    Group,
}

pub enum OptionValueView {
    Boolean(bool),
    Integer(i32),
    Fixed(i32),
    String(Option<Seq<char>>),
    Button,
    Group,
}

impl DeepView for OptionValue {
    type V = OptionValueView;

    open spec fn deep_view(&self) -> OptionValueView {
        match self {
            OptionValue::Boolean(b) => OptionValueView::Boolean(*b),
            OptionValue::Integer(v) => OptionValueView::Integer(*v),
            OptionValue::Fixed(v) => OptionValueView::Fixed(*v),
            OptionValue::String(t) => OptionValueView::String(t.deep_view()),
            OptionValue::Button => OptionValueView::Button,
            OptionValue::Group => OptionValueView::Group,
        }
    }
}

/// The reply to a control request: the option's value, absent when the reply
/// holds a null value, and what else the request changed.
#[derive(Debug, Clone, PartialEq, Eq)]
pub struct ControlOptionResult {
    pub value: Option<OptionValue>,
    pub info: ControlOptionSetInfo,
}

pub struct ControlOptionResultView {
    pub value: Option<OptionValueView>,
    pub info: u32,
}

impl DeepView for ControlOptionResult {
    type V = ControlOptionResultView;

    open spec fn deep_view(&self) -> ControlOptionResultView {
        ControlOptionResultView { value: self.value.deep_view(), info: self.info@ }
    }
}

/// The value that a control reply carries for an option of descriptor `d`,
/// once its tag has said that one follows.
pub open spec fn parse_payload(d: DescriptorView, s: Seq<u8>, p: int) -> Result<
    (OptionValueView, int),
    Error,
> {
    match d {
        DescriptorView::Boolean { .. } => match parse_bool(s, p) {
            Err(e) => Err(e),
            Ok((b, q)) => Ok((OptionValueView::Boolean(b), q)),
        },
        DescriptorView::Integer { .. } => match parse_i32(s, p) {
            Err(e) => Err(e),
            Ok((v, q)) => Ok((OptionValueView::Integer(v), q)),
        },
        DescriptorView::Fixed { .. } => match parse_i32(s, p) {
            Err(e) => Err(e),
            Ok((v, q)) => Ok((OptionValueView::Fixed(v), q)),
        },
        DescriptorView::String { .. } => match parse_string(s, p) {
            Err(e) => Err(e),
            Ok((t, q)) => Ok((OptionValueView::String(t), q)),
        },
        DescriptorView::Button { .. } => Ok((OptionValueView::Button, p)),
        DescriptorView::Group { .. } => Ok((OptionValueView::Group, p)),
    }
}

/// A value in a control reply for an option of descriptor `d`: the set-info
/// word, a type word that is not checked, a size word that must equal the
/// descriptor's size, then the value under the value-slot convention.
pub open spec fn parse_value(d: DescriptorView, s: Seq<u8>, p: int) -> Result<
    (ControlOptionResultView, int),
    Error,
> {
    match parse_set_info(s, p) {
        Err(e) => Err(e),
        Ok((info, at1)) => match parse_i32(s, at1) {
            Err(e) => Err(e),
            Ok((_, at2)) => match parse_i32(s, at2) {
                Err(e) => Err(e),
                Ok((size, at3)) => if size != view_size(d) {
                    Err(Error::BadNetworkDataError(DataFault::SizeMismatch))
                } else {
                    match parse_u32(s, at3) {
                        Err(e) => Err(e),
                        Ok((tag, at4)) => if tag == 0 {
                            Ok((ControlOptionResultView { value: None, info }, at4))
                        } else {
                            match parse_payload(d, s, at4) {
                                Err(e) => Err(e),
                                Ok((v, q)) => Ok(
                                    (ControlOptionResultView { value: Some(v), info }, q),
                                ),
                            }
                        },
                    }
                },
            },
        },
    }
}

impl OptionDescriptor {
    /// Reads the value part of a control reply for this option.
    pub fn read_value(&self, s: &Vec<u8>, p: usize) -> (r: Result<(ControlOptionResult, usize), Error>)
        ensures
            agrees_deep(r, parse_value(self.deep_view(), s@, p as int)),
    {
        let (info, at1) = match ControlOptionSetInfo::try_from_stream(s, p) {
            Ok(x) => x,
            Err(e) => return Err(e),
        };
        let (_value_type, at2) = match read_i32(s, at1) {
            Ok(x) => x,
            Err(e) => return Err(e),
        };
        let (value_size, at3) = match read_i32(s, at2) {
            Ok(x) => x,
            Err(e) => return Err(e),
        };
        if value_size != self.size() {
            return Err(Error::BadNetworkDataError(DataFault::SizeMismatch));
        }
        let (tag, at4) = match read_u32(s, at3) {
            Ok(x) => x,
            Err(e) => return Err(e),
        };
        if tag == 0 {
            return Ok((ControlOptionResult { value: None, info }, at4));
        }
        let read = match self {
            OptionDescriptor::Boolean { .. } => match read_bool(s, at4) {
                Err(e) => Err(e),
                Ok((b, q)) => Ok((OptionValue::Boolean(b), q)),
            },
            OptionDescriptor::Integer { .. } => match read_i32(s, at4) {
                Err(e) => Err(e),
                Ok((v, q)) => Ok((OptionValue::Integer(v), q)),
            },
            OptionDescriptor::Fixed { .. } => match read_i32(s, at4) {
                Err(e) => Err(e),
                Ok((v, q)) => Ok((OptionValue::Fixed(v), q)),
            },
            OptionDescriptor::String { .. } => match read_string(s, at4) {
                Err(e) => Err(e),
                Ok((t, q)) => Ok((OptionValue::String(t), q)),
            },
            OptionDescriptor::Button { .. } => Ok((OptionValue::Button, at4)),
            OptionDescriptor::Group { .. } => Ok((OptionValue::Group, at4)),
        };
        match read {
            Err(e) => Err(e),
            Ok((v, q)) => Ok((ControlOptionResult { value: Some(v), info }, q)),
        }
    }
}

/// A control reply is accepted only when the size it gives for the value is
/// the size that the descriptor states: every reply that reads as a value has
/// that size word, and a reply whose size word differs is refused as a size
/// mismatch.
pub proof fn lemma_value_size_matches_descriptor(d: DescriptorView, s: Seq<u8>, p: int)
    requires
        0 <= p,
        p + 12 <= s.len(),
    ensures
        parse_value(d, s, p) is Ok ==> (word_at(s, p + 8) as i32) == view_size(d),
        (word_at(s, p + 8) as i32) != view_size(d) ==> parse_value(d, s, p) == Err::<
            (ControlOptionResultView, int),
            Error,
        >(Error::BadNetworkDataError(DataFault::SizeMismatch)),
{
}

/// A boolean, button or group descriptor whose constraint tag is not 0 is
/// refused, whatever follows.
pub proof fn lemma_no_constraint_exclusive(
    s: Seq<u8>,
    p: int,
    kind: OptionValueType,
    name: Option<Seq<char>>,
    title: Option<Seq<char>>,
    description: Option<Seq<char>>,
    unit: OptionUnit,
    size: i32,
    capabilities: u32,
)
    requires
        kind == OptionValueType::Boolean || kind == OptionValueType::Button || kind
            == OptionValueType::Group,
        0 <= p,
        p + 4 <= s.len(),
        word_at(s, p) as i32 != 0,
    ensures
        parse_descriptor_tail(s, p, kind, name, title, description, unit, size, capabilities) is Err,
{
}

/// Every boolean, button or group descriptor that reads ends with a
/// constraint tag of 0, its last word.
pub proof fn lemma_descriptor_without_constraint(s: Seq<u8>, p: int)
    requires
        parse_descriptor(s, p) is Ok,
        ({
            let t = view_type(parse_descriptor(s, p)->Ok_0.0);
            t == OptionValueType::Boolean || t == OptionValueType::Button || t
                == OptionValueType::Group
        }),
    ensures
        ({
            let q = parse_descriptor(s, p)->Ok_0.1;
            &&& 4 <= q <= s.len()
            &&& word_at(s, q - 4) as i32 == 0
        }),
{
}

/// The bytes of a descriptor whose three strings are present, up to and
/// including its constraint tag.
pub open spec fn descriptor_head_wire(
    name: Seq<char>,
    title: Seq<char>,
    description: Seq<char>,
    kind: i32,
    unit: i32,
    size: i32,
    capabilities: u32,
    constraint: i32,
) -> Seq<u8> {
    string_wire(name) + string_wire(title) + string_wire(description) + i32_bytes(kind)
        + i32_bytes(unit) + i32_bytes(size) + word_bytes(capabilities) + i32_bytes(constraint)
}

/// A descriptor whose fields read as present strings, a boolean, button or
/// group type, a known unit, and a constraint tag other than 0, is refused for
/// that tag.
proof fn lemma_valueless_fields_refused(
    s: Seq<u8>,
    a1: int,
    a2: int,
    o: int,
    name: Seq<char>,
    title: Seq<char>,
    description: Seq<char>,
    kind: i32,
    unit: i32,
    size: i32,
    capabilities: u32,
    constraint: i32,
)
    requires
        kind == 0 || kind == 4 || kind == 5,
        0 <= unit <= 6,
        constraint != 0,
        parse_string(s, 0) == Ok::<(Option<Seq<char>>, int), Error>((Some(name), a1)),
        parse_string(s, a1) == Ok::<(Option<Seq<char>>, int), Error>((Some(title), a2)),
        parse_string(s, a2) == Ok::<(Option<Seq<char>>, int), Error>((Some(description), o)),
        parse_i32(s, o) == Ok::<(i32, int), Error>((kind, o + 4)),
        parse_i32(s, o + 4) == Ok::<(i32, int), Error>((unit, o + 8)),
        parse_i32(s, o + 8) == Ok::<(i32, int), Error>((size, o + 12)),
        parse_u32(s, o + 12) == Ok::<(u32, int), Error>((capabilities, o + 16)),
        parse_i32(s, o + 16) == Ok::<(i32, int), Error>((constraint, o + 20)),
    ensures
        parse_descriptor(s, 0) == Err::<(DescriptorView, int), Error>(
            Error::InvalidSaneFieldValue(Field::NoConstraint, constraint),
        ),
{
    assert(parse_value_type(s, o) == Ok::<(OptionValueType, int), Error>(
        (value_type_of(kind)->Some_0, o + 4),
    ));
    assert(parse_unit(s, o + 4) == Ok::<(OptionUnit, int), Error>((unit_of(unit)->Some_0, o + 8)));
    assert(parse_capabilities(s, o + 12) == Ok::<(u32, int), Error>(
        (capabilities & ALL_CAPABILITIES, o + 16),
    ));
}

/// Where each string of the bytes of a descriptor head is read, and what it
/// reads as.
proof fn lemma_head_strings(
    name: Seq<char>,
    title: Seq<char>,
    description: Seq<char>,
    kind: i32,
    unit: i32,
    size: i32,
    capabilities: u32,
    constraint: i32,
    rest: Seq<u8>,
)
    requires
        forall|i: int| 0 <= i < name.len() ==> name[i] != '\0',
        forall|i: int| 0 <= i < title.len() ==> title[i] != '\0',
        forall|i: int| 0 <= i < description.len() ==> description[i] != '\0',
        !too_long(name),
        !too_long(title),
        !too_long(description),
    ensures
        ({
            let s = descriptor_head_wire(
                name,
                title,
                description,
                kind,
                unit,
                size,
                capabilities,
                constraint,
            ) + rest;
            let a1 = string_wire(name).len() as int;
            let a2 = a1 + string_wire(title).len();
            let o = a2 + string_wire(description).len();
            &&& parse_string(s, 0) == Ok::<(Option<Seq<char>>, int), Error>((Some(name), a1))
            &&& parse_string(s, a1) == Ok::<(Option<Seq<char>>, int), Error>((Some(title), a2))
            &&& parse_string(s, a2) == Ok::<(Option<Seq<char>>, int), Error>(
                (Some(description), o),
            )
        }),
{
    let w1 = string_wire(name);
    let w2 = string_wire(title);
    let w3 = string_wire(description);
    let head = w1 + w2 + w3;
    let o = head.len() as int;
    let s = descriptor_head_wire(name, title, description, kind, unit, size, capabilities, constraint)
        + rest;
    let t4 = i32_bytes(constraint) + rest;
    let t3 = word_bytes(capabilities) + t4;
    let t2 = i32_bytes(size) + t3;
    let t1 = i32_bytes(unit) + t2;
    let t0 = i32_bytes(kind) + t1;
    assert(s =~= head + t0);
    assert(parse_string(s, 0) == Ok::<(Option<Seq<char>>, int), Error>(
        (Some(name), w1.len() as int),
    )) by {
        assert(s =~= Seq::<u8>::empty() + w1 + (w2 + w3 + t0));
        lemma_string_at(Seq::<u8>::empty(), name, w2 + w3 + t0);
    }
    assert(parse_string(s, w1.len() as int) == Ok::<(Option<Seq<char>>, int), Error>(
        (Some(title), (w1 + w2).len() as int),
    )) by {
        assert(s =~= w1 + w2 + (w3 + t0));
        lemma_string_at(w1, title, w3 + t0);
    }
    assert(parse_string(s, (w1 + w2).len() as int) == Ok::<(Option<Seq<char>>, int), Error>(
        (Some(description), o),
    )) by {
        assert(s =~= (w1 + w2) + w3 + t0);
        lemma_string_at(w1 + w2, description, t0);
    }
}

/// Where each word after the strings of a descriptor head is read, and what it
/// reads as.
proof fn lemma_head_words(
    head: Seq<u8>,
    kind: i32,
    unit: i32,
    size: i32,
    capabilities: u32,
    constraint: i32,
    rest: Seq<u8>,
)
    ensures
        ({
            let s = head + i32_bytes(kind) + i32_bytes(unit) + i32_bytes(size) + word_bytes(
                capabilities,
            ) + i32_bytes(constraint) + rest;
            let o = head.len() as int;
            &&& parse_i32(s, o) == Ok::<(i32, int), Error>((kind, o + 4))
            &&& parse_i32(s, o + 4) == Ok::<(i32, int), Error>((unit, o + 8))
            &&& parse_i32(s, o + 8) == Ok::<(i32, int), Error>((size, o + 12))
            &&& parse_u32(s, o + 12) == Ok::<(u32, int), Error>((capabilities, o + 16))
            &&& parse_i32(s, o + 16) == Ok::<(i32, int), Error>((constraint, o + 20))
        }),
{
    let h1 = head + i32_bytes(kind);
    let h2 = h1 + i32_bytes(unit);
    let h3 = h2 + i32_bytes(size);
    let h4 = h3 + word_bytes(capabilities);
    let h5 = h4 + i32_bytes(constraint);
    let t4 = i32_bytes(constraint) + rest;
    let t3 = word_bytes(capabilities) + t4;
    let t2 = i32_bytes(size) + t3;
    let t1 = i32_bytes(unit) + t2;
    let s = h5 + rest;
    let o = head.len() as int;
    assert(parse_i32(s, o) == Ok::<(i32, int), Error>((kind, o + 4))) by {
        assert(s =~= head + i32_bytes(kind) + t1);
        lemma_i32_in_context(head, kind, t1);
    }
    assert(parse_i32(s, o + 4) == Ok::<(i32, int), Error>((unit, o + 8))) by {
        assert(s =~= h1 + i32_bytes(unit) + t2);
        lemma_i32_in_context(h1, unit, t2);
    }
    assert(parse_i32(s, o + 8) == Ok::<(i32, int), Error>((size, o + 12))) by {
        assert(s =~= h2 + i32_bytes(size) + t3);
        lemma_i32_in_context(h2, size, t3);
    }
    assert(parse_u32(s, o + 12) == Ok::<(u32, int), Error>((capabilities, o + 16))) by {
        assert(s =~= h3 + word_bytes(capabilities) + t4);
        lemma_u32_in_context(h3, capabilities, t4);
    }
    assert(parse_i32(s, o + 16) == Ok::<(i32, int), Error>((constraint, o + 20))) by {
        assert(s =~= h4 + i32_bytes(constraint) + rest);
        lemma_i32_in_context(h4, constraint, rest);
    }
}

/// A boolean, button or group descriptor sent with a constraint tag other than
/// 0 is refused for that tag, whatever its strings, size and capabilities are
/// and whatever follows it.
pub proof fn lemma_constraint_on_valueless_option_refused(
    name: Seq<char>,
    title: Seq<char>,
    description: Seq<char>,
    kind: i32,
    unit: i32,
    size: i32,
    capabilities: u32,
    constraint: i32,
    rest: Seq<u8>,
)
    requires
        forall|i: int| 0 <= i < name.len() ==> name[i] != '\0',
        forall|i: int| 0 <= i < title.len() ==> title[i] != '\0',
        forall|i: int| 0 <= i < description.len() ==> description[i] != '\0',
        !too_long(name),
        !too_long(title),
        !too_long(description),
        kind == 0 || kind == 4 || kind == 5,
        0 <= unit <= 6,
        constraint != 0,
    ensures
        parse_descriptor(
            descriptor_head_wire(
                name,
                title,
                description,
                kind,
                unit,
                size,
                capabilities,
                constraint,
            ) + rest,
            0,
        ) == Err::<(DescriptorView, int), Error>(
            Error::InvalidSaneFieldValue(Field::NoConstraint, constraint),
        ),
{
    lemma_head_strings(name, title, description, kind, unit, size, capabilities, constraint, rest);
    let head = string_wire(name) + string_wire(title) + string_wire(description);
    lemma_head_words(head, kind, unit, size, capabilities, constraint, rest);
    assert(descriptor_head_wire(name, title, description, kind, unit, size, capabilities, constraint)
        + rest =~= head + i32_bytes(kind) + i32_bytes(unit) + i32_bytes(size) + word_bytes(
        capabilities,
    ) + i32_bytes(constraint) + rest);
    let a1 = string_wire(name).len() as int;
    let a2 = a1 + string_wire(title).len();
    lemma_valueless_fields_refused(
        descriptor_head_wire(name, title, description, kind, unit, size, capabilities, constraint)
            + rest,
        a1,
        a2,
        a2 + string_wire(description).len(),
        name,
        title,
        description,
        kind,
        unit,
        size,
        capabilities,
        constraint,
    );
}

} // verus!
