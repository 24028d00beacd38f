use vstd::prelude::*;

verus! {

/// The JSON value type of `serde_json`, carried through unread in object-valued
/// properties and codec parameters.
#[verifier::external_type_specification]
#[verifier::external_body]
pub struct ExJsonValue(serde_json::Value);

/// `Clone::clone` of `serde_json::Value`: the derived deep copy of a plain
/// data value, equal to the value copied.
pub assume_specification[ <serde_json::Value as Clone>::clone ](v: &serde_json::Value) -> (r:
    serde_json::Value)
    ensures
        r == *v,
;

/// `serde_json::Value::Object` of an empty map, the codec parameters that the
/// encoders report (what `json!({})` builds).
#[verifier::external_body]
pub(crate) fn empty_json_object() -> (v: serde_json::Value) {
    serde_json::Value::Object(serde_json::Map::new())
}

/// Bit pattern of the `f64` value 0.0.
pub const F64_ZERO_BITS: u64 = 0x0000_0000_0000_0000u64;

/// Bit pattern of the `f64` value 1.0.
pub const F64_ONE_BITS: u64 = 0x3FF0_0000_0000_0000u64;

/// Bit pattern of the `f64` value 7.0.
pub const F64_SEVEN_BITS: u64 = 0x401C_0000_0000_0000u64;

/// Bit pattern of the `f64` value 10.0.
pub const F64_TEN_BITS: u64 = 0x4024_0000_0000_0000u64;

/// Bit pattern of the `f64` value 20.0.
pub const F64_TWENTY_BITS: u64 = 0x4034_0000_0000_0000u64;

/// Bit pattern of the `f64` value 64.0.
pub const F64_64_BITS: u64 = 0x4050_0000_0000_0000u64;

/// Bit pattern of the `f64` value 100.0.
pub const F64_100_BITS: u64 = 0x4059_0000_0000_0000u64;

/// Bit pattern of the `f64` value 320.0.
pub const F64_320_BITS: u64 = 0x4074_0000_0000_0000u64;

/// Bit pattern of the `f64` value 2160.0.
pub const F64_2160_BITS: u64 = 0x40A0_E000_0000_0000u64;

/// Bit pattern of the `f64` value 4096.0.
pub const F64_4096_BITS: u64 = 0x40B0_0000_0000_0000u64;

/// Bit pattern of the `f64` value 50000.0.
pub const F64_50000_BITS: u64 = 0x40E8_6A00_0000_0000u64;

/// Kind of a configurable property.
#[derive(Clone, Copy, Debug, PartialEq, Eq, Structural, Hash)]
pub enum PropertyType {
    Bool,
    Int,
    Float,
    String,
    Enum,
    Path,
    Color,
    Font,
    Object,
}

/// A font choice.
#[derive(Clone, Debug, PartialEq)]
pub struct FontInfo {
    pub family: String,
    pub size: u32,
    pub bold: bool,
    pub italic: bool,
}

/// The value of a property. A floating-point value is held by the bit pattern
/// of its `f64` (`f64::to_bits`).
#[derive(Clone, Debug, PartialEq)]
pub enum PropertyValue {
    Bool(bool),
    Int(i64),
    Float(u64),
    String(String),
    Enum(String),
    Path(String),
    Color(u32),
    Font(FontInfo),
    Object(serde_json::Value),
}

/// Mathematical value of a property value; an object value stays opaque.
pub enum ValueView {
    Bool(bool),
    Int(i64),
    Float(u64),
    String(Seq<char>),
    Enum(Seq<char>),
    Path(Seq<char>),
    Color(u32),
    Font(Seq<char>, u32, bool, bool),
    Object(serde_json::Value),
}

impl View for PropertyValue {
    type V = ValueView;

    open spec fn view(&self) -> ValueView {
        match self {
            PropertyValue::Bool(b) => ValueView::Bool(*b),
            PropertyValue::Int(i) => ValueView::Int(*i),
            PropertyValue::Float(f) => ValueView::Float(*f),
            PropertyValue::String(s) => ValueView::String(s@),
            PropertyValue::Enum(s) => ValueView::Enum(s@),
            PropertyValue::Path(s) => ValueView::Path(s@),
            PropertyValue::Color(c) => ValueView::Color(*c),
            PropertyValue::Font(f) => ValueView::Font(f.family@, f.size, f.bold, f.italic),
            PropertyValue::Object(v) => ValueView::Object(*v),
        }
    }
}

/// Description of one configurable property of a source, encoder or output.
/// `min`, `max` and `step` hold `f64` bit patterns.
#[derive(Clone, Debug)]
pub struct PropertyDef {
    pub name: String,
    pub display_name: String,
    pub description: String,
    pub type_: PropertyType,
    pub default: PropertyValue,
    pub min: Option<u64>,
    pub max: Option<u64>,
    pub step: Option<u64>,
    pub enum_values: Vec<(String, String)>,
    pub visible: bool,
    pub enabled: bool,
}

/// Mathematical value of a property description.
pub struct PropertyDefView {
    pub name: Seq<char>,
    pub display_name: Seq<char>,
    pub description: Seq<char>,
    pub type_: PropertyType,
    pub default: ValueView,
    pub min: Option<u64>,
    pub max: Option<u64>,
    pub step: Option<u64>,
    pub enum_values: Seq<(Seq<char>, Seq<char>)>,
    pub visible: bool,
    pub enabled: bool,
}

/// The characters of each pair of strings.
pub open spec fn pairs_view(s: Seq<(String, String)>) -> Seq<(Seq<char>, Seq<char>)> {
    s.map_values(|p: (String, String)| (p.0@, p.1@))
}

impl View for PropertyDef {
    type V = PropertyDefView;

    open spec fn view(&self) -> PropertyDefView {
        PropertyDefView {
            name: self.name@,
            display_name: self.display_name@,
            description: self.description@,
            type_: self.type_,
            default: self.default@,
            min: self.min,
            max: self.max,
            step: self.step,
            enum_values: pairs_view(self.enum_values@),
            visible: self.visible,
            enabled: self.enabled,
        }
    }
}

/// The views of a list of property descriptions.
pub open spec fn defs_view(s: Seq<PropertyDef>) -> Seq<PropertyDefView> {
    s.map_values(|d: PropertyDef| d@)
}

impl Default for PropertyDef {
    /// An empty, visible and enabled string property.
    fn default() -> (r: PropertyDef)
        ensures
            r@ == (PropertyDefView {
                name: Seq::empty(),
                display_name: Seq::empty(),
                description: Seq::empty(),
                type_: PropertyType::String,
                default: ValueView::String(Seq::empty()),
                min: None,
                max: None,
                step: None,
                enum_values: Seq::empty(),
                visible: true,
                enabled: true,
            }),
    {
        let r = PropertyDef {
            name: String::new(),
            display_name: String::new(),
            description: String::new(),
            type_: PropertyType::String,
            default: PropertyValue::String(String::new()),
            min: None,
            max: None,
            step: None,
            enum_values: Vec::new(),
            visible: true,
            enabled: true,
        };
        assert(pairs_view(r.enum_values@) =~= Seq::empty());
        r
    }
}

/// View of an integer property from `min` to `max` (bit patterns), with the
/// other fields as `PropertyDef::default` leaves them.
pub open spec fn int_def_view(
    name: Seq<char>,
    display_name: Seq<char>,
    default: i64,
    min: u64,
    max: u64,
) -> PropertyDefView {
    PropertyDefView {
        name,
        display_name,
        description: Seq::empty(),
        type_: PropertyType::Int,
        default: ValueView::Int(default),
        min: Some(min),
        max: Some(max),
        step: None,
        enum_values: Seq::empty(),
        visible: true,
        enabled: true,
    }
}

/// View of an enumerated property with the given choices.
pub open spec fn enum_def_view(
    name: Seq<char>,
    display_name: Seq<char>,
    default: Seq<char>,
    choices: Seq<(Seq<char>, Seq<char>)>,
) -> PropertyDefView {
    PropertyDefView {
        name,
        display_name,
        description: Seq::empty(),
        type_: PropertyType::Enum,
        default: ValueView::Enum(default),
        min: None,
        max: None,
        step: None,
        enum_values: choices,
        visible: true,
        enabled: true,
    }
}

/// An integer property description (with no description text).
pub fn int_def(name: &str, display_name: &str, default: i64, min: u64, max: u64) -> (r:
    PropertyDef)
    ensures
        r@ == int_def_view(name@, display_name@, default, min, max),
{
    let r = PropertyDef {
        name: name.to_owned(),
        display_name: display_name.to_owned(),
        description: String::new(),
        type_: PropertyType::Int,
        default: PropertyValue::Int(default),
        min: Some(min),
        max: Some(max),
        step: None,
        enum_values: Vec::new(),
        visible: true,
        enabled: true,
    };
    assert(pairs_view(r.enum_values@) =~= Seq::empty());
    r
}

/// A pair of owned strings.
pub fn string_pair(a: &str, b: &str) -> (r: (String, String))
    ensures
        r.0@ == a@,
        r.1@ == b@,
{
    (a.to_owned(), b.to_owned())
}

/// An enumerated property description (with no description text).
pub fn enum_def(
    name: &str,
    display_name: &str,
    default: &str,
    choices: Vec<(String, String)>,
) -> (r: PropertyDef)
    ensures
        r@ == enum_def_view(name@, display_name@, default@, pairs_view(choices@)),
{
    PropertyDef {
        name: name.to_owned(),
        display_name: display_name.to_owned(),
        description: String::new(),
        type_: PropertyType::Enum,
        default: PropertyValue::Enum(default.to_owned()),
        min: None,
        max: None,
        step: None,
        enum_values: choices,
        visible: true,
        enabled: true,
    }
}

} // verus!
