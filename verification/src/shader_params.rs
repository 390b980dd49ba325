//! Parameter schemas: the ordered, named, typed fields of one shape kind,
//! and the values that one instance gives them.
use vstd::prelude::*;

verus! {

/// The runtime type of a schema field.
///
/// Only the first seven are supported on the GPU; the others are types that
/// a schema author may declare by mistake.
#[derive(Clone, Copy, Debug, PartialEq, Eq, Hash, Structural)]
pub enum FieldType {
    /// 32-bit float scalar.
    F32,
    /// 32-bit unsigned integer scalar.
    U32,
    /// 32-bit signed integer scalar.
    I32,
    /// Two 32-bit floats.
    Vec2,
    /// Three 32-bit floats.
    Vec3,
    /// Four 32-bit floats.
    Vec4,
    /// Four 32-bit floats holding a linear colour: red, green, blue, alpha.
    LinearRgba,
    /// 64-bit float scalar (unsupported).
    F64,
    /// 64-bit unsigned integer scalar (unsupported).
    U64,
    /// 64-bit signed integer scalar (unsupported).
    I64,
    /// Boolean (unsupported).
    Bool,
    /// Owned text (unsupported).
    Text,
}

impl FieldType {
    /// The Rust path of the type, for diagnostics.
    pub open spec fn spec_type_path(self) -> Seq<char> {
        match self {
            FieldType::F32 => "f32"@,
            FieldType::U32 => "u32"@,
            FieldType::I32 => "i32"@,
            FieldType::Vec2 => "glam::Vec2"@,
            FieldType::Vec3 => "glam::Vec3"@,
            FieldType::Vec4 => "glam::Vec4"@,
            FieldType::LinearRgba => "bevy_color::linear_rgba::LinearRgba"@,
            FieldType::F64 => "f64"@,
            FieldType::U64 => "u64"@,
            FieldType::I64 => "i64"@,
            FieldType::Bool => "bool"@,
            FieldType::Text => "alloc::string::String"@,
        }
    }

    /// The Rust path of the type, for diagnostics.
    pub fn type_path(self) -> (path: &'static str)
        ensures
            path@ == self.spec_type_path(),
    {
        match self {
            FieldType::F32 => "f32",
            FieldType::U32 => "u32",
            FieldType::I32 => "i32",
            FieldType::Vec2 => "glam::Vec2",
            FieldType::Vec3 => "glam::Vec3",
            FieldType::Vec4 => "glam::Vec4",
            FieldType::LinearRgba => "bevy_color::linear_rgba::LinearRgba",
            FieldType::F64 => "f64",
            FieldType::U64 => "u64",
            FieldType::I64 => "i64",
            FieldType::Bool => "bool",
            FieldType::Text => "alloc::string::String",
        }
    }
}

/// A schema field in the model: its name and its type.
pub struct FieldSpec {
    pub name: Seq<char>,
    pub ty: FieldType,
}

/// One declared field of a parameter schema.
#[derive(Clone, Debug)]
pub struct ParamField {
    pub name: String,
    pub ty: FieldType,
}

impl View for ParamField {
    type V = FieldSpec;

    open spec fn view(&self) -> FieldSpec {
        FieldSpec { name: self.name@, ty: self.ty }
    }
}

impl ParamField {
    /// A field called `name` of type `ty`.
    pub fn new(name: &str, ty: FieldType) -> (field: ParamField)
        ensures
            field@ == (FieldSpec { name: name@, ty }),
    {
        ParamField { name: String::from_str(name), ty }
    }
}

/// The fields of a sequence of declarations, in order.
pub open spec fn schema_view(fields: Seq<ParamField>) -> Seq<FieldSpec> {
    fields.map_values(|f: ParamField| f@)
}

/// A parameter schema: the fields of one shape kind, in declaration order.
///
/// The order is the order of the shader structs, of the vertex attributes
/// and of the words of a packed instance.
#[derive(Clone, Debug)]
pub struct Schema {
    pub fields: Vec<ParamField>,
}

impl View for Schema {
    type V = Seq<FieldSpec>;

    open spec fn view(&self) -> Seq<FieldSpec> {
        schema_view(self.fields@)
    }
}

impl Schema {
    /// The schema with the given fields.
    pub fn new(fields: Vec<ParamField>) -> (schema: Schema)
        ensures
            schema@ == schema_view(fields@),
            schema.fields == fields,
    {
        Schema { fields }
    }

    /// The schema without fields.
    pub fn empty() -> (schema: Schema)
        ensures
            schema@ == Seq::<FieldSpec>::empty(),
    {
        Schema { fields: Vec::new() }
    }

    /// Number of fields.
    pub fn field_len(&self) -> (n: usize)
        ensures
            n == self@.len(),
    {
        self.fields.len()
    }

    /// Name of the field at `index`, if there is one.
    pub fn name_at(&self, index: usize) -> (name: Option<&str>)
        ensures
            index < self@.len() ==> name is Some && name->0@ == self@[index as int].name,
            index >= self@.len() ==> name is None,
    {
        if index < self.fields.len() {
            Some(self.fields[index].name.as_str())
        } else {
            None
        }
    }

    /// Type of the field at `index`, if there is one.
    pub fn field_at(&self, index: usize) -> (ty: Option<FieldType>)
        ensures
            index < self@.len() ==> ty == Some(self@[index as int].ty),
            index >= self@.len() ==> ty is None,
    {
        if index < self.fields.len() {
            Some(self.fields[index].ty)
        } else {
            None
        }
    }
}

/// The value that one instance gives to one field, as the bit patterns of
/// its 32-bit components.
#[derive(Clone, Copy, Debug, PartialEq, Eq, Hash, Structural)]
pub enum ParamValue {
    /// Bits of a 32-bit float.
    F32(u32),
    U32(u32),
    I32(i32),
    /// Bits of two 32-bit floats.
    Vec2(u32, u32),
    /// Bits of three 32-bit floats.
    Vec3(u32, u32, u32),
    /// Bits of four 32-bit floats.
    Vec4(u32, u32, u32, u32),
    /// Bits of the red, green, blue and alpha components.
    LinearRgba(u32, u32, u32, u32),
}

impl ParamValue {
    /// The field type that the value belongs to.
    pub open spec fn spec_field_type(self) -> FieldType {
        match self {
            ParamValue::F32(_) => FieldType::F32,
            ParamValue::U32(_) => FieldType::U32,
            ParamValue::I32(_) => FieldType::I32,
            ParamValue::Vec2(_, _) => FieldType::Vec2,
            ParamValue::Vec3(_, _, _) => FieldType::Vec3,
            ParamValue::Vec4(_, _, _, _) => FieldType::Vec4,
            ParamValue::LinearRgba(_, _, _, _) => FieldType::LinearRgba,
        }
    }

    /// The 32-bit words of the value, in memory order.
    pub open spec fn spec_words(self) -> Seq<u32> {
        match self {
            ParamValue::F32(x) => seq![x],
            ParamValue::U32(x) => seq![x],
            ParamValue::I32(x) => seq![x as u32],
            ParamValue::Vec2(x, y) => seq![x, y],
            ParamValue::Vec3(x, y, z) => seq![x, y, z],
            ParamValue::Vec4(x, y, z, w) => seq![x, y, z, w],
            ParamValue::LinearRgba(r, g, b, a) => seq![r, g, b, a],
        }
    }

    /// The field type that the value belongs to.
    pub fn field_type(self) -> (ty: FieldType)
        ensures
            ty == self.spec_field_type(),
    {
        match self {
            ParamValue::F32(_) => FieldType::F32,
            ParamValue::U32(_) => FieldType::U32,
            ParamValue::I32(_) => FieldType::I32,
            ParamValue::Vec2(_, _) => FieldType::Vec2,
            ParamValue::Vec3(_, _, _) => FieldType::Vec3,
            ParamValue::Vec4(_, _, _, _) => FieldType::Vec4,
            ParamValue::LinearRgba(_, _, _, _) => FieldType::LinearRgba,
        }
    }
}

/// Whether `values` gives one value of the right type to each field of
/// `schema`, in order.
pub open spec fn values_match(values: Seq<ParamValue>, schema: Seq<FieldSpec>) -> bool {
    &&& values.len() == schema.len()
    &&& forall|i: int|
        0 <= i < values.len() ==> (#[trigger] values[i]).spec_field_type() == schema[i].ty
}

/// A parameter set: a type that declares a schema and whose values fill it.
pub trait ShaderParams: Sized {
    /// The declared fields, in declaration order.
    spec fn spec_schema() -> Seq<FieldSpec>;

    /// The values of the fields of `self`, in declaration order.
    spec fn spec_values(&self) -> Seq<ParamValue>;

    /// The declared fields, in declaration order: the same on every call.
    fn schema() -> (schema: Schema)
        ensures
            schema@ == Self::spec_schema(),
    ;

    /// The values of the fields of `self`, in declaration order.
    fn values(&self) -> (values: Vec<ParamValue>)
        ensures
            values@ == self.spec_values(),
            values_match(values@, Self::spec_schema()),
    ;
}

/// The empty parameter set.
#[derive(Clone, Copy, Debug, PartialEq, Eq, Hash, Default)]
pub struct NoParams;

impl ShaderParams for NoParams {
    open spec fn spec_schema() -> Seq<FieldSpec> {
        Seq::empty()
    }

    open spec fn spec_values(&self) -> Seq<ParamValue> {
        Seq::empty()
    }

    fn schema() -> (schema: Schema) {
        Schema::empty()
    }

    fn values(&self) -> (values: Vec<ParamValue>) {
        Vec::new()
    }
}

/// A parameter set of one colour.
#[derive(Clone, Copy, Debug, PartialEq, Eq, Hash)]
pub struct ColorParams {
    /// Bits of the red, green, blue and alpha components, linear.
    pub color: (u32, u32, u32, u32),
}

impl ShaderParams for ColorParams {
    open spec fn spec_schema() -> Seq<FieldSpec> {
        seq![FieldSpec { name: "color"@, ty: FieldType::LinearRgba }]
    }

    open spec fn spec_values(&self) -> Seq<ParamValue> {
        seq![ParamValue::LinearRgba(self.color.0, self.color.1, self.color.2, self.color.3)]
    }

    fn schema() -> (schema: Schema) {
        let mut fields: Vec<ParamField> = Vec::new();
        fields.push(ParamField::new("color", FieldType::LinearRgba));
        Schema::new(fields)
    }

    fn values(&self) -> (values: Vec<ParamValue>) {
        let mut values: Vec<ParamValue> = Vec::new();
        values.push(
            ParamValue::LinearRgba(self.color.0, self.color.1, self.color.2, self.color.3),
        );
        values
    }
}

} // verus!
