//! The shape kinds that come with the library: rectangle, rounded
//! rectangle, rounded rectangle with border, and circle.
use vstd::prelude::*;
use crate::parameterized_shader::{
    imports_view, ExtractToShader, FragmentImport, ImportSpec, ParameterizedShader,
    SDFColorCall,
};
use crate::shader_params::{
    ColorParams, FieldSpec, FieldType, ParamField, ParamValue, Schema, ShaderParams,
};

verus! {

/// The fill that takes a colour.
pub open spec fn spec_simple_fill() -> ImportSpec {
    ImportSpec { path: "embedded://param_shaders/shaders/fill/simple.wgsl"@, import_path: "bps::simple_fill"@ }
}

/// The fill that takes a colour.
pub fn simple_fill() -> (import: FragmentImport)
    ensures
        import@ == spec_simple_fill(),
{
    FragmentImport { path: "embedded://param_shaders/shaders/fill/simple.wgsl", import_path: "bps::simple_fill" }
}

/// The fill that draws a border.
pub open spec fn spec_fill_with_outline() -> ImportSpec {
    ImportSpec { path: "embedded://param_shaders/shaders/fill/fill_with_border.wgsl"@, import_path: "bps::fill_with_border"@ }
}

/// The fill that draws a border.
pub fn fill_with_outline() -> (import: FragmentImport)
    ensures
        import@ == spec_fill_with_outline(),
{
    FragmentImport { path: "embedded://param_shaders/shaders/fill/fill_with_border.wgsl", import_path: "bps::fill_with_border" }
}

/// The distance to a circle.
pub open spec fn spec_circle() -> ImportSpec {
    ImportSpec { path: "embedded://param_shaders/shaders/sdf/circle.wgsl"@, import_path: "bps::circle"@ }
}

/// The distance to a circle.
pub fn circle() -> (import: FragmentImport)
    ensures
        import@ == spec_circle(),
{
    FragmentImport { path: "embedded://param_shaders/shaders/sdf/circle.wgsl", import_path: "bps::circle" }
}

/// The distance to a rounded rectangle.
pub open spec fn spec_rounded_rect() -> ImportSpec {
    ImportSpec { path: "embedded://param_shaders/shaders/sdf/rounded_rect.wgsl"@, import_path: "bps::rounded_rect"@ }
}

/// The distance to a rounded rectangle.
pub fn rounded_rect() -> (import: FragmentImport)
    ensures
        import@ == spec_rounded_rect(),
{
    FragmentImport { path: "embedded://param_shaders/shaders/sdf/rounded_rect.wgsl", import_path: "bps::rounded_rect" }
}

/// The distance to a rectangle.
pub open spec fn spec_rect() -> ImportSpec {
    ImportSpec { path: "embedded://param_shaders/shaders/sdf/rect.wgsl"@, import_path: "bps::rect"@ }
}

/// The distance to a rectangle.
pub fn rect() -> (import: FragmentImport)
    ensures
        import@ == spec_rect(),
{
    FragmentImport { path: "embedded://param_shaders/shaders/sdf/rect.wgsl", import_path: "bps::rect" }
}

/// The frame of a shape that is as wide and as high as its parameters say.
pub const PROPORTIONS_FRAME: &'static str = "vec2<f32>(max(vertex.width, vertex.height))";

/// The square frame of half-width 1.
pub const UNIT_FRAME: &'static str = "vec2<f32>(1f, 1f)";

/// The two imports `first` and `second`, in this order.
fn two_imports(first: FragmentImport, second: FragmentImport) -> (imports: Vec<FragmentImport>)
    ensures
        imports_view(imports@) == seq![first@, second@],
{
    let mut imports: Vec<FragmentImport> = Vec::new();
    imports.push(first);
    imports.push(second);
    imports
}

/// Parameters of a rectangle. Floats are held as their bit patterns.
#[derive(Debug, Clone, Copy, PartialEq, Eq, Hash)]
pub struct RectShaderParams {
    pub color: (u32, u32, u32, u32),
    // Width as a proportion of scale in range 0..=1.0
    pub width: u32,
    // Height as a proportion of scale in range 0..=1.0
    pub height: u32,
}

impl ShaderParams for RectShaderParams {
    open spec fn spec_schema() -> Seq<FieldSpec> {
        seq![
            FieldSpec { name: "color"@, ty: FieldType::LinearRgba },
            FieldSpec { name: "width"@, ty: FieldType::F32 },
            FieldSpec { name: "height"@, ty: FieldType::F32 },
        ]
    }

    open spec fn spec_values(&self) -> Seq<ParamValue> {
        seq![
            ParamValue::LinearRgba(self.color.0, self.color.1, self.color.2, self.color.3),
            ParamValue::F32(self.width),
            ParamValue::F32(self.height),
        ]
    }

    fn schema() -> (schema: Schema) {
        let mut fields: Vec<ParamField> = Vec::new();
        fields.push(ParamField::new("color", FieldType::LinearRgba));
        fields.push(ParamField::new("width", FieldType::F32));
        fields.push(ParamField::new("height", FieldType::F32));
        Schema::new(fields)
    }

    fn values(&self) -> (values: Vec<ParamValue>) {
        let mut values: Vec<ParamValue> = Vec::new();
        values.push(
            ParamValue::LinearRgba(self.color.0, self.color.1, self.color.2, self.color.3),
        );
        values.push(ParamValue::F32(self.width));
        values.push(ParamValue::F32(self.height));
        values
    }
}

/// A rectangle filled with one colour.
#[derive(Debug, Clone, Copy, Default, PartialEq)]
pub struct RectShader;

impl ParameterizedShader for RectShader {
    type Params = RectShaderParams;

    open spec fn spec_fragment_body() -> Seq<char> {
        (SDFColorCall {
                sdf: "bps::rect::sdf(in.pos, in.width, in.height)",
                fill_color: "bps::simple_fill::fill(d, in.color, in.pos)",
            }).spec_source()
    }

    open spec fn spec_frame_expression() -> Seq<char> {
        PROPORTIONS_FRAME@
    }

    open spec fn spec_imports() -> Seq<ImportSpec> {
        seq![spec_simple_fill(), spec_rect()]
    }

    open spec fn spec_type_path() -> Seq<char> {
        "param_shaders::primitives::RectShader"@
    }

    const UUID: u128 = 0x3e88f38055fa492390d8c0585bc9088c;

    fn fragment_body() -> (body: String) {
        (SDFColorCall {
            sdf: "bps::rect::sdf(in.pos, in.width, in.height)",
            fill_color: "bps::simple_fill::fill(d, in.color, in.pos)",
        }).source()
    }

    fn frame_expression() -> (expression: String) {
        String::from_str(PROPORTIONS_FRAME)
    }

    fn imports() -> (imports: Vec<FragmentImport>) {
        two_imports(simple_fill(), rect())
    }



    fn type_path() -> (path: String) {
        String::from_str("param_shaders::primitives::RectShader")
    }
}

/// Parameters of a rounded rectangle. Floats are held as their bit
/// patterns.
#[derive(Debug, Clone, Copy, PartialEq, Eq, Hash)]
pub struct RoundedRectShaderParams {
    pub color: (u32, u32, u32, u32),
    // Width as a proportion of scale in range 0..=1.0
    pub width: u32,
    // Height as a proportion of scale in range 0..=1.0
    pub height: u32,
    pub rounding: u32,
}

impl ShaderParams for RoundedRectShaderParams {
    open spec fn spec_schema() -> Seq<FieldSpec> {
        seq![
            FieldSpec { name: "color"@, ty: FieldType::LinearRgba },
            FieldSpec { name: "width"@, ty: FieldType::F32 },
            FieldSpec { name: "height"@, ty: FieldType::F32 },
            FieldSpec { name: "rounding"@, ty: FieldType::F32 },
        ]
    }

    open spec fn spec_values(&self) -> Seq<ParamValue> {
        seq![
            ParamValue::LinearRgba(self.color.0, self.color.1, self.color.2, self.color.3),
            ParamValue::F32(self.width),
            ParamValue::F32(self.height),
            ParamValue::F32(self.rounding),
        ]
    }

    fn schema() -> (schema: Schema) {
        let mut fields: Vec<ParamField> = Vec::new();
        fields.push(ParamField::new("color", FieldType::LinearRgba));
        fields.push(ParamField::new("width", FieldType::F32));
        fields.push(ParamField::new("height", FieldType::F32));
        fields.push(ParamField::new("rounding", FieldType::F32));
        Schema::new(fields)
    }

    fn values(&self) -> (values: Vec<ParamValue>) {
        let mut values: Vec<ParamValue> = Vec::new();
        values.push(
            ParamValue::LinearRgba(self.color.0, self.color.1, self.color.2, self.color.3),
        );
        values.push(ParamValue::F32(self.width));
        values.push(ParamValue::F32(self.height));
        values.push(ParamValue::F32(self.rounding));
        values
    }
}

/// A rounded rectangle filled with one colour.
#[derive(Debug, Clone, Copy, Default, PartialEq)]
pub struct RoundedRectShader;

impl ParameterizedShader for RoundedRectShader {
    type Params = RoundedRectShaderParams;

    open spec fn spec_fragment_body() -> Seq<char> {
        (SDFColorCall {
                sdf: "bps::rounded_rect::sdf(in.pos, in.width, in.height, in.rounding)",
                fill_color: "bps::simple_fill::fill(d, in.color, in.pos)",
            }).spec_source()
    }

    open spec fn spec_frame_expression() -> Seq<char> {
        PROPORTIONS_FRAME@
    }

    open spec fn spec_imports() -> Seq<ImportSpec> {
        seq![spec_simple_fill(), spec_rounded_rect()]
    }

    open spec fn spec_type_path() -> Seq<char> {
        "param_shaders::primitives::RoundedRectShader"@
    }

    const UUID: u128 = 0xa31d800c02a24db78aaf1caa2bd1dc37;

    fn fragment_body() -> (body: String) {
        (SDFColorCall {
            sdf: "bps::rounded_rect::sdf(in.pos, in.width, in.height, in.rounding)",
            fill_color: "bps::simple_fill::fill(d, in.color, in.pos)",
        }).source()
    }

    fn frame_expression() -> (expression: String) {
        String::from_str(PROPORTIONS_FRAME)
    }

    fn imports() -> (imports: Vec<FragmentImport>) {
        two_imports(simple_fill(), rounded_rect())
    }



    fn type_path() -> (path: String) {
        String::from_str("param_shaders::primitives::RoundedRectShader")
    }
}

/// Parameters of a rounded rectangle with a border. Floats are held as
/// their bit patterns.
#[derive(Debug, Clone, Copy, PartialEq, Eq, Hash)]
pub struct RoundedRectWithBorderShaderParams {
    pub width: u32,
    pub height: u32,
    pub rounding: u32,
    pub color: (u32, u32, u32, u32),
    pub border_color: (u32, u32, u32, u32),
    pub border: u32,
}

impl ShaderParams for RoundedRectWithBorderShaderParams {
    open spec fn spec_schema() -> Seq<FieldSpec> {
        seq![
            FieldSpec { name: "width"@, ty: FieldType::F32 },
            FieldSpec { name: "height"@, ty: FieldType::F32 },
            FieldSpec { name: "rounding"@, ty: FieldType::F32 },
            FieldSpec { name: "color"@, ty: FieldType::LinearRgba },
            FieldSpec { name: "border_color"@, ty: FieldType::LinearRgba },
            FieldSpec { name: "border"@, ty: FieldType::F32 },
        ]
    }

    open spec fn spec_values(&self) -> Seq<ParamValue> {
        seq![
            ParamValue::F32(self.width),
            ParamValue::F32(self.height),
            ParamValue::F32(self.rounding),
            ParamValue::LinearRgba(self.color.0, self.color.1, self.color.2, self.color.3),
            ParamValue::LinearRgba(
                self.border_color.0,
                self.border_color.1,
                self.border_color.2,
                self.border_color.3,
            ),
            ParamValue::F32(self.border),
        ]
    }

    fn schema() -> (schema: Schema) {
        let mut fields: Vec<ParamField> = Vec::new();
        fields.push(ParamField::new("width", FieldType::F32));
        fields.push(ParamField::new("height", FieldType::F32));
        fields.push(ParamField::new("rounding", FieldType::F32));
        fields.push(ParamField::new("color", FieldType::LinearRgba));
        fields.push(ParamField::new("border_color", FieldType::LinearRgba));
        fields.push(ParamField::new("border", FieldType::F32));
        Schema::new(fields)
    }

    fn values(&self) -> (values: Vec<ParamValue>) {
        let mut values: Vec<ParamValue> = Vec::new();
        values.push(ParamValue::F32(self.width));
        values.push(ParamValue::F32(self.height));
        values.push(ParamValue::F32(self.rounding));
        values.push(
            ParamValue::LinearRgba(self.color.0, self.color.1, self.color.2, self.color.3),
        );
        values.push(
            ParamValue::LinearRgba(
                self.border_color.0,
                self.border_color.1,
                self.border_color.2,
                self.border_color.3,
            ),
        );
        values.push(ParamValue::F32(self.border));
        values
    }
}

/// A rounded rectangle with a border.
#[derive(Debug, Clone, Copy, Default, PartialEq)]
pub struct RoundedRectWithBorderShader;

impl ParameterizedShader for RoundedRectWithBorderShader {
    type Params = RoundedRectWithBorderShaderParams;

    open spec fn spec_fragment_body() -> Seq<char> {
        (SDFColorCall {
                sdf: "bps::rounded_rect::sdf(in.pos, in.width, in.height, in.rounding)",
                fill_color: "bps::fill_with_border::fill(d, in.color, in.border, in.border_color)",
            }).spec_source()
    }

    open spec fn spec_frame_expression() -> Seq<char> {
        PROPORTIONS_FRAME@
    }

    open spec fn spec_imports() -> Seq<ImportSpec> {
        seq![spec_fill_with_outline(), spec_rounded_rect()]
    }

    open spec fn spec_type_path() -> Seq<char> {
        "param_shaders::primitives::RoundedRectWithBorderShader"@
    }

    const UUID: u128 = 0xdf3562db60d2471a81ac616fb633c7e7;

    fn fragment_body() -> (body: String) {
        (SDFColorCall {
            sdf: "bps::rounded_rect::sdf(in.pos, in.width, in.height, in.rounding)",
            fill_color: "bps::fill_with_border::fill(d, in.color, in.border, in.border_color)",
        }).source()
    }

    fn frame_expression() -> (expression: String) {
        String::from_str(PROPORTIONS_FRAME)
    }

    fn imports() -> (imports: Vec<FragmentImport>) {
        two_imports(fill_with_outline(), rounded_rect())
    }



    fn type_path() -> (path: String) {
        String::from_str("param_shaders::primitives::RoundedRectWithBorderShader")
    }
}

/// A circle filled with one colour.
#[derive(Debug, Default, PartialEq, Clone, Copy)]
pub struct CircleShader;

impl ParameterizedShader for CircleShader {
    type Params = ColorParams;

    open spec fn spec_fragment_body() -> Seq<char> {
        (SDFColorCall {
                sdf: "bps::circle::sdf(in.pos)",
                fill_color: "bps::simple_fill::fill(d, in.color, in.pos)",
            }).spec_source()
    }

    open spec fn spec_frame_expression() -> Seq<char> {
        UNIT_FRAME@
    }

    open spec fn spec_imports() -> Seq<ImportSpec> {
        seq![spec_simple_fill(), spec_circle()]
    }

    open spec fn spec_type_path() -> Seq<char> {
        "param_shaders::primitives::CircleShader"@
    }

    const UUID: u128 = 0x9a8df8ca0f854ccfb0a3ad366a6e8b4b;

    fn fragment_body() -> (body: String) {
        (SDFColorCall {
            sdf: "bps::circle::sdf(in.pos)",
            fill_color: "bps::simple_fill::fill(d, in.color, in.pos)",
        }).source()
    }

    fn frame_expression() -> (expression: String) {
        String::from_str(UNIT_FRAME)
    }

    fn imports() -> (imports: Vec<FragmentImport>) {
        two_imports(simple_fill(), circle())
    }



    fn type_path() -> (path: String) {
        String::from_str("param_shaders::primitives::CircleShader")
    }
}

/// The bits of the float 1.
pub const ONE: u32 = 0x3f80_0000;

/// The bits of the width of the border that a colour alone gives: 0.005.
pub const DEFAULT_BORDER: u32 = 0x3ba3_d70a;

/// A color used by a shader.
/// Some shaders use more than one color: the index parameter tells them
/// apart.
#[derive(Debug, Clone, Copy, PartialEq, Eq, Hash)]
pub struct ShaderColor<const INDEX: usize> {
    /// Bits of the red, green, blue and alpha components, linear.
    pub color: (u32, u32, u32, u32),
}

/// How much the corners of a shape are rounded.
#[derive(Debug, Clone, Copy, PartialEq, Eq, Hash)]
pub struct ShaderRounding {
    /// Bits of the rounding.
    pub rounding: u32,
}

impl Default for ShaderRounding {
    fn default() -> (rounding: ShaderRounding)
        ensures
            rounding.rounding == 0,
    {
        ShaderRounding { rounding: 0 }
    }
}

/// height / width
#[derive(Debug, Clone, Copy, PartialEq, Eq, Hash)]
pub struct ShaderProportions {
    /// width in range 0..=1.0
    pub width: u32,
    /// height in range 0..=1.0
    pub height: u32,
}

impl Default for ShaderProportions {
    fn default() -> (proportions: ShaderProportions)
        ensures
            proportions.width == ONE,
            proportions.height == ONE,
    {
        ShaderProportions { width: ONE, height: ONE }
    }
}

/// The border of a shape: its colour and its width.
#[derive(Debug, Clone, Copy, PartialEq, Eq, Hash)]
pub struct ShaderBorder {
    /// Bits of the red, green, blue and alpha components, linear.
    pub border_color: (u32, u32, u32, u32),
    /// Bits of the width.
    pub border: u32,
}

impl ShaderBorder {
    /// No border: width 0, and a colour that is all 0.
    pub fn none() -> (border: ShaderBorder)
        ensures
            border == (ShaderBorder { border_color: (0, 0, 0, 0), border: 0 }),
    {
        ShaderBorder { border_color: (0, 0, 0, 0), border: 0 }
    }

    /// A border of the default width in the linear colour `color`.
    pub fn from_color(color: (u32, u32, u32, u32)) -> (border: ShaderBorder)
        ensures
            border == (ShaderBorder { border_color: color, border: DEFAULT_BORDER }),
    {
        ShaderBorder { border_color: color, border: DEFAULT_BORDER }
    }
}

/// Rectangles from a colour and proportions.
#[derive(Debug, Clone, Copy, Default, PartialEq)]
pub struct RectShaderExtraction;

impl ExtractToShader for RectShaderExtraction {
    type Shader = RectShader;

    type ParamsQuery = (ShaderColor<0>, ShaderProportions);

    type ResourceParams = ();

    open spec fn spec_get_params(
        query_item: (ShaderColor<0>, ShaderProportions),
        resource: (),
    ) -> RectShaderParams {
        RectShaderParams {
            color: query_item.0.color,
            height: query_item.1.height,
            width: query_item.1.width,
        }
    }

    fn get_params(query_item: &(ShaderColor<0>, ShaderProportions), _resource: &()) -> (params:
        RectShaderParams) {
        RectShaderParams {
            color: query_item.0.color,
            height: query_item.1.height,
            width: query_item.1.width,
        }
    }
}

/// Rounded rectangles from a colour, a rounding and proportions.
#[derive(Debug, Clone, Copy, Default, PartialEq)]
pub struct RoundedRectShaderExtraction;

impl ExtractToShader for RoundedRectShaderExtraction {
    type Shader = RoundedRectShader;

    type ParamsQuery = (ShaderColor<0>, ShaderRounding, ShaderProportions);

    type ResourceParams = ();

    open spec fn spec_get_params(
        query_item: (ShaderColor<0>, ShaderRounding, ShaderProportions),
        resource: (),
    ) -> RoundedRectShaderParams {
        RoundedRectShaderParams {
            color: query_item.0.color,
            rounding: query_item.1.rounding,
            height: query_item.2.height,
            width: query_item.2.width,
        }
    }

    fn get_params(
        query_item: &(ShaderColor<0>, ShaderRounding, ShaderProportions),
        _resource: &(),
    ) -> (params: RoundedRectShaderParams) {
        RoundedRectShaderParams {
            color: query_item.0.color,
            rounding: query_item.1.rounding,
            height: query_item.2.height,
            width: query_item.2.width,
        }
    }
}

impl ExtractToShader for RoundedRectWithBorderShader {
    type Shader = Self;

    type ParamsQuery = (ShaderColor<0>, ShaderRounding, ShaderProportions, ShaderBorder);

    type ResourceParams = ();

    open spec fn spec_get_params(
        query_item: (ShaderColor<0>, ShaderRounding, ShaderProportions, ShaderBorder),
        resource: (),
    ) -> RoundedRectWithBorderShaderParams {
        RoundedRectWithBorderShaderParams {
            color: query_item.0.color,
            rounding: query_item.1.rounding,
            width: query_item.2.width,
            height: query_item.2.height,
            border_color: query_item.3.border_color,
            border: query_item.3.border,
        }
    }

    fn get_params(
        query_item: &(ShaderColor<0>, ShaderRounding, ShaderProportions, ShaderBorder),
        _resource: &(),
    ) -> (params: RoundedRectWithBorderShaderParams) {
        RoundedRectWithBorderShaderParams {
            color: query_item.0.color,
            rounding: query_item.1.rounding,
            width: query_item.2.width,
            height: query_item.2.height,
            border_color: query_item.3.border_color,
            border: query_item.3.border,
        }
    }
}

impl ExtractToShader for CircleShader {
    type Shader = Self;

    type ParamsQuery = ShaderColor<0>;

    type ResourceParams = ();

    open spec fn spec_get_params(query_item: ShaderColor<0>, resource: ()) -> ColorParams {
        ColorParams { color: query_item.color }
    }

    fn get_params(query_item: &ShaderColor<0>, _resource: &()) -> (params: ColorParams) {
        ColorParams { color: query_item.color }
    }
}

} // verus!
