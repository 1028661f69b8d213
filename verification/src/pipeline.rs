//! The fixed pipeline state of the triangle: how its vertices are laid out
//! and how it is rasterized.

use vstd::prelude::*;

verus! {

/// Bytes from the start of a vertex to its position.
pub const POSITION_OFFSET: u32 = 0;

/// Bytes from the start of a vertex to its colour.
pub const COLOR_OFFSET: u32 = 12;

/// Bytes in one vertex: three floats of position and four of colour.
pub const VERTEX_STRIDE: u32 = 28;

/// Number of vertices in the triangle.
pub const VERTEX_COUNT: u32 = 3;

/// What an element of a vertex means to the vertex shader.
#[derive(Clone, Copy, Debug, PartialEq, Eq, Structural)]
pub enum Semantic {
    Position,
    Color,
}

/// The format in which an element of a vertex is read.
#[derive(Clone, Copy, Debug, PartialEq, Eq, Structural)]
pub enum ElementFormat {
    /// Two 32-bit floats.
    Float2,
    /// Four 32-bit floats.
    Float4,
}

/// One element of the input layout. Every element is read per vertex from
/// input slot 0, with semantic index 0.
#[derive(Clone, Copy, Debug, PartialEq, Eq, Structural)]
pub struct InputElement {
    pub semantic: Semantic,
    pub format: ElementFormat,
    /// Bytes from the start of the vertex.
    pub offset: u32,
}

/// How triangles are filled.
#[derive(Clone, Copy, Debug, PartialEq, Eq, Structural)]
pub enum FillMode {
    Wireframe,
    Solid,
}

/// Which triangles are not drawn.
#[derive(Clone, Copy, Debug, PartialEq, Eq, Structural)]
pub enum CullMode {
    /// Every triangle is drawn.
    Neither,
    Front,
    Back,
}

/// The rasterizer state. Depth bias and its clamp and slope are zero.
#[derive(Clone, Copy, Debug, PartialEq, Eq, Structural)]
pub struct RasterizerDesc {
    pub fill_mode: FillMode,
    pub cull_mode: CullMode,
    pub front_counter_clockwise: bool,
    pub depth_clip: bool,
    pub scissor: bool,
    pub multisample: bool,
    pub antialiased_line: bool,
    pub forced_sample_count: u32,
    pub conservative: bool,
}

impl Semantic {
    /// The name under which the vertex shader declares the element.
    pub open spec fn label(self) -> Seq<char> {
        match self {
            Semantic::Position => "POSITION"@,
            Semantic::Color => "COLOR"@,
        }
    }

    pub fn name(&self) -> (name: &'static str)
        ensures
            name@ == self.label(),
    {
        match self {
            Semantic::Position => "POSITION",
            Semantic::Color => "COLOR",
        }
    }
}

impl ElementFormat {
    /// Bytes that an element of this format takes.
    pub open spec fn bytes(self) -> int {
        match self {
            ElementFormat::Float2 => 8,
            ElementFormat::Float4 => 16,
        }
    }

    pub fn size(&self) -> (size: u32)
        ensures
            size == self.bytes(),
    {
        match self {
            ElementFormat::Float2 => 8,
            ElementFormat::Float4 => 16,
        }
    }
}

/// The layout of a vertex: the position is read as two floats from its
/// start, the colour as four floats behind the three floats of the position.
pub open spec fn vertex_layout() -> Seq<InputElement> {
    seq![
        InputElement {
            semantic: Semantic::Position,
            format: ElementFormat::Float2,
            offset: POSITION_OFFSET,
        },
        InputElement { semantic: Semantic::Color, format: ElementFormat::Float4, offset: COLOR_OFFSET },
    ]
}

/// The rasterizer state of the triangle: solid, nothing culled, clipped to
/// the scissor rectangle and not by depth, one sample.
pub open spec fn triangle_rasterizer() -> RasterizerDesc {
    RasterizerDesc {
        fill_mode: FillMode::Solid,
        cull_mode: CullMode::Neither,
        front_counter_clockwise: false,
        depth_clip: false,
        scissor: true,
        multisample: false,
        antialiased_line: false,
        forced_sample_count: 1,
        conservative: false,
    }
}

/// The elements of the input layout, in the order of their declaration.
pub fn input_layout() -> (elements: [InputElement; 2])
    ensures
        elements@ == vertex_layout(),
{
    let elements: [InputElement; 2] = [
        InputElement {
            semantic: Semantic::Position,
            format: ElementFormat::Float2,
            offset: POSITION_OFFSET,
        },
        InputElement { semantic: Semantic::Color, format: ElementFormat::Float4, offset: COLOR_OFFSET },
    ];
    assert(elements@ =~= vertex_layout());
    elements
}

/// The description of the rasterizer state.
pub fn rasterizer() -> (desc: RasterizerDesc)
    ensures
        desc == triangle_rasterizer(),
{
    RasterizerDesc {
        fill_mode: FillMode::Solid,
        cull_mode: CullMode::Neither,
        front_counter_clockwise: false,
        depth_clip: false,
        scissor: true,
        multisample: false,
        antialiased_line: false,
        forced_sample_count: 1,
        conservative: false,
    }
}

/// The elements of the layout lie inside the vertex and do not overlap.
pub proof fn law_layout_fits_the_vertex()
    ensures
        forall|i: int|
            0 <= i < vertex_layout().len() ==> (#[trigger] vertex_layout()[i]).offset
                + vertex_layout()[i].format.bytes() <= VERTEX_STRIDE,
        forall|i: int, j: int|
            0 <= i < j < vertex_layout().len() ==> (#[trigger] vertex_layout()[i]).offset
                + vertex_layout()[i].format.bytes() <= (#[trigger] vertex_layout()[j]).offset,
{
}

} // verus!
