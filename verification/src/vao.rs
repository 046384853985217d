//! The layout of a vertex array: which attributes it has, how many
//! components each takes per vertex, and how far apart its vertices lie.
use vstd::prelude::*;
use vstd::layout::size_of as byte_size;
use crate::util::size_of;

verus! {

/// One attribute of a vertex array.
#[derive(Clone, Copy, Debug, PartialEq, Eq)]
pub struct VertexAttribute {
    /// The attribute's location in the shader.
    pub index: u32,
    /// Numbers per vertex.
    pub components: i32,
    /// Bytes from one vertex to the next.
    pub stride: i32,
}

/// Location of the vertex positions.
pub const POSITION_ATTRIBUTE: u32 = 0;

/// Location of the vertex colors.
pub const COLOR_ATTRIBUTE: u32 = 1;

/// Location of the texture coordinates.
pub const TEXCOORD_ATTRIBUTE: u32 = 2;

/// Numbers per color: four (RGBA) where `values` colour numbers divide into
/// fours, else three (RGB).
pub open spec fn color_components_of(values: nat) -> int {
    if values % 4 == 0 {
        4
    } else {
        3
    }
}

/// An attribute of `components` numbers of `size` bytes each, tightly
/// packed.
pub open spec fn packed(index: u32, components: int, size: int) -> VertexAttribute {
    VertexAttribute { index, components: components as i32, stride: (components * size) as i32 }
}

/// The attributes of a vertex array whose numbers take `size` bytes each:
/// positions always, colors and texture coordinates where there are any.
pub open spec fn layout_of(colors: nat, texcoords: nat, size: int) -> Seq<VertexAttribute> {
    seq![packed(POSITION_ATTRIBUTE, 3, size)] + (if colors > 0 {
        seq![packed(COLOR_ATTRIBUTE, color_components_of(colors), size)]
    } else {
        Seq::empty()
    }) + (if texcoords > 0 {
        seq![packed(TEXCOORD_ATTRIBUTE, 2, size)]
    } else {
        Seq::empty()
    })
}

/// Numbers per color for a color buffer of `values` numbers.
pub fn color_components(values: usize) -> (components: i32)
    ensures
        components == color_components_of(values as nat),
{
    if values % 4 == 0 {
        4
    } else {
        3
    }
}

/// The attributes to declare for a vertex array with `colors` colour
/// numbers and `texcoords` texture coordinate numbers, each number a `T`.
pub fn vertex_attributes<T>(colors: usize, texcoords: usize) -> (attributes: Vec<VertexAttribute>)
    requires
        4 * byte_size::<T>() <= i32::MAX,
    ensures
        attributes@ == layout_of(colors as nat, texcoords as nat, byte_size::<T>() as int),
{
    let size = size_of::<T>();
    let mut attributes: Vec<VertexAttribute> = Vec::new();
    attributes.push(VertexAttribute { index: POSITION_ATTRIBUTE, components: 3, stride: 3 * size });
    if colors > 0 {
        let components = color_components(colors);
        attributes.push(VertexAttribute { index: COLOR_ATTRIBUTE, components, stride: components * size });
    }
    if texcoords > 0 {
        attributes.push(VertexAttribute { index: TEXCOORD_ATTRIBUTE, components: 2, stride: 2 * size });
    }
    attributes
}

} // verus!
