//! The pipeline variant registry: a closed set of shading configurations,
//! each with a fixed vertex attribute layout and a shader entry-point pair.
//! Constructed data is immutable; every lookup is a total match over the
//! closed enum, so adding a variant forces every table to be updated.

use vstd::prelude::*;

verus! {

/// One member of the closed set of shading configurations.
#[derive(Clone, Copy, Debug, Eq, PartialEq, Structural)]
pub enum Pipeline {
    Color,
    Uv,
    ColorUv,
    ColorLit,
    UvLit,
    ColorUvLit,
    Quad2d,
    Matcap,
    MatcapColor,
    MatcapUv,
    MatcapColorUv,
}

impl Pipeline {
    /// The human-readable name of the variant.
    pub open spec fn spec_name(self) -> Seq<char> {
        match self {
            Pipeline::Color => "color"@,
            Pipeline::Uv => "uv"@,
            Pipeline::ColorUv => "color uv"@,
            Pipeline::ColorLit => "color lit"@,
            Pipeline::UvLit => "uv lit"@,
            Pipeline::ColorUvLit => "color uv lit"@,
            Pipeline::Quad2d => "quad 2d"@,
            Pipeline::Matcap => "matcap"@,
            Pipeline::MatcapColor => "matcap color"@,
            Pipeline::MatcapUv => "matcap uv"@,
            Pipeline::MatcapColorUv => "matcap color uv"@,
        }
    }

    pub fn name(&self) -> (r: &'static str)
        ensures
            r@ == self.spec_name(),
    {
        match self {
            Pipeline::Color => "color",
            Pipeline::Uv => "uv",
            Pipeline::ColorUv => "color uv",
            Pipeline::ColorLit => "color lit",
            Pipeline::UvLit => "uv lit",
            Pipeline::ColorUvLit => "color uv lit",
            Pipeline::Quad2d => "quad 2d",
            Pipeline::Matcap => "matcap",
            Pipeline::MatcapColor => "matcap color",
            Pipeline::MatcapUv => "matcap uv",
            Pipeline::MatcapColorUv => "matcap color uv",
        }
    }

    /// The vertex-stage shader entry point of the variant.
    pub open spec fn spec_vertex_shader(self) -> Seq<char> {
        match self {
            Pipeline::Color => "vs_color"@,
            Pipeline::Uv => "vs_uv"@,
            Pipeline::ColorUv => "vs_color_uv"@,
            Pipeline::ColorLit => "vs_color_lit"@,
            Pipeline::UvLit => "vs_uv_lit"@,
            Pipeline::ColorUvLit => "vs_color_uv_lit"@,
            Pipeline::Quad2d => "vs_quad_2d"@,
            Pipeline::Matcap => "vs_matcap"@,
            Pipeline::MatcapColor => "vs_matcap_color"@,
            Pipeline::MatcapUv => "vs_matcap_uv"@,
            Pipeline::MatcapColorUv => "vs_matcap_color_uv"@,
        }
    }

    pub fn vertex_shader(&self) -> (r: &'static str)
        ensures
            r@ == self.spec_vertex_shader(),
    {
        match self {
            Pipeline::Color => "vs_color",
            Pipeline::Uv => "vs_uv",
            Pipeline::ColorUv => "vs_color_uv",
            Pipeline::ColorLit => "vs_color_lit",
            Pipeline::UvLit => "vs_uv_lit",
            Pipeline::ColorUvLit => "vs_color_uv_lit",
            Pipeline::Quad2d => "vs_quad_2d",
            Pipeline::Matcap => "vs_matcap",
            Pipeline::MatcapColor => "vs_matcap_color",
            Pipeline::MatcapUv => "vs_matcap_uv",
            Pipeline::MatcapColorUv => "vs_matcap_color_uv",
        }
    }

    /// The fragment-stage shader entry point of the variant. `Quad2d` shares
    /// the plain textured fragment stage with `Uv`.
    pub open spec fn spec_fragment_shader(self) -> Seq<char> {
        match self {
            Pipeline::Color => "fs_color"@,
            Pipeline::Uv => "fs_uv"@,
            Pipeline::ColorUv => "fs_color_uv"@,
            Pipeline::ColorLit => "fs_color_lit"@,
            Pipeline::UvLit => "fs_uv_lit"@,
            Pipeline::ColorUvLit => "fs_color_uv_lit"@,
            Pipeline::Quad2d => "fs_uv"@,
            Pipeline::Matcap => "fs_matcap"@,
            Pipeline::MatcapColor => "fs_matcap_color"@,
            Pipeline::MatcapUv => "fs_matcap_uv"@,
            Pipeline::MatcapColorUv => "fs_matcap_color_uv"@,
        }
    }

    pub fn fragment_shader(&self) -> (r: &'static str)
        ensures
            r@ == self.spec_fragment_shader(),
    {
        match self {
            Pipeline::Color => "fs_color",
            Pipeline::Uv | Pipeline::Quad2d => "fs_uv",
            Pipeline::ColorUv => "fs_color_uv",
            Pipeline::ColorLit => "fs_color_lit",
            Pipeline::UvLit => "fs_uv_lit",
            Pipeline::ColorUvLit => "fs_color_uv_lit",
            Pipeline::Matcap => "fs_matcap",
            Pipeline::MatcapColor => "fs_matcap_color",
            Pipeline::MatcapUv => "fs_matcap_uv",
            Pipeline::MatcapColorUv => "fs_matcap_color_uv",
        }
    }

    /// Whether the vertex layout carries a per-vertex color.
    pub open spec fn spec_has_color(self) -> bool {
        match self {
            Pipeline::Color => true,
            Pipeline::Uv => false,
            Pipeline::ColorUv => true,
            Pipeline::ColorLit => true,
            Pipeline::UvLit => false,
            Pipeline::ColorUvLit => true,
            Pipeline::Quad2d => true,
            Pipeline::Matcap => false,
            Pipeline::MatcapColor => true,
            Pipeline::MatcapUv => false,
            Pipeline::MatcapColorUv => true,
        }
    }

    pub fn has_color(&self) -> (r: bool)
        ensures
            r == self.spec_has_color(),
    {
        match self {
            Pipeline::Color => true,
            Pipeline::Uv => false,
            Pipeline::ColorUv => true,
            Pipeline::ColorLit => true,
            Pipeline::UvLit => false,
            Pipeline::ColorUvLit => true,
            Pipeline::Quad2d => true,
            Pipeline::Matcap => false,
            Pipeline::MatcapColor => true,
            Pipeline::MatcapUv => false,
            Pipeline::MatcapColorUv => true,
        }
    }

    /// Whether the vertex layout carries texture coordinates.
    pub open spec fn spec_has_uv(self) -> bool {
        match self {
            Pipeline::Color => false,
            Pipeline::Uv => true,
            Pipeline::ColorUv => true,
            Pipeline::ColorLit => false,
            Pipeline::UvLit => true,
            Pipeline::ColorUvLit => true,
            Pipeline::Quad2d => true,
            Pipeline::Matcap => false,
            Pipeline::MatcapColor => false,
            Pipeline::MatcapUv => true,
            Pipeline::MatcapColorUv => true,
        }
    }

    pub fn has_uv(&self) -> (r: bool)
        ensures
            r == self.spec_has_uv(),
    {
        match self {
            Pipeline::Color => false,
            Pipeline::Uv => true,
            Pipeline::ColorUv => true,
            Pipeline::ColorLit => false,
            Pipeline::UvLit => true,
            Pipeline::ColorUvLit => true,
            Pipeline::Quad2d => true,
            Pipeline::Matcap => false,
            Pipeline::MatcapColor => false,
            Pipeline::MatcapUv => true,
            Pipeline::MatcapColorUv => true,
        }
    }

    /// Whether the vertex layout carries the extra lighting attributes.
    pub open spec fn spec_has_lighting(self) -> bool {
        match self {
            Pipeline::ColorLit => true,
            Pipeline::UvLit => true,
            Pipeline::ColorUvLit => true,
            _ => false,
        }
    }

    pub fn has_lighting(&self) -> (r: bool)
        ensures
            r == self.spec_has_lighting(),
    {
        match self {
            Pipeline::Color => false,
            Pipeline::Uv => false,
            Pipeline::ColorUv => false,
            Pipeline::ColorLit => true,
            Pipeline::UvLit => true,
            Pipeline::ColorUvLit => true,
            Pipeline::Quad2d => false,
            Pipeline::Matcap => false,
            Pipeline::MatcapColor => false,
            Pipeline::MatcapUv => false,
            Pipeline::MatcapColorUv => false,
        }
    }

    /// Whether the vertex layout carries normals (lit and matcap variants).
    pub open spec fn spec_has_normals(self) -> bool {
        match self {
            Pipeline::ColorLit => true,
            Pipeline::UvLit => true,
            Pipeline::ColorUvLit => true,
            Pipeline::Matcap => true,
            Pipeline::MatcapColor => true,
            Pipeline::MatcapUv => true,
            Pipeline::MatcapColorUv => true,
            _ => false,
        }
    }

    pub fn has_normals(&self) -> (r: bool)
        ensures
            r == self.spec_has_normals(),
    {
        match self {
            Pipeline::Color => false,
            Pipeline::Uv => false,
            Pipeline::ColorUv => false,
            Pipeline::ColorLit => true,
            Pipeline::UvLit => true,
            Pipeline::ColorUvLit => true,
            Pipeline::Quad2d => false,
            Pipeline::Matcap => true,
            Pipeline::MatcapColor => true,
            Pipeline::MatcapUv => true,
            Pipeline::MatcapColorUv => true,
        }
    }

    /// True iff every capability `into` requires (color, uv, lighting) is
    /// present in `self`, so that vertex data laid out for `self` can feed
    /// the narrower variant `into`.
    pub open spec fn spec_can_reduce(self, into: Self) -> bool {
        &&& (into.spec_has_color() ==> self.spec_has_color())
        &&& (into.spec_has_uv() ==> self.spec_has_uv())
        &&& (into.spec_has_lighting() ==> self.spec_has_lighting())
    }

    pub fn can_reduce(&self, into: Self) -> (r: bool)
        ensures
            r == self.spec_can_reduce(into),
    {
        let color = !into.has_color() || self.has_color();
        let uv = !into.has_uv() || self.has_uv();
        let lighting = !into.has_lighting() || self.has_lighting();

        color && uv && lighting
    }

    /// The variants that have a lit counterpart: the unlit and lit
    /// color/uv layouts. 2D quads and matcaps cannot be lit.
    pub open spec fn spec_can_be_lit(self) -> bool {
        match self {
            Pipeline::Color => true,
            Pipeline::Uv => true,
            Pipeline::ColorUv => true,
            Pipeline::ColorLit => true,
            Pipeline::UvLit => true,
            Pipeline::ColorUvLit => true,
            _ => false,
        }
    }

    /// The lit counterpart of a variant; lit variants map to themselves.
    pub open spec fn spec_lit(self) -> Self {
        match self {
            Pipeline::Color => Pipeline::ColorLit,
            Pipeline::Uv => Pipeline::UvLit,
            Pipeline::ColorUv => Pipeline::ColorUvLit,
            _ => self,
        }
    }

    pub fn lit(&self) -> (r: Self)
        requires
            self.spec_can_be_lit(),
        ensures
            r == self.spec_lit(),
            r.spec_has_lighting(),
    {
        match self {
            Pipeline::Color => Pipeline::ColorLit,
            Pipeline::Uv => Pipeline::UvLit,
            Pipeline::ColorUv => Pipeline::ColorUvLit,
            Pipeline::ColorLit => Pipeline::ColorLit,
            Pipeline::UvLit => Pipeline::UvLit,
            Pipeline::ColorUvLit => Pipeline::ColorUvLit,
            Pipeline::Quad2d => Pipeline::Quad2d,
            Pipeline::Matcap => Pipeline::Matcap,
            Pipeline::MatcapColor => Pipeline::MatcapColor,
            Pipeline::MatcapUv => Pipeline::MatcapUv,
            Pipeline::MatcapColorUv => Pipeline::MatcapColorUv,
        }
    }

    /// The variants that have a matcap counterpart: the unlit color/uv
    /// layouts and the matcap layouts themselves.
    pub open spec fn spec_can_be_matcap(self) -> bool {
        match self {
            Pipeline::Color => true,
            Pipeline::Uv => true,
            Pipeline::ColorUv => true,
            Pipeline::Matcap => true,
            Pipeline::MatcapColor => true,
            Pipeline::MatcapUv => true,
            Pipeline::MatcapColorUv => true,
            _ => false,
        }
    }

    /// The matcap counterpart of a variant; matcap variants map to themselves.
    pub open spec fn spec_matcap(self) -> Self {
        match self {
            Pipeline::Color => Pipeline::MatcapColor,
            Pipeline::Uv => Pipeline::MatcapUv,
            Pipeline::ColorUv => Pipeline::MatcapColorUv,
            _ => self,
        }
    }

    pub fn matcap(&self) -> (r: Self)
        requires
            self.spec_can_be_matcap(),
        ensures
            r == self.spec_matcap(),
            r.spec_has_normals(),
    {
        match self {
            Pipeline::Color => Pipeline::MatcapColor,
            Pipeline::Uv => Pipeline::MatcapUv,
            Pipeline::ColorUv => Pipeline::MatcapColorUv,
            Pipeline::ColorLit => Pipeline::ColorLit,
            Pipeline::UvLit => Pipeline::UvLit,
            Pipeline::ColorUvLit => Pipeline::ColorUvLit,
            Pipeline::Quad2d => Pipeline::Quad2d,
            Pipeline::Matcap => Pipeline::Matcap,
            Pipeline::MatcapColor => Pipeline::MatcapColor,
            Pipeline::MatcapUv => Pipeline::MatcapUv,
            Pipeline::MatcapColorUv => Pipeline::MatcapColorUv,
        }
    }

    /// The index of the variant's compiled render pipeline in the device's
    /// pipeline table, which is built in this same fixed order.
    pub open spec fn spec_shader_index(self) -> int {
        match self {
            Pipeline::Color => 0,
            Pipeline::Uv => 1,
            Pipeline::ColorUv => 2,
            Pipeline::ColorLit => 3,
            Pipeline::UvLit => 4,
            Pipeline::ColorUvLit => 5,
            Pipeline::Quad2d => 6,
            Pipeline::Matcap => 7,
            Pipeline::MatcapColor => 8,
            Pipeline::MatcapUv => 9,
            Pipeline::MatcapColorUv => 10,
        }
    }

    pub fn get_shader(&self) -> (r: usize)
        ensures
            r == self.spec_shader_index(),
            r < 11,
    {
        match self {
            Pipeline::Color => 0,
            Pipeline::Uv => 1,
            Pipeline::ColorUv => 2,
            Pipeline::ColorLit => 3,
            Pipeline::UvLit => 4,
            Pipeline::ColorUvLit => 5,
            Pipeline::Quad2d => 6,
            Pipeline::Matcap => 7,
            Pipeline::MatcapColor => 8,
            Pipeline::MatcapUv => 9,
            Pipeline::MatcapColorUv => 10,
        }
    }

    /// How many floats one vertex of this layout holds: three for the
    /// position, plus the variant's color/uv/normal/lighting attributes.
    pub open spec fn spec_attribute_count(self) -> int {
        3 + match self {
            Pipeline::Color => 3int,
            Pipeline::Uv => 2,
            Pipeline::ColorUv => 5,
            Pipeline::ColorLit => 9,
            Pipeline::UvLit => 8,
            Pipeline::ColorUvLit => 11,
            Pipeline::Quad2d => 5,
            Pipeline::Matcap => 3,
            Pipeline::MatcapColor => 6,
            Pipeline::MatcapUv => 5,
            Pipeline::MatcapColorUv => 8,
        }
    }

    pub fn get_attribute_count(&self) -> (r: usize)
        ensures
            r == self.spec_attribute_count(),
            5 <= r <= 14,
    {
        3 + match self {
            Pipeline::Color => 3,
            Pipeline::Uv => 2,
            Pipeline::ColorUv | Pipeline::Quad2d => 5,
            Pipeline::ColorLit => 9,
            Pipeline::UvLit => 8,
            Pipeline::ColorUvLit => 11,
            Pipeline::Matcap => 3,
            Pipeline::MatcapColor => 6,
            Pipeline::MatcapUv => 5,
            Pipeline::MatcapColorUv => 8,
        }
    }

    /// The byte stride of one vertex: four bytes per float attribute.
    pub open spec fn spec_vertex_size(self) -> int {
        self.spec_attribute_count() * 4
    }

    pub fn get_vertex_size(&self) -> (r: usize)
        ensures
            r == self.spec_vertex_size(),
            20 <= r <= 56,
    {
        self.get_attribute_count() * 4
    }
}

} // verus!
