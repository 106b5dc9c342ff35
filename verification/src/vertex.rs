//! Vertex layout description: element formats, attributes and the ordered
//! attribute list of a vertex buffer.

use vstd::prelude::*;

verus! {

/// Encoding of one vertex attribute value: a vector of one to four components,
/// each either a 32-bit float or an 8-bit unsigned integer. The integer
/// encodings come in a plain and a normalized flavour.
#[derive(Debug, Clone, Copy)]
pub enum VertexFormat {
    Float32,
    Float32x2,
    Float32x3,
    Float32x4,
    UInt8,
    UInt8Norm,
    UInt8x2,
    UInt8x2Norm,
    UInt8x3,
    UInt8x3Norm,
    UInt8x4,
    UInt8x4Norm,
}

impl VertexFormat {
    /// Number of scalar components the format encodes.
    pub open spec fn component_count(self) -> int {
        match self {
            VertexFormat::Float32 | VertexFormat::UInt8 | VertexFormat::UInt8Norm => 1,
            VertexFormat::Float32x2 | VertexFormat::UInt8x2 | VertexFormat::UInt8x2Norm => 2,
            VertexFormat::Float32x3 | VertexFormat::UInt8x3 | VertexFormat::UInt8x3Norm => 3,
            VertexFormat::Float32x4 | VertexFormat::UInt8x4 | VertexFormat::UInt8x4Norm => 4,
        }
    }

    /// Whether the components are 32-bit floats.
    pub open spec fn is_float(self) -> bool {
        self is Float32 || self is Float32x2 || self is Float32x3 || self is Float32x4
    }

    /// Whether the components are 8-bit unsigned integers.
    pub open spec fn is_uint8(self) -> bool {
        !self.is_float()
    }

    /// Whether the format is one of the normalized 8-bit integer encodings.
    pub open spec fn is_normalized(self) -> bool {
        self is UInt8Norm || self is UInt8x2Norm || self is UInt8x3Norm || self is UInt8x4Norm
    }

    /// Bytes taken by one value of the format: four per float component, one
    /// per integer component.
    pub open spec fn byte_size(self) -> int {
        if self.is_float() {
            4 * self.component_count()
        } else {
            self.component_count()
        }
    }

    /// Number of scalar components, from one to four.
    pub fn size(&self) -> (n: i32)
        ensures
            n == self.component_count(),
            1 <= n <= 4,
    {
        match self {
            VertexFormat::Float32 => 1,
            VertexFormat::Float32x2 => 2,
            VertexFormat::Float32x3 => 3,
            VertexFormat::Float32x4 => 4,
            VertexFormat::UInt8 => 1,
            VertexFormat::UInt8Norm => 1,
            VertexFormat::UInt8x2 => 2,
            VertexFormat::UInt8x2Norm => 2,
            VertexFormat::UInt8x3 => 3,
            VertexFormat::UInt8x3Norm => 3,
            VertexFormat::UInt8x4 => 4,
            VertexFormat::UInt8x4Norm => 4,
        }
    }

    /// Total bytes of one value: one byte per component for the integer
    /// formats, four per component for the float formats.
    pub fn bytes(&self) -> (n: i32)
        ensures
            n == self.byte_size(),
            self.is_uint8() ==> n == self.component_count(),
            self.is_float() ==> n == self.component_count() * 4,
    {
        match self {
            VertexFormat::UInt8
            | VertexFormat::UInt8x2
            | VertexFormat::UInt8x3
            | VertexFormat::UInt8x4 => self.size(),
            VertexFormat::UInt8Norm
            | VertexFormat::UInt8x2Norm
            | VertexFormat::UInt8x3Norm
            | VertexFormat::UInt8x4Norm => self.size(),
            _ => self.size() * 4,
        }
    }

    /// True exactly for the normalized 8-bit integer formats.
    pub fn normalized(&self) -> (b: bool)
        ensures
            b == self.is_normalized(),
    {
        match self {
            VertexFormat::UInt8Norm
            | VertexFormat::UInt8x2Norm
            | VertexFormat::UInt8x3Norm
            | VertexFormat::UInt8x4Norm => true,
            _ => false,
        }
    }
}

/// One input of the vertex shader: the slot it is bound to and the encoding of
/// its values. The pair is stored as given.
#[derive(Debug, Copy, Clone)]
pub struct VertexAttr {
    pub location: u32,
    pub format: VertexFormat,
}

impl VertexAttr {
    /// The attribute at `location` with values in the format `vertex_data`.
    pub fn new(location: u32, vertex_data: VertexFormat) -> (attr: Self)
        ensures
            attr == (VertexAttr { location, format: vertex_data }),
    {
        Self { location, format: vertex_data }
    }
}

/// Whether the attributes of a buffer advance once per vertex or once per
/// instance.
#[derive(Debug, Clone, Copy)]
pub enum VertexStepMode {
    Vertex,
    Instance,
}

impl Default for VertexStepMode {
    /// Attributes advance per vertex unless told otherwise.
    fn default() -> (mode: Self)
        ensures
            mode == VertexStepMode::Vertex,
    {
        VertexStepMode::Vertex
    }
}

/// Layout of a vertex buffer: its attributes, in the order in which they lie in
/// the buffer, and the step mode. Built by chaining `attr` and `step_mode` on
/// `new`.
#[derive(Debug)]
pub struct VertexInfo {
    pub attrs: Vec<VertexAttr>,
    pub step_mode: VertexStepMode,
}

impl Clone for VertexInfo {
    /// The same attributes in the same order, and the same step mode.
    fn clone(&self) -> (info: Self)
        ensures
            info.attrs@ == self.attrs@,
            info.step_mode == self.step_mode,
    {
        let info = VertexInfo { attrs: self.attrs.clone(), step_mode: self.step_mode };
        assert(info.attrs@ =~= self.attrs@);
        info
    }
}

impl Default for VertexInfo {
    /// The layout that `new` gives.
    fn default() -> (info: Self)
        ensures
            info.attrs@ == Seq::<VertexAttr>::empty(),
            info.step_mode == VertexStepMode::Vertex,
    {
        VertexInfo { attrs: Vec::new(), step_mode: VertexStepMode::Vertex }
    }
}

impl VertexInfo {
    /// A layout without attributes that steps per vertex.
    pub fn new() -> (info: Self)
        ensures
            info.attrs@ == Seq::<VertexAttr>::empty(),
            info.step_mode == VertexStepMode::Vertex,
    {
        VertexInfo { attrs: Vec::new(), step_mode: VertexStepMode::Vertex }
    }

    /// Appends one attribute behind those already given.
    pub fn attr(self, location: u32, format: VertexFormat) -> (info: Self)
        ensures
            info.attrs@ == self.attrs@.push(VertexAttr { location, format }),
            info.step_mode == self.step_mode,
    {
        let mut info = self;
        info.attrs.push(VertexAttr::new(location, format));
        info
    }

    /// Replaces the step mode and keeps the attributes.
    pub fn step_mode(self, mode: VertexStepMode) -> (info: Self)
        ensures
            info.attrs@ == self.attrs@,
            info.step_mode == mode,
    {
        let mut info = self;
        info.step_mode = mode;
        info
    }
}

/// The byte size of an 8-bit integer format is its component count, that of a
/// float format four times its component count.
pub proof fn byte_size_by_component_kind(format: VertexFormat)
    ensures
        format.is_uint8() ==> format.byte_size() == format.component_count(),
        format.is_float() ==> format.byte_size() == 4 * format.component_count(),
        format.is_float() != format.is_uint8(),
        1 <= format.component_count() <= 4,
{
}

/// No float format and no plain integer format is normalized; the normalized
/// formats are integer formats.
pub proof fn normalized_formats_are_uint8(format: VertexFormat)
    ensures
        format.is_float() ==> !format.is_normalized(),
        format.is_normalized() ==> format.is_uint8(),
        format.is_normalized() <==> (format == VertexFormat::UInt8Norm || format
            == VertexFormat::UInt8x2Norm || format == VertexFormat::UInt8x3Norm || format
            == VertexFormat::UInt8x4Norm),
{
}

} // verus!
