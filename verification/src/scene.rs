//! The shader sources of a program, as a scene assembles them.
use vstd::prelude::*;

verus! {

/// What the sources of a program say: the vertex and fragment shaders, the
/// optional tessellation and geometry shaders, and two output options.
pub struct GLSourceCodeView {
    pub vertex_shader: Seq<char>,
    pub fragment_shader: Seq<char>,
    pub tessellation_control_shader: Option<Seq<char>>,
    pub tessellation_evaluation_shader: Option<Seq<char>>,
    pub geometry_shader: Option<Seq<char>>,
    pub outputs_srgb: bool,
    pub uses_point_size: bool,
}

/// The source code of a shader program.
pub struct GLSourceCode<'a> {
    vertex_shader: &'a str,
    fragment_shader: &'a str,
    tessellation_control_shader: Option<&'a str>,
    tessellation_evaluation_shader: Option<&'a str>,
    geometry_shader: Option<&'a str>,
    outputs_srgb: bool,
    uses_point_size: bool,
}

/// The view of an optional shader.
pub open spec fn opt_view(s: Option<&str>) -> Option<Seq<char>> {
    match s {
        Some(s) => Some(s@),
        None => None,
    }
}

impl<'a> View for GLSourceCode<'a> {
    type V = GLSourceCodeView;

    closed spec fn view(&self) -> GLSourceCodeView {
        GLSourceCodeView {
            vertex_shader: self.vertex_shader@,
            fragment_shader: self.fragment_shader@,
            tessellation_control_shader: opt_view(self.tessellation_control_shader),
            tessellation_evaluation_shader: opt_view(self.tessellation_evaluation_shader),
            geometry_shader: opt_view(self.geometry_shader),
            outputs_srgb: self.outputs_srgb,
            uses_point_size: self.uses_point_size,
        }
    }
}

impl<'a> GLSourceCode<'a> {
    /// A program of a vertex and a fragment shader, without further stages,
    /// sRGB output or point sizes.
    pub fn new(vertex_shader: &'a str, fragment_shader: &'a str) -> (s: GLSourceCode<'a>)
        ensures
            s@ == (GLSourceCodeView {
                vertex_shader: vertex_shader@,
                fragment_shader: fragment_shader@,
                tessellation_control_shader: None,
                tessellation_evaluation_shader: None,
                geometry_shader: None,
                outputs_srgb: false,
                uses_point_size: false,
            }),
    {
        GLSourceCode {
            vertex_shader,
            fragment_shader,
            tessellation_control_shader: None,
            tessellation_evaluation_shader: None,
            geometry_shader: None,
            outputs_srgb: false,
            uses_point_size: false,
        }
    }

    /// The same program with `shader` as its geometry shader.
    pub fn with_geometry_shader(self, shader: &'a str) -> (s: GLSourceCode<'a>)
        ensures
            s@ == (GLSourceCodeView { geometry_shader: Some(shader@), ..self@ }),
    {
        GLSourceCode { geometry_shader: Some(shader), ..self }
    }

    /// The same program with `shader` as its tessellation control shader.
    pub fn with_tessellation_control_shader(self, shader: &'a str) -> (s: GLSourceCode<'a>)
        ensures
            s@ == (GLSourceCodeView { tessellation_control_shader: Some(shader@), ..self@ }),
    {
        GLSourceCode { tessellation_control_shader: Some(shader), ..self }
    }

    /// The same program with `shader` as its tessellation evaluation shader.
    pub fn with_tessellation_evaluation_shader(self, shader: &'a str) -> (s: GLSourceCode<'a>)
        ensures
            s@ == (GLSourceCodeView { tessellation_evaluation_shader: Some(shader@), ..self@ }),
    {
        GLSourceCode { tessellation_evaluation_shader: Some(shader), ..self }
    }

    /// The same program with sRGB output switched on or off.
    pub fn with_srgb_output(self, is_enable: bool) -> (s: GLSourceCode<'a>)
        ensures
            s@ == (GLSourceCodeView { outputs_srgb: is_enable, ..self@ }),
    {
        GLSourceCode { outputs_srgb: is_enable, ..self }
    }

    /// The same program with shader-set point sizes switched on or off.
    pub fn with_point_size_enable(self, is_enable: bool) -> (s: GLSourceCode<'a>)
        ensures
            s@ == (GLSourceCodeView { uses_point_size: is_enable, ..self@ }),
    {
        GLSourceCode { uses_point_size: is_enable, ..self }
    }

    pub fn vertex_shader(&self) -> (s: &'a str)
        ensures
            s@ == self@.vertex_shader,
    {
        self.vertex_shader
    }

    pub fn fragment_shader(&self) -> (s: &'a str)
        ensures
            s@ == self@.fragment_shader,
    {
        self.fragment_shader
    }

    pub fn tessellation_control_shader(&self) -> (s: Option<&'a str>)
        ensures
            opt_view(s) == self@.tessellation_control_shader,
    {
        self.tessellation_control_shader
    }

    pub fn tessellation_evaluation_shader(&self) -> (s: Option<&'a str>)
        ensures
            opt_view(s) == self@.tessellation_evaluation_shader,
    {
        self.tessellation_evaluation_shader
    }

    pub fn geometry_shader(&self) -> (s: Option<&'a str>)
        ensures
            opt_view(s) == self@.geometry_shader,
    {
        self.geometry_shader
    }

    pub fn outputs_srgb(&self) -> (b: bool)
        ensures
            b == self@.outputs_srgb,
    {
        self.outputs_srgb
    }

    pub fn uses_point_size(&self) -> (b: bool)
        ensures
            b == self@.uses_point_size,
    {
        self.uses_point_size
    }
}

} // verus!
