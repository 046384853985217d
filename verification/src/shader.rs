//! Shader programs: the kind of a shader as its file extension tells it,
//! and the record of a program that is being put together.
use vstd::prelude::*;

verus! {

/// A linked shader program.
#[derive(Clone, Copy, Debug, PartialEq, Eq)]
pub struct Shader {
    /// Handle of the program.
    pub program_id: u32,
}

/// A shader program that is being put together: its handle, and the
/// compiled shaders that go into it, in the order in which they came.
#[derive(Debug)]
pub struct ShaderBuilder {
    program_id: u32,
    shaders: Vec<u32>,
}

/// The stages of the pipeline that a shader can be written for.
#[derive(Clone, Copy, Debug, PartialEq, Eq)]
pub enum ShaderType {
    Vertex,
    Fragment,
    TessellationControl,
    TessellationEvaluation,
    Geometry,
}

/// The kind of shader that a file extension stands for, if any.
pub open spec fn shader_type_of(ext: Seq<char>) -> Option<ShaderType> {
    if ext == "vert"@ {
        Some(ShaderType::Vertex)
    } else if ext == "frag"@ {
        Some(ShaderType::Fragment)
    } else if ext == "tcs"@ {
        Some(ShaderType::TessellationControl)
    } else if ext == "tes"@ {
        Some(ShaderType::TessellationEvaluation)
    } else if ext == "geom"@ {
        Some(ShaderType::Geometry)
    } else {
        None
    }
}

/// The two texts are the same.
fn same_text(a: &str, b: &str) -> (same: bool)
    ensures
        same == (a@ == b@),
{
    a.to_owned() == b.to_owned()
}

impl ShaderType {
    /// The kind of shader that the file extension `ext` stands for. An
    /// extension that stands for none comes back as the error.
    pub fn from_ext(ext: &str) -> (kind: Result<ShaderType, String>)
        ensures
            match shader_type_of(ext@) {
                Some(t) => kind == Ok::<ShaderType, String>(t),
                None => kind matches Err(e) && e@ == ext@,
            },
    {
        if same_text(ext, "vert") {
            Ok(ShaderType::Vertex)
        } else if same_text(ext, "frag") {
            Ok(ShaderType::Fragment)
        } else if same_text(ext, "tcs") {
            Ok(ShaderType::TessellationControl)
        } else if same_text(ext, "tes") {
            Ok(ShaderType::TessellationEvaluation)
        } else if same_text(ext, "geom") {
            Ok(ShaderType::Geometry)
        } else {
            Err(ext.to_owned())
        }
    }
}

impl ShaderBuilder {
    /// The handle of the program.
    pub closed spec fn program(&self) -> u32 {
        self.program_id
    }

    /// The compiled shaders taken in so far, oldest first.
    pub closed spec fn compiled(&self) -> Seq<u32> {
        self.shaders@
    }

    /// Starts on the program with the handle `program_id`; no shader is in
    /// it yet.
    pub fn new(program_id: u32) -> (builder: ShaderBuilder)
        ensures
            builder.program() == program_id,
            builder.compiled() == Seq::<u32>::empty(),
    {
        ShaderBuilder { program_id, shaders: Vec::new() }
    }

    /// Takes in a compiled shader.
    pub fn with_shader(self, shader: u32) -> (builder: ShaderBuilder)
        ensures
            builder.program() == self.program(),
            builder.compiled() == self.compiled().push(shader),
    {
        let mut builder = self;
        builder.shaders.push(shader);
        builder
    }

    /// The handle of the program.
    pub fn program_id(&self) -> (id: u32)
        ensures
            id == self.program(),
    {
        self.program_id
    }

    /// The compiled shaders taken in so far, oldest first.
    pub fn shaders(&self) -> (shaders: &Vec<u32>)
        ensures
            shaders@ == self.compiled(),
    {
        &self.shaders
    }

    /// The program, once its shaders are linked.
    pub fn finish(self) -> (shader: Shader)
        ensures
            shader.program_id == self.program(),
    {
        Shader { program_id: self.program_id }
    }
}

} // verus!
