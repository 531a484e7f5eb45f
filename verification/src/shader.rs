//! Shader sources and uniforms, as they are prepared for the GPU.

use vstd::prelude::*;
use vstd::string::StringExecFns;

verus! {

/// The two stages of the shader program.
#[derive(Clone, Copy, Debug, PartialEq, Eq, Structural)]
pub enum Stage {
    Vertex,
    Fragment,
}

/// The camera matrices that the shader program takes as uniforms.
#[derive(Clone, Copy, Debug, PartialEq, Eq, Structural)]
pub enum Uniform {
    View,
    Projection,
}

/// The shader program has no uniform of this name.
#[derive(Clone, Copy, Debug, PartialEq, Eq, Structural)]
pub struct MissingUniform {
    pub uniform: Uniform,
}

impl Stage {
    /// The file that holds the stage's source, relative to the working
    /// directory.
    pub open spec fn spec_path(self) -> Seq<char> {
        match self {
            Stage::Vertex => "shaders/grid_v.glsl"@,
            Stage::Fragment => "shaders/grid_f.glsl"@,
        }
    }

    /// The file that holds the stage's source, relative to the working
    /// directory.
    pub fn path(self) -> (path: &'static str)
        ensures
            path@ == self.spec_path(),
    {
        match self {
            Stage::Vertex => "shaders/grid_v.glsl",
            Stage::Fragment => "shaders/grid_f.glsl",
        }
    }
}

impl Stage {
    /// The last component of the stage's path.
    pub open spec fn spec_file_name(self) -> Seq<char> {
        match self {
            Stage::Vertex => "grid_v.glsl"@,
            Stage::Fragment => "grid_f.glsl"@,
        }
    }

    /// The last component of the stage's path.
    pub fn file_name(self) -> (file_name: &'static str)
        ensures
            file_name@ == self.spec_file_name(),
    {
        match self {
            Stage::Vertex => "grid_v.glsl",
            Stage::Fragment => "grid_f.glsl",
        }
    }

    /// The word by which messages call the stage.
    pub open spec fn spec_label(self) -> Seq<char> {
        match self {
            Stage::Vertex => "vertex"@,
            Stage::Fragment => "frag"@,
        }
    }

    /// The word by which messages call the stage.
    pub fn label(self) -> (label: &'static str)
        ensures
            label@ == self.spec_label(),
    {
        match self {
            Stage::Vertex => "vertex",
            Stage::Fragment => "frag",
        }
    }

    /// A stage's path is its file name inside the directory `shaders`, and
    /// the file name holds no separator of its own.
    pub proof fn path_ends_in_file_name(self)
        ensures
            self.spec_path() == "shaders/"@ + self.spec_file_name(),
            forall|i: int|
                0 <= i < self.spec_file_name().len() ==> self.spec_file_name()[i] != '/',
    {
        reveal_strlit("shaders/");
        reveal_strlit("shaders/grid_v.glsl");
        reveal_strlit("shaders/grid_f.glsl");
        reveal_strlit("grid_v.glsl");
        reveal_strlit("grid_f.glsl");
        assert(self.spec_path() =~= "shaders/"@ + self.spec_file_name());
    }
}

impl Uniform {
    /// The name by which the shader sources declare the uniform.
    pub open spec fn spec_name(self) -> Seq<char> {
        match self {
            Uniform::View => "view"@,
            Uniform::Projection => "projection"@,
        }
    }

    /// The name by which the shader sources declare the uniform.
    pub fn name(self) -> (name: &'static str)
        ensures
            name@ == self.spec_name(),
    {
        match self {
            Uniform::View => "view",
            Uniform::Projection => "projection",
        }
    }
}

/// The source as it is handed to the shader compiler: the text that was read,
/// followed by one NUL character. Nothing of the text is changed, also where
/// it holds a NUL already.
pub fn nul_terminated(source: String) -> (terminated: String)
    ensures
        terminated@ == source@.push('\0'),
{
    let mut terminated = source;
    terminated.append("\0");
    proof {
        reveal_strlit("\0");
        assert("\0"@ =~= seq!['\0']);
        assert(terminated@ =~= source@.push('\0'));
    }
    terminated
}

/// Takes the location that a lookup of `uniform` in the linked program gave.
/// A location that was found is handed on as it is; a lookup that found none
/// is an error that names the uniform.
pub fn require_location<L>(uniform: Uniform, location: Option<L>) -> (found: Result<
    L,
    MissingUniform,
>)
    ensures
        location matches Some(l) ==> found == Ok::<L, MissingUniform>(l),
        location is None ==> found == Err::<L, MissingUniform>(MissingUniform { uniform }),
{
    match location {
        Some(l) => Ok(l),
        None => Err(MissingUniform { uniform }),
    }
}

} // verus!
