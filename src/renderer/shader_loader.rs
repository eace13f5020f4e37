use vstd::prelude::*;

verus! {

/// The stage a shader module runs at.
#[derive(Clone, Copy, Debug, PartialEq, Eq, Structural)]
pub enum ShaderType {
    Vertex,
    Fragment,
}

/// A compiled shader module, named by the handle under which the host keeps
/// it, with the stage and the name it is looked up by.
pub struct LoadedShader {
    pub shader: u64,
    pub shader_type: ShaderType,
    pub name: String,
}

/// Whether `s` is the shader of stage `shader_type` called `name`.
pub open spec fn is_shader(s: LoadedShader, shader_type: ShaderType, name: Seq<char>) -> bool {
    s.shader_type == shader_type && s.name@ == name
}

/// The shader modules a renderer draws with, looked up by stage and name.
pub struct ShaderContainer {
    shaders: Vec<LoadedShader>,
}

/// The name under which the built-in pass-through shaders are registered.
pub open spec fn direct_name() -> Seq<char> {
    seq!['d', 'i', 'r', 'e', 'c', 't']
}

impl ShaderContainer {
    pub closed spec fn shaders(self) -> Seq<LoadedShader> {
        self.shaders@
    }

    /// A container that holds the pass-through vertex and fragment shaders,
    /// both called "direct", given as the handles of their compiled modules.
    pub fn load(vertex: u64, fragment: u64) -> (r: ShaderContainer)
        ensures
            r.shaders().len() == 2,
            r.shaders()[0].shader == vertex,
            r.shaders()[0].shader_type == ShaderType::Vertex,
            r.shaders()[0].name@ == direct_name(),
            r.shaders()[1].shader == fragment,
            r.shaders()[1].shader_type == ShaderType::Fragment,
            r.shaders()[1].name@ == direct_name(),
    {
        let mut shaders: Vec<LoadedShader> = Vec::new();
        proof {
            reveal_strlit("direct");
        }
        shaders.push(
            LoadedShader { name: "direct".to_owned(), shader_type: ShaderType::Vertex, shader: vertex },
        );
        shaders.push(
            LoadedShader {
                name: "direct".to_owned(),
                shader_type: ShaderType::Fragment,
                shader: fragment,
            },
        );
        assert(shaders@[0].name@ =~= direct_name());
        assert(shaders@[1].name@ =~= direct_name());
        ShaderContainer { shaders }
    }

    /// The first shader of stage `shader_type` called `name`, or `None` when
    /// the container holds no such shader.
    pub fn get_shader(&self, shader_type: ShaderType, name: &str) -> (r: Option<u64>)
        ensures
            r.is_none() <==> forall|i: int|
                0 <= i < self.shaders().len() ==> !is_shader(
                    #[trigger] self.shaders()[i],
                    shader_type,
                    name@,
                ),
            r.is_some() ==> exists|i: int|
                0 <= i < self.shaders().len() && is_shader(
                    #[trigger] self.shaders()[i],
                    shader_type,
                    name@,
                ) && self.shaders()[i].shader == r.unwrap() && forall|j: int|
                    0 <= j < i ==> !is_shader(self.shaders()[j], shader_type, name@),
    {
        let wanted: String = name.to_owned();
        let mut i: usize = 0;
        while i < self.shaders.len()
            invariant
                0 <= i <= self.shaders@.len(),
                wanted@ == name@,
                forall|j: int| 0 <= j < i ==> !is_shader(#[trigger] self.shaders@[j], shader_type, name@),
            decreases self.shaders@.len() - i,
        {
            let shader = &self.shaders[i];
            if shader.shader_type == shader_type && shader.name == wanted {
                assert(self.shaders() == self.shaders@);
                assert(is_shader(self.shaders@[i as int], shader_type, name@));
                return Some(shader.shader);
            }
            i = i + 1;
        }
        None
    }
}

} // verus!
