//! Shader programs: their declared interface and the parameter values
//! supplied for it.
use vstd::prelude::*;
use crate::error::ParameterError;

verus! {

/// A linked program known to the device.
pub type ProgramName = u32;

/// A buffer object known to the device.
pub type BufferName = u32;

/// A sampler object known to the device.
pub type SamplerName = u32;

/// Location of a uniform variable in a program.
pub type Location = u32;

/// The element type a shader declares for a vertex input.
#[derive(Clone, Copy, Debug, PartialEq, Eq, Structural)]
pub enum BaseType {
    BaseI32,
    BaseU32,
    BaseF32,
    BaseF64,
    BaseBool,
}

/// A value for a uniform variable.
#[derive(Clone, Copy, Debug, PartialEq, Eq, Structural)]
pub enum UniformValue {
    ValueI32(i32),
    ValueU32(u32),
    ValueI32Vector2(i32, i32),
    ValueI32Vector4(i32, i32, i32, i32),
}

/// The kind of a texture object.
#[derive(Clone, Copy, Debug, PartialEq, Eq, Structural)]
pub enum TextureKind {
    Texture1D,
    Texture1DArray,
    Texture2D,
    Texture2DArray,
    TextureCube,
    Texture3D,
}

/// Dimensions and layout of a texture.
#[derive(Clone, Copy, Debug, PartialEq, Eq, Structural)]
pub struct TextureInfo {
    pub width: u16,
    pub height: u16,
    pub depth: u16,
    pub levels: u8,
    pub kind: TextureKind,
}

/// A region of one mip level of a texture.
#[derive(Clone, Copy, Debug, PartialEq, Eq, Structural)]
pub struct ImageInfo {
    pub xoffset: u16,
    pub yoffset: u16,
    pub zoffset: u16,
    pub width: u16,
    pub height: u16,
    pub depth: u16,
    pub mipmap: u8,
}

impl TextureInfo {
    /// The region lies inside the texture.
    pub open spec fn contains_spec(&self, img: &ImageInfo) -> bool {
        &&& img.mipmap < self.levels
        &&& img.xoffset + img.width <= self.width
        &&& img.yoffset + img.height <= self.height
        &&& img.zoffset + img.depth <= self.depth
    }

    /// Whether the region lies inside the texture.
    pub fn contains(&self, img: &ImageInfo) -> (r: bool)
        ensures
            r == self.contains_spec(img),
    {
        img.mipmap < self.levels
            && (img.xoffset as u32) + (img.width as u32) <= self.width as u32
            && (img.yoffset as u32) + (img.height as u32) <= self.height as u32
            && (img.zoffset as u32) + (img.depth as u32) <= self.depth as u32
    }
}

/// A texture object with its description.
#[derive(Clone, Copy, Debug, PartialEq, Eq, Structural)]
pub struct TextureHandle {
    pub name: u32,
    pub info: TextureInfo,
}

/// A buffer object with its capacity in bytes.
#[derive(Clone, Copy, Debug, PartialEq, Eq, Structural)]
pub struct BufferHandle {
    pub name: BufferName,
    pub size: usize,
}

/// A declared uniform variable.
#[derive(Clone, Debug, PartialEq, Eq)]
pub struct UniformVar {
    pub name: String,
    pub location: Location,
}

/// A declared uniform block.
#[derive(Clone, Debug, PartialEq, Eq)]
pub struct BlockVar {
    pub name: String,
}

/// A declared texture and sampler pair, with its sampler-unit uniform.
#[derive(Clone, Debug, PartialEq, Eq)]
pub struct SamplerVar {
    pub name: String,
    pub location: Location,
}

/// A declared vertex input.
#[derive(Clone, Debug, PartialEq, Eq)]
pub struct AttributeVar {
    pub name: String,
    pub location: u8,
    pub base_type: BaseType,
}

/// The interface a linked program declares.
#[derive(Clone, Debug, PartialEq, Eq)]
pub struct ProgramInfo {
    pub uniforms: Vec<UniformVar>,
    pub blocks: Vec<BlockVar>,
    pub textures: Vec<SamplerVar>,
    pub attributes: Vec<AttributeVar>,
}

/// A linked program with its declared interface.
#[derive(Clone, Debug, PartialEq, Eq)]
pub struct ProgramHandle {
    pub name: ProgramName,
    pub info: ProgramInfo,
}

/// A texture supplied for a declared sampler slot, with its sampler.
#[derive(Clone, Copy, Debug, PartialEq, Eq, Structural)]
pub struct TextureParam {
    pub texture: TextureHandle,
    pub sampler: SamplerName,
}

/// Values supplied for a program's parameters, one optional slot per
/// declared uniform, block and texture, in declaration order. A slot past
/// the end of its list counts as absent.
#[derive(Clone, Debug, PartialEq, Eq)]
pub struct ParamValues {
    pub uniforms: Vec<Option<UniformValue>>,
    pub blocks: Vec<Option<BufferName>>,
    pub textures: Vec<Option<TextureParam>>,
}

/// The slot at `i`, absent when `i` lies past the end.
pub open spec fn slot<T>(vals: Seq<Option<T>>, i: int) -> Option<T> {
    if 0 <= i < vals.len() {
        vals[i]
    } else {
        None
    }
}

impl ParamValues {
    /// One absent slot for each parameter that `info` declares.
    pub fn new(info: &ProgramInfo) -> (r: ParamValues)
        ensures
            r.uniforms@.len() == info.uniforms@.len(),
            r.blocks@.len() == info.blocks@.len(),
            r.textures@.len() == info.textures@.len(),
            forall|i: int| 0 <= i < r.uniforms@.len() ==> #[trigger] r.uniforms@[i] is None,
            forall|i: int| 0 <= i < r.blocks@.len() ==> #[trigger] r.blocks@[i] is None,
            forall|i: int| 0 <= i < r.textures@.len() ==> #[trigger] r.textures@[i] is None,
    {
        let mut uniforms: Vec<Option<UniformValue>> = Vec::new();
        let mut blocks: Vec<Option<BufferName>> = Vec::new();
        let mut textures: Vec<Option<TextureParam>> = Vec::new();
        let mut i: usize = 0;
        while i < info.uniforms.len()
            invariant
                i <= info.uniforms@.len(),
                uniforms@.len() == i,
                forall|j: int| 0 <= j < i ==> #[trigger] uniforms@[j] is None,
            decreases info.uniforms@.len() - i,
        {
            uniforms.push(None);
            i = i + 1;
        }
        i = 0;
        while i < info.blocks.len()
            invariant
                i <= info.blocks@.len(),
                blocks@.len() == i,
                forall|j: int| 0 <= j < i ==> #[trigger] blocks@[j] is None,
            decreases info.blocks@.len() - i,
        {
            blocks.push(None);
            i = i + 1;
        }
        i = 0;
        while i < info.textures.len()
            invariant
                i <= info.textures@.len(),
                textures@.len() == i,
                forall|j: int| 0 <= j < i ==> #[trigger] textures@[j] is None,
            decreases info.textures@.len() - i,
        {
            textures.push(None);
            i = i + 1;
        }
        ParamValues { uniforms, blocks, textures }
    }
}

/// The names of the uniforms, blocks and textures a parameter set
/// supplies, checked against a program's interface when it is linked.
#[derive(Clone, Debug, PartialEq, Eq)]
pub struct ParamNames {
    pub uniforms: Vec<String>,
    pub blocks: Vec<String>,
    pub textures: Vec<String>,
}

/// Some string of `names` equals `n`.
pub open spec fn provides(names: Seq<String>, n: Seq<char>) -> bool {
    exists|i: int| 0 <= i < names.len() && #[trigger] names[i]@ == n
}

/// How many leading declared names, of the first `n`, are supplied.
pub open spec fn covered_prefix(decl: Seq<Seq<char>>, names: Seq<String>, n: nat) -> nat
    decreases n,
{
    if n == 0 {
        0
    } else {
        let p = covered_prefix(decl, names, (n - 1) as nat);
        if p == n - 1 && provides(names, decl[n - 1]) {
            n
        } else {
            p
        }
    }
}

/// Once a name is not supplied, the covered prefix stops growing.
pub proof fn lemma_covered_prefix_stable(decl: Seq<Seq<char>>, names: Seq<String>, i: nat, n: nat)
    requires
        i <= n,
        covered_prefix(decl, names, i) < i,
    ensures
        covered_prefix(decl, names, n) == covered_prefix(decl, names, i),
    decreases n,
{
    if n > i {
        lemma_covered_prefix_stable(decl, names, i, (n - 1) as nat);
    }
}

/// The declared uniform names, in order.
pub open spec fn uniform_names(info: ProgramInfo) -> Seq<Seq<char>> {
    info.uniforms@.map_values(|v: UniformVar| v.name@)
}

/// The declared block names, in order.
pub open spec fn block_names(info: ProgramInfo) -> Seq<Seq<char>> {
    info.blocks@.map_values(|v: BlockVar| v.name@)
}

/// The declared texture names, in order.
pub open spec fn texture_names(info: ProgramInfo) -> Seq<Seq<char>> {
    info.textures@.map_values(|v: SamplerVar| v.name@)
}

/// Every declared uniform, block and texture is supplied by `names`.
pub open spec fn connect_ok(info: ProgramInfo, names: ParamNames) -> bool {
    &&& covered_prefix(uniform_names(info), names.uniforms@, info.uniforms@.len()) == info.uniforms@.len()
    &&& covered_prefix(block_names(info), names.blocks@, info.blocks@.len()) == info.blocks@.len()
    &&& covered_prefix(texture_names(info), names.textures@, info.textures@.len()) == info.textures@.len()
}

/// `e` names the first declared parameter that `names` does not supply:
/// uniforms before blocks, blocks before textures.
pub open spec fn connect_failure(info: ProgramInfo, names: ParamNames, e: ParameterError) -> bool {
    let up = covered_prefix(uniform_names(info), names.uniforms@, info.uniforms@.len());
    let bp = covered_prefix(block_names(info), names.blocks@, info.blocks@.len());
    let tp = covered_prefix(texture_names(info), names.textures@, info.textures@.len());
    if up < info.uniforms@.len() {
        e matches ParameterError::ErrorParamUniform(n) && n@ == info.uniforms@[up as int].name@
    } else if bp < info.blocks@.len() {
        e matches ParameterError::ErrorParamBlock(n) && n@ == info.blocks@[bp as int].name@
    } else if tp < info.textures@.len() {
        e matches ParameterError::ErrorParamTexture(n) && n@ == info.textures@[tp as int].name@
    } else {
        false
    }
}

fn has_name(names: &Vec<String>, n: &String) -> (r: bool)
    ensures
        r == provides(names@, n@),
{
    let mut j: usize = 0;
    while j < names.len()
        invariant
            j <= names@.len(),
            forall|k: int| 0 <= k < j ==> names@[k]@ != n@,
        decreases names@.len() - j,
    {
        if names[j] == *n {
            return true;
        }
        j = j + 1;
    }
    false
}

/// Checks that `names` supplies every parameter `info` declares, failing
/// at the first one it does not.
pub fn connect(info: &ProgramInfo, names: &ParamNames) -> (r: Result<(), ParameterError>)
    ensures
        r is Ok <==> connect_ok(*info, *names),
        r matches Err(e) ==> connect_failure(*info, *names, e),
{
    let ghost ud = uniform_names(*info);
    let ghost bd = block_names(*info);
    let ghost td = texture_names(*info);
    let mut i: usize = 0;
    while i < info.uniforms.len()
        invariant
            i <= info.uniforms@.len(),
            ud == uniform_names(*info),
            covered_prefix(ud, names.uniforms@, i as nat) == i,
        decreases info.uniforms@.len() - i,
    {
        assert(ud[i as int] == info.uniforms@[i as int].name@);
        if !has_name(&names.uniforms, &info.uniforms[i].name) {
            proof {
                lemma_covered_prefix_stable(ud, names.uniforms@, (i + 1) as nat, info.uniforms@.len());
            }
            return Err(ParameterError::ErrorParamUniform(info.uniforms[i].name.clone()));
        }
        i = i + 1;
    }
    i = 0;
    while i < info.blocks.len()
        invariant
            i <= info.blocks@.len(),
            ud == uniform_names(*info),
            bd == block_names(*info),
            covered_prefix(ud, names.uniforms@, info.uniforms@.len()) == info.uniforms@.len(),
            covered_prefix(bd, names.blocks@, i as nat) == i,
        decreases info.blocks@.len() - i,
    {
        assert(bd[i as int] == info.blocks@[i as int].name@);
        if !has_name(&names.blocks, &info.blocks[i].name) {
            proof {
                lemma_covered_prefix_stable(bd, names.blocks@, (i + 1) as nat, info.blocks@.len());
            }
            return Err(ParameterError::ErrorParamBlock(info.blocks[i].name.clone()));
        }
        i = i + 1;
    }
    i = 0;
    while i < info.textures.len()
        invariant
            i <= info.textures@.len(),
            ud == uniform_names(*info),
            bd == block_names(*info),
            td == texture_names(*info),
            covered_prefix(ud, names.uniforms@, info.uniforms@.len()) == info.uniforms@.len(),
            covered_prefix(bd, names.blocks@, info.blocks@.len()) == info.blocks@.len(),
            covered_prefix(td, names.textures@, i as nat) == i,
        decreases info.textures@.len() - i,
    {
        assert(td[i as int] == info.textures@[i as int].name@);
        if !has_name(&names.textures, &info.textures[i].name) {
            proof {
                lemma_covered_prefix_stable(td, names.textures@, (i + 1) as nat, info.textures@.len());
            }
            return Err(ParameterError::ErrorParamTexture(info.textures[i].name.clone()));
        }
        i = i + 1;
    }
    Ok(())
}

} // verus!
