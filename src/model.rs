//! The mathematical model of a renderer: what each operation appends to
//! the command sequence and how it moves the shadow frame state.
use vstd::prelude::*;
use crate::command::{ArrayBufferName, Command, FrameBufferName};
use crate::error::{DrawError, MeshError, ParameterError};
use crate::mesh::{compatible, find_attr, Attribute, IndexType, Mesh, Slice};
use crate::state::DrawState;
use crate::shade::{
    slot, BufferName, ProgramHandle, ProgramName, ParamValues, SamplerVar, TextureParam,
    AttributeVar, UniformValue, UniformVar,
};
use crate::target::{Frame, Plane, Rect, Target, MAX_COLOR_TARGETS};

verus! {

/// What a renderer holds, as seen by its contracts.
pub ghost struct RendererView {
    /// The recorded command sequence.
    pub commands: Seq<Command>,
    /// The shared vertex array object, where the device has one.
    pub common_array_buffer: Option<ArrayBufferName>,
    /// The frame buffer used for every non-default frame.
    pub common_frame_buffer: FrameBufferName,
    /// The platform-provided frame buffer.
    pub default_frame_buffer: FrameBufferName,
    /// The last non-default frame bound: the shadow frame state.
    pub frame: Frame,
}

/// A frame of size zero with nothing attached: the shadow state of a
/// renderer that has bound nothing yet.
pub open spec fn is_blank(f: Frame) -> bool {
    f.width == 0 && f.height == 0 && f.is_default_spec()
}

/// A renderer that has recorded nothing and bound nothing, sharing the
/// given resources.
pub open spec fn is_fresh(
    v: RendererView,
    common_array_buffer: Option<ArrayBufferName>,
    common_frame_buffer: FrameBufferName,
    default_frame_buffer: FrameBufferName,
) -> bool {
    &&& v.commands == Seq::<Command>::empty()
    &&& v.common_array_buffer == common_array_buffer
    &&& v.common_frame_buffer == common_frame_buffer
    &&& v.default_frame_buffer == default_frame_buffer
    &&& is_blank(v.frame)
}

/// The command that makes `to` hold `plane`.
pub open spec fn target_cmd(to: Target, plane: Plane) -> Command {
    match plane {
        Plane::PlaneEmpty => Command::UnbindTarget(to),
        Plane::PlaneSurface(s) => Command::BindTargetSurface(to, s),
        Plane::PlaneTexture(t, level, layer) => Command::BindTargetTexture(to, t, level, layer),
    }
}

/// Commands for the first `n` color slots whose plane changes from `cur`
/// to `new`, in slot order.
pub open spec fn color_diff_cmds(cur: Seq<Plane>, new: Seq<Plane>, n: nat) -> Seq<Command>
    decreases n,
{
    if n == 0 {
        seq![]
    } else {
        let prev = color_diff_cmds(cur, new, (n - 1) as nat);
        let i = n - 1;
        if cur[i] != new[i] {
            prev.push(target_cmd(Target::TargetColor(i as u8), new[i]))
        } else {
            prev
        }
    }
}

/// Commands for a slot that changes from `cur` to `new`: one or none.
pub open spec fn slot_diff_cmds(to: Target, cur: Plane, new: Plane) -> Seq<Command> {
    if cur != new {
        seq![target_cmd(to, new)]
    } else {
        seq![]
    }
}

/// The attachment commands that turn `cur` into `new`: color slots in
/// order, then depth, then stencil, each only where it changes.
pub open spec fn attachment_cmds(cur: Frame, new: Frame) -> Seq<Command> {
    color_diff_cmds(cur.colors@, new.colors@, MAX_COLOR_TARGETS as nat)
        + slot_diff_cmds(Target::TargetDepth, cur.depth, new.depth)
        + slot_diff_cmds(Target::TargetStencil, cur.stencil, new.stencil)
}

/// The viewport covering a whole frame.
pub open spec fn viewport_of(f: Frame) -> Rect {
    Rect { x: 0, y: 0, w: f.width, h: f.height }
}

/// What binding `f` appends.
pub open spec fn frame_cmds(v: RendererView, f: Frame) -> Seq<Command> {
    if f.is_default_spec() {
        seq![Command::SetViewport(viewport_of(f)), Command::BindFrameBuffer(v.default_frame_buffer)]
    } else {
        seq![Command::SetViewport(viewport_of(f)), Command::BindFrameBuffer(v.common_frame_buffer)]
            + attachment_cmds(v.frame, f)
    }
}

/// The renderer after binding `f`: the default frame leaves the shadow
/// state alone, any other frame replaces it.
pub open spec fn after_bind_frame(v: RendererView, f: Frame) -> RendererView {
    RendererView {
        commands: v.commands + frame_cmds(v, f),
        frame: if f.is_default_spec() { v.frame } else { f },
        ..v
    }
}

/// How many leading slots, of the first `n`, hold a value.
pub open spec fn present_prefix<T>(vals: Seq<Option<T>>, n: nat) -> nat
    decreases n,
{
    if n == 0 {
        0
    } else {
        let p = present_prefix(vals, (n - 1) as nat);
        if p == n - 1 && slot(vals, n - 1) is Some {
            n
        } else {
            p
        }
    }
}

/// Once a slot is absent, the present prefix stops growing.
pub proof fn lemma_present_prefix_stable<T>(vals: Seq<Option<T>>, i: nat, n: nat)
    requires
        i <= n,
        present_prefix(vals, i) < i,
    ensures
        present_prefix(vals, n) == present_prefix(vals, i),
    decreases n,
{
    if n > i {
        lemma_present_prefix_stable(vals, i, (n - 1) as nat);
    }
}

/// The present prefix never exceeds its bound.
pub proof fn lemma_present_prefix_bound<T>(vals: Seq<Option<T>>, n: nat)
    ensures
        present_prefix(vals, n) <= n,
    decreases n,
{
    if n > 0 {
        lemma_present_prefix_bound(vals, (n - 1) as nat);
    }
}

/// Uniform-set commands for the first `n` declared uniforms.
pub open spec fn uniform_cmds(vars: Seq<UniformVar>, vals: Seq<Option<UniformValue>>, n: nat) -> Seq<Command>
    decreases n,
{
    if n == 0 {
        seq![]
    } else {
        uniform_cmds(vars, vals, (n - 1) as nat).push(
            Command::BindUniform(vars[n - 1].location, slot(vals, n - 1)->Some_0),
        )
    }
}

/// Block bindings for the first `n` declared blocks: block `i` goes to
/// buffer slot `i` and block index `i`.
pub open spec fn block_cmds(prog: ProgramName, vals: Seq<Option<BufferName>>, n: nat) -> Seq<Command>
    decreases n,
{
    if n == 0 {
        seq![]
    } else {
        block_cmds(prog, vals, (n - 1) as nat).push(
            Command::BindUniformBlock(prog, (n - 1) as u8, (n - 1) as u8, slot(vals, n - 1)->Some_0),
        )
    }
}

/// The two commands for texture `i`: its sampler uniform set to unit
/// `i`, then the texture and sampler bound to unit `i`.
pub open spec fn texture_pair(var: SamplerVar, i: int, t: TextureParam) -> Seq<Command> {
    seq![
        Command::BindUniform(var.location, UniformValue::ValueI32(i as i32)),
        Command::BindTexture(i as u8, t.texture.info.kind, t.texture.name, t.sampler),
    ]
}

/// Texture bindings for the first `n` declared textures.
pub open spec fn texture_cmds(vars: Seq<SamplerVar>, vals: Seq<Option<TextureParam>>, n: nat) -> Seq<Command>
    decreases n,
{
    if n == 0 {
        seq![]
    } else {
        texture_cmds(vars, vals, (n - 1) as nat) + texture_pair(
            vars[n - 1],
            n - 1,
            slot(vals, n - 1)->Some_0,
        )
    }
}

/// Number of leading declared uniforms that have a value.
pub open spec fn uniform_prefix(prog: ProgramHandle, params: ParamValues) -> nat {
    present_prefix(params.uniforms@, prog.info.uniforms@.len())
}

/// Number of leading declared blocks that have a value.
pub open spec fn block_prefix(prog: ProgramHandle, params: ParamValues) -> nat {
    present_prefix(params.blocks@, prog.info.blocks@.len())
}

/// Number of leading declared textures that have a value.
pub open spec fn texture_prefix(prog: ProgramHandle, params: ParamValues) -> nat {
    present_prefix(params.textures@, prog.info.textures@.len())
}

/// Every declared parameter has a value.
pub open spec fn program_ok(prog: ProgramHandle, params: ParamValues) -> bool {
    &&& uniform_prefix(prog, params) == prog.info.uniforms@.len()
    &&& block_prefix(prog, params) == prog.info.blocks@.len()
    &&& texture_prefix(prog, params) == prog.info.textures@.len()
}

/// `e` names the first declared parameter without a value: uniforms are
/// looked at before blocks, blocks before textures.
pub open spec fn program_failure(prog: ProgramHandle, params: ParamValues, e: ParameterError) -> bool {
    let info = prog.info;
    let up = uniform_prefix(prog, params);
    let bp = block_prefix(prog, params);
    let tp = texture_prefix(prog, params);
    if up < info.uniforms@.len() {
        e matches ParameterError::ErrorParamUniform(n) && n@ == info.uniforms@[up as int].name@
    } else if bp < info.blocks@.len() {
        e matches ParameterError::ErrorParamBlock(n) && n@ == info.blocks@[bp as int].name@
    } else if tp < info.textures@.len() {
        e matches ParameterError::ErrorParamTexture(n) && n@ == info.textures@[tp as int].name@
    } else {
        false
    }
}

/// What binding a program with its parameters appends: the program bind,
/// then a binding for each parameter up to the first one without a value.
pub open spec fn program_cmds(prog: ProgramHandle, params: ParamValues) -> Seq<Command> {
    let info = prog.info;
    let up = uniform_prefix(prog, params);
    let bp = block_prefix(prog, params);
    let tp = texture_prefix(prog, params);
    seq![Command::BindProgram(prog.name)] + uniform_cmds(info.uniforms@, params.uniforms@, up) + if up
        < info.uniforms@.len() {
        seq![]
    } else {
        block_cmds(prog.name, params.blocks@, bp) + if bp < info.blocks@.len() {
            seq![]
        } else {
            texture_cmds(info.textures@, params.textures@, tp)
        }
    }
}

/// The mesh has an attribute named as `var` declares, and its storage
/// type fits the declared type.
pub open spec fn attr_ok(mesh: Seq<Attribute>, var: AttributeVar) -> bool {
    let k = find_attr(mesh, var.name@);
    k >= 0 && compatible(mesh[k].elem_type, var.base_type)
}

/// How many leading declared attributes, of the first `n`, the mesh
/// satisfies.
pub open spec fn attr_prefix(vars: Seq<AttributeVar>, mesh: Seq<Attribute>, n: nat) -> nat
    decreases n,
{
    if n == 0 {
        0
    } else {
        let p = attr_prefix(vars, mesh, (n - 1) as nat);
        if p == n - 1 && attr_ok(mesh, vars[n - 1]) {
            n
        } else {
            p
        }
    }
}

/// Once an attribute fails, the satisfied prefix stops growing.
pub proof fn lemma_attr_prefix_stable(vars: Seq<AttributeVar>, mesh: Seq<Attribute>, i: nat, n: nat)
    requires
        i <= n,
        attr_prefix(vars, mesh, i) < i,
    ensures
        attr_prefix(vars, mesh, n) == attr_prefix(vars, mesh, i),
    decreases n,
{
    if n > i {
        lemma_attr_prefix_stable(vars, mesh, i, (n - 1) as nat);
    }
}

/// The satisfied prefix never exceeds its bound.
pub proof fn lemma_attr_prefix_bound(vars: Seq<AttributeVar>, mesh: Seq<Attribute>, n: nat)
    ensures
        attr_prefix(vars, mesh, n) <= n,
    decreases n,
{
    if n > 0 {
        lemma_attr_prefix_bound(vars, mesh, (n - 1) as nat);
    }
}

/// The command binding the mesh attribute that matches `var`.
pub open spec fn attr_cmd(mesh: Seq<Attribute>, var: AttributeVar) -> Command {
    let a = mesh[find_attr(mesh, var.name@)];
    Command::BindAttribute(var.location, a.buffer, a.elem_count, a.elem_type, a.stride, a.offset)
}

/// Attribute bindings for the first `n` declared attributes.
pub open spec fn attr_cmds(vars: Seq<AttributeVar>, mesh: Seq<Attribute>, n: nat) -> Seq<Command>
    decreases n,
{
    if n == 0 {
        seq![]
    } else {
        attr_cmds(vars, mesh, (n - 1) as nat).push(attr_cmd(mesh, vars[n - 1]))
    }
}

/// Every declared attribute is satisfied by the mesh.
pub open spec fn mesh_ok(mesh: Mesh, vars: Seq<AttributeVar>) -> bool {
    attr_prefix(vars, mesh.attributes@, vars.len()) == vars.len()
}

/// `e` describes the first declared attribute the mesh does not satisfy.
pub open spec fn mesh_failure(mesh: Mesh, vars: Seq<AttributeVar>, e: MeshError) -> bool {
    let p = attr_prefix(vars, mesh.attributes@, vars.len());
    if p < vars.len() {
        if find_attr(mesh.attributes@, vars[p as int].name@) < 0 {
            e matches MeshError::ErrorAttributeMissing(n) && n@ == vars[p as int].name@
        } else {
            e is ErrorAttributeType
        }
    } else {
        false
    }
}

/// What binding a mesh appends: the shared vertex array where there is
/// one, then one attribute binding per declared attribute up to the first
/// one the mesh does not satisfy.
pub open spec fn mesh_cmds(v: RendererView, mesh: Mesh, vars: Seq<AttributeVar>) -> Seq<Command> {
    (match v.common_array_buffer {
        Some(ab) => seq![Command::BindArrayBuffer(ab)],
        None => seq![],
    }) + attr_cmds(vars, mesh.attributes@, attr_prefix(vars, mesh.attributes@, vars.len()))
}

/// What drawing a slice appends: one draw command, preceded by an index
/// buffer binding for an indexed slice.
pub open spec fn slice_cmds(slice: Slice) -> Seq<Command> {
    match slice {
        Slice::VertexSlice(p, start, end) => seq![Command::Draw(p, start, end)],
        Slice::IndexSlice8(p, b, start, end) => seq![
            Command::BindIndex(b),
            Command::DrawIndexed(p, IndexType::U8, start, end),
        ],
        Slice::IndexSlice16(p, b, start, end) => seq![
            Command::BindIndex(b),
            Command::DrawIndexed(p, IndexType::U16, start, end),
        ],
        Slice::IndexSlice32(p, b, start, end) => seq![
            Command::BindIndex(b),
            Command::DrawIndexed(p, IndexType::U32, start, end),
        ],
    }
}

/// The fixed-function state commands, in order: primitive, scissor,
/// depth and stencil with the derived cull mode, blend, color mask.
pub open spec fn state_cmds(st: DrawState) -> Seq<Command> {
    seq![
        Command::SetPrimitive(st.primitive),
        Command::SetScissor(st.scissor),
        Command::SetDepthStencil(st.depth, st.stencil, st.primitive.cull_mode_spec()),
        Command::SetBlend(st.blend),
        Command::SetColorMask(st.color_mask),
    ]
}

/// The renderer after `draw`: frame, then program and parameters, then
/// fixed-function state and mesh, then the draw itself, stopping after the
/// first phase that fails.
pub open spec fn after_draw(
    v: RendererView,
    mesh: Mesh,
    slice: Slice,
    frame: Frame,
    prog: ProgramHandle,
    params: ParamValues,
    st: DrawState,
) -> RendererView {
    let v1 = after_bind_frame(v, frame);
    let c1 = v1.commands + program_cmds(prog, params);
    let vars = prog.info.attributes@;
    if !program_ok(prog, params) {
        RendererView { commands: c1, ..v1 }
    } else if !mesh_ok(mesh, vars) {
        RendererView { commands: c1 + state_cmds(st) + mesh_cmds(v1, mesh, vars), ..v1 }
    } else {
        RendererView {
            commands: c1 + state_cmds(st) + mesh_cmds(v1, mesh, vars) + slice_cmds(slice),
            ..v1
        }
    }
}

/// `draw` succeeds exactly when every parameter has a value and the mesh
/// satisfies every declared attribute.
pub open spec fn draw_ok(mesh: Mesh, prog: ProgramHandle, params: ParamValues) -> bool {
    program_ok(prog, params) && mesh_ok(mesh, prog.info.attributes@)
}

/// `e` is the error of the first failing phase of `draw`.
pub open spec fn draw_failure(mesh: Mesh, prog: ProgramHandle, params: ParamValues, e: DrawError) -> bool {
    if !program_ok(prog, params) {
        e matches DrawError::ErrorParameter(pe) && program_failure(prog, params, pe)
    } else {
        e matches DrawError::ErrorMesh(me) && mesh_failure(mesh, prog.info.attributes@, me)
    }
}

} // verus!


