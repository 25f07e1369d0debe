//! Properties that hold across calls, proved over the model.
use vstd::prelude::*;
use crate::command::{ClearData, Command};
use crate::error::MeshError;
use crate::mesh::{find_attr, IndexType, Mesh, Slice};
use crate::model::{
    after_bind_frame, after_draw, attachment_cmds, attr_cmds, attr_ok, attr_prefix,
    color_diff_cmds, draw_ok, frame_cmds, is_blank, mesh_cmds, present_prefix, state_cmds,
    uniform_cmds,
    is_fresh, lemma_attr_prefix_stable, mesh_failure, mesh_ok, program_cmds, program_failure,
    program_ok, slice_cmds, target_cmd, viewport_of, RendererView,
};
use crate::error::ParameterError;
use crate::shade::{slot, AttributeVar, ParamValues, ProgramHandle, UniformValue, UniformVar};
use crate::state::DrawState;
use crate::target::{Frame, Plane, Target, MAX_COLOR_TARGETS};

verus! {

/// A real attachment point: color slots exist only below the slot count.
pub open spec fn valid_target(t: Target) -> bool {
    t matches Target::TargetColor(i) ==> i < MAX_COLOR_TARGETS
}

/// What `f` attaches at `t`.
pub open spec fn plane_at(f: Frame, t: Target) -> Plane {
    match t {
        Target::TargetColor(i) => f.colors@[i as int],
        Target::TargetDepth => f.depth,
        Target::TargetStencil => f.stencil,
    }
}

/// Frames that agree everywhere but at `t`, where they differ.
pub open spec fn differ_only_at(f1: Frame, f2: Frame, t: Target) -> bool {
    &&& valid_target(t)
    &&& plane_at(f1, t) != plane_at(f2, t)
    &&& forall|u: Target| valid_target(u) && u != t ==> #[trigger] plane_at(f1, u) == plane_at(f2, u)
}

/// Binding a frame and then one that differs from it at a single slot
/// emits, on the second call, the viewport, the common frame buffer and
/// exactly one attachment command, for that slot.
pub proof fn lemma_single_slot_rebind(v: RendererView, f1: Frame, f2: Frame, t: Target)
    requires
        !f1.is_default_spec(),
        !f2.is_default_spec(),
        differ_only_at(f1, f2, t),
    ensures
        after_bind_frame(after_bind_frame(v, f1), f2).commands == after_bind_frame(v, f1).commands
            + seq![
            Command::SetViewport(viewport_of(f2)),
            Command::BindFrameBuffer(v.common_frame_buffer),
            target_cmd(t, plane_at(f2, t)),
        ],
{
    reveal_with_fuel(color_diff_cmds, 5);
    let slots = seq![
        Target::TargetColor(0),
        Target::TargetColor(1),
        Target::TargetColor(2),
        Target::TargetColor(3),
        Target::TargetDepth,
        Target::TargetStencil,
    ];
    assert(slots[0] != t ==> plane_at(f1, slots[0]) == plane_at(f2, slots[0]));
    assert(slots[1] != t ==> plane_at(f1, slots[1]) == plane_at(f2, slots[1]));
    assert(slots[2] != t ==> plane_at(f1, slots[2]) == plane_at(f2, slots[2]));
    assert(slots[3] != t ==> plane_at(f1, slots[3]) == plane_at(f2, slots[3]));
    assert(slots[4] != t ==> plane_at(f1, slots[4]) == plane_at(f2, slots[4]));
    assert(slots[5] != t ==> plane_at(f1, slots[5]) == plane_at(f2, slots[5]));
    let v1 = after_bind_frame(v, f1);
    assert(v1.frame == f1);
    assert(frame_cmds(v1, f2) =~= seq![
        Command::SetViewport(viewport_of(f2)),
        Command::BindFrameBuffer(v.common_frame_buffer),
        target_cmd(t, plane_at(f2, t)),
    ]);
}

/// Binding the default frame emits only the viewport and the default
/// frame buffer, keeps the shadow state, and so leaves the next binding
/// of any frame to diff against the shadow state as it was before.
pub proof fn lemma_default_frame_keeps_shadow(v: RendererView, fd: Frame, f: Frame)
    requires
        fd.is_default_spec(),
    ensures
        after_bind_frame(v, fd).frame == v.frame,
        after_bind_frame(v, fd).commands == v.commands + seq![
            Command::SetViewport(viewport_of(fd)),
            Command::BindFrameBuffer(v.default_frame_buffer),
        ],
        frame_cmds(after_bind_frame(v, fd), f) == frame_cmds(v, f),
{
}

/// When the first declared uniform has no value, binding the program
/// emits only the program bind and fails naming that uniform, before any
/// block or texture is looked at.
pub proof fn lemma_first_uniform_missing(prog: ProgramHandle, params: ParamValues, e: ParameterError)
    requires
        prog.info.uniforms@.len() > 0,
        slot(params.uniforms@, 0) is None,
        program_failure(prog, params, e),
    ensures
        !program_ok(prog, params),
        program_cmds(prog, params) == seq![Command::BindProgram(prog.name)],
        e matches ParameterError::ErrorParamUniform(n) && n@ == prog.info.uniforms@[0].name@,
{
    reveal_with_fuel(crate::model::present_prefix, 2);
    crate::model::lemma_present_prefix_stable(params.uniforms@, 1, prog.info.uniforms@.len());
    assert(program_cmds(prog, params) =~= seq![Command::BindProgram(prog.name)]);
}

/// A declared attribute that the mesh lacks stops binding at or before
/// it: no attribute declared after it is bound, and when every attribute
/// before it is satisfied the failure names it.
pub proof fn lemma_missing_attribute(mesh: Mesh, vars: Seq<AttributeVar>, k: int, e: MeshError)
    requires
        0 <= k < vars.len(),
        find_attr(mesh.attributes@, vars[k].name@) < 0,
        mesh_failure(mesh, vars, e),
    ensures
        !mesh_ok(mesh, vars),
        attr_prefix(vars, mesh.attributes@, vars.len()) <= k,
        (forall|j: int| 0 <= j < k ==> #[trigger] attr_ok(mesh.attributes@, vars[j])) ==> (e matches MeshError::ErrorAttributeMissing(n) && n@ == vars[k].name@),
{
    lemma_attr_prefix_le(vars, mesh.attributes@, k, (k + 1) as nat);
    let p = attr_prefix(vars, mesh.attributes@, (k + 1) as nat);
    if p < k + 1 {
        lemma_attr_prefix_stable(vars, mesh.attributes@, (k + 1) as nat, vars.len());
    }
    if forall|j: int| 0 <= j < k ==> #[trigger] attr_ok(mesh.attributes@, vars[j]) {
        lemma_attr_prefix_full(vars, mesh.attributes@, k as nat);
    }
}

proof fn lemma_attr_prefix_le(vars: Seq<AttributeVar>, mesh: Seq<crate::mesh::Attribute>, k: int, n: nat)
    requires
        0 <= k < vars.len(),
        n <= k + 1,
        !attr_ok(mesh, vars[k]),
    ensures
        attr_prefix(vars, mesh, n) <= k,
        n <= k ==> attr_prefix(vars, mesh, n) <= n,
    decreases n,
{
    if n > 0 {
        lemma_attr_prefix_le(vars, mesh, k, (n - 1) as nat);
    }
}

proof fn lemma_attr_prefix_full(vars: Seq<AttributeVar>, mesh: Seq<crate::mesh::Attribute>, n: nat)
    requires
        n <= vars.len(),
        forall|j: int| 0 <= j < n ==> #[trigger] attr_ok(mesh, vars[j]),
    ensures
        attr_prefix(vars, mesh, n) == n,
    decreases n,
{
    if n > 0 {
        lemma_attr_prefix_full(vars, mesh, (n - 1) as nat);
    }
}

/// An indexed slice binds its index buffer and then issues exactly one
/// indexed draw tagged with its element width; a vertex slice binds no
/// index buffer.
pub proof fn lemma_slice_dispatch(slice: Slice)
    ensures
        slice matches Slice::IndexSlice16(p, b, s, e) ==> slice_cmds(slice) == seq![
            Command::BindIndex(b),
            Command::DrawIndexed(p, IndexType::U16, s, e),
        ],
        slice matches Slice::VertexSlice(p, s, e) ==> slice_cmds(slice) == seq![Command::Draw(p, s, e)],
        slice is VertexSlice ==> forall|i: int| 0 <= i < slice_cmds(slice).len() ==> !(#[trigger] slice_cmds(slice)[i] is BindIndex),
{
}

/// A renderer that has bound nothing, as `clone_empty` makes, emits on
/// its first binding of a non-default frame an attachment command for
/// every slot that frame fills.
pub proof fn lemma_fresh_binds_every_attachment(v: RendererView, f: Frame, t: Target)
    requires
        is_blank(v.frame),
        !f.is_default_spec(),
        valid_target(t),
        plane_at(f, t) != Plane::PlaneEmpty,
    ensures
        frame_cmds(v, f).contains(target_cmd(t, plane_at(f, t))),
{
    reveal_with_fuel(color_diff_cmds, 5);
    assert(v.frame.colors@[0] == Plane::PlaneEmpty);
    assert(v.frame.colors@[1] == Plane::PlaneEmpty);
    assert(v.frame.colors@[2] == Plane::PlaneEmpty);
    assert(v.frame.colors@[3] == Plane::PlaneEmpty);
    let s = frame_cmds(v, f);
    let x = target_cmd(t, plane_at(f, t));
    let j = choose|j: int| 0 <= j < s.len() && s[j] == x;
    assert(exists|j: int| 0 <= j < s.len() && s[j] == x) by {
        let n0 = (f.colors@[0] != Plane::PlaneEmpty) as int;
        let n1 = (f.colors@[1] != Plane::PlaneEmpty) as int;
        let n2 = (f.colors@[2] != Plane::PlaneEmpty) as int;
        let n3 = (f.colors@[3] != Plane::PlaneEmpty) as int;
        let nd = (f.depth != Plane::PlaneEmpty) as int;
        match t {
            Target::TargetColor(i) => {
                if i == 0 {
                    assert(s[2] == x);
                } else if i == 1 {
                    assert(s[2 + n0] == x);
                } else if i == 2 {
                    assert(s[2 + n0 + n1] == x);
                } else {
                    assert(s[2 + n0 + n1 + n2] == x);
                }
            },
            Target::TargetDepth => {
                assert(s[2 + n0 + n1 + n2 + n3] == x);
            },
            Target::TargetStencil => {
                assert(s[2 + n0 + n1 + n2 + n3 + nd] == x);
            },
        }
    }
}

/// The kind of a command, regardless of its operands.
pub ghost enum CommandKind {
    Viewport,
    Clear,
    FrameBuffer,
    Attachment,
    Program,
    Primitive,
    Scissor,
    DepthStencil,
    Blend,
    ColorMask,
    ArrayBuffer,
    Attribute,
    Uniform,
    UniformBlock,
    Texture,
    Index,
    Draw,
    Update,
}

/// The kind of `c`; indexed and plain draws are both draws.
pub open spec fn kind_of(c: Command) -> CommandKind {
    match c {
        Command::SetViewport(..) => CommandKind::Viewport,
        Command::Clear(..) => CommandKind::Clear,
        Command::BindFrameBuffer(..) => CommandKind::FrameBuffer,
        Command::UnbindTarget(..) => CommandKind::Attachment,
        Command::BindTargetSurface(..) => CommandKind::Attachment,
        Command::BindTargetTexture(..) => CommandKind::Attachment,
        Command::BindProgram(..) => CommandKind::Program,
        Command::SetPrimitive(..) => CommandKind::Primitive,
        Command::SetScissor(..) => CommandKind::Scissor,
        Command::SetDepthStencil(..) => CommandKind::DepthStencil,
        Command::SetBlend(..) => CommandKind::Blend,
        Command::SetColorMask(..) => CommandKind::ColorMask,
        Command::BindArrayBuffer(..) => CommandKind::ArrayBuffer,
        Command::BindAttribute(..) => CommandKind::Attribute,
        Command::BindUniform(..) => CommandKind::Uniform,
        Command::BindUniformBlock(..) => CommandKind::UniformBlock,
        Command::BindTexture(..) => CommandKind::Texture,
        Command::BindIndex(..) => CommandKind::Index,
        Command::Draw(..) => CommandKind::Draw,
        Command::DrawIndexed(..) => CommandKind::Draw,
        Command::UpdateBuffer(..) => CommandKind::Update,
        Command::UpdateTexture(..) => CommandKind::Update,
    }
}

/// How many commands of `s` are of kind `k`.
pub open spec fn count_kind(s: Seq<Command>, k: CommandKind) -> nat
    decreases s.len(),
{
    if s.len() == 0 {
        0
    } else {
        count_kind(s.drop_last(), k) + if kind_of(s.last()) == k {
            1nat
        } else {
            0nat
        }
    }
}

proof fn lemma_count_add(a: Seq<Command>, b: Seq<Command>, k: CommandKind)
    ensures
        count_kind(a + b, k) == count_kind(a, k) + count_kind(b, k),
    decreases b.len(),
{
    if b.len() > 0 {
        assert((a + b).drop_last() =~= a + b.drop_last());
        lemma_count_add(a, b.drop_last(), k);
    } else {
        assert(a + b =~= a);
    }
}

proof fn lemma_count_same_kind(s: Seq<Command>, k0: CommandKind, k: CommandKind)
    requires
        forall|i: int| 0 <= i < s.len() ==> kind_of(#[trigger] s[i]) == k0,
    ensures
        count_kind(s, k) == if k == k0 {
            s.len()
        } else {
            0
        },
    decreases s.len(),
{
    if s.len() > 0 {
        assert forall|i: int| 0 <= i < s.drop_last().len() implies kind_of(#[trigger] s.drop_last()[i]) == k0 by {
            assert(s.drop_last()[i] == s[i]);
        }
        lemma_count_same_kind(s.drop_last(), k0, k);
    }
}

proof fn lemma_color_diff_kinds(cur: Seq<Plane>, new: Seq<Plane>, n: nat)
    ensures
        forall|i: int| 0 <= i < color_diff_cmds(cur, new, n).len() ==> kind_of(#[trigger] color_diff_cmds(cur, new, n)[i]) == CommandKind::Attachment,
    decreases n,
{
    if n > 0 {
        lemma_color_diff_kinds(cur, new, (n - 1) as nat);
    }
}

proof fn lemma_uniform_kinds(vars: Seq<UniformVar>, vals: Seq<Option<UniformValue>>, n: nat)
    ensures
        forall|i: int| 0 <= i < uniform_cmds(vars, vals, n).len() ==> kind_of(#[trigger] uniform_cmds(vars, vals, n)[i]) == CommandKind::Uniform,
    decreases n,
{
    if n > 0 {
        lemma_uniform_kinds(vars, vals, (n - 1) as nat);
    }
}

proof fn lemma_attr_kinds(vars: Seq<AttributeVar>, mesh: Seq<crate::mesh::Attribute>, n: nat)
    ensures
        attr_cmds(vars, mesh, n).len() == n,
        forall|i: int| 0 <= i < attr_cmds(vars, mesh, n).len() ==> kind_of(#[trigger] attr_cmds(vars, mesh, n)[i]) == CommandKind::Attribute,
    decreases n,
{
    if n > 0 {
        lemma_attr_kinds(vars, mesh, (n - 1) as nat);
    }
}

proof fn lemma_present_prefix_full<T>(vals: Seq<Option<T>>, n: nat)
    requires
        forall|j: int| 0 <= j < n ==> #[trigger] slot(vals, j) is Some,
    ensures
        present_prefix(vals, n) == n,
    decreases n,
{
    if n > 0 {
        lemma_present_prefix_full(vals, (n - 1) as nat);
    }
}

proof fn lemma_count_single(c: Command, k: CommandKind)
    ensures
        count_kind(seq![c], k) == if kind_of(c) == k {
            1nat
        } else {
            0nat
        },
{
    reveal_with_fuel(count_kind, 2);
    assert(seq![c].drop_last() =~= Seq::<Command>::empty());
}

proof fn lemma_count_pair(c: Command, d: Command, k: CommandKind)
    ensures
        count_kind(seq![c, d], k) == (if kind_of(c) == k {
            1nat
        } else {
            0nat
        }) + (if kind_of(d) == k {
            1nat
        } else {
            0nat
        }),
{
    lemma_count_single(c, k);
    lemma_count_single(d, k);
    lemma_count_add(seq![c], seq![d], k);
    assert(seq![c] + seq![d] =~= seq![c, d]);
}

proof fn lemma_frame_counts(v: RendererView, frame: Frame, k: CommandKind)
    requires
        k != CommandKind::FrameBuffer,
        k != CommandKind::Attachment,
    ensures
        count_kind(frame_cmds(v, frame), k) == if k == CommandKind::Viewport {
            1nat
        } else {
            0nat
        },
{
    let head = seq![Command::SetViewport(viewport_of(frame)), Command::BindFrameBuffer(
        if frame.is_default_spec() { v.default_frame_buffer } else { v.common_frame_buffer },
    )];
    lemma_count_pair(head[0], head[1], k);
    assert(head =~= seq![head[0], head[1]]);
    if !frame.is_default_spec() {
        let cd = color_diff_cmds(v.frame.colors@, frame.colors@, MAX_COLOR_TARGETS as nat);
        let dd = crate::model::slot_diff_cmds(Target::TargetDepth, v.frame.depth, frame.depth);
        let sd = crate::model::slot_diff_cmds(Target::TargetStencil, v.frame.stencil, frame.stencil);
        lemma_color_diff_kinds(v.frame.colors@, frame.colors@, MAX_COLOR_TARGETS as nat);
        lemma_count_same_kind(cd, CommandKind::Attachment, k);
        lemma_count_same_kind(dd, CommandKind::Attachment, k);
        lemma_count_same_kind(sd, CommandKind::Attachment, k);
        lemma_count_add(cd + dd, sd, k);
        lemma_count_add(cd, dd, k);
        lemma_count_add(head, attachment_cmds(v.frame, frame), k);
        assert(frame_cmds(v, frame) == head + attachment_cmds(v.frame, frame));
    } else {
        assert(frame_cmds(v, frame) == head);
    }
}

proof fn lemma_state_counts(st: DrawState, k: CommandKind)
    ensures
        count_kind(state_cmds(st), k) == if k == CommandKind::Primitive || k == CommandKind::Scissor
            || k == CommandKind::DepthStencil || k == CommandKind::Blend || k == CommandKind::ColorMask {
            1nat
        } else {
            0nat
        },
{
    let s = state_cmds(st);
    lemma_count_pair(s[0], s[1], k);
    lemma_count_pair(s[2], s[3], k);
    lemma_count_single(s[4], k);
    lemma_count_add(seq![s[0], s[1]], seq![s[2], s[3]], k);
    lemma_count_add(seq![s[0], s[1]] + seq![s[2], s[3]], seq![s[4]], k);
    assert(s =~= seq![s[0], s[1]] + seq![s[2], s[3]] + seq![s[4]]);
}

proof fn lemma_slice_counts(slice: Slice, k: CommandKind)
    requires
        k != CommandKind::Index,
    ensures
        count_kind(slice_cmds(slice), k) == if k == CommandKind::Draw {
            1nat
        } else {
            0nat
        },
{
    let s = slice_cmds(slice);
    if slice is VertexSlice {
        lemma_count_single(s[0], k);
        assert(s =~= seq![s[0]]);
    } else {
        lemma_count_pair(s[0], s[1], k);
        assert(s =~= seq![s[0], s[1]]);
    }
}

/// The commands a draw call appended to `v`.
pub open spec fn emitted_by_draw(
    v: RendererView,
    mesh: Mesh,
    slice: Slice,
    frame: Frame,
    prog: ProgramHandle,
    params: ParamValues,
    st: DrawState,
) -> Seq<Command> {
    let out = after_draw(v, mesh, slice, frame, prog, params, st).commands;
    out.subrange(v.commands.len() as int, out.len() as int)
}

/// Kinds whose count in a plain draw is fixed.
pub open spec fn counted_kind(k: CommandKind) -> bool {
    k != CommandKind::FrameBuffer && k != CommandKind::Attachment && k != CommandKind::Index
        && k != CommandKind::ArrayBuffer && k != CommandKind::Uniform
}

/// A draw with a program that declares no blocks or textures, a value for
/// every uniform and a mesh that satisfies every declared attribute
/// succeeds, and emits exactly one viewport command, one program bind, one
/// command per fixed-function aspect, one attribute binding per declared
/// attribute and one draw command.
pub proof fn lemma_plain_draw_counts(
    v: RendererView,
    mesh: Mesh,
    slice: Slice,
    frame: Frame,
    prog: ProgramHandle,
    params: ParamValues,
    st: DrawState,
)
    requires
        prog.info.blocks@.len() == 0,
        prog.info.textures@.len() == 0,
        forall|i: int| 0 <= i < prog.info.uniforms@.len() ==> #[trigger] slot(params.uniforms@, i) is Some,
        forall|i: int| 0 <= i < prog.info.attributes@.len() ==> #[trigger] attr_ok(mesh.attributes@, prog.info.attributes@[i]),
    ensures
        draw_ok(mesh, prog, params),
        count_kind(emitted_by_draw(v, mesh, slice, frame, prog, params, st), CommandKind::Viewport) == 1,
        count_kind(emitted_by_draw(v, mesh, slice, frame, prog, params, st), CommandKind::Program) == 1,
        count_kind(emitted_by_draw(v, mesh, slice, frame, prog, params, st), CommandKind::Primitive) == 1,
        count_kind(emitted_by_draw(v, mesh, slice, frame, prog, params, st), CommandKind::Scissor) == 1,
        count_kind(emitted_by_draw(v, mesh, slice, frame, prog, params, st), CommandKind::DepthStencil) == 1,
        count_kind(emitted_by_draw(v, mesh, slice, frame, prog, params, st), CommandKind::Blend) == 1,
        count_kind(emitted_by_draw(v, mesh, slice, frame, prog, params, st), CommandKind::ColorMask) == 1,
        count_kind(emitted_by_draw(v, mesh, slice, frame, prog, params, st), CommandKind::Attribute)
            == prog.info.attributes@.len(),
        count_kind(emitted_by_draw(v, mesh, slice, frame, prog, params, st), CommandKind::Draw) == 1,
{
    let vars = prog.info.attributes@;
    let nu = prog.info.uniforms@.len();
    lemma_present_prefix_full(params.uniforms@, nu);
    reveal_with_fuel(present_prefix, 2);
    lemma_attr_prefix_full(vars, mesh.attributes@, vars.len());
    let v1 = after_bind_frame(v, frame);
    let fc = frame_cmds(v, frame);
    let uc = uniform_cmds(prog.info.uniforms@, params.uniforms@, nu);
    let bp = seq![Command::BindProgram(prog.name)];
    let pc = bp + uc;
    assert(program_cmds(prog, params) =~= pc);
    let ab = match v1.common_array_buffer {
        Some(b) => seq![Command::BindArrayBuffer(b)],
        None => seq![],
    };
    let ac = attr_cmds(vars, mesh.attributes@, vars.len());
    assert(mesh_cmds(v1, mesh, vars) == ab + ac);
    let sc = state_cmds(st);
    let dc = slice_cmds(slice);
    let e = emitted_by_draw(v, mesh, slice, frame, prog, params, st);
    assert(e =~= fc + pc + sc + (ab + ac) + dc);
    lemma_uniform_kinds(prog.info.uniforms@, params.uniforms@, nu);
    lemma_attr_kinds(vars, mesh.attributes@, vars.len());
    assert forall|k: CommandKind| counted_kind(k) implies #[trigger] count_kind(e, k) == (if k == CommandKind::Viewport
        || k == CommandKind::Program || k == CommandKind::Primitive || k == CommandKind::Scissor
        || k == CommandKind::DepthStencil || k == CommandKind::Blend || k == CommandKind::ColorMask
        || k == CommandKind::Draw {
        1nat
    } else if k == CommandKind::Attribute {
        vars.len() as nat
    } else {
        0nat
    }) by {
        lemma_count_add(fc + pc + sc + (ab + ac), dc, k);
        lemma_count_add(fc + pc + sc, ab + ac, k);
        lemma_count_add(ab, ac, k);
        lemma_count_add(fc + pc, sc, k);
        lemma_count_add(fc, pc, k);
        lemma_count_add(bp, uc, k);
        lemma_count_single(bp[0], k);
        assert(bp =~= seq![bp[0]]);
        lemma_count_same_kind(uc, CommandKind::Uniform, k);
        lemma_count_same_kind(ac, CommandKind::Attribute, k);
        lemma_count_same_kind(ab, CommandKind::ArrayBuffer, k);
        lemma_frame_counts(v, frame, k);
        lemma_state_counts(st, k);
        lemma_slice_counts(slice, k);
    }
    assert(counted_kind(CommandKind::Viewport));
    assert(counted_kind(CommandKind::Program));
    assert(counted_kind(CommandKind::Primitive));
    assert(counted_kind(CommandKind::Scissor));
    assert(counted_kind(CommandKind::DepthStencil));
    assert(counted_kind(CommandKind::Blend));
    assert(counted_kind(CommandKind::ColorMask));
    assert(counted_kind(CommandKind::Attribute));
    assert(counted_kind(CommandKind::Draw));
}

/// One call a renderer can record.
pub ghost enum Op {
    Draw(Mesh, Slice, Frame, ProgramHandle, ParamValues, DrawState),
    Clear(ClearData, Frame),
}

/// The renderer after `op`.
pub open spec fn after_op(v: RendererView, op: Op) -> RendererView {
    match op {
        Op::Draw(mesh, slice, frame, prog, params, st) => after_draw(v, mesh, slice, frame, prog, params, st),
        Op::Clear(data, frame) => {
            let v1 = after_bind_frame(v, frame);
            RendererView { commands: v1.commands.push(Command::Clear(data)), ..v1 }
        },
    }
}

/// The renderer after the calls in `ops`, in order.
pub open spec fn after_ops(v: RendererView, ops: Seq<Op>) -> RendererView
    decreases ops.len(),
{
    if ops.len() == 0 {
        v
    } else {
        after_op(after_ops(v, ops.drop_last()), ops.last())
    }
}

/// A renderer that is reset while nothing non-default is bound behaves,
/// under any sequence of draw and clear calls, exactly as a fresh
/// renderer over the same shared resources.
pub proof fn lemma_reset_matches_fresh(
    v: RendererView,
    fresh: RendererView,
    ops: Seq<Op>,
)
    requires
        is_blank(v.frame),
        is_fresh(fresh, v.common_array_buffer, v.common_frame_buffer, v.default_frame_buffer),
    ensures
        after_ops(RendererView { commands: Seq::<Command>::empty(), ..v }, ops) == after_ops(fresh, ops),
{
    assert(v.frame.colors =~= fresh.frame.colors);
    assert(v.frame == fresh.frame);
    assert(RendererView { commands: Seq::<Command>::empty(), ..v } == fresh);
}

} // verus!
